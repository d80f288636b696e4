use beverly::tabs::{Tab, TabsConfig};

#[test]
fn configured_active_index_is_preserved() {
    let config = TabsConfig::new(vec![Tab::new("one".to_string(), "One".to_string())]).with_active(1);
    assert_eq!(config.active, 1);
    assert!(config.active_tab().is_none());
}
