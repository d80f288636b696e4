use beverly::nav_button::PageId;

#[test]
fn page_registry_includes_radio_scene() {
    let pages = PageId::all();
    assert!(pages.contains(&PageId::Settings));
    assert!(pages.iter().any(|page| page.label() == "Radio"));
}

#[test]
fn playlist_detail_is_not_listed() {
    let pages = PageId::all();
    assert!(!pages.contains(&PageId::PlaylistDetail));
    assert_eq!(pages.len(), 7);
    assert_eq!(PageId::PlaylistDetail.label(), "Playlist Detail");
    assert_eq!(PageId::Podcasts.icon(), "radio");
    assert_eq!(PageId::Radio.body(), "Tune your favorite station presets and listening modes.");
}
