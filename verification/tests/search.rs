use beverly::search::{
    search_border_slot, search_focus, search_keyboard, search_placeholder_visible,
    LocalCompletionProvider, Search, SearchCompletion, SearchCompletionProvider, SearchKeys,
    SearchSuggestion,
};
use beverly::theme::ThemeSlot;

fn keys() -> SearchKeys {
    SearchKeys { down: false, up: false, tab: false, enter: false, escape: false }
}

fn completion() -> SearchCompletion {
    SearchCompletion {
        suggestions: vec![
            SearchSuggestion::new("rust".to_string(), "Rust".to_string()),
            SearchSuggestion::new("ruby".to_string(), "Ruby".to_string()),
            SearchSuggestion::new("go".to_string(), "Go".to_string()),
        ],
    }
}

#[test]
fn arrows_wrap_around_the_suggestions() {
    let mut s = Search::new("nav".to_string());
    s.focused = true;
    let c = completion();
    search_keyboard(&mut s, &c, SearchKeys { up: true, ..keys() });
    assert_eq!(s.selected, Some(2));
    search_keyboard(&mut s, &c, SearchKeys { down: true, ..keys() });
    assert_eq!(s.selected, Some(0));
    search_keyboard(&mut s, &c, SearchKeys { up: true, ..keys() });
    assert_eq!(s.selected, Some(2));
}

#[test]
fn tab_fills_the_query_and_enter_chooses_or_submits() {
    let mut s = Search::new("nav".to_string());
    s.focused = true;
    let c = completion();
    search_keyboard(&mut s, &c, SearchKeys { down: true, ..keys() });
    let ev = search_keyboard(&mut s, &c, SearchKeys { down: true, tab: true, ..keys() });
    assert_eq!(s.query, "ruby");
    assert_eq!(s.selected, None);
    assert_eq!(ev.changed.unwrap().query, "ruby");

    let ev = search_keyboard(&mut s, &c, SearchKeys { enter: true, ..keys() });
    assert_eq!(ev.submitted.unwrap().query, "ruby");

    search_keyboard(&mut s, &c, SearchKeys { down: true, ..keys() });
    let ev = search_keyboard(&mut s, &c, SearchKeys { enter: true, ..keys() });
    let chosen = ev.selected.unwrap();
    assert_eq!(chosen.value, "rust");
    assert_eq!(chosen.search_id, "nav");
    assert_eq!(s.query, "rust");
}

#[test]
fn unfocused_or_empty_searches_ignore_keys() {
    let mut s = Search::new("nav".to_string());
    let c = completion();
    let ev = search_keyboard(&mut s, &c, SearchKeys { down: true, enter: true, ..keys() });
    assert!(ev.submitted.is_none() && s.selected.is_none());

    s.focused = true;
    s.show_suggestions = true;
    let empty = SearchCompletion::default();
    let ev = search_keyboard(&mut s, &empty, SearchKeys { down: true, escape: true, ..keys() });
    assert!(ev.submitted.is_none());
    assert!(s.show_suggestions);

    search_keyboard(&mut s, &c, SearchKeys { down: true, escape: true, ..keys() });
    assert!(!s.show_suggestions);
    assert_eq!(s.selected, None);
}

#[test]
fn local_completion_matches_lower_case_labels() {
    let provider = LocalCompletionProvider::new(completion().suggestions);
    let found = provider.complete("RU", 8);
    let values: Vec<&str> = found.iter().map(|s| s.value.as_str()).collect();
    assert_eq!(values, vec!["rust", "ruby"]);
    assert_eq!(provider.complete("ru", 1).len(), 1);
    assert!(provider.complete("  \t", 8).is_empty());
    assert!(provider.complete("zig", 8).is_empty());
    let all = provider.complete_local("o", 8);
    assert_eq!(all.len(), 1);
    assert_eq!(all[0].label, "Go");
}

#[test]
fn focus_border_and_placeholder() {
    assert!(search_focus(1, false, Some(1), false));
    assert!(!search_focus(2, true, Some(1), false));
    assert!(!search_focus(2, true, None, true));
    assert!(search_focus(2, true, None, false));
    let mut s = Search::new("x".to_string()).placeholder("Find".to_string()).max_suggestions(3);
    assert_eq!(s.max_suggestions, 3);
    assert_eq!(search_border_slot(&s), ThemeSlot::Border);
    assert!(search_placeholder_visible(&s));
    s.focused = true;
    s.query = "q".to_string();
    assert_eq!(search_border_slot(&s), ThemeSlot::Focus);
    assert!(!search_placeholder_visible(&s));
}

#[test]
fn down_with_no_suggestions_stops_before_moving() {
    let mut s = Search::new("nav".to_string());
    s.focused = true;
    s.selected = Some(usize::MAX);
    let empty = SearchCompletion::default();
    let ev = search_keyboard(&mut s, &empty, SearchKeys { down: true, enter: true, ..keys() });
    assert_eq!(s.selected, Some(usize::MAX));
    assert!(ev.submitted.is_none() && ev.selected.is_none());
}
