use beverly::file_input::{
    detect_file_type, drag_cancelled, drag_hovered, file_dropped, file_type_of_extension,
    picker_extensions, picker_filter, picker_label, picker_result, FileInput, FileInputDragState,
    FileType, PickerOutcome, SelectedFile,
};

#[test]
fn file_types_list_their_extensions_and_labels() {
    assert_eq!(
        FileType::Audio.extensions(),
        vec!["mp3", "wav", "ogg", "flac", "aac", "m4a", "opus"]
    );
    assert_eq!(FileType::Image.label(), "Images");
    assert!(FileType::Image.accepts_extension("PNG"));
    assert!(!FileType::Image.accepts_extension("mp3"));
}

#[test]
fn accepts_by_type_and_ignores_ascii_case() {
    let input = FileInput::new("Pick".to_string()).images();
    assert!(input.accepts("/photos/cat.JPG"));
    assert!(!input.accepts("/music/song.mp3"));
    assert!(!input.accepts("/photos/no_extension"));
    assert!(!input.accepts("/photos/.png"));
}

#[test]
fn explicit_extensions_take_precedence_and_lose_leading_dots() {
    let input = FileInput::default().extensions(vec![".txt".to_string(), "..md".to_string()]);
    assert!(input.accepts("notes/readme.MD"));
    assert!(input.accepts("a.txt"));
    assert!(!input.accepts("photo.png"));
}

#[test]
fn detects_file_types_through_lower_case() {
    assert_eq!(detect_file_type("clip.MKV"), Some(FileType::Video));
    assert_eq!(detect_file_type("song.Flac"), Some(FileType::Audio));
    assert_eq!(detect_file_type("archive.zip"), None);
    assert_eq!(detect_file_type("noext"), None);
    assert_eq!(file_type_of_extension("gif"), Some(FileType::Image));
    let file = SelectedFile::new("dir/pic.webp".to_string());
    assert_eq!(file.file_type, Some(FileType::Image));
    assert_eq!(file.filename(), Some("pic.webp"));
    assert_eq!(file.extension(), Some("webp"));
}

#[test]
fn picker_extensions_are_sorted_and_unique() {
    let input = FileInput::default().extensions(vec![
        "png".to_string(),
        "gif".to_string(),
        "png".to_string(),
        "avi".to_string(),
    ]);
    assert_eq!(picker_extensions(&input), vec!["avi", "gif", "png"]);

    let media = FileInput::default().video();
    assert_eq!(
        picker_extensions(&media),
        vec!["avi", "m4v", "mkv", "mov", "mp4", "mpeg", "webm"]
    );
}

#[test]
fn picker_filter_names_the_accepted_types() {
    let input = FileInput::default();
    assert_eq!(picker_label(&input), "Images, Audio, Video");
    let filter = picker_filter(&input).unwrap();
    assert_eq!(filter.extensions.len(), 22);

    let mut none = FileInput::default();
    none.accepted_types = Vec::new();
    assert!(picker_filter(&none).is_none());
}

#[test]
fn picker_results_keep_accepted_files_or_cancel() {
    let input = FileInput::default().images();
    match picker_result(
        3,
        &input,
        Some(vec!["a.png".to_string(), "b.mp3".to_string(), "c.gif".to_string()]),
    ) {
        PickerOutcome::Selected(sel) => {
            assert_eq!(sel.entity, 3);
            let paths: Vec<&str> = sel.files.iter().map(|f| f.path.as_str()).collect();
            assert_eq!(paths, vec!["a.png", "c.gif"]);
        }
        _ => panic!("expected a selection"),
    }
    assert!(matches!(
        picker_result(3, &input, Some(vec!["b.mp3".to_string()])),
        PickerOutcome::NothingAccepted
    ));
    assert!(matches!(picker_result(3, &input, None), PickerOutcome::Cancelled(c) if c.entity == 3));
    assert!(matches!(picker_result(3, &input, Some(Vec::new())), PickerOutcome::Cancelled(_)));
}

#[test]
fn drag_hover_cancel_and_drop() {
    let input = FileInput::default().audio();
    let mut state = FileInputDragState::default();

    let entered = drag_hovered(5, &input, &mut state, "song.ogg");
    assert!(entered.is_some());
    assert!(state.dragging && state.accepted && state.file_count == 1);
    assert!(drag_hovered(5, &input, &mut state, "image.png").is_none());
    assert!(!state.accepted);

    assert!(drag_cancelled(5, &mut state).is_some());
    assert_eq!(state, FileInputDragState::default());
    assert!(drag_cancelled(5, &mut state).is_none());

    drag_hovered(5, &input, &mut state, "song.ogg");
    let dropped = file_dropped(5, &input, &mut state, "song.ogg".to_string()).unwrap();
    assert_eq!(state, FileInputDragState::default());
    assert_eq!(dropped.0.files[0].path, "song.ogg");
    assert_eq!(dropped.1.files[0].file_type, Some(FileType::Audio));
    assert!(file_dropped(5, &input, &mut state, "x.png".to_string()).is_none());

    let off = FileInput::default().drag_and_drop(false);
    let mut idle = FileInputDragState::default();
    assert!(drag_hovered(6, &off, &mut idle, "song.ogg").is_none());
    assert!(!idle.dragging);
}
