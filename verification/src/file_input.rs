//! File inputs: which files an input accepts, the filter its native picker
//! offers, what a picker result or a drag-and-drop gesture selects, and the
//! drag state an input shows while files hover over the window.
use vstd::prelude::*;

use crate::text::{
    chars_of, chars_less, chars_lt, eq_ignore_ascii_case, lemma_chars_lt_transitive,
    lemma_chars_lt_trichotomy, lowercase_of, spec_eq_ignore_ascii_case, string_of, to_lowercase,
};

verus! {

/// A family of media files.
#[derive(Clone, Copy, Debug, PartialEq, Eq, Structural)]
pub enum FileType {
    Image,
    Audio,
    Video,
}

/// The extensions of each file type, in the order they are listed.
pub open spec fn spec_type_extensions(t: FileType) -> Seq<Seq<char>> {
    match t {
        FileType::Image => seq![
            "png"@, "jpg"@, "jpeg"@, "gif"@, "webp"@, "bmp"@, "svg"@, "avif"@,
        ],
        FileType::Audio => seq!["mp3"@, "wav"@, "ogg"@, "flac"@, "aac"@, "m4a"@, "opus"@],
        FileType::Video => seq!["mp4"@, "mov"@, "mkv"@, "webm"@, "avi"@, "m4v"@, "mpeg"@],
    }
}

/// The name of each file type in a picker's filter.
pub open spec fn spec_type_label(t: FileType) -> Seq<char> {
    match t {
        FileType::Image => "Images"@,
        FileType::Audio => "Audio"@,
        FileType::Video => "Video"@,
    }
}

/// A file type accepts an extension that equals one of its own up to ASCII
/// case.
pub open spec fn spec_type_accepts(t: FileType, extension: Seq<char>) -> bool {
    exists|i: int|
        0 <= i < spec_type_extensions(t).len() && spec_eq_ignore_ascii_case(
            #[trigger] spec_type_extensions(t)[i],
            extension,
        )
}

impl FileType {
    /// The extensions of this file type.
    pub fn extensions(&self) -> (r: Vec<&'static str>)
        ensures
            r@.map_values(|e: &'static str| e@) == spec_type_extensions(*self),
    {
        let r = match self {
            FileType::Image => vec!["png", "jpg", "jpeg", "gif", "webp", "bmp", "svg", "avif"],
            FileType::Audio => vec!["mp3", "wav", "ogg", "flac", "aac", "m4a", "opus"],
            FileType::Video => vec!["mp4", "mov", "mkv", "webm", "avi", "m4v", "mpeg"],
        };
        assert(r@.map_values(|e: &'static str| e@) =~= spec_type_extensions(*self));
        r
    }

    /// The name of this file type in a picker's filter.
    pub fn label(&self) -> (r: &'static str)
        ensures
            r@ == spec_type_label(*self),
    {
        match self {
            FileType::Image => "Images",
            FileType::Audio => "Audio",
            FileType::Video => "Video",
        }
    }

    /// Whether `extension` is one of this type's extensions, ignoring ASCII
    /// case.
    pub fn accepts_extension(&self, extension: &str) -> (r: bool)
        ensures
            r == spec_type_accepts(*self, extension@),
    {
        let exts = self.extensions();
        let ghost view = exts@.map_values(|e: &'static str| e@);
        let mut i: usize = 0;
        while i < exts.len()
            invariant
                i <= exts.len(),
                view == spec_type_extensions(*self),
                view == exts@.map_values(|e: &'static str| e@),
                forall|j: int|
                    0 <= j < i ==> !spec_eq_ignore_ascii_case(
                        #[trigger] spec_type_extensions(*self)[j],
                        extension@,
                    ),
            decreases exts.len() - i,
        {
            if eq_ignore_ascii_case(exts[i], extension) {
                assert(view[i as int] == exts@[i as int]@);
                return true;
            }
            assert(view[i as int] == exts@[i as int]@);
            i += 1;
        }
        false
    }
}

/// `s` without its leading dots.
pub open spec fn trim_leading_dots(s: Seq<char>) -> Seq<char>
    decreases s.len(),
{
    if s.len() > 0 && s[0] == '.' {
        trim_leading_dots(s.drop_first())
    } else {
        s
    }
}

/// `s` without its leading dots (`str::trim_start_matches('.')`).
fn trim_dots(s: &str) -> (r: String)
    ensures
        r@ == trim_leading_dots(s@),
{
    let cs = chars_of(s);
    let mut i: usize = 0;
    assert(cs@.skip(0) =~= cs@);
    while i < cs.len() && cs[i] == '.'
        invariant
            cs@ == s@,
            i <= cs.len(),
            trim_leading_dots(cs@.skip(i as int)) == trim_leading_dots(s@),
        decreases cs.len() - i,
    {
        assert(cs@.skip(i as int).drop_first() =~= cs@.skip(i + 1));
        i += 1;
    }
    let mut out: Vec<char> = Vec::new();
    let mut j: usize = i;
    while j < cs.len()
        invariant
            i <= j <= cs.len(),
            out@ == cs@.subrange(i as int, j as int),
        decreases cs.len() - j,
    {
        out.push(cs[j]);
        assert(cs@.subrange(i as int, j + 1) =~= cs@.subrange(i as int, j as int).push(cs@[j as int]));
        j += 1;
    }
    assert(out@ =~= cs@.skip(i as int));
    string_of(&out)
}

/// What `std::path::Path::extension` gives for a path: the part of its file
/// name after the last dot, if there is one.
pub uninterp spec fn path_extension_of(path: Seq<char>) -> Option<Seq<char>>;

/// What `std::path::Path::file_name` gives for a path: its last component,
/// unless that is `..`.
pub uninterp spec fn path_file_name_of(path: Seq<char>) -> Option<Seq<char>>;

/// The extension of `path` (`std::path::Path::extension`). The contract
/// names the result: the path grammar it follows is std's, not stated here.
#[verifier::external_body]
fn path_extension(path: &str) -> (r: Option<&str>)
    ensures
        match r {
            Some(e) => path_extension_of(path@) == Some(e@),
            None => path_extension_of(path@) == None::<Seq<char>>,
        },
{
    match std::path::Path::new(path).extension() {
        Some(e) => e.to_str(),
        None => None,
    }
}

/// The file name of `path` (`std::path::Path::file_name`). The contract
/// names the result: the path grammar it follows is std's, not stated here.
#[verifier::external_body]
fn path_file_name(path: &str) -> (r: Option<&str>)
    ensures
        match r {
            Some(n) => path_file_name_of(path@) == Some(n@),
            None => path_file_name_of(path@) == None::<Seq<char>>,
        },
{
    match std::path::Path::new(path).file_name() {
        Some(n) => n.to_str(),
        None => None,
    }
}

/// A file input: the media families it accepts, or an explicit list of
/// extensions that takes precedence over them; whether it picks several
/// files; its text; and whether files may be dropped onto it.
pub struct FileInput {
    pub accepted_types: Vec<FileType>,
    pub multiple: bool,
    pub label: String,
    pub extensions: Vec<String>,
    pub drag_and_drop: bool,
}

/// Whether an input accepts a file with extension `extension`: one of the
/// explicit extensions, without its leading dots, equals it up to ASCII
/// case; or, with no explicit extensions, one of the accepted types does.
pub open spec fn spec_accepts_extension(input: FileInput, extension: Seq<char>) -> bool {
    if input.extensions@.len() > 0 {
        exists|i: int|
            0 <= i < input.extensions@.len() && spec_eq_ignore_ascii_case(
                trim_leading_dots(#[trigger] input.extensions@[i]@),
                extension,
            )
    } else {
        exists|i: int|
            0 <= i < input.accepted_types@.len() && spec_type_accepts(
                #[trigger] input.accepted_types@[i],
                extension,
            )
    }
}

/// Whether an input accepts the file at `path`: a path without an
/// extension is never accepted.
pub open spec fn spec_accepts_path(input: FileInput, path: Seq<char>) -> bool {
    match path_extension_of(path) {
        Some(e) => spec_accepts_extension(input, e),
        None => false,
    }
}

impl Default for FileInput {
    fn default() -> (f: Self)
        ensures
            f.accepted_types@ == seq![FileType::Image, FileType::Audio, FileType::Video],
            !f.multiple,
            f.label@ == "Choose file"@,
            f.extensions@.len() == 0,
            f.drag_and_drop,
    {
        FileInput {
            accepted_types: vec![FileType::Image, FileType::Audio, FileType::Video],
            multiple: false,
            label: String::from_str("Choose file"),
            extensions: Vec::new(),
            drag_and_drop: true,
        }
    }
}

impl FileInput {
    /// The default input, labelled `label`.
    pub fn new(label: String) -> (f: Self)
        ensures
            f.accepted_types@ == seq![FileType::Image, FileType::Audio, FileType::Video],
            !f.multiple,
            f.label == label,
            f.extensions@.len() == 0,
            f.drag_and_drop,
    {
        FileInput { label, ..Self::default() }
    }

    /// Accepts images only.
    pub fn images(self) -> (f: Self)
        ensures
            f.accepted_types@ == seq![FileType::Image],
            f.multiple == self.multiple,
            f.label == self.label,
            f.extensions == self.extensions,
            f.drag_and_drop == self.drag_and_drop,
    {
        FileInput { accepted_types: vec![FileType::Image], ..self }
    }

    /// Accepts audio only.
    pub fn audio(self) -> (f: Self)
        ensures
            f.accepted_types@ == seq![FileType::Audio],
            f.multiple == self.multiple,
            f.label == self.label,
            f.extensions == self.extensions,
            f.drag_and_drop == self.drag_and_drop,
    {
        FileInput { accepted_types: vec![FileType::Audio], ..self }
    }

    /// Accepts video only.
    pub fn video(self) -> (f: Self)
        ensures
            f.accepted_types@ == seq![FileType::Video],
            f.multiple == self.multiple,
            f.label == self.label,
            f.extensions == self.extensions,
            f.drag_and_drop == self.drag_and_drop,
    {
        FileInput { accepted_types: vec![FileType::Video], ..self }
    }

    /// Accepts images, audio and video.
    pub fn media(self) -> (f: Self)
        ensures
            f.accepted_types@ == seq![FileType::Image, FileType::Audio, FileType::Video],
            f.multiple == self.multiple,
            f.label == self.label,
            f.extensions == self.extensions,
            f.drag_and_drop == self.drag_and_drop,
    {
        FileInput {
            accepted_types: vec![FileType::Image, FileType::Audio, FileType::Video],
            ..self
        }
    }

    /// Whether several files may be picked.
    pub fn multiple(self, multiple: bool) -> (f: Self)
        ensures
            f == (FileInput { multiple, ..self }),
    {
        FileInput { multiple, ..self }
    }

    /// The explicit extensions, which take precedence over the types.
    pub fn extensions(self, extensions: Vec<String>) -> (f: Self)
        ensures
            f == (FileInput { extensions, ..self }),
    {
        FileInput { extensions, ..self }
    }

    /// Whether files may be dropped onto the input.
    pub fn drag_and_drop(self, enabled: bool) -> (f: Self)
        ensures
            f == (FileInput { drag_and_drop: enabled, ..self }),
    {
        FileInput { drag_and_drop: enabled, ..self }
    }

    /// Whether the input accepts a file whose extension is `extension`
    /// (`None`: a file without one, never accepted).
    pub fn accepts_extension_of(&self, extension: Option<&str>) -> (r: bool)
        ensures
            r == match extension {
                Some(e) => spec_accepts_extension(*self, e@),
                None => false,
            },
    {
        let ext = match extension {
            Some(e) => e,
            None => {
                return false;
            },
        };
        assert(extension == Some(ext));
        if self.extensions.len() > 0 {
            let mut i: usize = 0;
            while i < self.extensions.len()
                invariant
                    i <= self.extensions@.len(),
                    self.extensions@.len() > 0,
                    extension == Some(ext),
                    forall|j: int|
                        0 <= j < i ==> !spec_eq_ignore_ascii_case(
                            trim_leading_dots(#[trigger] self.extensions@[j]@),
                            ext@,
                        ),
                decreases self.extensions@.len() - i,
            {
                let trimmed = trim_dots(self.extensions[i].as_str());
                if eq_ignore_ascii_case(trimmed.as_str(), ext) {
                    assert(spec_eq_ignore_ascii_case(
                        trim_leading_dots(self.extensions@[i as int]@),
                        ext@,
                    ));
                    return true;
                }
                i += 1;
            }
            false
        } else {
            let mut i: usize = 0;
            while i < self.accepted_types.len()
                invariant
                    i <= self.accepted_types@.len(),
                    self.extensions@.len() == 0,
                    extension == Some(ext),
                    forall|j: int|
                        0 <= j < i ==> !spec_type_accepts(
                            #[trigger] self.accepted_types@[j],
                            ext@,
                        ),
                decreases self.accepted_types@.len() - i,
            {
                if self.accepted_types[i].accepts_extension(ext) {
                    assert(spec_type_accepts(self.accepted_types@[i as int], ext@));
                    return true;
                }
                i += 1;
            }
            false
        }
    }

    /// Whether the input accepts the file at `path`.
    pub fn accepts(&self, path: &str) -> (r: bool)
        ensures
            r == spec_accepts_path(*self, path@),
    {
        let extension = path_extension(path);
        self.accepts_extension_of(extension)
    }
}

/// The first of images, audio and video whose extensions hold `extension`.
pub open spec fn spec_type_of_extension(extension: Seq<char>) -> Option<FileType> {
    if spec_type_accepts(FileType::Image, extension) {
        Some(FileType::Image)
    } else if spec_type_accepts(FileType::Audio, extension) {
        Some(FileType::Audio)
    } else if spec_type_accepts(FileType::Video, extension) {
        Some(FileType::Video)
    } else {
        None
    }
}

/// The file type of a file: that of its extension in lower case, if it has
/// an extension.
pub open spec fn spec_detect_file_type(path: Seq<char>) -> Option<FileType> {
    match path_extension_of(path) {
        Some(e) => spec_type_of_extension(lowercase_of(e)),
        None => None,
    }
}

/// The first of images, audio and video that accepts `extension`.
pub fn file_type_of_extension(extension: &str) -> (r: Option<FileType>)
    ensures
        r == spec_type_of_extension(extension@),
{
    if FileType::Image.accepts_extension(extension) {
        Some(FileType::Image)
    } else if FileType::Audio.accepts_extension(extension) {
        Some(FileType::Audio)
    } else if FileType::Video.accepts_extension(extension) {
        Some(FileType::Video)
    } else {
        None
    }
}

/// The file type of the file at `path`.
pub fn detect_file_type(path: &str) -> (r: Option<FileType>)
    ensures
        r == spec_detect_file_type(path@),
{
    match path_extension(path) {
        Some(e) => {
            let lower = to_lowercase(e);
            file_type_of_extension(lower.as_str())
        },
        None => None,
    }
}

/// A file that was picked or dropped, with its detected type.
pub struct SelectedFile {
    pub path: String,
    pub file_type: Option<FileType>,
}

impl SelectedFile {
    /// The file at `path`, with its type detected from its extension.
    pub fn new(path: String) -> (f: Self)
        ensures
            f.path == path,
            f.file_type == spec_detect_file_type(path@),
    {
        let file_type = detect_file_type(path.as_str());
        SelectedFile { path, file_type }
    }

    /// The file's name.
    pub fn filename(&self) -> (r: Option<&str>)
        ensures
            match r {
                Some(n) => path_file_name_of(self.path@) == Some(n@),
                None => path_file_name_of(self.path@) == None::<Seq<char>>,
            },
    {
        path_file_name(self.path.as_str())
    }

    /// The file's extension.
    pub fn extension(&self) -> (r: Option<&str>)
        ensures
            match r {
                Some(e) => path_extension_of(self.path@) == Some(e@),
                None => path_extension_of(self.path@) == None::<Seq<char>>,
            },
    {
        path_extension(self.path.as_str())
    }
}

/// An input's native picker was opened.
pub struct FileInputOpened {
    pub entity: u64,
}

/// Files were selected for an input, by its picker or by a drop.
pub struct FilesSelected {
    pub entity: u64,
    pub files: Vec<SelectedFile>,
}

/// An input's picker was closed without a selection.
pub struct FileInputCancelled {
    pub entity: u64,
}

/// Files started to hover over the window of a drop target.
pub struct FilesDragEntered {
    pub entity: u64,
    pub file_count: usize,
}

/// Hovering files left the window of a drop target.
pub struct FilesDragExited {
    pub entity: u64,
}

/// Files were dropped onto an input.
pub struct FilesDropped {
    pub entity: u64,
    pub files: Vec<SelectedFile>,
}

/// What an input shows while files hover over the window: whether they do,
/// how many, and whether the input accepts them.
#[derive(Clone, Copy, Debug, PartialEq, Eq, Structural)]
pub struct FileInputDragState {
    pub dragging: bool,
    pub file_count: usize,
    pub accepted: bool,
}

/// No files hovering.
pub open spec fn idle_drag_state() -> FileInputDragState {
    FileInputDragState { dragging: false, file_count: 0, accepted: false }
}

impl Default for FileInputDragState {
    fn default() -> (s: Self)
        ensures
            s == idle_drag_state(),
    {
        FileInputDragState { dragging: false, file_count: 0, accepted: false }
    }
}

/// The drag state after a file hovers over the window: a drop target shows
/// one file, accepted or not; any other input is unchanged.
pub open spec fn state_after_hover(
    drag_and_drop: bool,
    accepted: bool,
    state: FileInputDragState,
) -> FileInputDragState {
    if drag_and_drop {
        FileInputDragState { dragging: true, file_count: 1, accepted }
    } else {
        state
    }
}

/// The drag state after the hover ends without a drop.
pub open spec fn state_after_cancel(state: FileInputDragState) -> FileInputDragState {
    if state.dragging {
        idle_drag_state()
    } else {
        state
    }
}

/// The drag state after a file is dropped on the window.
pub open spec fn state_after_drop(
    drag_and_drop: bool,
    state: FileInputDragState,
) -> FileInputDragState {
    if drag_and_drop {
        idle_drag_state()
    } else {
        state
    }
}

/// A file at `path` hovers over the window: a drop target shows it, and
/// announces the start of the hover if it was not already showing one.
pub fn drag_hovered(
    entity: u64,
    input: &FileInput,
    state: &mut FileInputDragState,
    path: &str,
) -> (entered: Option<FilesDragEntered>)
    ensures
        *final(state) == state_after_hover(
            input.drag_and_drop,
            spec_accepts_path(*input, path@),
            *old(state),
        ),
        entered == (if input.drag_and_drop && !old(state).dragging {
            Some(FilesDragEntered { entity, file_count: 1 })
        } else {
            None
        }),
{
    if !input.drag_and_drop {
        return None;
    }
    let accepted = input.accepts(path);
    let was_dragging = state.dragging;
    *state = FileInputDragState { dragging: true, file_count: 1, accepted };
    if !was_dragging {
        Some(FilesDragEntered { entity, file_count: 1 })
    } else {
        None
    }
}

/// The hover ended without a drop: an input that showed it goes idle and
/// announces the end.
pub fn drag_cancelled(entity: u64, state: &mut FileInputDragState) -> (exited: Option<
    FilesDragExited,
>)
    ensures
        *final(state) == state_after_cancel(*old(state)),
        exited == (if old(state).dragging {
            Some(FilesDragExited { entity })
        } else {
            None
        }),
{
    if state.dragging {
        *state = FileInputDragState { dragging: false, file_count: 0, accepted: false };
        Some(FilesDragExited { entity })
    } else {
        None
    }
}

/// A file at `path` was dropped: a drop target goes idle and, if it accepts
/// the file, selects it, announcing both the selection and the drop.
pub fn file_dropped(
    entity: u64,
    input: &FileInput,
    state: &mut FileInputDragState,
    path: String,
) -> (r: Option<(FilesSelected, FilesDropped)>)
    ensures
        *final(state) == state_after_drop(input.drag_and_drop, *old(state)),
        r is Some <==> input.drag_and_drop && spec_accepts_path(*input, path@),
        r matches Some((selected, dropped)) ==> {
            let file = SelectedFile { path, file_type: spec_detect_file_type(path@) };
            &&& selected.entity == entity
            &&& selected.files@ == seq![file]
            &&& dropped.entity == entity
            &&& dropped.files@ == seq![file]
        },
{
    if !input.drag_and_drop {
        return None;
    }
    let accepted = input.accepts(path.as_str());
    *state = FileInputDragState { dragging: false, file_count: 0, accepted: false };
    if !accepted {
        return None;
    }
    let file_type = detect_file_type(path.as_str());
    let first = SelectedFile { path: path.clone(), file_type };
    let second = SelectedFile { path, file_type };
    let selected = FilesSelected { entity, files: vec![first] };
    let dropped = FilesDropped { entity, files: vec![second] };
    Some((selected, dropped))
}

/// The files of `paths` that an input accepts, in order, with their types.
pub open spec fn selected_files(input: FileInput, paths: Seq<String>) -> Seq<SelectedFile>
    decreases paths.len(),
{
    if paths.len() == 0 {
        Seq::empty()
    } else {
        let rest = selected_files(input, paths.drop_last());
        let p = paths.last();
        if spec_accepts_path(input, p@) {
            rest.push(SelectedFile { path: p, file_type: spec_detect_file_type(p@) })
        } else {
            rest
        }
    }
}

/// What came of a native picker.
pub enum PickerOutcome {
    /// Some of the picked files were accepted.
    Selected(FilesSelected),
    /// The picker was closed without picking anything.
    Cancelled(FileInputCancelled),
    /// Files were picked, but the input accepted none of them.
    NothingAccepted,
}

/// The accepted files among `paths`, with their types.
fn accepted_files(input: &FileInput, paths: &Vec<String>) -> (files: Vec<SelectedFile>)
    ensures
        files@ == selected_files(*input, paths@),
{
    let mut files: Vec<SelectedFile> = Vec::new();
    let mut i: usize = 0;
    while i < paths.len()
        invariant
            i <= paths@.len(),
            files@ == selected_files(*input, paths@.take(i as int)),
        decreases paths@.len() - i,
    {
        assert(paths@.take(i + 1).drop_last() == paths@.take(i as int));
        let path = paths[i].clone();
        if input.accepts(path.as_str()) {
            let file = SelectedFile::new(path);
            files.push(file);
        }
        i += 1;
    }
    assert(paths@.take(paths@.len() as int) == paths@);
    files
}

/// The outcome of the picker of the input `entity`: `None` or no paths
/// cancel; otherwise the accepted files, if any, are selected.
pub fn picker_result(entity: u64, input: &FileInput, files: Option<Vec<String>>) -> (r:
    PickerOutcome)
    ensures
        match files {
            Some(paths) if paths@.len() > 0 => {
                if selected_files(*input, paths@).len() > 0 {
                    r matches PickerOutcome::Selected(sel) && sel.entity == entity
                        && sel.files@ == selected_files(*input, paths@)
                } else {
                    r is NothingAccepted
                }
            },
            _ => r matches PickerOutcome::Cancelled(c) && c.entity == entity,
        },
{
    match files {
        Some(paths) => {
            if paths.len() == 0 {
                return PickerOutcome::Cancelled(FileInputCancelled { entity });
            }
            let accepted = accepted_files(input, &paths);
            if accepted.len() > 0 {
                PickerOutcome::Selected(FilesSelected { entity, files: accepted })
            } else {
                PickerOutcome::NothingAccepted
            }
        },
        None => PickerOutcome::Cancelled(FileInputCancelled { entity }),
    }
}

/// The character views of a list of strings.
pub open spec fn string_views(v: Seq<String>) -> Seq<Seq<char>> {
    v.map_values(|s: String| s@)
}

/// Each item comes strictly before the next: sorted, without repeats.
pub open spec fn strictly_sorted(s: Seq<Seq<char>>) -> bool {
    forall|i: int, j: int| 0 <= i < j < s.len() ==> chars_lt(#[trigger] s[i], #[trigger] s[j])
}

/// The extensions of the given types, in order.
pub open spec fn types_extensions(types: Seq<FileType>) -> Seq<Seq<char>>
    decreases types.len(),
{
    if types.len() == 0 {
        Seq::empty()
    } else {
        types_extensions(types.drop_last()) + spec_type_extensions(types.last())
    }
}

/// The extensions a picker offers for an input, before sorting: the
/// explicit ones, or else those of its types.
pub open spec fn candidate_extensions(input: FileInput) -> Seq<Seq<char>> {
    if input.extensions@.len() > 0 {
        string_views(input.extensions@)
    } else {
        types_extensions(input.accepted_types@)
    }
}

/// Adds `x` to a sorted list without repeats, keeping it so.
fn insert_sorted(out: &mut Vec<String>, x: String)
    requires
        strictly_sorted(string_views(old(out)@)),
    ensures
        strictly_sorted(string_views(final(out)@)),
        forall|y: Seq<char>|
            string_views(final(out)@).contains(y) <==> (string_views(old(out)@).contains(y)
                || y == x@),
{
    let ghost before = string_views(out@);
    let xv = chars_of(x.as_str());
    let mut i: usize = 0;
    while i < out.len() && chars_less(&chars_of(out[i].as_str()), &xv)
        invariant
            i <= out@.len(),
            xv@ == x@,
            before == string_views(out@),
            strictly_sorted(before),
            forall|j: int| 0 <= j < i ==> chars_lt(#[trigger] before[j], x@),
        decreases out@.len() - i,
    {
        i += 1;
    }
    if i < out.len() && !chars_less(&xv, &chars_of(out[i].as_str())) {
        proof {
            lemma_chars_lt_trichotomy(before[i as int], x@);
            assert(before[i as int] == x@);
            assert forall|y: Seq<char>| before.contains(y) || y == x@ implies before.contains(
                y,
            ) by {
                if y == x@ {
                    assert(before[i as int] == y);
                }
            }
        }
        return;
    }
    let ghost idx = i as int;
    proof {
        if idx < before.len() {
            assert(chars_lt(x@, before[idx]));
        }
    }
    out.insert(i, x);
    let ghost after = string_views(out@);
    proof {
        assert(after =~= before.insert(idx, x@));
        assert forall|a: int, b: int| 0 <= a < b < after.len() implies chars_lt(
            #[trigger] after[a],
            #[trigger] after[b],
        ) by {
            if b < idx {
            } else if b == idx {
            } else if a < idx {
                assert(after[b] == before[b - 1]);
                if b - 1 > idx {
                    assert(chars_lt(before[idx], before[b - 1]));
                    lemma_chars_lt_transitive(x@, before[idx], before[b - 1], 0);
                }
                lemma_chars_lt_transitive(before[a], x@, before[b - 1], 0);
            } else if a == idx {
                if b - 1 > idx {
                    assert(chars_lt(before[idx], before[b - 1]));
                    lemma_chars_lt_transitive(x@, before[idx], before[b - 1], 0);
                }
            } else {
                assert(after[a] == before[a - 1]);
                assert(after[b] == before[b - 1]);
            }
        }
        assert forall|y: Seq<char>| after.contains(y) <==> (before.contains(y) || y == x@) by {
            if after.contains(y) {
                let k = choose|k: int| 0 <= k < after.len() && after[k] == y;
                if k < idx {
                    assert(before[k] == y);
                } else if k > idx {
                    assert(before[k - 1] == y);
                }
            }
            if before.contains(y) {
                let k = choose|k: int| 0 <= k < before.len() && before[k] == y;
                if k < idx {
                    assert(after[k] == y);
                } else {
                    assert(after[k + 1] == y);
                }
            }
            if y == x@ {
                assert(after[idx] == y);
            }
        }
    }
}

/// The extensions an input's picker filters on: its candidates, sorted,
/// each once.
pub fn picker_extensions(input: &FileInput) -> (r: Vec<String>)
    ensures
        strictly_sorted(string_views(r@)),
        forall|y: Seq<char>|
            string_views(r@).contains(y) <==> candidate_extensions(*input).contains(y),
{
    let mut out: Vec<String> = Vec::new();
    if input.extensions.len() > 0 {
        let mut i: usize = 0;
        while i < input.extensions.len()
            invariant
                i <= input.extensions@.len(),
                strictly_sorted(string_views(out@)),
                forall|y: Seq<char>|
                    string_views(out@).contains(y) <==> string_views(
                        input.extensions@.take(i as int),
                    ).contains(y),
            decreases input.extensions@.len() - i,
        {
            let x = input.extensions[i].clone();
            insert_sorted(&mut out, x);
            proof {
                let prev = string_views(input.extensions@.take(i as int));
                let next = string_views(input.extensions@.take(i + 1));
                assert(next =~= prev.push(input.extensions@[i as int]@));
                assert forall|y: Seq<char>| next.contains(y) <==> (prev.contains(y) || y
                    == input.extensions@[i as int]@) by {
                    if next.contains(y) {
                        let k = choose|k: int| 0 <= k < next.len() && next[k] == y;
                        if k < prev.len() {
                            assert(prev[k] == y);
                        }
                    }
                    if prev.contains(y) {
                        let k = choose|k: int| 0 <= k < prev.len() && prev[k] == y;
                        assert(next[k] == y);
                    }
                    if y == input.extensions@[i as int]@ {
                        assert(next[i as int] == y);
                    }
                }
            }
            i += 1;
        }
        assert(input.extensions@.take(input.extensions@.len() as int) == input.extensions@);
    } else {
        let mut t: usize = 0;
        while t < input.accepted_types.len()
            invariant
                t <= input.accepted_types@.len(),
                input.extensions@.len() == 0,
                strictly_sorted(string_views(out@)),
                forall|y: Seq<char>|
                    string_views(out@).contains(y) <==> types_extensions(
                        input.accepted_types@.take(t as int),
                    ).contains(y),
            decreases input.accepted_types@.len() - t,
        {
            let ghost prev = types_extensions(input.accepted_types@.take(t as int));
            let ghost own = spec_type_extensions(input.accepted_types@[t as int]);
            assert(input.accepted_types@.take(t + 1).drop_last() == input.accepted_types@.take(
                t as int,
            ));
            let exts = input.accepted_types[t].extensions();
            let mut k: usize = 0;
            while k < exts.len()
                invariant
                    k <= exts@.len(),
                    exts@.map_values(|e: &'static str| e@) == own,
                    strictly_sorted(string_views(out@)),
                    forall|y: Seq<char>|
                        string_views(out@).contains(y) <==> (prev + own.take(k as int)).contains(
                            y,
                        ),
                decreases exts@.len() - k,
            {
                let x = String::from_str(exts[k]);
                insert_sorted(&mut out, x);
                proof {
                    let before = prev + own.take(k as int);
                    let after = prev + own.take(k + 1);
                    assert(own[k as int] == exts@[k as int]@);
                    assert(after =~= before.push(own[k as int]));
                    assert forall|y: Seq<char>| after.contains(y) <==> (before.contains(y) || y
                        == own[k as int]) by {
                        if after.contains(y) {
                            let m = choose|m: int| 0 <= m < after.len() && after[m] == y;
                            if m < before.len() {
                                assert(before[m] == y);
                            }
                        }
                        if before.contains(y) {
                            let m = choose|m: int| 0 <= m < before.len() && before[m] == y;
                            assert(after[m] == y);
                        }
                        if y == own[k as int] {
                            assert(after[before.len() as int] == y);
                        }
                    }
                }
                k += 1;
            }
            assert(own.take(own.len() as int) == own);
            t += 1;
        }
        assert(input.accepted_types@.take(input.accepted_types@.len() as int)
            == input.accepted_types@);
    }
    out
}

/// The items joined by `", "`.
pub open spec fn join_comma(parts: Seq<Seq<char>>) -> Seq<char>
    decreases parts.len(),
{
    if parts.len() == 0 {
        Seq::empty()
    } else if parts.len() == 1 {
        parts[0]
    } else {
        join_comma(parts.drop_last()) + seq![',', ' '] + parts.last()
    }
}

/// The name of a picker's filter: the labels of the input's types, joined
/// by `", "`.
pub open spec fn spec_picker_label(input: FileInput) -> Seq<char> {
    join_comma(input.accepted_types@.map_values(|t: FileType| spec_type_label(t)))
}

/// The name of an input's picker filter.
pub fn picker_label(input: &FileInput) -> (r: String)
    ensures
        r@ == spec_picker_label(*input),
{
    let ghost labels = input.accepted_types@.map_values(|t: FileType| spec_type_label(t));
    let mut out: Vec<char> = Vec::new();
    let mut i: usize = 0;
    while i < input.accepted_types.len()
        invariant
            i <= input.accepted_types@.len(),
            labels == input.accepted_types@.map_values(|t: FileType| spec_type_label(t)),
            out@ == join_comma(labels.take(i as int)),
        decreases input.accepted_types@.len() - i,
    {
        if i > 0 {
            out.push(',');
            out.push(' ');
        }
        let mut label = chars_of(input.accepted_types[i].label());
        out.append(&mut label);
        proof {
            let t = labels.take(i + 1);
            assert(t.drop_last() == labels.take(i as int));
            assert(t.last() == labels[i as int]);
            if i == 0 {
                assert(t.len() == 1);
            }
        }
        i += 1;
    }
    assert(labels.take(labels.len() as int) == labels);
    string_of(&out)
}

/// The filter an input's picker offers: a name and its extensions.
pub struct PickerFilter {
    pub label: String,
    pub extensions: Vec<String>,
}

/// The filter of an input's picker; none when it has no extensions.
pub fn picker_filter(input: &FileInput) -> (r: Option<PickerFilter>)
    ensures
        r is Some <==> candidate_extensions(*input).len() > 0,
        r matches Some(f) ==> {
            &&& f.label@ == spec_picker_label(*input)
            &&& strictly_sorted(string_views(f.extensions@))
            &&& forall|y: Seq<char>|
                string_views(f.extensions@).contains(y) <==> candidate_extensions(
                    *input,
                ).contains(y)
        },
{
    let extensions = picker_extensions(input);
    proof {
        let c = candidate_extensions(*input);
        if c.len() > 0 {
            assert(c.contains(c[0]));
            assert(string_views(extensions@).contains(c[0]));
        }
        if extensions@.len() > 0 {
            let v = string_views(extensions@);
            assert(v.len() == extensions@.len());
            assert(v.contains(v[0]));
            assert(c.contains(v[0]));
            let k = choose|k: int| 0 <= k < c.len() && c[k] == v[0];
            assert(c.len() > 0);
        }
    }
    if extensions.len() == 0 {
        return None;
    }
    let label = picker_label(input);
    Some(PickerFilter { label, extensions })
}

/// Files that hover over the window and leave without a drop leave a drop
/// target idle, whatever it showed before.
pub proof fn lemma_hover_then_cancel_is_idle(accepted: bool, state: FileInputDragState)
    ensures
        state_after_hover(true, accepted, state).dragging,
        state_after_cancel(state_after_hover(true, accepted, state)) == idle_drag_state(),
{
}

/// Ending a hover twice is the same as ending it once: the second end
/// announces nothing.
pub proof fn lemma_cancel_is_idempotent(state: FileInputDragState)
    ensures
        state_after_cancel(state_after_cancel(state)) == state_after_cancel(state),
        !state_after_cancel(state).dragging,
{
}

/// Every file a picker selects is one the input accepts, with its detected
/// type, and none is made up: each comes from the picked paths.
pub proof fn lemma_selected_files_are_accepted(input: FileInput, paths: Seq<String>)
    ensures
        selected_files(input, paths).len() <= paths.len(),
        forall|i: int|
            0 <= i < selected_files(input, paths).len() ==> {
                let f = #[trigger] selected_files(input, paths)[i];
                &&& spec_accepts_path(input, f.path@)
                &&& f.file_type == spec_detect_file_type(f.path@)
                &&& paths.contains(f.path)
            },
    decreases paths.len(),
{
    if paths.len() > 0 {
        let rest = paths.drop_last();
        lemma_selected_files_are_accepted(input, rest);
        let sel = selected_files(input, paths);
        assert forall|i: int| 0 <= i < sel.len() implies {
            let f = #[trigger] sel[i];
            &&& spec_accepts_path(input, f.path@)
            &&& f.file_type == spec_detect_file_type(f.path@)
            &&& paths.contains(f.path)
        } by {
            let prev = selected_files(input, rest);
            if i < prev.len() {
                assert(sel[i] == prev[i]);
                let k = choose|k: int| 0 <= k < rest.len() && rest[k] == prev[i].path;
                assert(paths[k] == rest[k]);
            } else {
                assert(paths[paths.len() - 1] == paths.last());
            }
        }
    }
}

} // verus!
