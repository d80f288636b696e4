//! Single-line text input: what a key press does to the edited value and
//! cursor, which characters each input kind accepts, and what the field
//! shows (placeholder, masked password, floating label, caret).
use vstd::prelude::*;

use crate::text::{
    chars_of, is_ascii_alphanumeric, is_ascii_digit, is_control, spec_is_ascii_alphanumeric,
    spec_is_ascii_digit, spec_is_control, string_of,
};
use crate::theme::ThemeSlot;

verus! {

/// What kind of value a text input edits.
#[derive(Clone, Copy, Debug, PartialEq, Eq, Structural)]
pub enum TextInputKind {
    Text,
    Password,
    Search,
    Number,
    Email,
}

impl Default for TextInputKind {
    fn default() -> (k: Self)
        ensures
            k == TextInputKind::Text,
    {
        TextInputKind::Text
    }
}

/// The edited state of a text input. `cursor` counts characters, not bytes.
pub struct TextInput {
    pub value: String,
    pub placeholder: String,
    pub floating_label: Option<String>,
    pub kind: TextInputKind,
    pub max_length: Option<usize>,
    pub cursor: usize,
    pub disabled: bool,
}

/// The configuration a text input is created from (its layout options are
/// held by the rendering layer).
pub struct TextInputConfig {
    pub placeholder: String,
    pub floating_label: Option<String>,
    pub kind: TextInputKind,
    pub max_length: Option<usize>,
    pub initial_value: String,
    pub disabled: bool,
    pub show_submit_button: bool,
}

impl TextInputConfig {
    /// A plain text field with the given placeholder, empty, enabled, with a
    /// submit button and no length limit.
    pub fn new(placeholder: String) -> (c: Self)
        ensures
            c.placeholder == placeholder,
            c.floating_label is None,
            c.kind == TextInputKind::Text,
            c.max_length is None,
            c.initial_value@ == Seq::<char>::empty(),
            !c.disabled,
            c.show_submit_button,
    {
        TextInputConfig {
            placeholder,
            floating_label: None,
            kind: TextInputKind::Text,
            max_length: None,
            initial_value: String::new(),
            disabled: false,
            show_submit_button: true,
        }
    }

    /// Sets the input kind.
    pub fn kind(self, kind: TextInputKind) -> (c: Self)
        ensures
            c == (TextInputConfig { kind, ..self }),
    {
        TextInputConfig { kind, ..self }
    }

    /// Sets the floating label.
    pub fn floating_label(self, floating_label: String) -> (c: Self)
        ensures
            c == (TextInputConfig { floating_label: Some(floating_label), ..self }),
    {
        TextInputConfig { floating_label: Some(floating_label), ..self }
    }

    /// Limits the value to `max_length` characters.
    pub fn max_length(self, max_length: usize) -> (c: Self)
        ensures
            c == (TextInputConfig { max_length: Some(max_length), ..self }),
    {
        TextInputConfig { max_length: Some(max_length), ..self }
    }

    /// Sets the value the input starts with.
    pub fn initial_value(self, initial_value: String) -> (c: Self)
        ensures
            c == (TextInputConfig { initial_value, ..self }),
    {
        TextInputConfig { initial_value, ..self }
    }

    /// Enables or disables the input.
    pub fn disabled(self, disabled: bool) -> (c: Self)
        ensures
            c == (TextInputConfig { disabled, ..self }),
    {
        TextInputConfig { disabled, ..self }
    }

    /// Shows or hides the submit button of a search input.
    pub fn show_submit_button(self, show_submit_button: bool) -> (c: Self)
        ensures
            c == (TextInputConfig { show_submit_button, ..self }),
    {
        TextInputConfig { show_submit_button, ..self }
    }
}

impl TextInput {
    /// The cursor lies within the value.
    pub open spec fn wf(&self) -> bool {
        self.cursor <= self.value@.len()
    }

    /// The input a configuration creates: its initial value, with the cursor
    /// after the last character.
    pub fn from_config(config: TextInputConfig) -> (input: TextInput)
        ensures
            input.value == config.initial_value,
            input.placeholder == config.placeholder,
            input.floating_label == config.floating_label,
            input.kind == config.kind,
            input.max_length == config.max_length,
            input.cursor == config.initial_value@.len(),
            input.disabled == config.disabled,
            input.wf(),
    {
        let count = chars_of(config.initial_value.as_str()).len();
        TextInput {
            value: config.initial_value,
            placeholder: config.placeholder,
            floating_label: config.floating_label,
            kind: config.kind,
            max_length: config.max_length,
            cursor: count,
            disabled: config.disabled,
        }
    }
}

/// Whether an input of `kind` accepts the character `c`.
pub open spec fn spec_allows_char(kind: TextInputKind, c: char) -> bool {
    match kind {
        TextInputKind::Number => spec_is_ascii_digit(c),
        TextInputKind::Email => spec_is_ascii_alphanumeric(c) || c == '.' || c == '-' || c == '_'
            || c == '@',
        _ => true,
    }
}

/// Whether an input of `kind` accepts the character `c`: digits for
/// numbers; ASCII letters, digits and `.-_@` for e-mail; anything otherwise.
pub fn allows_char(kind: TextInputKind, c: char) -> (b: bool)
    ensures
        b == spec_allows_char(kind, c),
{
    match kind {
        TextInputKind::Number => is_ascii_digit(c),
        TextInputKind::Email => is_ascii_alphanumeric(c) || c == '.' || c == '-' || c == '_' || c
            == '@',
        _ => true,
    }
}

/// The characters of typed `text` that an input of `kind` takes in, when
/// `room` more characters fit (`None`: no limit). Control characters and
/// characters the kind refuses are skipped; typing stops once the room is
/// used up.
pub open spec fn accepted_chars(kind: TextInputKind, room: Option<int>, text: Seq<char>) -> Seq<
    char,
>
    decreases text.len(),
{
    if text.len() == 0 {
        Seq::empty()
    } else {
        let c = text[0];
        if spec_is_control(c) || !spec_allows_char(kind, c) {
            accepted_chars(kind, room, text.drop_first())
        } else if room matches Some(r) && r <= 0 {
            Seq::empty()
        } else {
            seq![c] + accepted_chars(
                kind,
                match room {
                    Some(r) => Some(r - 1),
                    None => None,
                },
                text.drop_first(),
            )
        }
    }
}

/// Room left under `max_length` for a value of `len` characters.
pub open spec fn room_left(max_length: Option<usize>, len: nat) -> Option<int> {
    match max_length {
        Some(m) => Some(m - len),
        None => None,
    }
}

proof fn lemma_accepted_len(kind: TextInputKind, room: Option<int>, text: Seq<char>)
    ensures
        accepted_chars(kind, room, text).len() <= text.len(),
        room matches Some(r) ==> accepted_chars(kind, room, text).len() <= if r < 0 {
            0
        } else {
            r
        },
    decreases text.len(),
{
    if text.len() > 0 {
        let next = match room {
            Some(r) => Some(r - 1),
            None => None,
        };
        lemma_accepted_len(kind, room, text.drop_first());
        lemma_accepted_len(kind, next, text.drop_first());
    }
}

/// The characters of `text` that `kind` takes in with `room` left.
pub fn accept_typed(
    kind: TextInputKind,
    max_length: Option<usize>,
    value_len: usize,
    text: &Vec<char>,
) -> (out: Vec<char>)
    ensures
        out@ == accepted_chars(kind, room_left(max_length, value_len as nat), text@),
{
    let ghost room0: Option<int> = room_left(max_length, value_len as nat);
    let mut out: Vec<char> = Vec::new();
    let mut i: usize = 0;
    proof {
        assert(text@.skip(0) == text@);
        let z: Option<int> = match room0 {
            Some(r) => Some(r - out@.len()),
            None => None,
        };
        assert(z == room0);
        assert(out@ + accepted_chars(kind, z, text@) == accepted_chars(kind, room0, text@));
    }
    while i < text.len()
        invariant_except_break
            i <= text.len(),
            out@ + accepted_chars(
                kind,
                match room0 {
                    Some(r) => Some(r - out@.len()),
                    None => None,
                },
                text@.skip(i as int),
            ) == accepted_chars(kind, room0, text@),
            room0 == room_left(max_length, value_len as nat),
        ensures
            out@ == accepted_chars(kind, room0, text@),
        decreases text.len() - i,
    {
        let c = text[i];
        let ghost rest = text@.skip(i as int);
        let ghost cur: Option<int> = match room0 {
            Some(r) => Some(r - out@.len()),
            None => None,
        };
        proof {
            assert(rest[0] == c);
            assert(rest.drop_first() == text@.skip(i + 1));
        }
        if is_control(c) || !allows_char(kind, c) {
            i += 1;
            continue;
        }
        let full = match max_length {
            Some(m) => m <= value_len || out.len() >= m - value_len,
            None => false,
        };
        if full {
            proof {
                assert(accepted_chars(kind, cur, rest) == Seq::<char>::empty());
                assert(out@ + Seq::<char>::empty() == out@);
            }
            break;
        }
        let ghost before = out@;
        out.push(c);
        proof {
            assert(accepted_chars(kind, cur, rest) == seq![c] + accepted_chars(
                kind,
                match room0 {
                    Some(r) => Some(r - out@.len()),
                    None => None,
                },
                text@.skip(i + 1),
            ));
            assert(before + (seq![c] + accepted_chars(
                kind,
                match room0 {
                    Some(r) => Some(r - out@.len()),
                    None => None,
                },
                text@.skip(i + 1),
            )) == out@ + accepted_chars(
                kind,
                match room0 {
                    Some(r) => Some(r - out@.len()),
                    None => None,
                },
                text@.skip(i + 1),
            ));
        }
        i += 1;
    }
    proof {
        if i == text.len() {
            assert(text@.skip(i as int) == Seq::<char>::empty());
        }
    }
    out
}

/// A keyboard key as the text input distinguishes it.
#[derive(Clone, Copy, Debug, PartialEq, Eq, Structural)]
pub enum TextInputKey {
    Escape,
    Enter,
    ArrowLeft,
    ArrowRight,
    Home,
    End,
    Backspace,
    Delete,
    /// Any other key; its typed text, if any, is inserted.
    Other,
}

/// One keyboard event delivered to the focused input.
pub struct TextInputKeyEvent {
    /// The key went down (releases are ignored).
    pub pressed: bool,
    pub key: TextInputKey,
    /// The text the key produced, if any.
    pub text: Option<String>,
}

/// What a text input reports. `entity` identifies the input.
pub enum TextInputEvent {
    Changed { entity: u64, value: String },
    Submitted { entity: u64, value: String },
    Focused { entity: u64 },
    Unfocused { entity: u64 },
}

/// What one key press reports, in terms of the edited value.
pub enum EditReport {
    Unfocused,
    Submitted(Seq<char>),
    Changed(Seq<char>),
}

/// The value, cursor and reports after one key event, starting from value
/// `v` with the cursor at `c`. A cursor past the end types at the end, and
/// Backspace there only steps it back (still reporting the value).
pub open spec fn key_step(
    kind: TextInputKind,
    max_length: Option<usize>,
    v: Seq<char>,
    c: int,
    ev: TextInputKeyEvent,
) -> (Seq<char>, int, Seq<EditReport>) {
    if !ev.pressed {
        (v, c, Seq::empty())
    } else {
        match ev.key {
            TextInputKey::Escape => (v, c, seq![EditReport::Unfocused]),
            TextInputKey::Enter => (v, c, seq![EditReport::Submitted(v)]),
            TextInputKey::ArrowLeft => (v, if c > 0 { c - 1 } else { 0 }, Seq::empty()),
            TextInputKey::ArrowRight => (v, if c < v.len() { c + 1 } else { v.len() as int }, Seq::empty()),
            TextInputKey::Home => (v, 0, Seq::empty()),
            TextInputKey::End => (v, v.len() as int, Seq::empty()),
            TextInputKey::Backspace => if c == 0 {
                (v, c, Seq::empty())
            } else if c > v.len() {
                (v, c - 1, seq![EditReport::Changed(v)])
            } else {
                let w = v.remove(c - 1);
                (w, c - 1, seq![EditReport::Changed(w)])
            },
            TextInputKey::Delete => if c >= v.len() {
                (v, c, Seq::empty())
            } else {
                let w = v.remove(c);
                (w, c, seq![EditReport::Changed(w)])
            },
            TextInputKey::Other => match ev.text {
                None => (v, c, Seq::empty()),
                Some(t) => {
                    let a = accepted_chars(kind, room_left(max_length, v.len()), t@);
                    if a.len() == 0 {
                        (v, c, Seq::empty())
                    } else {
                        let at = if c <= v.len() {
                            c
                        } else {
                            v.len() as int
                        };
                        let w = v.take(at) + a + v.skip(at);
                        (w, c + a.len(), seq![EditReport::Changed(w)])
                    }
                },
            },
        }
    }
}

/// The value, cursor and reports after a run of key events.
pub open spec fn key_steps(
    kind: TextInputKind,
    max_length: Option<usize>,
    v: Seq<char>,
    c: int,
    evs: Seq<TextInputKeyEvent>,
) -> (Seq<char>, int, Seq<EditReport>)
    decreases evs.len(),
{
    if evs.len() == 0 {
        (v, c, Seq::empty())
    } else {
        let before = key_steps(kind, max_length, v, c, evs.drop_last());
        let after = key_step(kind, max_length, before.0, before.1, evs.last());
        (after.0, after.1, before.2 + after.2)
    }
}

/// One key event's cursor arithmetic stays within `usize`: Right moves
/// from below the largest cursor, and typing leaves the cursor no larger
/// than it.
pub open spec fn step_fits(
    kind: TextInputKind,
    max_length: Option<usize>,
    v: Seq<char>,
    c: int,
    ev: TextInputKeyEvent,
) -> bool {
    ev.pressed ==> match ev.key {
        TextInputKey::ArrowRight => c < usize::MAX,
        TextInputKey::Other => key_step(kind, max_length, v, c, ev).1 <= usize::MAX,
        _ => true,
    }
}

/// Every key event of a run keeps the cursor arithmetic within `usize`.
pub open spec fn steps_fit(
    kind: TextInputKind,
    max_length: Option<usize>,
    v: Seq<char>,
    c: int,
    evs: Seq<TextInputKeyEvent>,
) -> bool {
    forall|i: int|
        0 <= i < evs.len() ==> {
            let r = key_steps(kind, max_length, v, c, evs.take(i));
            step_fits(kind, max_length, r.0, r.1, #[trigger] evs[i])
        }
}

/// `e` is the event `r` reported by input `entity`.
pub open spec fn reports(e: TextInputEvent, entity: u64, r: EditReport) -> bool {
    match (e, r) {
        (TextInputEvent::Unfocused { entity: x }, EditReport::Unfocused) => x == entity,
        (TextInputEvent::Submitted { entity: x, value }, EditReport::Submitted(s)) => x == entity
            && value@ == s,
        (TextInputEvent::Changed { entity: x, value }, EditReport::Changed(s)) => x == entity
            && value@ == s,
        _ => false,
    }
}

/// `out` reports exactly `rs`, in order.
pub open spec fn reports_all(out: Seq<TextInputEvent>, entity: u64, rs: Seq<EditReport>) -> bool {
    out.len() == rs.len() && forall|i: int| 0 <= i < out.len() ==> reports(#[trigger] out[i], entity, rs[i])
}

fn splice(v: &Vec<char>, at: usize, a: &Vec<char>) -> (out: Vec<char>)
    requires
        at <= v.len(),
    ensures
        out@ == v@.take(at as int) + a@ + v@.skip(at as int),
{
    let mut out: Vec<char> = Vec::new();
    let mut i: usize = 0;
    while i < at
        invariant
            i <= at <= v.len(),
            out@ == v@.take(i as int),
        decreases at - i,
    {
        out.push(v[i]);
        assert(v@.take(i as int).push(v@[i as int]) == v@.take(i + 1));
        i += 1;
    }
    let mut j: usize = 0;
    while j < a.len()
        invariant
            j <= a.len(),
            out@ == v@.take(at as int) + a@.take(j as int),
        decreases a.len() - j,
    {
        out.push(a[j]);
        assert((v@.take(at as int) + a@.take(j as int)).push(a@[j as int]) == v@.take(at as int)
            + a@.take(j + 1));
        j += 1;
    }
    assert(a@.take(a.len() as int) == a@);
    let mut k: usize = at;
    while k < v.len()
        invariant
            at <= k <= v.len(),
            out@ == v@.take(at as int) + a@ + v@.subrange(at as int, k as int),
        decreases v.len() - k,
    {
        out.push(v[k]);
        assert((v@.take(at as int) + a@ + v@.subrange(at as int, k as int)).push(v@[k as int])
            == v@.take(at as int) + a@ + v@.subrange(at as int, k + 1));
        k += 1;
    }
    out
}

/// Applies the key events delivered to the focused input `entity` in one
/// frame, in order, and returns what it reports. A disabled input ignores
/// them all.
pub fn text_input_keyboard(
    input: &mut TextInput,
    entity: u64,
    events: &Vec<TextInputKeyEvent>,
) -> (out: Vec<TextInputEvent>)
    requires
        !old(input).disabled ==> steps_fit(
            old(input).kind,
            old(input).max_length,
            old(input).value@,
            old(input).cursor as int,
            events@,
        ),
    ensures
        old(input).wf() ==> final(input).wf(),
        final(input).placeholder == old(input).placeholder,
        final(input).floating_label == old(input).floating_label,
        final(input).kind == old(input).kind,
        final(input).max_length == old(input).max_length,
        final(input).disabled == old(input).disabled,
        old(input).disabled ==> final(input).value@ == old(input).value@ && final(input).cursor
            == old(input).cursor && out@.len() == 0,
        !old(input).disabled ==> ({
            let r = key_steps(
                old(input).kind,
                old(input).max_length,
                old(input).value@,
                old(input).cursor as int,
                events@,
            );
            &&& final(input).value@ == r.0
            &&& final(input).cursor == r.1
            &&& reports_all(out@, entity, r.2)
        }),
{
    let mut out: Vec<TextInputEvent> = Vec::new();
    if input.disabled {
        return out;
    }
    let kind = input.kind;
    let max_length = input.max_length;
    let mut buf = chars_of(input.value.as_str());
    let mut cursor = input.cursor;
    let ghost v0 = input.value@;
    let ghost c0 = input.cursor as int;
    let mut i: usize = 0;
    proof {
        assert(events@.take(0) == Seq::<TextInputKeyEvent>::empty());
    }
    while i < events.len()
        invariant
            i <= events.len(),
            steps_fit(kind, max_length, v0, c0, events@),
            ({
                let r = key_steps(kind, max_length, v0, c0, events@.take(i as int));
                &&& buf@ == r.0
                &&& cursor == r.1
                &&& reports_all(out@, entity, r.2)
            }),
        decreases events.len() - i,
    {
        let ev = &events[i];
        let ghost before = key_steps(kind, max_length, v0, c0, events@.take(i as int));
        let ghost step = key_step(kind, max_length, buf@, cursor as int, *ev);
        let ghost out_before = out@;
        proof {
            assert(events@.take(i + 1).drop_last() == events@.take(i as int));
            assert(events@.take(i + 1).last() == events@[i as int]);
        }
        if ev.pressed {
            match ev.key {
                TextInputKey::Escape => {
                    out.push(TextInputEvent::Unfocused { entity });
                },
                TextInputKey::Enter => {
                    out.push(TextInputEvent::Submitted { entity, value: string_of(&buf) });
                },
                TextInputKey::ArrowLeft => {
                    if cursor > 0 {
                        cursor = cursor - 1;
                    }
                },
                TextInputKey::ArrowRight => {
                    if cursor < buf.len() {
                        cursor = cursor + 1;
                    } else {
                        cursor = buf.len();
                    }
                },
                TextInputKey::Home => {
                    cursor = 0;
                },
                TextInputKey::End => {
                    cursor = buf.len();
                },
                TextInputKey::Backspace => {
                    if cursor > buf.len() {
                        cursor = cursor - 1;
                        out.push(TextInputEvent::Changed { entity, value: string_of(&buf) });
                    } else if cursor > 0 {
                        buf.remove(cursor - 1);
                        cursor = cursor - 1;
                        out.push(TextInputEvent::Changed { entity, value: string_of(&buf) });
                    }
                },
                TextInputKey::Delete => {
                    if cursor < buf.len() {
                        buf.remove(cursor);
                        out.push(TextInputEvent::Changed { entity, value: string_of(&buf) });
                    }
                },
                TextInputKey::Other => {
                    match &ev.text {
                        None => {},
                        Some(t) => {
                            let typed = chars_of(t.as_str());
                            if typed.len() > 0 {
                                let accepted = accept_typed(kind, max_length, buf.len(), &typed);
                                if accepted.len() > 0 {
                                    let at = if cursor <= buf.len() {
                                        cursor
                                    } else {
                                        buf.len()
                                    };
                                    proof {
                                        assert(step_fits(kind, max_length, buf@, cursor as int, events@[i as int]));
                                    }
                                    let next = splice(&buf, at, &accepted);
                                    buf = next;
                                    cursor = cursor + accepted.len();
                                    out.push(TextInputEvent::Changed { entity, value: string_of(&buf) });
                                }
                            }
                        },
                    }
                },
            }
        }
        proof {
            assert(buf@ == step.0);
            assert(cursor == step.1);
            assert forall|k: int| 0 <= k < out@.len() implies reports(
                #[trigger] out@[k],
                entity,
                (before.2 + step.2)[k],
            ) by {
                if k < out_before.len() {
                    assert(out@[k] == out_before[k]);
                }
            }
        }
        i += 1;
    }
    proof {
        assert(events@.take(events.len() as int) == events@);
        if c0 <= v0.len() {
            lemma_key_steps_keep_bounds(kind, max_length, v0, c0, events@);
        }
    }
    input.value = string_of(&buf);
    input.cursor = cursor;
    out
}

proof fn lemma_key_step_bounds(
    kind: TextInputKind,
    max_length: Option<usize>,
    v: Seq<char>,
    c: int,
    ev: TextInputKeyEvent,
)
    requires
        0 <= c <= v.len(),
    ensures
        ({
            let r = key_step(kind, max_length, v, c, ev);
            &&& 0 <= r.1 <= r.0.len()
            &&& max_length matches Some(m) ==> (v.len() <= m ==> r.0.len() <= m)
        }),
{
    if ev.pressed && ev.key == TextInputKey::Other {
        if let Some(t) = ev.text {
            lemma_accepted_len(kind, room_left(max_length, v.len()), t@);
        }
    }
}

/// The cursor stays within the value, and a value within
/// `max_length` stays within it, whatever keys are pressed.
pub proof fn lemma_key_steps_keep_bounds(
    kind: TextInputKind,
    max_length: Option<usize>,
    v: Seq<char>,
    c: int,
    evs: Seq<TextInputKeyEvent>,
)
    requires
        0 <= c <= v.len(),
    ensures
        ({
            let r = key_steps(kind, max_length, v, c, evs);
            &&& 0 <= r.1 <= r.0.len()
            &&& max_length matches Some(m) ==> (v.len() <= m ==> r.0.len() <= m)
        }),
    decreases evs.len(),
{
    if evs.len() > 0 {
        lemma_key_steps_keep_bounds(kind, max_length, v, c, evs.drop_last());
        let before = key_steps(kind, max_length, v, c, evs.drop_last());
        lemma_key_step_bounds(kind, max_length, before.0, before.1, evs.last());
    }
}

/// Typing one accepted character and then pressing Backspace gives
/// back the value and the cursor from before.
pub proof fn lemma_backspace_undoes_typing(
    kind: TextInputKind,
    max_length: Option<usize>,
    v: Seq<char>,
    c: int,
    ch: char,
    typed: TextInputKeyEvent,
    back: TextInputKeyEvent,
)
    requires
        0 <= c <= v.len(),
        typed.pressed,
        typed.key == TextInputKey::Other,
        typed.text matches Some(t) && t@ == seq![ch],
        !spec_is_control(ch),
        spec_allows_char(kind, ch),
        max_length matches Some(m) ==> v.len() < m,
        back.pressed,
        back.key == TextInputKey::Backspace,
    ensures
        ({
            let t = key_step(kind, max_length, v, c, typed);
            let b = key_step(kind, max_length, t.0, t.1, back);
            &&& t.0.len() == v.len() + 1
            &&& b.0 == v
            &&& b.1 == c
        }),
{
    let t = typed.text.unwrap();
    let room = room_left(max_length, v.len());
    assert(t@.drop_first() == Seq::<char>::empty());
    assert(accepted_chars(kind, room, t@) == seq![ch] + accepted_chars(
        kind,
        match room {
            Some(r) => Some(r - 1),
            None => None,
        },
        Seq::<char>::empty(),
    ));
    assert(accepted_chars(kind, room, t@) == seq![ch]);
    let w = v.take(c) + seq![ch] + v.skip(c);
    assert(w.remove(c) =~= v);
}

/// Delete on a cursor inside the value removes exactly the character
/// under the cursor: the characters before it are kept, those after it
/// close up, the value gets one shorter, the cursor stays, and the new
/// value is reported. At or past the end, Delete changes nothing.
pub proof fn lemma_delete_removes_char_at_cursor(
    kind: TextInputKind,
    max_length: Option<usize>,
    v: Seq<char>,
    c: int,
    ev: TextInputKeyEvent,
)
    requires
        ev.pressed,
        ev.key == TextInputKey::Delete,
        0 <= c,
    ensures
        ({
            let r = key_steps(kind, max_length, v, c, seq![ev]);
            &&& c < v.len() ==> {
                &&& r.0 == v.take(c) + v.skip(c + 1)
                &&& r.0.len() == v.len() - 1
                &&& forall|k: int| 0 <= k < c ==> r.0[k] == v[k]
                &&& forall|k: int| c <= k < v.len() - 1 ==> r.0[k] == v[k + 1]
                &&& r.1 == c
                &&& r.2 == seq![EditReport::Changed(v.take(c) + v.skip(c + 1))]
            }
            &&& c >= v.len() ==> r.0 == v && r.1 == c && r.2.len() == 0
        }),
{
    assert(seq![ev].drop_last() =~= Seq::<TextInputKeyEvent>::empty());
    assert(seq![ev].last() == ev);
    let e = key_steps(kind, max_length, v, c, Seq::<TextInputKeyEvent>::empty());
    assert(e == (v, c, Seq::<EditReport>::empty()));
    let st = key_step(kind, max_length, v, c, ev);
    assert(e.2 + st.2 =~= st.2);
    if c < v.len() {
        assert(v.remove(c) =~= v.take(c) + v.skip(c + 1));
    }
}

/// Backspace on a cursor inside the value (or at its end) removes exactly
/// the character before the cursor and moves the cursor back over it.
pub proof fn lemma_backspace_removes_char_before_cursor(
    kind: TextInputKind,
    max_length: Option<usize>,
    v: Seq<char>,
    c: int,
    ev: TextInputKeyEvent,
)
    requires
        ev.pressed,
        ev.key == TextInputKey::Backspace,
        0 < c <= v.len(),
    ensures
        ({
            let r = key_steps(kind, max_length, v, c, seq![ev]);
            &&& r.0 == v.take(c - 1) + v.skip(c)
            &&& r.0.len() == v.len() - 1
            &&& r.1 == c - 1
            &&& r.2 == seq![EditReport::Changed(v.take(c - 1) + v.skip(c))]
        }),
{
    assert(seq![ev].drop_last() =~= Seq::<TextInputKeyEvent>::empty());
    assert(seq![ev].last() == ev);
    let e = key_steps(kind, max_length, v, c, Seq::<TextInputKeyEvent>::empty());
    assert(e == (v, c, Seq::<EditReport>::empty()));
    let st = key_step(kind, max_length, v, c, ev);
    assert(e.2 + st.2 =~= st.2);
    assert(v.remove(c - 1) =~= v.take(c - 1) + v.skip(c));
}

/// The placeholder shows while the input is empty and unfocused.
pub fn should_show_placeholder(value: &str, is_focused: bool) -> (b: bool)
    ensures
        b == (value@.len() == 0 && !is_focused),
{
    value.is_empty() && !is_focused
}

/// What the input shows: the value, or one `*` per character for a
/// password.
pub fn display_value(input: &TextInput) -> (shown: String)
    ensures
        input.kind == TextInputKind::Password ==> shown@ == Seq::new(
            input.value@.len(),
            |i: int| '*',
        ),
        input.kind != TextInputKind::Password ==> shown@ == input.value@,
{
    if input.kind == TextInputKind::Password {
        let n = chars_of(input.value.as_str()).len();
        let mut masked: Vec<char> = Vec::new();
        let mut i: usize = 0;
        while i < n
            invariant
                i <= n,
                n == input.value@.len(),
                masked@ == Seq::new(i as nat, |j: int| '*'),
            decreases n - i,
        {
            masked.push('*');
            assert(masked@ =~= Seq::new((i + 1) as nat, |j: int| '*'));
            i += 1;
        }
        string_of(&masked)
    } else {
        input.value.clone()
    }
}

/// The floating label sits raised (small, focus-coloured) while the input
/// is focused or holds a value.
pub fn floating_label_active(input: &TextInput, is_focused: bool) -> (b: bool)
    ensures
        b == (is_focused || input.value@.len() != 0),
{
    is_focused || !input.value.as_str().is_empty()
}

/// The placeholder node is visible: never with a floating label, otherwise
/// while the input is empty and unfocused.
pub fn placeholder_visible(input: &TextInput, is_focused: bool) -> (b: bool)
    ensures
        b == (input.floating_label is None && input.value@.len() == 0 && !is_focused),
{
    input.floating_label.is_none() && should_show_placeholder(input.value.as_str(), is_focused)
}

/// The caret shows on a focused, enabled input during the visible half of
/// the blink.
pub fn caret_visible(input: &TextInput, is_focused: bool, blink_on: bool) -> (b: bool)
    ensures
        b == (is_focused && !input.disabled && blink_on),
{
    is_focused && !input.disabled && blink_on
}

/// The keyboard tab stop of an input: `-1` (skipped) when disabled.
pub fn tab_index(disabled: bool) -> (t: i32)
    ensures
        t == if disabled { -1i32 } else { 0i32 },
{
    if disabled { -1 } else { 0 }
}

/// The name assistive technology announces for an input configured with
/// `config`: its floating label when it has one, else its placeholder.
pub fn accessible_name(config: &TextInputConfig) -> (name: String)
    ensures
        name == match config.floating_label {
            Some(label) => label,
            None => config.placeholder,
        },
{
    match &config.floating_label {
        Some(label) => label.clone(),
        None => config.placeholder.clone(),
    }
}

/// The colour of the value's text: muted while disabled.
pub fn value_text_slot(input: &TextInput) -> (slot: ThemeSlot)
    ensures
        slot == if input.disabled {
            ThemeSlot::TextDisabled
        } else {
            ThemeSlot::Text
        },
{
    if input.disabled {
        ThemeSlot::TextDisabled
    } else {
        ThemeSlot::Text
    }
}

/// The colour of the floating label: muted while disabled, the focus
/// colour while raised, else the muted text colour.
pub fn floating_label_slot(input: &TextInput, is_focused: bool) -> (slot: ThemeSlot)
    ensures
        slot == if input.disabled {
            ThemeSlot::TextDisabled
        } else if is_focused || input.value@.len() != 0 {
            ThemeSlot::Focus
        } else {
            ThemeSlot::TextMuted
        },
{
    if input.disabled {
        ThemeSlot::TextDisabled
    } else if floating_label_active(input, is_focused) {
        ThemeSlot::Focus
    } else {
        ThemeSlot::TextMuted
    }
}

/// The theme colours of an input's surface, as `(fill, border)`. A search
/// field keeps the surface colour (its translucency follows the theme's
/// mode) and borders in the focus colour while focused; other inputs are
/// raised and neutral while disabled, raised and focus-bordered while
/// focused, and plain with a strong border otherwise.
pub open spec fn spec_surface_slots(
    kind: TextInputKind,
    disabled: bool,
    is_focused: bool,
) -> (ThemeSlot, ThemeSlot) {
    if kind == TextInputKind::Search {
        (ThemeSlot::Surface, if is_focused {
            ThemeSlot::Focus
        } else {
            ThemeSlot::Border
        })
    } else if disabled {
        (ThemeSlot::SurfaceElevated, ThemeSlot::Border)
    } else if is_focused {
        (ThemeSlot::SurfaceElevated, ThemeSlot::Focus)
    } else {
        (ThemeSlot::Surface, ThemeSlot::BorderStrong)
    }
}

/// The theme colours of an input's surface fill and border.
pub fn surface_slots(input: &TextInput, is_focused: bool) -> (slots: (ThemeSlot, ThemeSlot))
    ensures
        slots == spec_surface_slots(input.kind, input.disabled, is_focused),
{
    match input.kind {
        TextInputKind::Search => (ThemeSlot::Surface, if is_focused {
            ThemeSlot::Focus
        } else {
            ThemeSlot::Border
        }),
        _ => if input.disabled {
            (ThemeSlot::SurfaceElevated, ThemeSlot::Border)
        } else if is_focused {
            (ThemeSlot::SurfaceElevated, ThemeSlot::Focus)
        } else {
            (ThemeSlot::Surface, ThemeSlot::BorderStrong)
        },
    }
}

/// Focus changes for a click: `pressed` is the input under a press this
/// frame (with whether it is disabled), `focused` the inputs focused now.
/// A press on an enabled input focuses it and unfocuses the others; a press
/// on a disabled one changes nothing; a click elsewhere unfocuses all.
/// Returns the inputs to unfocus and the one to focus.
pub fn text_input_focus(
    pressed: Option<(u64, bool)>,
    focused: &Vec<u64>,
    mouse_just_pressed: bool,
) -> (r: (Vec<u64>, Option<u64>))
    ensures
        match pressed {
            Some((entity, true)) => r.0@.len() == 0 && r.1 is None,
            Some((entity, false)) => r.0@ == focused@.filter(|e: u64| e != entity) && (r.1
                == if focused@.contains(entity) {
                None
            } else {
                Some(entity)
            }),
            None => r.1 is None && r.0@ == if mouse_just_pressed {
                focused@
            } else {
                Seq::<u64>::empty()
            },
        },
{
    match pressed {
        Some((entity, disabled)) => {
            if disabled {
                return (Vec::new(), None);
            }
            let mut others: Vec<u64> = Vec::new();
            let mut already = false;
            let mut i: usize = 0;
            while i < focused.len()
                invariant
                    i <= focused.len(),
                    others@ == focused@.take(i as int).filter(|e: u64| e != entity),
                    already == focused@.take(i as int).contains(entity),
                decreases focused.len() - i,
            {
                let e = focused[i];
                proof {
                    assert(focused@.take(i + 1).drop_last() == focused@.take(i as int));
                    reveal_with_fuel(Seq::<_>::filter, 1);
                }
                if e == entity {
                    already = true;
                } else {
                    others.push(e);
                }
                proof {
                    assert(focused@.take(i + 1) == focused@.take(i as int).push(e));
                    let t = focused@.take(i as int);
                    if already && e != entity {
                        let k = choose|k: int| 0 <= k < t.len() && t[k] == entity;
                        assert(t.push(e)[k] == entity);
                    }
                    if e == entity {
                        assert(t.push(e)[t.len() as int] == entity);
                    }
                    if !already && e != entity {
                        assert forall|k: int| 0 <= k < t.len() + 1 implies #[trigger] t.push(e)[k] != entity by {
                            if k < t.len() {
                                assert(!(t[k] == entity));
                            }
                        }
                    }
                }
                i += 1;
            }
            proof {
                assert(focused@.take(focused.len() as int) == focused@);
            }
            (others, if already { None } else { Some(entity) })
        },
        None => {
            if mouse_just_pressed {
                (focused.clone(), None)
            } else {
                (Vec::new(), None)
            }
        },
    }
}

} // verus!
