//! Modal dialogs: opening and closing on commands (a close wins over a
//! reopen in the same frame, and a reopen right after a close is held
//! back), which inputs close a modal, and where keyboard focus goes when it
//! opens and closes.
use vstd::prelude::*;
use std::collections::HashMap;

verus! {

broadcast use vstd::std_specs::hash::group_hash_axioms;

/// A modal dialog's open state and which inputs may close it.
#[derive(Clone, Copy, Debug, PartialEq, Eq, Structural)]
pub struct Modal {
    pub open: bool,
    pub close_on_backdrop: bool,
    pub close_on_escape: bool,
}

impl Default for Modal {
    fn default() -> (m: Self)
        ensures
            m == (Modal { open: false, close_on_backdrop: true, close_on_escape: true }),
    {
        Modal { open: false, close_on_backdrop: true, close_on_escape: true }
    }
}

impl Modal {
    /// A closed modal that the backdrop and Escape may close.
    pub fn new() -> (m: Self)
        ensures
            m == (Modal { open: false, close_on_backdrop: true, close_on_escape: true }),
    {
        Self::default()
    }

    /// The same modal, open.
    pub fn open(self) -> (m: Self)
        ensures
            m == (Modal { open: true, ..self }),
    {
        Modal { open: true, ..self }
    }

    /// The same modal, closed.
    pub fn closed(self) -> (m: Self)
        ensures
            m == (Modal { open: false, ..self }),
    {
        Modal { open: false, ..self }
    }

    /// Whether a click on the backdrop closes it.
    pub fn close_on_backdrop(self, enabled: bool) -> (m: Self)
        ensures
            m == (Modal { close_on_backdrop: enabled, ..self }),
    {
        Modal { close_on_backdrop: enabled, ..self }
    }

    /// Whether Escape closes it.
    pub fn close_on_escape(self, enabled: bool) -> (m: Self)
        ensures
            m == (Modal { close_on_escape: enabled, ..self }),
    {
        Modal { close_on_escape: enabled, ..self }
    }
}

/// How a modal's layer is mounted: whether its root is laid out, whether
/// its backdrop shows, and whether its focus scope traps keyboard focus.
#[derive(Clone, Copy, Debug, PartialEq, Eq, Structural)]
pub struct ModalLayer {
    pub displayed: bool,
    pub backdrop_visible: bool,
    pub focus_trap_active: bool,
}

/// The layer of a modal: all three follow whether it is open.
pub fn modal_layer(modal: &Modal) -> (l: ModalLayer)
    ensures
        l == (ModalLayer {
            displayed: modal.open,
            backdrop_visible: modal.open,
            focus_trap_active: modal.open,
        }),
{
    ModalLayer { displayed: modal.open, backdrop_visible: modal.open, focus_trap_active: modal.open }
}

/// The text of a basic modal.
pub struct BasicModalContent {
    pub title: String,
    pub body: String,
    pub dismiss_label: String,
}

impl BasicModalContent {
    /// A modal titled `title` saying `body`, dismissed by "Close".
    pub fn new(title: String, body: String) -> (c: Self)
        ensures
            c.title == title,
            c.body == body,
            c.dismiss_label@ == "Close"@,
    {
        BasicModalContent { title, body, dismiss_label: String::from_str("Close") }
    }

    /// Sets the dismiss button's label.
    pub fn dismiss_label(self, label: String) -> (c: Self)
        ensures
            c.title == self.title,
            c.body == self.body,
            c.dismiss_label == label,
    {
        BasicModalContent { dismiss_label: label, ..self }
    }
}

/// A request to open, close or toggle the modal `entity`.
#[derive(Clone, Copy, Debug, PartialEq, Eq, Structural)]
pub enum ModalCommand {
    Open(u64),
    Close(u64),
    Toggle(u64),
}

/// Reported when a modal opens.
#[derive(Clone, Copy, Debug, PartialEq, Eq, Structural)]
pub struct ModalOpened {
    pub entity: u64,
}

/// Reported when a modal closes.
#[derive(Clone, Copy, Debug, PartialEq, Eq, Structural)]
pub struct ModalClosed {
    pub entity: u64,
}

/// What processing modal commands reports, in order.
#[derive(Clone, Copy, Debug, PartialEq, Eq, Structural)]
pub enum ModalNotice {
    Opened(ModalOpened),
    Closed(ModalClosed),
}

/// When each modal last closed (in milliseconds of the application's
/// clock) and how long a reopen is held back after a close.
pub struct ModalDebounceState {
    pub last_closed_at: HashMap<u64, u64>,
    pub reopen_cooldown_ms: u64,
}

impl Default for ModalDebounceState {
    fn default() -> (d: Self)
        ensures
            d.last_closed_at@ == Map::<u64, u64>::empty(),
            d.reopen_cooldown_ms == 140,
    {
        ModalDebounceState { last_closed_at: HashMap::new(), reopen_cooldown_ms: 140 }
    }
}

/// The position of modal `e` among `modals`, if present (the first one).
pub open spec fn modal_index(modals: Seq<(u64, Modal)>, e: u64) -> Option<int>
    decreases modals.len(),
{
    if modals.len() == 0 {
        None
    } else if modals.last().0 == e && modal_index(modals.drop_last(), e) is None {
        Some(modals.len() - 1)
    } else {
        modal_index(modals.drop_last(), e)
    }
}

/// A reopen of `e` at `now` is held back: it closed less than `cooldown`
/// before.
pub open spec fn cooling_down(last: Map<u64, u64>, e: u64, now: u64, cooldown: u64) -> bool {
    last.contains_key(e) && now < last[e] + cooldown
}

/// Modal `i` set open or closed.
pub open spec fn with_open(modals: Seq<(u64, Modal)>, i: int, open: bool) -> Seq<(u64, Modal)> {
    modals.update(i, (modals[i].0, Modal { open, ..modals[i].1 }))
}

/// The state of one frame's command processing: the modals, the close
/// times, the modals closed this frame, and the notices so far.
pub struct CommandFrame {
    pub modals: Seq<(u64, Modal)>,
    pub last_closed: Map<u64, u64>,
    pub closed_this_frame: Set<u64>,
    pub notices: Seq<ModalNotice>,
}

/// One command's effect.
pub open spec fn command_step(f: CommandFrame, now: u64, cooldown: u64, cmd: ModalCommand) -> CommandFrame {
    match cmd {
        ModalCommand::Open(e) => {
            if f.closed_this_frame.contains(e) || cooling_down(f.last_closed, e, now, cooldown) {
                f
            } else {
                match modal_index(f.modals, e) {
                    None => f,
                    Some(i) => CommandFrame {
                        modals: with_open(f.modals, i, true),
                        notices: if f.modals[i].1.open {
                            f.notices
                        } else {
                            f.notices.push(ModalNotice::Opened(ModalOpened { entity: e }))
                        },
                        ..f
                    },
                }
            }
        },
        ModalCommand::Close(e) => match modal_index(f.modals, e) {
            None => f,
            Some(i) => CommandFrame {
                modals: with_open(f.modals, i, false),
                last_closed: f.last_closed.insert(e, now),
                closed_this_frame: f.closed_this_frame.insert(e),
                notices: if f.modals[i].1.open {
                    f.notices.push(ModalNotice::Closed(ModalClosed { entity: e }))
                } else {
                    f.notices
                },
            },
        },
        ModalCommand::Toggle(e) => {
            if f.closed_this_frame.contains(e) {
                f
            } else {
                match modal_index(f.modals, e) {
                    None => f,
                    Some(i) => if f.modals[i].1.open {
                        CommandFrame {
                            modals: with_open(f.modals, i, false),
                            last_closed: f.last_closed.insert(e, now),
                            closed_this_frame: f.closed_this_frame.insert(e),
                            notices: f.notices.push(ModalNotice::Closed(ModalClosed { entity: e })),
                        }
                    } else if cooling_down(f.last_closed, e, now, cooldown) {
                        f
                    } else {
                        CommandFrame {
                            modals: with_open(f.modals, i, true),
                            notices: f.notices.push(ModalNotice::Opened(ModalOpened { entity: e })),
                            ..f
                        }
                    },
                }
            }
        },
    }
}

/// The effect of a frame's commands, in order.
pub open spec fn command_steps(f: CommandFrame, now: u64, cooldown: u64, cmds: Seq<ModalCommand>) -> CommandFrame
    decreases cmds.len(),
{
    if cmds.len() == 0 {
        f
    } else {
        command_step(command_steps(f, now, cooldown, cmds.drop_last()), now, cooldown, cmds.last())
    }
}

/// The position found for a modal holds that modal.
pub proof fn lemma_index_valid(modals: Seq<(u64, Modal)>, e: u64)
    ensures
        modal_index(modals, e) matches Some(i) ==> 0 <= i < modals.len() && modals[i].0 == e,
    decreases modals.len(),
{
    if modals.len() > 0 {
        lemma_index_valid(modals.drop_last(), e);
    }
}

fn find_modal(modals: &Vec<(u64, Modal)>, e: u64) -> (i: Option<usize>)
    ensures
        i matches Some(k) ==> modal_index(modals@, e) == Some(k as int),
        i is None ==> modal_index(modals@, e) is None,
        i matches Some(k) ==> k < modals@.len() && modals@[k as int].0 == e,
{
    proof {
        lemma_index_valid(modals@, e);
    }
    let mut k: usize = 0;
    while k < modals.len()
        invariant
            k <= modals.len(),
            modal_index(modals@.take(k as int), e) is None,
        decreases modals.len() - k,
    {
        proof {
            assert(modals@.take(k + 1).drop_last() == modals@.take(k as int));
        }
        if modals[k].0 == e {
            proof {
                lemma_index_prefix(modals@, e, k as int);
            }
            return Some(k);
        }
        k += 1;
    }
    proof {
        assert(modals@.take(modals.len() as int) == modals@);
    }
    None
}

proof fn lemma_index_prefix(modals: Seq<(u64, Modal)>, e: u64, k: int)
    requires
        0 <= k < modals.len(),
        modals[k].0 == e,
        modal_index(modals.take(k), e) is None,
    ensures
        modal_index(modals, e) == Some(k),
    decreases modals.len(),
{
    if modals.len() == k + 1 {
        assert(modals.drop_last() == modals.take(k));
    } else {
        assert(modals.drop_last().take(k) == modals.take(k));
        lemma_index_prefix(modals.drop_last(), e, k);
    }
}

proof fn lemma_push_to_set(s: Seq<u64>, e: u64)
    ensures
        s.push(e).to_set() == s.to_set().insert(e),
{
    assert forall|x: u64| s.push(e).to_set().contains(x) == s.to_set().insert(e).contains(x) by {
        if s.contains(x) {
            let k = choose|k: int| 0 <= k < s.len() && s[k] == x;
            assert(s.push(e)[k] == x);
        }
        if x == e {
            assert(s.push(e)[s.len() as int] == e);
        }
        if s.push(e).contains(x) {
            let k = choose|k: int| 0 <= k < s.len() + 1 && s.push(e)[k] == x;
            if k < s.len() {
                assert(s[k] == x);
            }
        }
    }
    assert(s.push(e).to_set() =~= s.to_set().insert(e));
}

fn contains_entity(s: &Vec<u64>, e: u64) -> (b: bool)
    ensures
        b == s@.contains(e),
{
    let mut k: usize = 0;
    while k < s.len()
        invariant
            k <= s.len(),
            forall|j: int| 0 <= j < k ==> s@[j] != e,
        decreases s.len() - k,
    {
        if s[k] == e {
            return true;
        }
        k += 1;
    }
    false
}

fn is_cooling_down(debounce: &ModalDebounceState, e: u64, now: u64) -> (b: bool)
    ensures
        b == cooling_down(debounce.last_closed_at@, e, now, debounce.reopen_cooldown_ms),
{
    match debounce.last_closed_at.get(&e) {
        Some(last) => (now as u128) < (*last as u128) + (debounce.reopen_cooldown_ms as u128),
        None => false,
    }
}

/// Processes the modal commands of one frame at time `now_ms`, in order,
/// and returns the notices to report. Open opens a closed modal unless it
/// was closed earlier this frame or less than the cooldown ago; Close
/// closes it and records the time; Toggle does whichever applies.
/// Commands naming no modal are ignored.
pub fn modal_commands(
    modals: &mut Vec<(u64, Modal)>,
    commands: &Vec<ModalCommand>,
    now_ms: u64,
    debounce: &mut ModalDebounceState,
) -> (notices: Vec<ModalNotice>)
    ensures
        ({
            let r = command_steps(
                CommandFrame {
                    modals: old(modals)@,
                    last_closed: old(debounce).last_closed_at@,
                    closed_this_frame: Set::empty(),
                    notices: Seq::empty(),
                },
                now_ms,
                old(debounce).reopen_cooldown_ms,
                commands@,
            );
            &&& final(modals)@ == r.modals
            &&& final(debounce).last_closed_at@ == r.last_closed
            &&& final(debounce).reopen_cooldown_ms == old(debounce).reopen_cooldown_ms
            &&& notices@ == r.notices
        }),
{
    let mut notices: Vec<ModalNotice> = Vec::new();
    let mut closed: Vec<u64> = Vec::new();
    let cooldown = debounce.reopen_cooldown_ms;
    let ghost start = CommandFrame {
        modals: modals@,
        last_closed: debounce.last_closed_at@,
        closed_this_frame: Set::empty(),
        notices: Seq::empty(),
    };
    let mut n: usize = 0;
    proof {
        assert(commands@.take(0) == Seq::<ModalCommand>::empty());
        assert(closed@.to_set() == Set::<u64>::empty());
    }
    while n < commands.len()
        invariant
            n <= commands.len(),
            debounce.reopen_cooldown_ms == cooldown,
            ({
                let r = command_steps(start, now_ms, cooldown, commands@.take(n as int));
                &&& modals@ == r.modals
                &&& debounce.last_closed_at@ == r.last_closed
                &&& closed@.to_set() == r.closed_this_frame
                &&& notices@ == r.notices
            }),
        decreases commands.len() - n,
    {
        let cmd = commands[n];
        proof {
            assert(commands@.take(n + 1).drop_last() == commands@.take(n as int));
            assert(commands@.take(n + 1).last() == cmd);
        }
        let ghost f = command_steps(start, now_ms, cooldown, commands@.take(n as int));
        match cmd {
            ModalCommand::Open(e) => {
                if !contains_entity(&closed, e) && !is_cooling_down(debounce, e, now_ms) {
                    match find_modal(modals, e) {
                        Some(i) => {
                            let (id, m) = modals[i];
                            let was_open = m.open;
                            modals.set(i, (id, Modal { open: true, ..m }));
                            if !was_open {
                                notices.push(ModalNotice::Opened(ModalOpened { entity: e }));
                            }
                        },
                        None => {},
                    }
                }
            },
            ModalCommand::Close(e) => {
                match find_modal(modals, e) {
                    Some(i) => {
                        let (id, m) = modals[i];
                        let was_open = m.open;
                        modals.set(i, (id, Modal { open: false, ..m }));
                        if was_open {
                            notices.push(ModalNotice::Closed(ModalClosed { entity: e }));
                        }
                        debounce.last_closed_at.insert(e, now_ms);
                        let ghost pre = closed@;
                        closed.push(e);
                        proof {
                            lemma_push_to_set(pre, e);
                        }
                    },
                    None => {},
                }
            },
            ModalCommand::Toggle(e) => {
                if !contains_entity(&closed, e) {
                    match find_modal(modals, e) {
                        Some(i) => {
                            let (id, m) = modals[i];
                            if m.open {
                                modals.set(i, (id, Modal { open: false, ..m }));
                                notices.push(ModalNotice::Closed(ModalClosed { entity: e }));
                                debounce.last_closed_at.insert(e, now_ms);
                                let ghost pre = closed@;
                                closed.push(e);
                                proof {
                                    lemma_push_to_set(pre, e);
                                }
                            } else if !is_cooling_down(debounce, e, now_ms) {
                                modals.set(i, (id, Modal { open: true, ..m }));
                                notices.push(ModalNotice::Opened(ModalOpened { entity: e }));
                            }
                        },
                        None => {},
                    }
                }
            },
        }
        proof {
            let g = command_step(f, now_ms, cooldown, cmd);
            assert(modals@ == g.modals);
            assert(notices@ == g.notices);
        }
        n += 1;
    }
    proof {
        assert(commands@.take(commands.len() as int) == commands@);
    }
    notices
}

/// Once a modal is closed in a frame, nothing later in that frame
/// reopens it.
pub proof fn lemma_close_wins_within_frame(
    f: CommandFrame,
    now: u64,
    cooldown: u64,
    cmds: Seq<ModalCommand>,
    e: u64,
)
    requires
        f.closed_this_frame.contains(e),
        modal_index(f.modals, e) matches Some(i) && !f.modals[i].1.open,
    ensures
        command_steps(f, now, cooldown, cmds).closed_this_frame.contains(e),
        command_steps(f, now, cooldown, cmds).modals.len() == f.modals.len(),
        modal_index(command_steps(f, now, cooldown, cmds).modals, e) == modal_index(f.modals, e),
        modal_index(command_steps(f, now, cooldown, cmds).modals, e) matches Some(i)
            && !command_steps(f, now, cooldown, cmds).modals[i].1.open,
    decreases cmds.len(),
{
    if cmds.len() > 0 {
        lemma_close_wins_within_frame(f, now, cooldown, cmds.drop_last(), e);
        let g = command_steps(f, now, cooldown, cmds.drop_last());
        let i = modal_index(f.modals, e).unwrap();
        lemma_index_valid(g.modals, e);
        match cmds.last() {
            ModalCommand::Open(x) | ModalCommand::Close(x) | ModalCommand::Toggle(x) => {
                lemma_index_valid(g.modals, x);
            },
        }
        match cmds.last() {
            ModalCommand::Open(x) => {
                if let Some(j) = modal_index(g.modals, x) {
                    if x != e {
                        lemma_index_after_update(g.modals, j, true, e);
                    }
                }
            },
            ModalCommand::Close(x) => {
                if let Some(j) = modal_index(g.modals, x) {
                    lemma_index_after_update(g.modals, j, false, e);
                }
            },
            ModalCommand::Toggle(x) => {
                if let Some(j) = modal_index(g.modals, x) {
                    if x != e {
                        lemma_index_after_update(g.modals, j, !g.modals[j].1.open, e);
                    }
                }
            },
        }
    }
}

proof fn lemma_index_after_update(modals: Seq<(u64, Modal)>, j: int, open: bool, e: u64)
    requires
        0 <= j < modals.len(),
    ensures
        modal_index(with_open(modals, j, open), e) == modal_index(modals, e),
    decreases modals.len(),
{
    let m = with_open(modals, j, open);
    if j == modals.len() - 1 {
        assert(m.drop_last() == modals.drop_last());
    } else {
        assert(m.drop_last() == with_open(modals.drop_last(), j, open));
        lemma_index_after_update(modals.drop_last(), j, open, e);
    }
}

/// A frame that holds a Close of a modal leaves it closed, whatever
/// else the frame holds after it.
pub proof fn lemma_close_then_anything_stays_closed(
    f: CommandFrame,
    now: u64,
    cooldown: u64,
    before: Seq<ModalCommand>,
    after: Seq<ModalCommand>,
    e: u64,
)
    requires
        modal_index(command_steps(f, now, cooldown, before).modals, e) is Some,
    ensures
        ({
            let r = command_steps(f, now, cooldown, before.push(ModalCommand::Close(e)) + after);
            modal_index(r.modals, e) matches Some(i) && !r.modals[i].1.open
        }),
{
    let g = command_steps(f, now, cooldown, before);
    lemma_index_valid(g.modals, e);
    let c = command_steps(f, now, cooldown, before.push(ModalCommand::Close(e)));
    assert(before.push(ModalCommand::Close(e)).drop_last() == before);
    let i = modal_index(g.modals, e).unwrap();
    lemma_index_after_update(g.modals, i, false, e);
    lemma_close_wins_within_frame(c, now, cooldown, after, e);
    lemma_steps_append(f, now, cooldown, before.push(ModalCommand::Close(e)), after);
}

proof fn lemma_steps_append(
    f: CommandFrame,
    now: u64,
    cooldown: u64,
    a: Seq<ModalCommand>,
    b: Seq<ModalCommand>,
)
    ensures
        command_steps(f, now, cooldown, a + b) == command_steps(
            command_steps(f, now, cooldown, a),
            now,
            cooldown,
            b,
        ),
    decreases b.len(),
{
    if b.len() == 0 {
        assert(a + b == a);
    } else {
        assert((a + b).drop_last() == a + b.drop_last());
        assert((a + b).last() == b.last());
        lemma_steps_append(f, now, cooldown, a, b.drop_last());
    }
}

/// An Open arriving less than the cooldown after the modal closed
/// changes nothing.
pub proof fn lemma_reopen_within_cooldown_ignored(f: CommandFrame, now: u64, cooldown: u64, e: u64)
    requires
        cooling_down(f.last_closed, e, now, cooldown),
    ensures
        command_step(f, now, cooldown, ModalCommand::Open(e)) == f,
{
}

/// The Escape key went down: every open modal that Escape may close gets
/// a Close command.
pub fn modal_escape(modals: &Vec<(u64, Modal)>, escape_pressed: bool) -> (cmds: Vec<ModalCommand>)
    ensures
        !escape_pressed ==> cmds@.len() == 0,
        escape_pressed ==> cmds@ == modals@.filter(
            |m: (u64, Modal)| m.1.open && m.1.close_on_escape,
        ).map_values(|m: (u64, Modal)| ModalCommand::Close(m.0)),
{
    let mut cmds: Vec<ModalCommand> = Vec::new();
    if !escape_pressed {
        return cmds;
    }
    let mut k: usize = 0;
    while k < modals.len()
        invariant
            k <= modals.len(),
            cmds@ == modals@.take(k as int).filter(
                |m: (u64, Modal)| m.1.open && m.1.close_on_escape,
            ).map_values(|m: (u64, Modal)| ModalCommand::Close(m.0)),
        decreases modals.len() - k,
    {
        let (entity, m) = modals[k];
        proof {
            assert(modals@.take(k + 1).drop_last() == modals@.take(k as int));
            reveal_with_fuel(Seq::<_>::filter, 1);
        }
        if m.open && m.close_on_escape {
            cmds.push(ModalCommand::Close(entity));
        }
        proof {
            let p = |m: (u64, Modal)| m.1.open && m.1.close_on_escape;
            let fx = |m: (u64, Modal)| ModalCommand::Close(m.0);
            let before = modals@.take(k as int).filter(p);
            if p(modals@[k as int]) {
                assert(modals@.take(k + 1).filter(p) == before.push(modals@[k as int]));
                assert(before.push(modals@[k as int]).map_values(fx) == before.map_values(fx).push(
                    ModalCommand::Close(entity),
                ));
            } else {
                assert(modals@.take(k + 1).filter(p) == before);
            }
        }
        k += 1;
    }
    proof {
        assert(modals@.take(modals.len() as int) == modals@);
    }
    cmds
}

/// One entity on the path from an activated entity up to the root.
#[derive(Clone, Copy, Debug, PartialEq, Eq, Structural)]
pub struct ModalAncestor {
    pub entity: u64,
    /// It is a modal's backdrop overlay.
    pub overlay: bool,
    /// It is a modal, in this state.
    pub modal: Option<Modal>,
}

/// The outermost modal on `path`, if any.
pub open spec fn outermost_modal(path: Seq<ModalAncestor>) -> Option<(u64, Modal)>
    decreases path.len(),
{
    if path.len() == 0 {
        None
    } else {
        match path.last().modal {
            Some(m) => Some((path.last().entity, m)),
            None => outermost_modal(path.drop_last()),
        }
    }
}

/// An entity was activated; `path` leads from it up to the root. If the
/// path passes a backdrop overlay, the outermost modal on it closes when
/// it is open and its backdrop may close it.
pub fn modal_backdrop(path: &Vec<ModalAncestor>) -> (cmd: Option<ModalCommand>)
    ensures
        cmd == if (exists|k: int| 0 <= k < path@.len() && path@[k].overlay) {
            match outermost_modal(path@) {
                Some((e, m)) => if m.open && m.close_on_backdrop {
                    Some(ModalCommand::Close(e))
                } else {
                    None
                },
                None => None,
            }
        } else {
            None
        },
{
    let mut overlay_hit = false;
    let mut owner: Option<(u64, Modal)> = None;
    let mut k: usize = 0;
    while k < path.len()
        invariant
            k <= path.len(),
            overlay_hit == (exists|j: int| 0 <= j < k && path@[j].overlay),
            owner == outermost_modal(path@.take(k as int)),
        decreases path.len() - k,
    {
        let a = path[k];
        proof {
            assert(path@.take(k + 1).drop_last() == path@.take(k as int));
            assert(path@.take(k + 1).last() == a);
        }
        if a.overlay {
            overlay_hit = true;
        }
        match a.modal {
            Some(m) => {
                owner = Some((a.entity, m));
            },
            None => {},
        }
        k += 1;
    }
    proof {
        assert(path@.take(path.len() as int) == path@);
    }
    if !overlay_hit {
        return None;
    }
    match owner {
        Some((e, m)) => if m.open && m.close_on_backdrop {
            Some(ModalCommand::Close(e))
        } else {
            None
        },
        None => None,
    }
}

/// The modal owning the nearest action button (close or dismiss) on a
/// path from an activated entity up to the root; each entry holds the
/// owner if that entity is an action button.
pub fn action_button_owner(path: &Vec<Option<u64>>) -> (owner: Option<u64>)
    ensures
        owner == (if exists|k: int| 0 <= k < path@.len() && path@[k] is Some {
            path@[choose|k: int|
                0 <= k < path@.len() && path@[k] is Some && forall|j: int|
                    0 <= j < k ==> path@[j] is None]
        } else {
            None
        }),
{
    let mut k: usize = 0;
    while k < path.len()
        invariant
            k <= path.len(),
            forall|j: int| 0 <= j < k ==> path@[j] is None,
        decreases path.len() - k,
    {
        if path[k].is_some() {
            proof {
                let c = choose|c: int|
                    0 <= c < path@.len() && path@[c] is Some && forall|j: int|
                        0 <= j < c ==> path@[j] is None;
                if c < k {
                    assert(path@[c] is None);
                }
                if c > k {
                    assert(path@[k as int] is None);
                }
            }
            return path[k];
        }
        k += 1;
    }
    None
}

/// An action button of `modal` (the modal `owner`) was activated: an open
/// modal closes.
pub fn modal_button_command(owner: u64, modal: &Modal) -> (cmd: Option<ModalCommand>)
    ensures
        cmd == if modal.open {
            Some(ModalCommand::Close(owner))
        } else {
            None
        },
{
    if modal.open {
        Some(ModalCommand::Close(owner))
    } else {
        None
    }
}

/// The close button was pressed directly: an open modal closes.
pub fn modal_close_button_pressed(modal: &mut Modal)
    ensures
        *final(modal) == (Modal { open: false, ..*old(modal) }),
{
    if modal.open {
        modal.open = false;
    }
}

/// What a modal remembers to restore focus when it closes.
#[derive(Clone, Copy, Debug, PartialEq, Eq, Structural)]
pub struct ModalReturnFocus {
    pub previous: Option<u64>,
    pub was_open: bool,
}

impl Default for ModalReturnFocus {
    fn default() -> (r: Self)
        ensures
            r == (ModalReturnFocus { previous: None, was_open: false }),
    {
        ModalReturnFocus { previous: None, was_open: false }
    }
}

/// The remembered focus and the entity to focus after modal `entity`
/// changes to `open`, with `focused` focused now.
pub open spec fn focus_step(
    entity: u64,
    open: bool,
    memory: ModalReturnFocus,
    focused: Option<u64>,
    close_button: Option<u64>,
) -> (ModalReturnFocus, Option<u64>) {
    if memory.was_open == open {
        (memory, None)
    } else if open {
        (
            ModalReturnFocus { previous: focused, was_open: true },
            Some(
                match close_button {
                    Some(b) => b,
                    None => entity,
                },
            ),
        )
    } else {
        (ModalReturnFocus { previous: None, was_open: false }, memory.previous)
    }
}

/// The focus handling of modal `entity` after a change: returns whether
/// its focus trap is active and which entity to focus, if any. On opening
/// it remembers the focused entity and focuses its close button (or
/// itself); on closing it focuses the remembered entity.
pub fn modal_focus(
    entity: u64,
    modal: &Modal,
    memory: &mut ModalReturnFocus,
    focused: Option<u64>,
    close_button: Option<u64>,
) -> (r: (bool, Option<u64>))
    ensures
        r.0 == modal.open,
        (*final(memory), r.1) == focus_step(entity, modal.open, *old(memory), focused, close_button),
{
    if memory.was_open == modal.open {
        return (modal.open, None);
    }
    memory.was_open = modal.open;
    if modal.open {
        memory.previous = focused;
        let target = match close_button {
            Some(b) => b,
            None => entity,
        };
        (true, Some(target))
    } else {
        let previous = memory.previous;
        memory.previous = None;
        (false, previous)
    }
}

/// Opening a closed modal and then closing it gives focus back to
/// the entity that was focused before it opened, whatever was focused in
/// between.
pub proof fn lemma_focus_returns_after_close(
    entity: u64,
    memory: ModalReturnFocus,
    focused_before: Option<u64>,
    focused_after: Option<u64>,
    close_button: Option<u64>,
)
    requires
        !memory.was_open,
    ensures
        ({
            let opened = focus_step(entity, true, memory, focused_before, close_button);
            let closed = focus_step(entity, false, opened.0, focused_after, close_button);
            &&& opened.1 == Some(
                match close_button {
                    Some(b) => b,
                    None => entity,
                },
            )
            &&& closed.1 == focused_before
            &&& closed.0 == ModalReturnFocus { previous: None, was_open: false }
        }),
{
}

} // verus!
