//! Input modes, the actions keys are bound to, and the host's snapshot.
use crate::keys::{BareKey, KeyModifier, KeyWithModifier};
use crate::line::ColoredElements;
use vstd::prelude::*;

verus! {

/// The input mode of the application.
#[derive(Clone, Copy, Debug, PartialEq, Eq, Structural)]
pub enum InputMode {
    Normal,
    Locked,
    Resize,
    Pane,
    Tab,
    Scroll,
    EnterSearch,
    Search,
    RenameTab,
    RenamePane,
    Session,
    Move,
    Prompt,
    Tmux,
}

/// A direction on screen.
#[derive(Clone, Copy, Debug, PartialEq, Eq, Structural)]
pub enum Direction {
    Left,
    Right,
    Up,
    Down,
}

/// What a key binding does, as far as the status line needs to know.
#[derive(Clone, Copy, Debug, PartialEq, Eq, Structural)]
pub enum Action {
    /// Switch to another input mode.
    SwitchToMode(InputMode),
    /// Quit the application.
    Quit,
    /// Open a new pane.
    NewPane,
    /// Move the focus to the neighbouring pane.
    MoveFocus(Direction),
    /// Move the focus to the neighbouring pane, or tab at the edge.
    MoveFocusOrTab(Direction),
    /// Any other action.
    Other,
}

/// A key and the actions it triggers, in order.
pub type Binding = (KeyWithModifier, Vec<Action>);

/// The snapshot of the host's state that one render reads.
pub struct ModeInfo {
    /// The current input mode.
    pub mode: InputMode,
    /// For each input mode, its key bindings.
    pub keybinds: Vec<(InputMode, Vec<Binding>)>,
    /// Whether the terminal draws arrow-shaped separator glyphs; when it
    /// does, the banner ends in " + " rather than " +".
    pub arrow_fonts: bool,
    /// The resolved styles.
    pub colors: ColoredElements,
}

/// What the status line shows of the active tab.
pub struct TabInfo {
    pub active_swap_layout_name: Option<String>,
    pub is_swap_layout_dirty: bool,
}

/// The bindings listed for `mode`: those of its first entry, or none.
pub open spec fn binds_for(kb: Seq<(InputMode, Vec<Binding>)>, mode: InputMode) -> Seq<Binding>
    decreases kb.len(),
{
    if kb.len() == 0 {
        Seq::empty()
    } else if kb[0].0 == mode {
        kb[0].1@
    } else {
        binds_for(kb.drop_first(), mode)
    }
}

impl ModeInfo {
    /// The bindings of input mode `mode`.
    pub open spec fn binds_of(&self, mode: InputMode) -> Seq<Binding> {
        binds_for(self.keybinds@, mode)
    }

    /// The position in `keybinds` of the entry for `mode`, if there is one.
    pub fn keybinds_index(&self, mode: InputMode) -> (r: Option<usize>)
        ensures
            r is None ==> self.binds_of(mode) == Seq::<Binding>::empty(),
            r matches Some(i) ==> i < self.keybinds@.len() && self.keybinds@[i as int].1@
                == self.binds_of(mode),
    {
        let mut i: usize = 0;
        assert(self.keybinds@.skip(0) =~= self.keybinds@);
        while i < self.keybinds.len()
            invariant
                0 <= i <= self.keybinds@.len(),
                binds_for(self.keybinds@.skip(i as int), mode) == self.binds_of(mode),
            decreases self.keybinds@.len() - i,
        {
            assert(self.keybinds@.skip(i as int).drop_first() =~= self.keybinds@.skip(i + 1));
            if self.keybinds[i].0 == mode {
                return Some(i);
            }
            i = i + 1;
        }
        None
    }
}

/// The keys that, alone, trigger exactly the action list `[a]`, in order.
pub open spec fn matching_keys(binds: Seq<Binding>, a: Action) -> Seq<KeyWithModifier>
    decreases binds.len(),
{
    if binds.len() == 0 {
        Seq::empty()
    } else {
        let rest = matching_keys(binds.drop_last(), a);
        if binds.last().1@ == seq![a] { rest.push(binds.last().0) } else { rest }
    }
}

/// The views of a sequence of keys.
pub open spec fn key_views(ks: Seq<KeyWithModifier>) -> Seq<(BareKey, Set<KeyModifier>)> {
    ks.map_values(|k: KeyWithModifier| k@)
}

/// Whether `actions` is exactly `[a]`.
fn is_only(actions: &Vec<Action>, a: Action) -> (r: bool)
    ensures
        r == (actions@ == seq![a]),
{
    if actions.len() == 1 && actions[0] == a {
        assert(actions@ =~= seq![a]);
        true
    } else {
        false
    }
}

/// The keys bound to exactly the one action `a`, in the order of `binds`.
pub fn action_key(binds: &Vec<Binding>, a: Action) -> (r: Vec<KeyWithModifier>)
    ensures
        key_views(r@) == key_views(matching_keys(binds@, a)),
{
    let mut r: Vec<KeyWithModifier> = Vec::new();
    let mut i: usize = 0;
    while i < binds.len()
        invariant
            0 <= i <= binds@.len(),
            key_views(r@) == key_views(matching_keys(binds@.take(i as int), a)),
        decreases binds@.len() - i,
    {
        assert(binds@.take(i + 1).drop_last() =~= binds@.take(i as int));
        if is_only(&binds[i].1, a) {
            let k = binds[i].0.duplicate();
            proof {
                assert(k@ == binds@[i as int].0@);
                assert(key_views(r@.push(k)) =~= key_views(r@).push(k@));
                assert(key_views(matching_keys(binds@.take(i as int), a).push(binds@[i as int].0))
                    =~= key_views(matching_keys(binds@.take(i as int), a)).push(binds@[i as int].0@));
            }
            r.push(k);
        }
        i = i + 1;
    }
    assert(binds@.take(binds@.len() as int) =~= binds@);
    r
}

} // verus!
