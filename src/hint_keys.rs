//! The keys that the hint segments show; the host draws those segments.
use crate::keys::{has_modifier, BareKey, KeyModifier, KeyWithModifier};
use crate::mode::{action_key, key_views, matching_keys, Action, Direction, InputMode, ModeInfo};
use crate::shortcut::opt_view;
use vstd::prelude::*;

verus! {

/// The first key of `ks` that is `bare` with modifier `m`.
pub open spec fn first_with(ks: Seq<(BareKey, Set<KeyModifier>)>, bare: BareKey, m: KeyModifier) -> Option<(BareKey, Set<KeyModifier>)>
    decreases ks.len(),
{
    if ks.len() == 0 {
        None
    } else if ks[0].0 == bare && ks[0].1.contains(m) {
        Some(ks[0])
    } else {
        first_with(ks.drop_first(), bare, m)
    }
}

/// The key shown among `ks`: the first that is `bare` with modifier `m`,
/// else the first of all, else none.
pub open spec fn preferred(ks: Seq<(BareKey, Set<KeyModifier>)>, bare: BareKey, m: KeyModifier) -> Option<(BareKey, Set<KeyModifier>)> {
    match first_with(ks, bare, m) {
        Some(k) => Some(k),
        None => if ks.len() == 0 { None } else { Some(ks[0]) },
    }
}

/// The key shown, in the current mode, for action `a`, preferring `bare`
/// with modifier `m`.
pub open spec fn preferred_for(help: ModeInfo, a: Action, bare: BareKey, m: KeyModifier) -> Option<(BareKey, Set<KeyModifier>)> {
    preferred(key_views(matching_keys(help.binds_of(help.mode), a)), bare, m)
}

/// The first of `keys` that is `bare` with modifier `m`, else the first key.
pub fn preferred_key(keys: &Vec<KeyWithModifier>, bare: BareKey, m: KeyModifier) -> (r: Option<KeyWithModifier>)
    ensures
        opt_view(r) == preferred(key_views(keys@), bare, m),
{
    let ghost ks = key_views(keys@);
    let mut i: usize = 0;
    assert(ks.skip(0) =~= ks);
    while i < keys.len()
        invariant
            0 <= i <= keys@.len(),
            ks == key_views(keys@),
            first_with(ks.skip(i as int), bare, m) == first_with(ks, bare, m),
        decreases keys@.len() - i,
    {
        assert(ks.skip(i as int).drop_first() =~= ks.skip(i + 1));
        if keys[i].bare_key == bare && has_modifier(&keys[i].key_modifiers, m) {
            return Some(keys[i].duplicate());
        }
        i = i + 1;
    }
    if keys.len() == 0 {
        None
    } else {
        Some(keys[0].duplicate())
    }
}

/// The key shown in the current mode for action `a`.
fn key_for(help: &ModeInfo, a: Action, bare: BareKey, m: KeyModifier) -> (r: Option<KeyWithModifier>)
    ensures
        opt_view(r) == preferred_for(*help, a, bare, m),
{
    match help.keybinds_index(help.mode) {
        Some(i) => preferred_key(&action_key(&help.keybinds[i].1, a), bare, m),
        None => {
            let none: Vec<KeyWithModifier> = Vec::new();
            assert(key_views(none@) =~= key_views(matching_keys(help.binds_of(help.mode), a)));
            preferred_key(&none, bare, m)
        },
    }
}

/// The keys of the extra hints shown in the base modes.
pub struct SecondaryKeys {
    /// The key that opens a new pane.
    pub new_pane: Option<KeyWithModifier>,
    /// The keys that move the focus left, down, up and right, each if bound.
    pub move_focus: Vec<KeyWithModifier>,
}

/// The keys of the present values among `ks`, in order.
pub open spec fn present(ks: Seq<Option<(BareKey, Set<KeyModifier>)>>) -> Seq<(BareKey, Set<KeyModifier>)>
    decreases ks.len(),
{
    if ks.len() == 0 {
        Seq::empty()
    } else {
        let rest = present(ks.drop_last());
        match ks.last() {
            Some(k) => rest.push(k),
            None => rest,
        }
    }
}

/// The four focus keys looked for: left and right may also switch tabs.
pub open spec fn focus_keys(help: ModeInfo) -> Seq<Option<(BareKey, Set<KeyModifier>)>> {
    seq![
        preferred_for(help, Action::MoveFocusOrTab(Direction::Left), BareKey::Left, KeyModifier::Alt),
        preferred_for(help, Action::MoveFocus(Direction::Down), BareKey::Down, KeyModifier::Alt),
        preferred_for(help, Action::MoveFocus(Direction::Up), BareKey::Up, KeyModifier::Alt),
        preferred_for(help, Action::MoveFocusOrTab(Direction::Right), BareKey::Right, KeyModifier::Alt),
    ]
}

fn push_present(v: &mut Vec<KeyWithModifier>, k: Option<KeyWithModifier>, Ghost(seen): Ghost<Seq<Option<(BareKey, Set<KeyModifier>)>>>)
    requires
        key_views(old(v)@) == present(seen),
    ensures
        key_views(final(v)@) == present(seen.push(opt_view(k))),
{
    assert(seen.push(opt_view(k)).drop_last() =~= seen);
    match k {
        Some(k) => {
            assert(key_views(v@.push(k)) =~= key_views(v@).push(k@));
            v.push(k);
        },
        None => {},
    }
}

/// The keys for the "New Pane" and "Change Focus" hints of the current
/// mode, preferring the Alt bindings.
pub fn secondary_keybinds(help: &ModeInfo) -> (r: SecondaryKeys)
    ensures
        opt_view(r.new_pane) == preferred_for(*help, Action::NewPane, BareKey::Char('n'), KeyModifier::Alt),
        key_views(r.move_focus@) == present(focus_keys(*help)),
{
    let new_pane = key_for(help, Action::NewPane, BareKey::Char('n'), KeyModifier::Alt);
    let mut move_focus: Vec<KeyWithModifier> = Vec::new();
    let ghost f = focus_keys(*help);
    assert(key_views(move_focus@) =~= present(Seq::empty()));
    push_present(&mut move_focus, key_for(help, Action::MoveFocusOrTab(Direction::Left), BareKey::Left, KeyModifier::Alt), Ghost(Seq::empty()));
    assert(Seq::empty().push(f[0]) =~= f.take(1));
    push_present(&mut move_focus, key_for(help, Action::MoveFocus(Direction::Down), BareKey::Down, KeyModifier::Alt), Ghost(f.take(1)));
    assert(f.take(1).push(f[1]) =~= f.take(2));
    push_present(&mut move_focus, key_for(help, Action::MoveFocus(Direction::Up), BareKey::Up, KeyModifier::Alt), Ghost(f.take(2)));
    assert(f.take(2).push(f[2]) =~= f.take(3));
    push_present(&mut move_focus, key_for(help, Action::MoveFocusOrTab(Direction::Right), BareKey::Right, KeyModifier::Alt), Ghost(f.take(3)));
    assert(f.take(3).push(f[3]) =~= f);
    SecondaryKeys { new_pane, move_focus }
}

/// The action behind the current mode's "LOCK" hint: back to normal mode
/// when locked, else to locked mode.
pub open spec fn lock_hint_action(mode: InputMode) -> Action {
    if mode == InputMode::Locked {
        Action::SwitchToMode(InputMode::Normal)
    } else {
        Action::SwitchToMode(InputMode::Locked)
    }
}

/// The key of the current mode's "LOCK" hint, preferring Ctrl g; the hint is
/// emphasised in every mode but locked mode.
pub fn lock_hint_key(help: &ModeInfo) -> (r: (Option<KeyWithModifier>, bool))
    ensures
        opt_view(r.0) == preferred_for(*help, lock_hint_action(help.mode), BareKey::Char('g'), KeyModifier::Ctrl),
        r.1 == (help.mode != InputMode::Locked),
{
    let target = if help.mode == InputMode::Locked {
        Action::SwitchToMode(InputMode::Normal)
    } else {
        Action::SwitchToMode(InputMode::Locked)
    };
    (key_for(help, target, BareKey::Char('g'), KeyModifier::Ctrl), help.mode != InputMode::Locked)
}

} // verus!
