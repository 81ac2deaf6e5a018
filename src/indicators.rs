//! The shortcuts shown for each input mode.
use crate::analysis::{chosen_key, to_char};
use crate::keys::{BareKey, KeyModifier, KeyWithModifier};
use crate::mode::{action_key, key_views, matching_keys, Action, InputMode, ModeInfo};
use crate::shortcut::{opt_view, KeyAction, KeyMode, KeyShortcut};
use vstd::prelude::*;

verus! {

/// A shortcut as its display mode, action and key.
pub type ShortcutView = (KeyMode, KeyAction, Option<(BareKey, Set<KeyModifier>)>);

pub open spec fn shortcut_view(s: KeyShortcut) -> ShortcutView {
    (s.mode, s.action, opt_view(s.key))
}

pub open spec fn shortcuts_view(v: Seq<KeyShortcut>) -> Seq<ShortcutView> {
    v.map_values(|s: KeyShortcut| shortcut_view(s))
}

/// A table of shortcuts per input mode, as views.
pub open spec fn table_view(t: Seq<(InputMode, Vec<KeyShortcut>)>) -> Seq<(InputMode, Seq<ShortcutView>)> {
    t.map_values(|e: (InputMode, Vec<KeyShortcut>)| (e.0, shortcuts_view(e.1@)))
}

/// The key shown, in input mode `in_mode`, for the action `a`.
pub open spec fn bound_key(help: ModeInfo, in_mode: InputMode, a: Action) -> Option<(BareKey, Set<KeyModifier>)> {
    chosen_key(key_views(matching_keys(help.binds_of(in_mode), a)))
}

/// The shortcut with display mode `m` and action `k` whose key is the one
/// bound in `in_mode` to `a`.
pub open spec fn sv(help: ModeInfo, m: KeyMode, k: KeyAction, in_mode: InputMode, a: Action) -> ShortcutView {
    (m, k, bound_key(help, in_mode, a))
}

/// The shortcuts of each mode when normal mode is the base mode: normal mode
/// lists every mode, each other mode its own way back to normal.
pub open spec fn normal_base_table(help: ModeInfo) -> Seq<(InputMode, Seq<ShortcutView>)> {
    seq![
        (InputMode::Locked, seq![
            sv(help, KeyMode::Selected, KeyAction::Lock, InputMode::Locked, Action::SwitchToMode(InputMode::Normal)),
        ]),
        (InputMode::Normal, seq![
            sv(help, KeyMode::Unselected, KeyAction::Lock, InputMode::Normal, Action::SwitchToMode(InputMode::Locked)),
            sv(help, KeyMode::UnselectedAlternate, KeyAction::Pane, InputMode::Normal, Action::SwitchToMode(InputMode::Pane)),
            sv(help, KeyMode::Unselected, KeyAction::Tab, InputMode::Normal, Action::SwitchToMode(InputMode::Tab)),
            sv(help, KeyMode::UnselectedAlternate, KeyAction::Resize, InputMode::Normal, Action::SwitchToMode(InputMode::Resize)),
            sv(help, KeyMode::Unselected, KeyAction::Move, InputMode::Normal, Action::SwitchToMode(InputMode::Move)),
            sv(help, KeyMode::UnselectedAlternate, KeyAction::Search, InputMode::Normal, Action::SwitchToMode(InputMode::Scroll)),
            sv(help, KeyMode::Unselected, KeyAction::Session, InputMode::Normal, Action::SwitchToMode(InputMode::Session)),
            sv(help, KeyMode::UnselectedAlternate, KeyAction::Quit, InputMode::Normal, Action::Quit),
        ]),
        (InputMode::Pane, seq![
            sv(help, KeyMode::Selected, KeyAction::Pane, InputMode::Pane, Action::SwitchToMode(InputMode::Normal)),
        ]),
        (InputMode::Tab, seq![
            sv(help, KeyMode::Selected, KeyAction::Tab, InputMode::Tab, Action::SwitchToMode(InputMode::Normal)),
        ]),
        (InputMode::Resize, seq![
            sv(help, KeyMode::Selected, KeyAction::Resize, InputMode::Resize, Action::SwitchToMode(InputMode::Normal)),
        ]),
        (InputMode::Move, seq![
            sv(help, KeyMode::Selected, KeyAction::Move, InputMode::Move, Action::SwitchToMode(InputMode::Normal)),
        ]),
        (InputMode::Scroll, seq![
            sv(help, KeyMode::Selected, KeyAction::Search, InputMode::Scroll, Action::SwitchToMode(InputMode::Normal)),
        ]),
        (InputMode::Session, seq![
            sv(help, KeyMode::Selected, KeyAction::Session, InputMode::Session, Action::SwitchToMode(InputMode::Normal)),
        ]),
    ]
}

/// The shortcuts of each mode when locked mode is the base mode: every mode
/// but locked also shows the way to lock.
pub open spec fn locked_base_table(help: ModeInfo) -> Seq<(InputMode, Seq<ShortcutView>)> {
    seq![
        (InputMode::Locked, seq![
            sv(help, KeyMode::Unselected, KeyAction::Unlock, InputMode::Locked, Action::SwitchToMode(InputMode::Normal)),
        ]),
        (InputMode::Normal, seq![
            sv(help, KeyMode::Selected, KeyAction::Unlock, InputMode::Normal, Action::SwitchToMode(InputMode::Locked)),
            sv(help, KeyMode::UnselectedAlternate, KeyAction::Pane, InputMode::Normal, Action::SwitchToMode(InputMode::Pane)),
            sv(help, KeyMode::Unselected, KeyAction::Tab, InputMode::Normal, Action::SwitchToMode(InputMode::Tab)),
            sv(help, KeyMode::UnselectedAlternate, KeyAction::Resize, InputMode::Normal, Action::SwitchToMode(InputMode::Resize)),
            sv(help, KeyMode::Unselected, KeyAction::Move, InputMode::Normal, Action::SwitchToMode(InputMode::Move)),
            sv(help, KeyMode::UnselectedAlternate, KeyAction::Search, InputMode::Normal, Action::SwitchToMode(InputMode::Scroll)),
            sv(help, KeyMode::Unselected, KeyAction::Session, InputMode::Normal, Action::SwitchToMode(InputMode::Session)),
            sv(help, KeyMode::UnselectedAlternate, KeyAction::Quit, InputMode::Normal, Action::Quit),
        ]),
        (InputMode::Pane, seq![
            sv(help, KeyMode::Selected, KeyAction::Unlock, InputMode::Pane, Action::SwitchToMode(InputMode::Locked)),
            sv(help, KeyMode::Selected, KeyAction::Pane, InputMode::Pane, Action::SwitchToMode(InputMode::Normal)),
        ]),
        (InputMode::Tab, seq![
            sv(help, KeyMode::Selected, KeyAction::Unlock, InputMode::Tab, Action::SwitchToMode(InputMode::Locked)),
            sv(help, KeyMode::Selected, KeyAction::Tab, InputMode::Tab, Action::SwitchToMode(InputMode::Normal)),
        ]),
        (InputMode::Resize, seq![
            sv(help, KeyMode::Selected, KeyAction::Unlock, InputMode::Resize, Action::SwitchToMode(InputMode::Locked)),
            sv(help, KeyMode::Selected, KeyAction::Resize, InputMode::Resize, Action::SwitchToMode(InputMode::Normal)),
        ]),
        (InputMode::Move, seq![
            sv(help, KeyMode::Selected, KeyAction::Unlock, InputMode::Move, Action::SwitchToMode(InputMode::Locked)),
            sv(help, KeyMode::Selected, KeyAction::Move, InputMode::Move, Action::SwitchToMode(InputMode::Normal)),
        ]),
        (InputMode::Scroll, seq![
            sv(help, KeyMode::Selected, KeyAction::Unlock, InputMode::Scroll, Action::SwitchToMode(InputMode::Locked)),
            sv(help, KeyMode::Selected, KeyAction::Search, InputMode::Scroll, Action::SwitchToMode(InputMode::Normal)),
        ]),
        (InputMode::Session, seq![
            sv(help, KeyMode::Selected, KeyAction::Unlock, InputMode::Session, Action::SwitchToMode(InputMode::Locked)),
            sv(help, KeyMode::Selected, KeyAction::Session, InputMode::Session, Action::SwitchToMode(InputMode::Normal)),
        ]),
    ]
}

/// The shortcut with display mode `mode` and action `action` whose key is
/// the one bound in `in_mode` to `a`.
fn shortcut_for(help: &ModeInfo, mode: KeyMode, action: KeyAction, in_mode: InputMode, a: Action) -> (r: KeyShortcut)
    ensures
        shortcut_view(r) == sv(*help, mode, action, in_mode, a),
{
    let key = match help.keybinds_index(in_mode) {
        Some(i) => to_char(action_key(&help.keybinds[i].1, a)),
        None => {
            let none: Vec<KeyWithModifier> = Vec::new();
            assert(key_views(none@) =~= key_views(matching_keys(help.binds_of(in_mode), a)));
            to_char(none)
        },
    };
    KeyShortcut::new(mode, action, key)
}

/// The shortcut table used when normal mode is the base mode.
pub fn base_mode_normal_mode_indicators(help: &ModeInfo) -> (r: Vec<(InputMode, Vec<KeyShortcut>)>)
    ensures
        table_view(r@) == normal_base_table(*help),
{
    let mut r: Vec<(InputMode, Vec<KeyShortcut>)> = Vec::new();
    let mut v: Vec<KeyShortcut> = Vec::new();
    v.push(shortcut_for(help, KeyMode::Selected, KeyAction::Lock, InputMode::Locked, Action::SwitchToMode(InputMode::Normal)));
    proof {
        assert(shortcuts_view(v@) =~= seq![
            sv(*help, KeyMode::Selected, KeyAction::Lock, InputMode::Locked, Action::SwitchToMode(InputMode::Normal)),
        ]);
    }
    r.push((InputMode::Locked, v));
    let mut v: Vec<KeyShortcut> = Vec::new();
    v.push(shortcut_for(help, KeyMode::Unselected, KeyAction::Lock, InputMode::Normal, Action::SwitchToMode(InputMode::Locked)));
    v.push(shortcut_for(help, KeyMode::UnselectedAlternate, KeyAction::Pane, InputMode::Normal, Action::SwitchToMode(InputMode::Pane)));
    v.push(shortcut_for(help, KeyMode::Unselected, KeyAction::Tab, InputMode::Normal, Action::SwitchToMode(InputMode::Tab)));
    v.push(shortcut_for(help, KeyMode::UnselectedAlternate, KeyAction::Resize, InputMode::Normal, Action::SwitchToMode(InputMode::Resize)));
    v.push(shortcut_for(help, KeyMode::Unselected, KeyAction::Move, InputMode::Normal, Action::SwitchToMode(InputMode::Move)));
    v.push(shortcut_for(help, KeyMode::UnselectedAlternate, KeyAction::Search, InputMode::Normal, Action::SwitchToMode(InputMode::Scroll)));
    v.push(shortcut_for(help, KeyMode::Unselected, KeyAction::Session, InputMode::Normal, Action::SwitchToMode(InputMode::Session)));
    v.push(shortcut_for(help, KeyMode::UnselectedAlternate, KeyAction::Quit, InputMode::Normal, Action::Quit));
    proof {
        assert(shortcuts_view(v@) =~= seq![
            sv(*help, KeyMode::Unselected, KeyAction::Lock, InputMode::Normal, Action::SwitchToMode(InputMode::Locked)),
            sv(*help, KeyMode::UnselectedAlternate, KeyAction::Pane, InputMode::Normal, Action::SwitchToMode(InputMode::Pane)),
            sv(*help, KeyMode::Unselected, KeyAction::Tab, InputMode::Normal, Action::SwitchToMode(InputMode::Tab)),
            sv(*help, KeyMode::UnselectedAlternate, KeyAction::Resize, InputMode::Normal, Action::SwitchToMode(InputMode::Resize)),
            sv(*help, KeyMode::Unselected, KeyAction::Move, InputMode::Normal, Action::SwitchToMode(InputMode::Move)),
            sv(*help, KeyMode::UnselectedAlternate, KeyAction::Search, InputMode::Normal, Action::SwitchToMode(InputMode::Scroll)),
            sv(*help, KeyMode::Unselected, KeyAction::Session, InputMode::Normal, Action::SwitchToMode(InputMode::Session)),
            sv(*help, KeyMode::UnselectedAlternate, KeyAction::Quit, InputMode::Normal, Action::Quit),
        ]);
    }
    r.push((InputMode::Normal, v));
    let mut v: Vec<KeyShortcut> = Vec::new();
    v.push(shortcut_for(help, KeyMode::Selected, KeyAction::Pane, InputMode::Pane, Action::SwitchToMode(InputMode::Normal)));
    proof {
        assert(shortcuts_view(v@) =~= seq![
            sv(*help, KeyMode::Selected, KeyAction::Pane, InputMode::Pane, Action::SwitchToMode(InputMode::Normal)),
        ]);
    }
    r.push((InputMode::Pane, v));
    let mut v: Vec<KeyShortcut> = Vec::new();
    v.push(shortcut_for(help, KeyMode::Selected, KeyAction::Tab, InputMode::Tab, Action::SwitchToMode(InputMode::Normal)));
    proof {
        assert(shortcuts_view(v@) =~= seq![
            sv(*help, KeyMode::Selected, KeyAction::Tab, InputMode::Tab, Action::SwitchToMode(InputMode::Normal)),
        ]);
    }
    r.push((InputMode::Tab, v));
    let mut v: Vec<KeyShortcut> = Vec::new();
    v.push(shortcut_for(help, KeyMode::Selected, KeyAction::Resize, InputMode::Resize, Action::SwitchToMode(InputMode::Normal)));
    proof {
        assert(shortcuts_view(v@) =~= seq![
            sv(*help, KeyMode::Selected, KeyAction::Resize, InputMode::Resize, Action::SwitchToMode(InputMode::Normal)),
        ]);
    }
    r.push((InputMode::Resize, v));
    let mut v: Vec<KeyShortcut> = Vec::new();
    v.push(shortcut_for(help, KeyMode::Selected, KeyAction::Move, InputMode::Move, Action::SwitchToMode(InputMode::Normal)));
    proof {
        assert(shortcuts_view(v@) =~= seq![
            sv(*help, KeyMode::Selected, KeyAction::Move, InputMode::Move, Action::SwitchToMode(InputMode::Normal)),
        ]);
    }
    r.push((InputMode::Move, v));
    let mut v: Vec<KeyShortcut> = Vec::new();
    v.push(shortcut_for(help, KeyMode::Selected, KeyAction::Search, InputMode::Scroll, Action::SwitchToMode(InputMode::Normal)));
    proof {
        assert(shortcuts_view(v@) =~= seq![
            sv(*help, KeyMode::Selected, KeyAction::Search, InputMode::Scroll, Action::SwitchToMode(InputMode::Normal)),
        ]);
    }
    r.push((InputMode::Scroll, v));
    let mut v: Vec<KeyShortcut> = Vec::new();
    v.push(shortcut_for(help, KeyMode::Selected, KeyAction::Session, InputMode::Session, Action::SwitchToMode(InputMode::Normal)));
    proof {
        assert(shortcuts_view(v@) =~= seq![
            sv(*help, KeyMode::Selected, KeyAction::Session, InputMode::Session, Action::SwitchToMode(InputMode::Normal)),
        ]);
    }
    r.push((InputMode::Session, v));
    assert(table_view(r@) =~= normal_base_table(*help));
    r
}

/// The shortcut table used when locked mode is the base mode.
pub fn base_mode_locked_mode_indicators(help: &ModeInfo) -> (r: Vec<(InputMode, Vec<KeyShortcut>)>)
    ensures
        table_view(r@) == locked_base_table(*help),
{
    let mut r: Vec<(InputMode, Vec<KeyShortcut>)> = Vec::new();
    let mut v: Vec<KeyShortcut> = Vec::new();
    v.push(shortcut_for(help, KeyMode::Unselected, KeyAction::Unlock, InputMode::Locked, Action::SwitchToMode(InputMode::Normal)));
    proof {
        assert(shortcuts_view(v@) =~= seq![
            sv(*help, KeyMode::Unselected, KeyAction::Unlock, InputMode::Locked, Action::SwitchToMode(InputMode::Normal)),
        ]);
    }
    r.push((InputMode::Locked, v));
    let mut v: Vec<KeyShortcut> = Vec::new();
    v.push(shortcut_for(help, KeyMode::Selected, KeyAction::Unlock, InputMode::Normal, Action::SwitchToMode(InputMode::Locked)));
    v.push(shortcut_for(help, KeyMode::UnselectedAlternate, KeyAction::Pane, InputMode::Normal, Action::SwitchToMode(InputMode::Pane)));
    v.push(shortcut_for(help, KeyMode::Unselected, KeyAction::Tab, InputMode::Normal, Action::SwitchToMode(InputMode::Tab)));
    v.push(shortcut_for(help, KeyMode::UnselectedAlternate, KeyAction::Resize, InputMode::Normal, Action::SwitchToMode(InputMode::Resize)));
    v.push(shortcut_for(help, KeyMode::Unselected, KeyAction::Move, InputMode::Normal, Action::SwitchToMode(InputMode::Move)));
    v.push(shortcut_for(help, KeyMode::UnselectedAlternate, KeyAction::Search, InputMode::Normal, Action::SwitchToMode(InputMode::Scroll)));
    v.push(shortcut_for(help, KeyMode::Unselected, KeyAction::Session, InputMode::Normal, Action::SwitchToMode(InputMode::Session)));
    v.push(shortcut_for(help, KeyMode::UnselectedAlternate, KeyAction::Quit, InputMode::Normal, Action::Quit));
    proof {
        assert(shortcuts_view(v@) =~= seq![
            sv(*help, KeyMode::Selected, KeyAction::Unlock, InputMode::Normal, Action::SwitchToMode(InputMode::Locked)),
            sv(*help, KeyMode::UnselectedAlternate, KeyAction::Pane, InputMode::Normal, Action::SwitchToMode(InputMode::Pane)),
            sv(*help, KeyMode::Unselected, KeyAction::Tab, InputMode::Normal, Action::SwitchToMode(InputMode::Tab)),
            sv(*help, KeyMode::UnselectedAlternate, KeyAction::Resize, InputMode::Normal, Action::SwitchToMode(InputMode::Resize)),
            sv(*help, KeyMode::Unselected, KeyAction::Move, InputMode::Normal, Action::SwitchToMode(InputMode::Move)),
            sv(*help, KeyMode::UnselectedAlternate, KeyAction::Search, InputMode::Normal, Action::SwitchToMode(InputMode::Scroll)),
            sv(*help, KeyMode::Unselected, KeyAction::Session, InputMode::Normal, Action::SwitchToMode(InputMode::Session)),
            sv(*help, KeyMode::UnselectedAlternate, KeyAction::Quit, InputMode::Normal, Action::Quit),
        ]);
    }
    r.push((InputMode::Normal, v));
    let mut v: Vec<KeyShortcut> = Vec::new();
    v.push(shortcut_for(help, KeyMode::Selected, KeyAction::Unlock, InputMode::Pane, Action::SwitchToMode(InputMode::Locked)));
    v.push(shortcut_for(help, KeyMode::Selected, KeyAction::Pane, InputMode::Pane, Action::SwitchToMode(InputMode::Normal)));
    proof {
        assert(shortcuts_view(v@) =~= seq![
            sv(*help, KeyMode::Selected, KeyAction::Unlock, InputMode::Pane, Action::SwitchToMode(InputMode::Locked)),
            sv(*help, KeyMode::Selected, KeyAction::Pane, InputMode::Pane, Action::SwitchToMode(InputMode::Normal)),
        ]);
    }
    r.push((InputMode::Pane, v));
    let mut v: Vec<KeyShortcut> = Vec::new();
    v.push(shortcut_for(help, KeyMode::Selected, KeyAction::Unlock, InputMode::Tab, Action::SwitchToMode(InputMode::Locked)));
    v.push(shortcut_for(help, KeyMode::Selected, KeyAction::Tab, InputMode::Tab, Action::SwitchToMode(InputMode::Normal)));
    proof {
        assert(shortcuts_view(v@) =~= seq![
            sv(*help, KeyMode::Selected, KeyAction::Unlock, InputMode::Tab, Action::SwitchToMode(InputMode::Locked)),
            sv(*help, KeyMode::Selected, KeyAction::Tab, InputMode::Tab, Action::SwitchToMode(InputMode::Normal)),
        ]);
    }
    r.push((InputMode::Tab, v));
    let mut v: Vec<KeyShortcut> = Vec::new();
    v.push(shortcut_for(help, KeyMode::Selected, KeyAction::Unlock, InputMode::Resize, Action::SwitchToMode(InputMode::Locked)));
    v.push(shortcut_for(help, KeyMode::Selected, KeyAction::Resize, InputMode::Resize, Action::SwitchToMode(InputMode::Normal)));
    proof {
        assert(shortcuts_view(v@) =~= seq![
            sv(*help, KeyMode::Selected, KeyAction::Unlock, InputMode::Resize, Action::SwitchToMode(InputMode::Locked)),
            sv(*help, KeyMode::Selected, KeyAction::Resize, InputMode::Resize, Action::SwitchToMode(InputMode::Normal)),
        ]);
    }
    r.push((InputMode::Resize, v));
    let mut v: Vec<KeyShortcut> = Vec::new();
    v.push(shortcut_for(help, KeyMode::Selected, KeyAction::Unlock, InputMode::Move, Action::SwitchToMode(InputMode::Locked)));
    v.push(shortcut_for(help, KeyMode::Selected, KeyAction::Move, InputMode::Move, Action::SwitchToMode(InputMode::Normal)));
    proof {
        assert(shortcuts_view(v@) =~= seq![
            sv(*help, KeyMode::Selected, KeyAction::Unlock, InputMode::Move, Action::SwitchToMode(InputMode::Locked)),
            sv(*help, KeyMode::Selected, KeyAction::Move, InputMode::Move, Action::SwitchToMode(InputMode::Normal)),
        ]);
    }
    r.push((InputMode::Move, v));
    let mut v: Vec<KeyShortcut> = Vec::new();
    v.push(shortcut_for(help, KeyMode::Selected, KeyAction::Unlock, InputMode::Scroll, Action::SwitchToMode(InputMode::Locked)));
    v.push(shortcut_for(help, KeyMode::Selected, KeyAction::Search, InputMode::Scroll, Action::SwitchToMode(InputMode::Normal)));
    proof {
        assert(shortcuts_view(v@) =~= seq![
            sv(*help, KeyMode::Selected, KeyAction::Unlock, InputMode::Scroll, Action::SwitchToMode(InputMode::Locked)),
            sv(*help, KeyMode::Selected, KeyAction::Search, InputMode::Scroll, Action::SwitchToMode(InputMode::Normal)),
        ]);
    }
    r.push((InputMode::Scroll, v));
    let mut v: Vec<KeyShortcut> = Vec::new();
    v.push(shortcut_for(help, KeyMode::Selected, KeyAction::Unlock, InputMode::Session, Action::SwitchToMode(InputMode::Locked)));
    v.push(shortcut_for(help, KeyMode::Selected, KeyAction::Session, InputMode::Session, Action::SwitchToMode(InputMode::Normal)));
    proof {
        assert(shortcuts_view(v@) =~= seq![
            sv(*help, KeyMode::Selected, KeyAction::Unlock, InputMode::Session, Action::SwitchToMode(InputMode::Locked)),
            sv(*help, KeyMode::Selected, KeyAction::Session, InputMode::Session, Action::SwitchToMode(InputMode::Normal)),
        ]);
    }
    r.push((InputMode::Session, v));
    assert(table_view(r@) =~= locked_base_table(*help));
    r
}

} // verus!
