use ansi_term::Style;
use status_bar::hint_keys::{preferred_key, lock_hint_key, secondary_keybinds};
use status_bar::keys::{BareKey, KeyModifier, KeyWithModifier};
use status_bar::line::{ColoredElements, SegmentStyle};
use status_bar::mode::{Action, Direction, InputMode, ModeInfo};

fn plain_segment() -> SegmentStyle {
    SegmentStyle {
        prefix_separator: Style::new(),
        char_left_separator: Style::new(),
        char_shortcut: Style::new(),
        char_right_separator: Style::new(),
        styled_text: Style::new(),
        suffix_separator: Style::new(),
    }
}

fn plain_colors() -> ColoredElements {
    ColoredElements {
        selected: plain_segment(),
        unselected: plain_segment(),
        unselected_alternate: plain_segment(),
        disabled: plain_segment(),
        superkey_prefix: Style::new(),
        superkey_suffix_separator: Style::new(),
    }
}

fn alt(b: BareKey) -> KeyWithModifier {
    KeyWithModifier::new(b).with_alt_modifier()
}

fn info(mode: InputMode, binds: Vec<(KeyWithModifier, Vec<Action>)>) -> ModeInfo {
    ModeInfo { mode, keybinds: vec![(mode, binds)], arrow_fonts: true, colors: plain_colors() }
}

#[test]
fn preferred_key_prefers_the_given_modifier() {
    let keys = vec![KeyWithModifier::new(BareKey::Char('g')), KeyWithModifier::new(BareKey::Char('g')).with_ctrl_modifier()];
    let k = preferred_key(&keys, BareKey::Char('g'), KeyModifier::Ctrl).unwrap();
    assert_eq!(k.key_modifiers, vec![KeyModifier::Ctrl]);
    let k = preferred_key(&keys, BareKey::Char('h'), KeyModifier::Ctrl).unwrap();
    assert!(k.key_modifiers.is_empty());
    assert!(preferred_key(&vec![], BareKey::Char('g'), KeyModifier::Ctrl).is_none());
}

#[test]
fn secondary_keys_of_the_current_mode() {
    let help = info(
        InputMode::Normal,
        vec![
            (KeyWithModifier::new(BareKey::Char('n')), vec![Action::NewPane]),
            (alt(BareKey::Char('n')), vec![Action::NewPane]),
            (alt(BareKey::Char('h')), vec![Action::MoveFocusOrTab(Direction::Left)]),
            (alt(BareKey::Up), vec![Action::MoveFocus(Direction::Up)]),
            (alt(BareKey::Right), vec![Action::MoveFocusOrTab(Direction::Right)]),
        ],
    );
    let keys = secondary_keybinds(&help);
    let new_pane = keys.new_pane.unwrap();
    assert_eq!(new_pane.bare_key, BareKey::Char('n'));
    assert_eq!(new_pane.key_modifiers, vec![KeyModifier::Alt]);
    let bare: Vec<BareKey> = keys.move_focus.iter().map(|k| k.bare_key).collect();
    assert_eq!(bare, vec![BareKey::Char('h'), BareKey::Up, BareKey::Right]);
}

#[test]
fn lock_hint_key_depends_on_the_mode() {
    let g = KeyWithModifier::new(BareKey::Char('g')).with_ctrl_modifier();
    let help = info(
        InputMode::Locked,
        vec![(g, vec![Action::SwitchToMode(InputMode::Normal)])],
    );
    let (key, emphasised) = lock_hint_key(&help);
    assert_eq!(key.unwrap().bare_key, BareKey::Char('g'));
    assert!(!emphasised);
    let help = info(
        InputMode::Pane,
        vec![(KeyWithModifier::new(BareKey::Char('l')), vec![Action::SwitchToMode(InputMode::Locked)])],
    );
    let (key, emphasised) = lock_hint_key(&help);
    assert_eq!(key.unwrap().bare_key, BareKey::Char('l'));
    assert!(emphasised);
}
