use status_bar::keys::{bare_key_label, modifiers_label, BareKey, KeyModifier, KeyWithModifier};
use status_bar::mode::InputMode;
use status_bar::shortcut::{KeyAction, KeyMode, KeyShortcut};

#[test]
fn key_text_of_named_and_function_keys() {
    assert_eq!(KeyWithModifier::new(BareKey::Backspace).to_text(), "BACKSPACE");
    assert_eq!(KeyWithModifier::new(BareKey::Char(' ')).to_text(), "SPACE");
    assert_eq!(KeyWithModifier::new(BareKey::F(7)).to_text(), "F7");
    assert_eq!(KeyWithModifier::new(BareKey::F(12)).to_text(), "F12");
    assert_eq!(KeyWithModifier::new(BareKey::F(255)).to_text(), "F255");
    assert_eq!(bare_key_label(BareKey::Right), "\u{2192}");
    assert_eq!(bare_key_label(BareKey::PageDown), "PgDn");
}

#[test]
fn key_text_lists_modifiers_in_canonical_order() {
    let k = KeyWithModifier::new(BareKey::Char('x')).with_alt_modifier().with_ctrl_modifier();
    assert_eq!(k.to_text(), "Ctrl Alt x");
    let k = KeyWithModifier::new_with_modifiers(
        BareKey::Char('y'),
        vec![KeyModifier::Super, KeyModifier::Shift, KeyModifier::Shift],
    );
    assert_eq!(k.to_text(), "Shift Super y");
    assert_eq!(modifiers_label(&vec![KeyModifier::Super, KeyModifier::Ctrl], true, "-"), "^C-^Su");
}

#[test]
fn stripping_the_whole_modifier_set_leaves_the_bare_key() {
    let k = KeyWithModifier::new(BareKey::Char('a')).with_ctrl_modifier().with_alt_modifier();
    let stripped = k.strip_common_modifiers(&vec![KeyModifier::Alt, KeyModifier::Ctrl]);
    assert!(stripped.key_modifiers.is_empty());
    assert_eq!(stripped.bare_key, BareKey::Char('a'));
    assert_eq!(stripped.to_text(), "a");
}

#[test]
fn stripping_an_absent_modifier_changes_nothing() {
    let k = KeyWithModifier::new(BareKey::Char('a')).with_ctrl_modifier();
    let stripped = k.strip_common_modifiers(&vec![KeyModifier::Super]);
    assert_eq!(stripped.key_modifiers, vec![KeyModifier::Ctrl]);
    assert_eq!(stripped.to_text(), "Ctrl a");
}

#[test]
fn shortcut_texts() {
    let key = KeyShortcut::new(KeyMode::Selected, KeyAction::Resize, Some(KeyWithModifier::new(BareKey::Char('r')).with_ctrl_modifier()));
    assert_eq!(key.full_text(), "RESIZE");
    assert_eq!(key.letter_shortcut(&vec![]), "Ctrl r");
    assert_eq!(key.letter_shortcut(&vec![KeyModifier::Ctrl]), "r");
    assert_eq!(key.with_shortened_modifiers(&vec![]), "^C r");
    assert_eq!(key.with_shortened_modifiers(&vec![KeyModifier::Ctrl]), "r");
    assert!(key.is_selected());
    assert_eq!(key.get_mode(), KeyMode::Selected);
    assert_eq!(key.get_action(), KeyAction::Resize);
    assert_eq!(key.get_key().unwrap().key_modifiers, vec![KeyModifier::Ctrl]);
    let unbound = KeyShortcut::new(KeyMode::Unselected, KeyAction::Normal, None);
    assert_eq!(unbound.full_text(), "UNLOCK");
    assert_eq!(unbound.letter_shortcut(&vec![]), "?");
    assert_eq!(unbound.with_shortened_modifiers(&vec![]), "?");
    assert!(!unbound.is_selected());
    assert!(unbound.get_key().is_none());
}

#[test]
fn action_of_input_mode() {
    assert_eq!(KeyAction::from(InputMode::Locked), KeyAction::Lock);
    assert_eq!(KeyAction::from(InputMode::Tmux), KeyAction::Normal);
    assert_eq!(KeyShortcut::new(KeyMode::Selected, KeyAction::Tmux, None).full_text(), "TMUX");
    assert_eq!(KeyAction::from(InputMode::Scroll), KeyAction::Normal);
    assert_eq!(KeyAction::from(InputMode::Search), KeyAction::Search);
}
