use ansi_term::{Colour, Style};
use status_bar::keys::{BareKey, KeyModifier, KeyWithModifier};
use status_bar::line::{ColoredElements, LinePart, SegmentStyle};
use status_bar::shortcut::{long_mode_shortcut, short_mode_shortcut, shortened_modifier_shortcut, KeyAction, KeyMode, KeyShortcut};

fn segment(c: Colour) -> SegmentStyle {
    SegmentStyle {
        prefix_separator: Style::new().fg(c),
        char_left_separator: Style::new().fg(c).bold(),
        char_shortcut: Style::new().fg(Colour::Black).on(c),
        char_right_separator: Style::new().fg(c).bold(),
        styled_text: Style::new().fg(c).italic(),
        suffix_separator: Style::new().fg(c).on(Colour::Black),
    }
}

fn colored_elements() -> ColoredElements {
    ColoredElements {
        selected: segment(Colour::Green),
        unselected: segment(Colour::Red),
        unselected_alternate: segment(Colour::Blue),
        disabled: segment(Colour::Fixed(8)),
        superkey_prefix: Style::new().bold(),
        superkey_suffix_separator: Style::new().fg(Colour::Yellow),
    }
}

// Removes the escape codes of the styled text.
fn strip_escapes(s: &str) -> String {
    let mut out = String::new();
    let mut in_escape = false;
    for c in s.chars() {
        if in_escape {
            if c == 'm' {
                in_escape = false;
            }
        } else if c == '\x1b' {
            in_escape = true;
        } else {
            out.push(c);
        }
    }
    out
}

// The text of a part without its styles; also checks that the recorded
// length is its number of characters.
fn unstyle(line_part: LinePart) -> String {
    let plain = strip_escapes(&line_part.part());
    assert_eq!(plain, line_part.text());
    assert_eq!(line_part.len, plain.chars().count());
    plain
}

#[test]
fn long_mode_shortcut_selected_with_binding() {
    let key = KeyShortcut::new(KeyMode::Selected, KeyAction::Session, Some(KeyWithModifier::new(BareKey::Char('0'))));
    let color = colored_elements();

    let ret = long_mode_shortcut(&key, color, "+", &vec![], false);
    let ret = unstyle(ret);

    assert_eq!(ret, "+ <0> SESSION +".to_string());
}

#[test]
fn long_mode_shortcut_unselected_with_binding() {
    let key = KeyShortcut::new(KeyMode::Unselected, KeyAction::Session, Some(KeyWithModifier::new(BareKey::Char('0'))));
    let color = colored_elements();

    let ret = long_mode_shortcut(&key, color, "+", &vec![], false);
    let ret = unstyle(ret);

    assert_eq!(ret, "+ <0> SESSION +".to_string());
}

#[test]
fn long_mode_shortcut_unselected_alternate_with_binding() {
    let key = KeyShortcut::new(KeyMode::UnselectedAlternate, KeyAction::Session, Some(KeyWithModifier::new(BareKey::Char('0'))));
    let color = colored_elements();

    let ret = long_mode_shortcut(&key, color, "+", &vec![], false);
    let ret = unstyle(ret);

    assert_eq!(ret, "+ <0> SESSION +".to_string());
}

#[test]
fn long_mode_shortcut_selected_without_binding() {
    let key = KeyShortcut::new(KeyMode::Selected, KeyAction::Session, None);
    let color = colored_elements();

    let ret = long_mode_shortcut(&key, color, "+", &vec![], false);
    let ret = unstyle(ret);

    assert_eq!(ret, "".to_string());
}

#[test]
fn long_mode_shortcut_selected_with_binding_first_tile() {
    let key = KeyShortcut::new(KeyMode::Selected, KeyAction::Session, Some(KeyWithModifier::new(BareKey::Char('0'))));
    let color = colored_elements();

    let ret = long_mode_shortcut(&key, color, "+", &vec![], true);
    let ret = unstyle(ret);

    assert_eq!(ret, " <0> SESSION +".to_string());
}

#[test]
fn long_mode_shortcut_selected_with_ctrl_binding_shared_superkey() {
    let key = KeyShortcut::new(KeyMode::Selected, KeyAction::Session, Some(KeyWithModifier::new(BareKey::Char('0')).with_ctrl_modifier()));
    let color = colored_elements();

    let ret = long_mode_shortcut(&key, color, "+", &vec![KeyModifier::Ctrl], false);
    let ret = unstyle(ret);

    assert_eq!(ret, "+ <0> SESSION +".to_string());
}

#[test]
fn long_mode_shortcut_selected_with_ctrl_binding_no_shared_superkey() {
    let key = KeyShortcut::new(KeyMode::Selected, KeyAction::Session, Some(KeyWithModifier::new(BareKey::Char('0')).with_ctrl_modifier()));
    let color = colored_elements();

    let ret = long_mode_shortcut(&key, color, "+", &vec![], false);
    let ret = unstyle(ret);

    assert_eq!(ret, "+ <Ctrl 0> SESSION +".to_string());
}

#[test]
fn long_mode_shortcut_disabled_with_binding() {
    let key = KeyShortcut::new(KeyMode::Disabled, KeyAction::Session, Some(KeyWithModifier::new(BareKey::Char('0'))));
    let color = colored_elements();

    let ret = long_mode_shortcut(&key, color, "+", &vec![], false);
    let ret = unstyle(ret);

    assert_eq!(ret, "+ <0> SESSION +".to_string());
}

#[test]
fn long_mode_shortcut_disabled_without_binding() {
    let key = KeyShortcut::new(KeyMode::Disabled, KeyAction::Session, None);
    let color = colored_elements();

    let ret = long_mode_shortcut(&key, color, "+", &vec![], false);
    let ret = unstyle(ret);

    assert_eq!(ret, "+ <> SESSION +".to_string());
}

#[test]
fn long_mode_shortcut_selected_with_ctrl_binding_and_shared_super_and_first_tile() {
    let key = KeyShortcut::new(KeyMode::Selected, KeyAction::Session, Some(KeyWithModifier::new(BareKey::Char('0')).with_ctrl_modifier()));
    let color = colored_elements();

    let ret = long_mode_shortcut(&key, color, "+", &vec![KeyModifier::Ctrl], true);
    let ret = unstyle(ret);

    assert_eq!(ret, "+ <0> SESSION +".to_string());
}

#[test]
fn short_mode_shortcut_selected_with_binding() {
    let key = KeyShortcut::new(KeyMode::Selected, KeyAction::Session, Some(KeyWithModifier::new(BareKey::Char('0'))));
    let color = colored_elements();

    let ret = short_mode_shortcut(&key, color, "+", &vec![], false);
    let ret = unstyle(ret);

    assert_eq!(ret, "+ 0 +".to_string());
}

#[test]
fn short_mode_shortcut_selected_with_ctrl_binding_no_shared_super() {
    let key = KeyShortcut::new(KeyMode::Selected, KeyAction::Session, Some(KeyWithModifier::new(BareKey::Char('0')).with_ctrl_modifier()));
    let color = colored_elements();

    let ret = short_mode_shortcut(&key, color, "+", &vec![], false);
    let ret = unstyle(ret);

    assert_eq!(ret, "+ Ctrl 0 +".to_string());
}

#[test]
fn short_mode_shortcut_selected_with_ctrl_binding_shared_super() {
    let key = KeyShortcut::new(KeyMode::Selected, KeyAction::Session, Some(KeyWithModifier::new(BareKey::Char('0')).with_ctrl_modifier()));
    let color = colored_elements();

    let ret = short_mode_shortcut(&key, color, "+", &vec![KeyModifier::Ctrl], false);
    let ret = unstyle(ret);

    assert_eq!(ret, "+ 0 +".to_string());
}

#[test]
fn short_mode_shortcut_selected_with_binding_first_tile() {
    let key = KeyShortcut::new(KeyMode::Selected, KeyAction::Session, Some(KeyWithModifier::new(BareKey::Char('0'))));
    let color = colored_elements();

    let ret = short_mode_shortcut(&key, color, "+", &vec![], true);
    let ret = unstyle(ret);

    assert_eq!(ret, " 0 +".to_string());
}

#[test]
fn short_mode_shortcut_unselected_with_binding() {
    let key = KeyShortcut::new(KeyMode::Unselected, KeyAction::Session, Some(KeyWithModifier::new(BareKey::Char('0'))));
    let color = colored_elements();

    let ret = short_mode_shortcut(&key, color, "+", &vec![], false);
    let ret = unstyle(ret);

    assert_eq!(ret, "+ 0 +".to_string());
}

#[test]
fn short_mode_shortcut_unselected_alternate_with_binding() {
    let key = KeyShortcut::new(KeyMode::UnselectedAlternate, KeyAction::Session, Some(KeyWithModifier::new(BareKey::Char('0'))));
    let color = colored_elements();

    let ret = short_mode_shortcut(&key, color, "+", &vec![], false);
    let ret = unstyle(ret);

    assert_eq!(ret, "+ 0 +".to_string());
}

#[test]
fn short_mode_shortcut_disabled_with_binding() {
    let key = KeyShortcut::new(KeyMode::Selected, KeyAction::Session, Some(KeyWithModifier::new(BareKey::Char('0'))));
    let color = colored_elements();

    let ret = short_mode_shortcut(&key, color, "+", &vec![], false);
    let ret = unstyle(ret);

    assert_eq!(ret, "+ 0 +".to_string());
}

#[test]
fn short_mode_shortcut_selected_without_binding() {
    let key = KeyShortcut::new(KeyMode::Selected, KeyAction::Session, None);
    let color = colored_elements();

    let ret = short_mode_shortcut(&key, color, "+", &vec![], false);
    let ret = unstyle(ret);

    assert_eq!(ret, "".to_string());
}

#[test]
fn short_mode_shortcut_unselected_without_binding() {
    let key = KeyShortcut::new(KeyMode::Unselected, KeyAction::Session, None);
    let color = colored_elements();

    let ret = short_mode_shortcut(&key, color, "+", &vec![], false);
    let ret = unstyle(ret);

    assert_eq!(ret, "".to_string());
}

#[test]
fn short_mode_shortcut_unselected_alternate_without_binding() {
    let key = KeyShortcut::new(KeyMode::UnselectedAlternate, KeyAction::Session, None);
    let color = colored_elements();

    let ret = short_mode_shortcut(&key, color, "+", &vec![], false);
    let ret = unstyle(ret);

    assert_eq!(ret, "".to_string());
}

#[test]
fn short_mode_shortcut_disabled_without_binding() {
    let key = KeyShortcut::new(KeyMode::Selected, KeyAction::Session, None);
    let color = colored_elements();

    let ret = short_mode_shortcut(&key, color, "+", &vec![], false);
    let ret = unstyle(ret);

    assert_eq!(ret, "".to_string());
}

#[test]
fn shortened_tile_abbreviates_modifiers() {
    let key = KeyShortcut::new(
        KeyMode::Selected,
        KeyAction::Pane,
        Some(KeyWithModifier::new(BareKey::Char('p')).with_ctrl_modifier().with_alt_modifier()),
    );
    let ret = shortened_modifier_shortcut(&key, colored_elements(), ">", &vec![], false);
    assert_eq!(unstyle(ret), "> <^C-^A p> PANE >");
    let ret = shortened_modifier_shortcut(&key, colored_elements(), ">", &vec![KeyModifier::Alt], false);
    assert_eq!(unstyle(ret), "> <^C p> PANE >");
}

#[test]
fn unbound_tiles_are_empty_unless_disabled() {
    for mode in [KeyMode::Selected, KeyMode::Unselected, KeyMode::UnselectedAlternate] {
        let key = KeyShortcut::new(mode, KeyAction::Tab, None);
        assert_eq!(long_mode_shortcut(&key, colored_elements(), ">", &vec![], false).len, 0);
        assert_eq!(shortened_modifier_shortcut(&key, colored_elements(), ">", &vec![], false).len, 0);
        assert_eq!(short_mode_shortcut(&key, colored_elements(), ">", &vec![], false).len, 0);
    }
}

#[test]
fn disabled_unbound_tile_shows_empty_brackets() {
    let key = KeyShortcut::new(KeyMode::Disabled, KeyAction::Tab, None);
    let long = unstyle(long_mode_shortcut(&key, colored_elements(), ">", &vec![], false));
    assert_eq!(long, "> <> TAB >");
    let shortened = unstyle(shortened_modifier_shortcut(&key, colored_elements(), ">", &vec![], false));
    assert_eq!(shortened, "> <> TAB >");
    let short = short_mode_shortcut(&key, colored_elements(), ">", &vec![], false);
    assert_eq!(short.len, 0);
    assert_eq!(unstyle(short), "");
}

#[test]
fn tile_length_counts_characters_not_bytes() {
    let key = KeyShortcut::new(KeyMode::Unselected, KeyAction::Move, Some(KeyWithModifier::new(BareKey::Left)));
    let ret = long_mode_shortcut(&key, colored_elements(), "\u{e0b0}", &vec![], false);
    assert_eq!(ret.len, 12);
    assert_eq!(unstyle(ret), "\u{e0b0} <\u{2190}> MOVE \u{e0b0}");
}

#[test]
fn tile_styles_follow_the_display_mode() {
    let key = KeyShortcut::new(KeyMode::Disabled, KeyAction::Quit, Some(KeyWithModifier::new(BareKey::Char('q'))));
    let colors = colored_elements();
    let ret = long_mode_shortcut(&key, colors, ">", &vec![], false);
    assert_eq!(ret.pieces.len(), 6);
    assert!(ret.pieces[2].style == colors.disabled.char_shortcut);
    assert!(ret.pieces[4].style == colors.disabled.styled_text);
    let short = short_mode_shortcut(&key, colors, ">", &vec![], false);
    assert_eq!(short.pieces.len(), 3);
    assert!(short.pieces[1].style == colors.disabled.char_shortcut);
    let selected = KeyShortcut::new(KeyMode::UnselectedAlternate, KeyAction::Quit, Some(KeyWithModifier::new(BareKey::Char('q'))));
    let ret = long_mode_shortcut(&selected, colors, ">", &vec![], false);
    assert!(ret.pieces[0].style == colors.unselected_alternate.prefix_separator);
    assert!(ret.pieces[5].style == colors.unselected_alternate.suffix_separator);
}

#[test]
fn empty_tiles_have_no_pieces() {
    let key = KeyShortcut::new(KeyMode::Selected, KeyAction::Tab, None);
    let ret = long_mode_shortcut(&key, colored_elements(), ">", &vec![], true);
    assert!(ret.pieces.is_empty());
    assert_eq!(ret.part(), "");
}
