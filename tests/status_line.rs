use ansi_term::{Colour, Style};
use status_bar::keys::{BareKey, KeyModifier, KeyWithModifier};
use status_bar::line::{ColoredElements, LinePart, SegmentStyle};
use status_bar::analysis::{common_modifiers_in_all_modes, get_common_modifiers, mode_switch_keys, to_char};
use status_bar::compose::{
    first_line, get_key_shortcut_for_mode, key_indicators, render_common_modifiers, render_current_mode,
    render_mode_key_indicators,
    render_secondary_info, superkey, swap_layout_status, Hints, ModeColors,
};
use status_bar::indicators::{base_mode_locked_mode_indicators, base_mode_normal_mode_indicators};
use status_bar::mode::{action_key, Action, InputMode, ModeInfo, TabInfo};
use status_bar::shortcut::{KeyAction, KeyMode, KeyShortcut};

fn segment(c: Colour) -> SegmentStyle {
    SegmentStyle {
        prefix_separator: Style::new().fg(c),
        char_left_separator: Style::new().fg(c).bold(),
        char_shortcut: Style::new().fg(Colour::Black).on(c),
        char_right_separator: Style::new().fg(c).bold(),
        styled_text: Style::new().fg(c).italic(),
        suffix_separator: Style::new().fg(c).on(Colour::Black),
    }
}

fn colored_elements() -> ColoredElements {
    ColoredElements {
        selected: segment(Colour::Green),
        unselected: segment(Colour::Red),
        unselected_alternate: segment(Colour::Blue),
        disabled: segment(Colour::Fixed(8)),
        superkey_prefix: Style::new().bold(),
        superkey_suffix_separator: Style::new().fg(Colour::Yellow),
    }
}

// Removes the escape codes of the styled text.
fn strip_escapes(s: &str) -> String {
    let mut out = String::new();
    let mut in_escape = false;
    for c in s.chars() {
        if in_escape {
            if c == 'm' {
                in_escape = false;
            }
        } else if c == '\x1b' {
            in_escape = true;
        } else {
            out.push(c);
        }
    }
    out
}

// The text of a part without its styles; also checks that the recorded
// length is its number of characters.
fn unstyle(line_part: LinePart) -> String {
    let plain = strip_escapes(&line_part.part());
    assert_eq!(plain, line_part.text());
    assert_eq!(line_part.len, plain.chars().count());
    plain
}


fn ctrl(c: char) -> KeyWithModifier {
    KeyWithModifier::new(BareKey::Char(c)).with_ctrl_modifier()
}

fn switch(m: InputMode) -> Vec<Action> {
    vec![Action::SwitchToMode(m)]
}

fn mode_info(mode: InputMode, binds: Vec<(KeyWithModifier, Vec<Action>)>) -> ModeInfo {
    ModeInfo {
        mode,
        keybinds: vec![(mode, binds)],
        arrow_fonts: true,
        colors: colored_elements(),
    }
}

fn no_hints() -> Hints {
    Hints {
        secondary_keybinds: LinePart::new(),
        quick_navigation: LinePart::new(),
        swap_layout_keycode: LinePart::new(),
        keygroup_separator: LinePart::new(),
    }
}

fn plain(text: &str) -> LinePart {
    let mut p = LinePart::new();
    p.push_styled(Style::new(), text);
    p
}

// The mode-indicator segment alone, on an empty line.
fn mode_indicators(mode_info: &ModeInfo, max_len: usize, separator: &str) -> LinePart {
    let mut line = LinePart::new();
    render_mode_key_indicators(mode_info, &no_hints(), max_len, separator, &mut line);
    line
}

fn three_ctrl_shortcuts() -> ModeInfo {
    mode_info(
        InputMode::Normal,
        vec![
            (ctrl('a'), switch(InputMode::Pane)),
            (ctrl('b'), switch(InputMode::Resize)),
            (ctrl('c'), switch(InputMode::Move)),
        ],
    )
}

#[test]
// Observe: Modes missing in between aren't displayed!
fn first_line_default_layout_shared_super() {
    let mode_info = three_ctrl_shortcuts();

    let ret = mode_indicators(&mode_info, 500, ">");
    let ret = unstyle(ret);

    assert_eq!(
        ret,
        " Ctrl + >> <a> PANE >> <b> RESIZE >> <c> MOVE >".to_string()
    );
}

#[test]
fn first_line_default_layout_no_shared_super() {
    let mode_info = mode_info(
        InputMode::Normal,
        vec![
            (ctrl('a'), switch(InputMode::Pane)),
            (ctrl('b'), switch(InputMode::Resize)),
            (KeyWithModifier::new(BareKey::Char('c')), switch(InputMode::Move)),
        ],
    );

    let ret = mode_indicators(&mode_info, 500, ">");
    let ret = unstyle(ret);

    assert_eq!(
        ret,
        " <Ctrl a> PANE >> <Ctrl b> RESIZE >> <c> MOVE >".to_string()
    );
}

#[test]
fn first_line_default_layout_unprintables() {
    let mode_info = mode_info(
        InputMode::Normal,
        vec![
            (ctrl('a'), switch(InputMode::Locked)),
            (KeyWithModifier::new(BareKey::Backspace), switch(InputMode::Pane)),
            (KeyWithModifier::new(BareKey::Enter), switch(InputMode::Tab)),
            (KeyWithModifier::new(BareKey::Tab), switch(InputMode::Resize)),
            (KeyWithModifier::new(BareKey::Left), switch(InputMode::Move)),
        ],
    );

    let ret = mode_indicators(&mode_info, 500, ">");
    let ret = unstyle(ret);

    assert_eq!(
        ret,
        " <Ctrl a> LOCK >> <BACKSPACE> PANE >> <ENTER> TAB >> <TAB> RESIZE >> <←> MOVE >"
            .to_string()
    );
}

#[test]
fn first_line_short_layout_shared_super() {
    let mode_info = mode_info(
        InputMode::Normal,
        vec![
            (ctrl('a'), switch(InputMode::Locked)),
            (ctrl('b'), switch(InputMode::Pane)),
            (ctrl('c'), switch(InputMode::Tab)),
            (ctrl('d'), switch(InputMode::Resize)),
            (ctrl('e'), switch(InputMode::Move)),
        ],
    );

    let ret = mode_indicators(&mode_info, 50, ">");
    let ret = unstyle(ret);

    assert_eq!(ret, " Ctrl + >> a >> b >> c >> d >> e >".to_string());
}

#[test]
fn first_line_short_simplified_ui_shared_super() {
    let mode_info = three_ctrl_shortcuts();

    let ret = mode_indicators(&mode_info, 30, "");
    let ret = unstyle(ret);

    assert_eq!(ret, " Ctrl +  a  b  c ".to_string());
}

#[test]
fn banner_without_simplified_glyphs_has_no_trailing_space() {
    let mut mode_info = three_ctrl_shortcuts();
    mode_info.arrow_fonts = false;
    let ret = unstyle(mode_indicators(&mode_info, 500, ">"));
    assert_eq!(ret, " Ctrl +>> <a> PANE >> <b> RESIZE >> <c> MOVE >");
}

#[test]
fn narrow_width_falls_back_to_short_tiles() {
    let mode_info = three_ctrl_shortcuts();
    // With the banner, the long tiles need 47 characters, the short ones 24.
    let ret = unstyle(mode_indicators(&mode_info, 40, ">"));
    assert_eq!(ret, " Ctrl + >> a >> b >> c >");
    let ret = unstyle(mode_indicators(&mode_info, 47, ">"));
    assert_eq!(ret, " Ctrl + >> a >> b >> c >");
    let ret = unstyle(mode_indicators(&mode_info, 48, ">"));
    assert_eq!(ret, " Ctrl + >> <a> PANE >> <b> RESIZE >> <c> MOVE >");
}

#[test]
fn shortened_tier_is_tried_before_short_tiles() {
    let mode_info = mode_info(
        InputMode::Normal,
        vec![
            (ctrl('a'), switch(InputMode::Pane)),
            (KeyWithModifier::new(BareKey::Char('b')).with_alt_modifier(), switch(InputMode::Tab)),
        ],
    );
    // Long: " <Ctrl a> PANE >> <Alt b> TAB >" has 31 characters; shortened:
    // " <^C a> PANE >> <^A b> TAB >" has 27.
    let ret = unstyle(mode_indicators(&mode_info, 31, ">"));
    assert_eq!(ret, " <^C a> PANE >> <^A b> TAB >");
    let ret = unstyle(mode_indicators(&mode_info, 32, ">"));
    assert_eq!(ret, " <Ctrl a> PANE >> <Alt b> TAB >");
}

#[test]
fn too_narrow_for_any_tile_adds_nothing() {
    let mode_info = three_ctrl_shortcuts();
    // The banner takes 9 characters and the short tiles 15 more.
    let ret = mode_indicators(&mode_info, 24, ">");
    assert_eq!(ret.len, 0);
    assert!(ret.pieces.is_empty());
    assert_eq!(unstyle(ret), "");
    let ret = mode_indicators(&mode_info, 9, ">");
    assert_eq!(ret.len, 0);
    let ret = mode_indicators(&mode_info, 25, ">");
    assert_eq!(unstyle(ret), " Ctrl + >> a >> b >> c >");
    let no_super = mode_info_without_shared_modifier();
    let ret = mode_indicators(&no_super, 5, ">");
    assert_eq!(ret.len, 0);
}

fn mode_info_without_shared_modifier() -> ModeInfo {
    mode_info(
        InputMode::Normal,
        vec![
            (ctrl('a'), switch(InputMode::Pane)),
            (KeyWithModifier::new(BareKey::Char('c')), switch(InputMode::Move)),
        ],
    )
}

#[test]
fn key_indicators_appends_after_existing_text() {
    let mode_info = mode_info_without_shared_modifier();
    let keys = vec![
        KeyShortcut::new(KeyMode::Unselected, KeyAction::Pane, Some(ctrl('a'))),
        KeyShortcut::new(KeyMode::Unselected, KeyAction::Move, Some(KeyWithModifier::new(BareKey::Char('c')))),
    ];
    let mut line = plain("ab");
    key_indicators(100, &keys, colored_elements(), ">", &mode_info, &mut line);
    // The line is not empty, so the first tile keeps its separator.
    assert_eq!(unstyle(line), "ab> <Ctrl a> PANE >> <c> MOVE >");
    let mut line = LinePart::new();
    key_indicators(100, &vec![], colored_elements(), ">", &mode_info, &mut line);
    assert_eq!(line.len, 0);
}

#[test]
fn superkey_reports_the_shared_modifiers() {
    let mode_info = three_ctrl_shortcuts();
    let mut line = LinePart::new();
    let shared = superkey(colored_elements(), ">", &mode_info, &mut line);
    assert_eq!(shared, vec![KeyModifier::Ctrl]);
    assert_eq!(unstyle(line), " Ctrl + >");
    let mut line = LinePart::new();
    let shared = superkey(colored_elements(), ">", &mode_info_without_shared_modifier(), &mut line);
    assert!(shared.is_empty());
    assert_eq!(line.len, 0);
}

#[test]
fn first_line_pads_the_base_mode_line_to_the_width() {
    let mode_info = three_ctrl_shortcuts();
    let ret = first_line(&mode_info, None, &no_hints(), 60, ">");
    let text = unstyle(ret);
    let indicators = " Ctrl + >> <a> PANE >> <b> RESIZE >> <c> MOVE >";
    assert_eq!(text.chars().count(), 59);
    assert_eq!(text, format!("{}{}", indicators, " ".repeat(59 - indicators.chars().count())));
}

#[test]
fn first_line_appends_secondary_hints_and_swap_layout() {
    let mode_info = three_ctrl_shortcuts();
    let hints = Hints {
        secondary_keybinds: plain(" Alt n New Pane "),
        quick_navigation: LinePart::new(),
        swap_layout_keycode: plain(" Alt []"),
        keygroup_separator: LinePart::new(),
    };
    let tab = TabInfo { active_swap_layout_name: Some("stacked".to_string()), is_swap_layout_dirty: false };
    let ret = unstyle(first_line(&mode_info, Some(&tab), &hints, 100, ">"));
    let indicators = " Ctrl + >> <a> PANE >> <b> RESIZE >> <c> MOVE >";
    let secondary = " Alt n New Pane  Alt []> STACKED >";
    let pad = 100 - indicators.chars().count() - secondary.chars().count() - 1;
    assert_eq!(ret, format!("{}{}{}", indicators, " ".repeat(pad), secondary));
}

#[test]
fn first_line_without_room_for_padding_appends_secondary_directly() {
    let mode_info = three_ctrl_shortcuts();
    let hints = Hints {
        secondary_keybinds: plain(" Alt n New Pane "),
        quick_navigation: LinePart::new(),
        swap_layout_keycode: LinePart::new(),
        keygroup_separator: LinePart::new(),
    };
    let ret = unstyle(first_line(&mode_info, None, &hints, 50, ">"));
    assert_eq!(ret, " Ctrl + >> <a> PANE >> <b> RESIZE >> <c> MOVE > Alt n New Pane ");
}

#[test]
fn first_line_in_other_modes_appends_quick_navigation_if_it_fits() {
    let mut mode_info = mode_info(InputMode::Pane, vec![(ctrl('p'), switch(InputMode::Normal))]);
    let hints = Hints {
        secondary_keybinds: LinePart::new(),
        quick_navigation: plain(" Alt <←↓↑→> Move focus "),
        swap_layout_keycode: LinePart::new(),
        keygroup_separator: LinePart::new(),
    };
    let ret = unstyle(first_line(&mode_info, None, &hints, 100, ">"));
    assert_eq!(ret, " Ctrl + >> <p> PANE > Alt <←↓↑→> Move focus ");
    let ret = unstyle(first_line(&mode_info, None, &hints, 30, ">"));
    assert_eq!(ret, " Ctrl + >> <p> PANE >");
}

#[test]
fn other_modes_close_the_indicators_with_the_keygroup_separator() {
    let mode_info = mode_info(InputMode::Pane, vec![(ctrl('p'), switch(InputMode::Normal))]);
    let mut hints = no_hints();
    hints.keygroup_separator = plain(" | ");
    let mut line = LinePart::new();
    render_mode_key_indicators(&mode_info, &hints, 100, ">", &mut line);
    assert_eq!(unstyle(line), " Ctrl + >> <p> PANE > | ");
    let mut line = LinePart::new();
    render_mode_key_indicators(&mode_info, &hints, 22, ">", &mut line);
    assert_eq!(unstyle(line), " Ctrl + >> <p> PANE >");
    let base = three_ctrl_shortcuts();
    let mut line = LinePart::new();
    render_mode_key_indicators(&base, &hints, 100, ">", &mut line);
    assert_eq!(unstyle(line), " Ctrl + >> <a> PANE >> <b> RESIZE >> <c> MOVE >");
}

#[test]
fn banner_keeps_the_order_of_the_modifier_list() {
    let mode_info = three_ctrl_shortcuts();
    let colors = colored_elements();
    let mut line = LinePart::new();
    render_common_modifiers(&colors, &mode_info, &vec![KeyModifier::Alt, KeyModifier::Ctrl], &mut line, ">");
    assert!(line.pieces[0].style == colors.superkey_prefix);
    assert!(line.pieces[1].style == colors.superkey_suffix_separator);
    assert_eq!(unstyle(line), " Alt-Ctrl + >");
}

#[test]
fn padding_uses_the_superkey_prefix_style() {
    let mode_info = three_ctrl_shortcuts();
    let mut line = plain("ab");
    render_secondary_info(&mode_info, None, &no_hints(), 6, ">", &mut line);
    assert_eq!(line.pieces.len(), 4);
    assert!(line.pieces[1].style == mode_info.colors.superkey_prefix);
    assert!(line.pieces[3].style == mode_info.colors.superkey_prefix);
    assert_eq!(unstyle(line), "ab   ");
}

#[test]
fn normal_base_table_lists_every_mode_in_normal_mode() {
    let mode_info = three_ctrl_shortcuts();
    let table = base_mode_normal_mode_indicators(&mode_info);
    assert_eq!(table.len(), 8);
    assert_eq!(table[1].0, InputMode::Normal);
    let normal = &table[1].1;
    assert_eq!(normal.len(), 8);
    assert_eq!(normal[0].action, KeyAction::Lock);
    assert!(normal[0].key.is_none());
    assert_eq!(normal[1].action, KeyAction::Pane);
    assert_eq!(normal[1].mode, KeyMode::UnselectedAlternate);
    assert_eq!(normal[1].key.as_ref().unwrap().bare_key, BareKey::Char('a'));
    assert_eq!(normal[7].action, KeyAction::Quit);
    let locked = base_mode_locked_mode_indicators(&mode_info);
    assert_eq!(locked[0].0, InputMode::Locked);
    assert_eq!(locked[0].1[0].action, KeyAction::Unlock);
    assert_eq!(locked[2].1.len(), 2);
}

#[test]
fn secondary_info_saturates_when_the_line_is_full() {
    let mode_info = three_ctrl_shortcuts();
    let hints = Hints {
        secondary_keybinds: plain("xyz"),
        quick_navigation: LinePart::new(),
        swap_layout_keycode: LinePart::new(),
        keygroup_separator: LinePart::new(),
    };
    let mut line = plain("0123456789");
    render_secondary_info(&mode_info, None, &hints, 12, ">", &mut line);
    assert_eq!(unstyle(line), "0123456789xyz");
    let mut line = plain("01234");
    render_secondary_info(&mode_info, None, &hints, 12, ">", &mut line);
    assert_eq!(unstyle(line), "01234   xyz");
}

#[test]
fn swap_layout_status_selected_when_clean() {
    let colors = colored_elements();
    let keycode = plain(" Alt []");
    let name = Some("stacked".to_string());
    let ret = swap_layout_status(100, &name, false, InputMode::Normal, &keycode, colors, ">").unwrap();
    let n = ret.pieces.len();
    assert!(ret.pieces[0].style == Style::new());
    assert!(ret.pieces[n - 3].style == colors.selected.prefix_separator);
    assert!(ret.pieces[n - 2].style == colors.selected.styled_text);
    assert!(ret.pieces[n - 1].style == colors.selected.suffix_separator);
    assert_eq!(unstyle(ret), " Alt []> STACKED >");
}

#[test]
fn swap_layout_status_unselected_when_dirty() {
    let colors = colored_elements();
    let keycode = plain(" Alt []");
    let name = Some("stacked".to_string());
    let ret = swap_layout_status(100, &name, true, InputMode::Normal, &keycode, colors, ">").unwrap();
    let n = ret.pieces.len();
    assert!(ret.pieces[n - 3].style == colors.unselected.prefix_separator);
    assert!(ret.pieces[n - 2].style == colors.unselected.styled_text);
    assert!(ret.pieces[n - 1].style == colors.unselected.suffix_separator);
    assert_eq!(unstyle(ret), " Alt []> STACKED >");
}

#[test]
fn swap_layout_status_drops_the_keycode_when_narrow() {
    let colors = colored_elements();
    let keycode = plain(" Alt []");
    let name = Some("stacked".to_string());
    // The full form needs 18 characters, the name alone 11.
    let ret = swap_layout_status(18, &name, false, InputMode::Normal, &keycode, colors, ">").unwrap();
    assert_eq!(unstyle(ret), " Alt []> STACKED >");
    let ret = swap_layout_status(17, &name, false, InputMode::Normal, &keycode, colors, ">").unwrap();
    assert_eq!(unstyle(ret), "> STACKED >");
    assert!(swap_layout_status(17, &name, false, InputMode::Locked, &keycode, colors, ">").is_none());
    assert!(swap_layout_status(10, &name, false, InputMode::Normal, &keycode, colors, ">").is_none());
    assert!(swap_layout_status(100, &None, false, InputMode::Normal, &keycode, colors, ">").is_none());
}

#[test]
fn swap_layout_name_uppercases_ascii_only() {
    let colors = colored_elements();
    let name = Some("größe-2".to_string());
    let ret = swap_layout_status(100, &name, false, InputMode::Normal, &LinePart::new(), colors, "|").unwrap();
    assert_eq!(unstyle(ret), "| GRößE-2 |");
}

#[test]
fn to_char_skips_return_keys() {
    let keys = vec![
        KeyWithModifier::new(BareKey::Enter),
        KeyWithModifier::new(BareKey::Char(' ')),
        ctrl('x'),
        KeyWithModifier::new(BareKey::Esc),
    ];
    let k = to_char(keys).unwrap();
    assert_eq!(k.bare_key, BareKey::Char('x'));
    assert_eq!(k.key_modifiers, vec![KeyModifier::Ctrl]);
    let k = to_char(vec![KeyWithModifier::new(BareKey::Esc), KeyWithModifier::new(BareKey::Enter)]).unwrap();
    assert_eq!(k.bare_key, BareKey::Esc);
    assert!(to_char(vec![]).is_none());
}

#[test]
fn mode_switch_keys_keeps_switches_and_quit() {
    let info = mode_info(
        InputMode::Normal,
        vec![
            (ctrl('a'), switch(InputMode::Pane)),
            (KeyWithModifier::new(BareKey::Enter), switch(InputMode::Normal)),
            (ctrl('b'), switch(InputMode::Prompt)),
            (ctrl('q'), vec![Action::Quit]),
            (ctrl('o'), vec![Action::Other, Action::SwitchToMode(InputMode::Tab)]),
            (ctrl('z'), vec![]),
        ],
    );
    let keys = mode_switch_keys(&info);
    let bare: Vec<BareKey> = keys.iter().map(|k| k.bare_key).collect();
    assert_eq!(bare, vec![BareKey::Char('a'), BareKey::Char('q')]);
}

#[test]
fn action_key_matches_single_action_bindings() {
    let binds = vec![
        (ctrl('a'), switch(InputMode::Pane)),
        (ctrl('b'), vec![Action::SwitchToMode(InputMode::Pane), Action::Quit]),
        (ctrl('c'), switch(InputMode::Pane)),
    ];
    let keys = action_key(&binds, Action::SwitchToMode(InputMode::Pane));
    let bare: Vec<BareKey> = keys.iter().map(|k| k.bare_key).collect();
    assert_eq!(bare, vec![BareKey::Char('a'), BareKey::Char('c')]);
}

#[test]
fn common_modifiers_of_keys() {
    let keys = vec![
        ctrl('a').with_alt_modifier(),
        KeyWithModifier::new(BareKey::Char('b')).with_alt_modifier().with_ctrl_modifier(),
    ];
    assert_eq!(get_common_modifiers(&keys), vec![KeyModifier::Ctrl, KeyModifier::Alt]);
    let keys = vec![ctrl('a'), KeyWithModifier::new(BareKey::Char('b')).with_alt_modifier()];
    assert!(get_common_modifiers(&keys).is_empty());
    assert!(get_common_modifiers(&vec![]).is_empty());
}

#[test]
fn common_modifiers_in_all_modes_requires_every_binding() {
    let bound = |c: char| KeyShortcut::new(KeyMode::Selected, KeyAction::Pane, Some(ctrl(c)));
    let table = vec![
        (InputMode::Normal, vec![bound('a'), bound('b')]),
        (InputMode::Pane, vec![bound('c')]),
    ];
    assert_eq!(common_modifiers_in_all_modes(&table), Some(vec![KeyModifier::Ctrl]));
    let table = vec![
        (InputMode::Normal, vec![bound('a'), KeyShortcut::new(KeyMode::Selected, KeyAction::Tab, None)]),
        (InputMode::Pane, vec![bound('c')]),
    ];
    assert_eq!(common_modifiers_in_all_modes(&table), None);
    let table = vec![(InputMode::Normal, vec![bound('a')]), (InputMode::Pane, vec![])];
    assert_eq!(common_modifiers_in_all_modes(&table), None);
    assert_eq!(common_modifiers_in_all_modes(&vec![]), None);
    let table = vec![(
        InputMode::Normal,
        vec![bound('a'), KeyShortcut::new(KeyMode::Selected, KeyAction::Tab, Some(KeyWithModifier::new(BareKey::Tab)))],
    )];
    assert_eq!(common_modifiers_in_all_modes(&table), None);
}

#[test]
fn shortcut_for_mode_finds_the_first_match() {
    let shortcuts = vec![
        KeyShortcut::new(KeyMode::Unselected, KeyAction::Lock, None),
        KeyShortcut::new(KeyMode::Unselected, KeyAction::Search, None),
        KeyShortcut::new(KeyMode::Unselected, KeyAction::Search, None),
    ];
    assert_eq!(get_key_shortcut_for_mode(&shortcuts, &InputMode::EnterSearch), Some(1));
    assert_eq!(get_key_shortcut_for_mode(&shortcuts, &InputMode::Locked), Some(0));
    assert_eq!(get_key_shortcut_for_mode(&shortcuts, &InputMode::Normal), None);
    assert_eq!(get_key_shortcut_for_mode(&shortcuts, &InputMode::Pane), None);
}

#[test]
fn current_mode_label_is_centred() {
    let colors = ModeColors {
        locked: Style::new().fg(Colour::Purple).bold(),
        normal: Style::new().fg(Colour::Green).bold(),
        other: Style::new().fg(Colour::Yellow).bold(),
    };
    let mut line = LinePart::new();
    render_current_mode(InputMode::Normal, colors, 100, &mut line);
    assert!(line.pieces[0].style == colors.normal);
    assert_eq!(unstyle(line), " NORMAL  ");
    let mut line = LinePart::new();
    render_current_mode(InputMode::Pane, colors, 100, &mut line);
    assert!(line.pieces[0].style == colors.other);
    assert_eq!(unstyle(line), "  PANE   ");
    let mut line = LinePart::new();
    render_current_mode(InputMode::EnterSearch, colors, 100, &mut line);
    assert_eq!(unstyle(line), " ENTERSEARCH ");
    let mut line = LinePart::new();
    render_current_mode(InputMode::Locked, colors, 8, &mut line);
    assert_eq!(line.len, 0);
}
