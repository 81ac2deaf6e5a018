//! Key shortcuts and the three tile styles that draw one of them.
use crate::keys::{
    bare_key_label, bare_key_text, key_text, lemma_bare_key_text_len, lemma_key_text_len,
    lemma_modifiers_text_len, modifiers_label, modifiers_text, ordered_modifiers, stripped,
    BareKey, KeyModifier, KeyWithModifier,
};
use crate::line::{piece_styles, ColoredElements, LinePart, SegmentStyle};
use ansi_term::Style;
use crate::mode::InputMode;
use vstd::prelude::*;
use vstd::string::*;

verus! {

/// The action a shortcut tile stands for; it decides the tile's label.
#[derive(Clone, Copy, Debug, PartialEq, Eq, Structural)]
pub enum KeyAction {
    Normal,
    Lock,
    Unlock,
    Pane,
    Tab,
    Resize,
    Search,
    Quit,
    Session,
    Move,
    Tmux,
}

/// How a tile is emphasised.
#[derive(Clone, Copy, Debug, PartialEq, Eq, Structural)]
pub enum KeyMode {
    Unselected,
    UnselectedAlternate,
    Selected,
    Disabled,
}

/// The three tile styles, from the widest to the narrowest.
#[derive(Clone, Copy, Debug, PartialEq, Eq, Structural)]
pub enum Tier {
    /// `<key> LABEL`, with the full modifier names.
    Long,
    /// `<key> LABEL`, with abbreviated modifiers such as `^C`.
    Shortened,
    /// The key alone.
    Short,
}

/// The action that stands for an input mode. Modes without a tile of their
/// own, Tmux among them, fall back to `Normal`, whose label is "UNLOCK".
pub open spec fn action_of_mode(m: InputMode) -> KeyAction {
    match m {
        InputMode::Normal => KeyAction::Normal,
        InputMode::Locked => KeyAction::Lock,
        InputMode::Pane => KeyAction::Pane,
        InputMode::Tab => KeyAction::Tab,
        InputMode::Resize => KeyAction::Resize,
        InputMode::Search => KeyAction::Search,
        InputMode::Session => KeyAction::Session,
        InputMode::Move => KeyAction::Move,
        _ => KeyAction::Normal,
    }
}

impl From<InputMode> for KeyAction {
    fn from(input_mode: InputMode) -> (r: KeyAction) {
        match input_mode {
            InputMode::Normal => KeyAction::Normal,
            InputMode::Locked => KeyAction::Lock,
            InputMode::Pane => KeyAction::Pane,
            InputMode::Tab => KeyAction::Tab,
            InputMode::Resize => KeyAction::Resize,
            InputMode::Search => KeyAction::Search,
            InputMode::Session => KeyAction::Session,
            InputMode::Move => KeyAction::Move,
            _ => KeyAction::Normal,
        }
    }
}

impl vstd::std_specs::convert::FromSpecImpl<InputMode> for KeyAction {
    open spec fn obeys_from_spec() -> bool {
        true
    }

    open spec fn from_spec(m: InputMode) -> KeyAction {
        action_of_mode(m)
    }
}

/// The upper-case label of an action.
pub open spec fn action_label(a: KeyAction) -> Seq<char> {
    match a {
        KeyAction::Normal => "UNLOCK"@,
        KeyAction::Lock => "LOCK"@,
        KeyAction::Unlock => "UNLOCK"@,
        KeyAction::Pane => "PANE"@,
        KeyAction::Tab => "TAB"@,
        KeyAction::Resize => "RESIZE"@,
        KeyAction::Search => "SEARCH"@,
        KeyAction::Quit => "QUIT"@,
        KeyAction::Session => "SESSION"@,
        KeyAction::Move => "MOVE"@,
        KeyAction::Tmux => "TMUX"@,
    }
}

/// A key's view, if there is a key.
pub open spec fn opt_view(k: Option<KeyWithModifier>) -> Option<(BareKey, Set<KeyModifier>)> {
    match k {
        Some(k) => Some(k@),
        None => None,
    }
}

/// The key's text with the modifiers of `common` left out; "?" for no key.
pub open spec fn letter_text(k: Option<(BareKey, Set<KeyModifier>)>, common: Seq<KeyModifier>) -> Seq<char> {
    match k {
        Some(k) => key_text(k.0, stripped(k.1, common)),
        None => "?"@,
    }
}

/// The key's text with the modifiers of `common` left out and the others
/// abbreviated and joined by "-"; "?" for no key.
pub open spec fn shortened_text(k: Option<(BareKey, Set<KeyModifier>)>, common: Seq<KeyModifier>) -> Seq<char> {
    match k {
        Some(k) => {
            let rest = stripped(k.1, common);
            if ordered_modifiers(rest).len() == 0 {
                bare_key_text(k.0)
            } else {
                modifiers_text(rest, true, "-"@) + " "@ + bare_key_text(k.0)
            }
        },
        None => "?"@,
    }
}

/// The plain text of a tile.
///
/// A shortcut without a key gives no tile, except in the long and shortened
/// styles when it is disabled: those show an empty `<>`. The leading
/// separator is left out only on the first tile of a line that has no
/// shared-modifier banner.
pub open spec fn tile_text(
    mode: KeyMode,
    action: KeyAction,
    key: Option<(BareKey, Set<KeyModifier>)>,
    sep: Seq<char>,
    common: Seq<KeyModifier>,
    first: bool,
    tier: Tier,
) -> Seq<char> {
    if key is None && (mode != KeyMode::Disabled || tier == Tier::Short) {
        Seq::empty()
    } else {
        let binding = if key is None {
            Seq::empty()
        } else if tier == Tier::Shortened {
            shortened_text(key, common)
        } else {
            letter_text(key, common)
        };
        let start = if common.len() == 0 && first { Seq::empty() } else { sep };
        if tier == Tier::Short {
            start + " "@ + binding + " "@ + sep
        } else {
            start + " <"@ + binding + "> "@ + action_label(action) + " "@ + sep
        }
    }
}

/// A separator short enough that a tile's length fits in `usize`.
pub open spec fn separator_fits(sep: Seq<char>) -> bool {
    2 * sep.len() + 64 <= usize::MAX
}

/// One shortcut: how it is emphasised, what it does, and its key if it has
/// one.
#[derive(Debug)]
pub struct KeyShortcut {
    pub mode: KeyMode,
    pub action: KeyAction,
    pub key: Option<KeyWithModifier>,
}

impl KeyShortcut {
    /// The plain text of this shortcut's tile.
    pub open spec fn tile(&self, sep: Seq<char>, common: Seq<KeyModifier>, first: bool, tier: Tier) -> Seq<char> {
        tile_text(self.mode, self.action, opt_view(self.key), sep, common, first, tier)
    }

    pub fn new(mode: KeyMode, action: KeyAction, key: Option<KeyWithModifier>) -> (r: KeyShortcut)
        ensures
            r.mode == mode,
            r.action == action,
            opt_view(r.key) == opt_view(key),
    {
        KeyShortcut { mode, action, key }
    }

    /// The label of the shortcut's action.
    pub fn full_text(&self) -> (r: String)
        ensures
            r@ == action_label(self.action),
    {
        match self.action {
            KeyAction::Normal => String::from_str("UNLOCK"),
            KeyAction::Lock => String::from_str("LOCK"),
            KeyAction::Unlock => String::from_str("UNLOCK"),
            KeyAction::Pane => String::from_str("PANE"),
            KeyAction::Tab => String::from_str("TAB"),
            KeyAction::Resize => String::from_str("RESIZE"),
            KeyAction::Search => String::from_str("SEARCH"),
            KeyAction::Quit => String::from_str("QUIT"),
            KeyAction::Session => String::from_str("SESSION"),
            KeyAction::Move => String::from_str("MOVE"),
            KeyAction::Tmux => String::from_str("TMUX"),
        }
    }

    /// The key with the common modifiers left out and the others
    /// abbreviated, e.g. "^C a"; "?" when there is no key.
    pub fn with_shortened_modifiers(&self, common_modifiers: &Vec<KeyModifier>) -> (r: String)
        ensures
            r@ == shortened_text(opt_view(self.key), common_modifiers@),
    {
        match &self.key {
            Some(k) => {
                let key = k.strip_common_modifiers(common_modifiers);
                let bare = bare_key_label(key.bare_key);
                if key.has_no_modifier() {
                    bare
                } else {
                    let mut out = modifiers_label(&key.key_modifiers, true, "-");
                    out.append(" ");
                    out.append(bare.as_str());
                    out
                }
            },
            None => String::from_str("?"),
        }
    }

    /// The key with the common modifiers left out, e.g. "a" for "Ctrl a"
    /// when Ctrl is common; "?" when there is no key.
    pub fn letter_shortcut(&self, common_modifiers: &Vec<KeyModifier>) -> (r: String)
        ensures
            r@ == letter_text(opt_view(self.key), common_modifiers@),
    {
        match &self.key {
            Some(k) => k.strip_common_modifiers(common_modifiers).to_text(),
            None => String::from_str("?"),
        }
    }

    /// A copy of the shortcut's key.
    pub fn get_key(&self) -> (r: Option<KeyWithModifier>)
        ensures
            opt_view(r) == opt_view(self.key),
    {
        match &self.key {
            Some(k) => Some(k.duplicate()),
            None => None,
        }
    }

    pub fn get_mode(&self) -> (r: KeyMode)
        ensures
            r == self.mode,
    {
        self.mode
    }

    pub fn get_action(&self) -> (r: KeyAction)
        ensures
            r == self.action,
    {
        self.action
    }

    /// Whether the shortcut is the current mode's own.
    pub fn is_selected(&self) -> (r: bool)
        ensures
            r == (self.mode == KeyMode::Selected),
    {
        match self.mode {
            KeyMode::Selected => true,
            _ => false,
        }
    }
}

/// An action label has at most seven characters.
pub proof fn lemma_action_label_len(a: KeyAction)
    ensures
        action_label(a).len() <= 7,
{
    reveal_strlit("UNLOCK");
    reveal_strlit("LOCK");
    reveal_strlit("PANE");
    reveal_strlit("TAB");
    reveal_strlit("RESIZE");
    reveal_strlit("SEARCH");
    reveal_strlit("QUIT");
    reveal_strlit("SESSION");
    reveal_strlit("MOVE");
    reveal_strlit("TMUX");
}

/// A key's text in any tile style has at most 36 characters.
pub proof fn lemma_binding_len(k: Option<(BareKey, Set<KeyModifier>)>, common: Seq<KeyModifier>)
    ensures
        letter_text(k, common).len() <= 36,
        shortened_text(k, common).len() <= 36,
{
    reveal_strlit("?");
    reveal_strlit(" ");
    reveal_strlit("-");
    if let Some(k) = k {
        let rest = stripped(k.1, common);
        lemma_key_text_len(k.0, rest);
        lemma_bare_key_text_len(k.0);
        lemma_modifiers_text_len(rest, true, "-"@);
    }
}

/// A tile has at most `2 * sep.len() + 48` characters.
pub proof fn lemma_tile_len(
    mode: KeyMode,
    action: KeyAction,
    key: Option<(BareKey, Set<KeyModifier>)>,
    sep: Seq<char>,
    common: Seq<KeyModifier>,
    first: bool,
    tier: Tier,
)
    ensures
        tile_text(mode, action, key, sep, common, first, tier).len() <= 2 * sep.len() + 48,
{
    reveal_strlit(" ");
    reveal_strlit(" <");
    reveal_strlit("> ");
    lemma_binding_len(key, common);
    lemma_action_label_len(action);
}

/// The style profile of a display mode.
pub open spec fn profile_of(palette: ColoredElements, mode: KeyMode) -> SegmentStyle {
    match mode {
        KeyMode::Unselected => palette.unselected,
        KeyMode::UnselectedAlternate => palette.unselected_alternate,
        KeyMode::Selected => palette.selected,
        KeyMode::Disabled => palette.disabled,
    }
}

/// The styles of a tile's pieces: separator, key and separator in the
/// short style; separator, "<", key, ">", label and separator otherwise.
pub open spec fn tile_styles(s: SegmentStyle, tier: Tier) -> Seq<Style> {
    if tier == Tier::Short {
        seq![s.prefix_separator, s.char_shortcut, s.suffix_separator]
    } else {
        seq![
            s.prefix_separator,
            s.char_left_separator,
            s.char_shortcut,
            s.char_right_separator,
            s.styled_text,
            s.suffix_separator,
        ]
    }
}

fn profile(palette: ColoredElements, mode: KeyMode) -> (r: SegmentStyle)
    ensures
        r == profile_of(palette, mode),
{
    match mode {
        KeyMode::Unselected => palette.unselected,
        KeyMode::UnselectedAlternate => palette.unselected_alternate,
        KeyMode::Selected => palette.selected,
        KeyMode::Disabled => palette.disabled,
    }
}

/// Draws one shortcut as a tile of the given style.
pub fn mode_shortcut(
    key: &KeyShortcut,
    palette: ColoredElements,
    separator: &str,
    common_modifiers: &Vec<KeyModifier>,
    first_tile: bool,
    tier: Tier,
) -> (r: LinePart)
    requires
        separator_fits(separator@),
    ensures
        r.wf(),
        r.text_view() == key.tile(separator@, common_modifiers@, first_tile, tier),
        r.text_view().len() == 0 ==> r.pieces@.len() == 0,
        r.text_view().len() > 0 ==> piece_styles(r.pieces@) == tile_styles(profile_of(palette, key.mode), tier),
{
    let ghost expected = key.tile(separator@, common_modifiers@, first_tile, tier);
    proof {
        lemma_tile_len(key.mode, key.action, opt_view(key.key), separator@, common_modifiers@, first_tile, tier);
        reveal_strlit(" ");
        reveal_strlit(" <");
        reveal_strlit("> ");
    }
    let has_common_modifiers = common_modifiers.len() > 0;
    let key_binding = match (&key.mode, &key.key) {
        (KeyMode::Disabled, None) => {
            if tier == Tier::Short {
                return LinePart::new();
            }
            String::new()
        },
        (_, None) => {
            return LinePart::new();
        },
        (_, Some(_)) => {
            if tier == Tier::Shortened {
                key.with_shortened_modifiers(common_modifiers)
            } else {
                key.letter_shortcut(common_modifiers)
            }
        },
    };
    let colors = profile(palette, key.mode);
    let start_separator = if !has_common_modifiers && first_tile { "" } else { separator };
    proof {
        reveal_strlit("");
    }
    let mut line = LinePart::new();
    line.push_styled(colors.prefix_separator, start_separator);
    if tier == Tier::Short {
        let mut inner = String::from_str(" ");
        inner.append(key_binding.as_str());
        inner.append(" ");
        line.push_styled(colors.char_shortcut, inner.as_str());
    } else {
        line.push_styled(colors.char_left_separator, " <");
        line.push_styled(colors.char_shortcut, key_binding.as_str());
        line.push_styled(colors.char_right_separator, "> ");
        let mut hint = key.full_text();
        hint.append(" ");
        line.push_styled(colors.styled_text, hint.as_str());
    }
    line.push_styled(colors.suffix_separator, separator);
    assert(line.text_view() =~= expected);
    assert(piece_styles(line.pieces@) =~= tile_styles(colors, tier));
    line
}

/// Draws a shortcut as a long tile: `<key> LABEL` between separators.
pub fn long_mode_shortcut(
    key: &KeyShortcut,
    palette: ColoredElements,
    separator: &str,
    common_modifiers: &Vec<KeyModifier>,
    first_tile: bool,
) -> (r: LinePart)
    requires
        separator_fits(separator@),
    ensures
        r.wf(),
        r.text_view() == key.tile(separator@, common_modifiers@, first_tile, Tier::Long),
        r.text_view().len() == 0 ==> r.pieces@.len() == 0,
        r.text_view().len() > 0 ==> piece_styles(r.pieces@) == tile_styles(profile_of(palette, key.mode), Tier::Long),
{
    mode_shortcut(key, palette, separator, common_modifiers, first_tile, Tier::Long)
}

/// Draws a shortcut as a long tile with abbreviated modifiers.
pub fn shortened_modifier_shortcut(
    key: &KeyShortcut,
    palette: ColoredElements,
    separator: &str,
    common_modifiers: &Vec<KeyModifier>,
    first_tile: bool,
) -> (r: LinePart)
    requires
        separator_fits(separator@),
    ensures
        r.wf(),
        r.text_view() == key.tile(separator@, common_modifiers@, first_tile, Tier::Shortened),
        r.text_view().len() == 0 ==> r.pieces@.len() == 0,
        r.text_view().len() > 0 ==> piece_styles(r.pieces@) == tile_styles(profile_of(palette, key.mode), Tier::Shortened),
{
    mode_shortcut(key, palette, separator, common_modifiers, first_tile, Tier::Shortened)
}

/// Draws a shortcut as a short tile: the key alone between separators.
pub fn short_mode_shortcut(
    key: &KeyShortcut,
    palette: ColoredElements,
    separator: &str,
    common_modifiers: &Vec<KeyModifier>,
    first_tile: bool,
) -> (r: LinePart)
    requires
        separator_fits(separator@),
    ensures
        r.wf(),
        r.text_view() == key.tile(separator@, common_modifiers@, first_tile, Tier::Short),
        r.text_view().len() == 0 ==> r.pieces@.len() == 0,
        r.text_view().len() > 0 ==> piece_styles(r.pieces@) == tile_styles(profile_of(palette, key.mode), Tier::Short),
{
    mode_shortcut(key, palette, separator, common_modifiers, first_tile, Tier::Short)
}


/// A shortcut without a key that is not disabled gives an empty tile in
/// every style; the tile renderers then return a part with no pieces.
pub proof fn lemma_unbound_tile_is_empty(
    key: KeyShortcut,
    sep: Seq<char>,
    common: Seq<KeyModifier>,
    first: bool,
    tier: Tier,
)
    requires
        key.mode != KeyMode::Disabled,
        key.key is None,
    ensures
        key.tile(sep, common, first, tier).len() == 0,
{
}

/// A disabled shortcut without a key shows an empty `<>` and its label in
/// the long and shortened styles, and nothing in the short style.
pub proof fn lemma_disabled_unbound_tile(
    key: KeyShortcut,
    sep: Seq<char>,
    common: Seq<KeyModifier>,
    first: bool,
    tier: Tier,
)
    requires
        key.mode == KeyMode::Disabled,
        key.key is None,
    ensures
        tier == Tier::Short ==> key.tile(sep, common, first, tier).len() == 0,
        tier != Tier::Short ==> key.tile(sep, common, first, tier) == (if common.len() == 0 && first {
            Seq::empty()
        } else {
            sep
        }) + " <> "@ + action_label(key.action) + " "@ + sep,
        tier != Tier::Short ==> key.tile(sep, common, first, tier).len() > 0,
{
    reveal_strlit(" <");
    reveal_strlit(" <> ");
    reveal_strlit("> ");
    assert(" <"@ + Seq::<char>::empty() + "> "@ =~= " <> "@);
}

} // verus!
