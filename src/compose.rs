//! Assembling the status line from segments, each kept only if it fits.
use crate::analysis::{get_common_modifiers, mode_switch_keys, shared_by_all, switch_keys};
use crate::mode::key_views;
use crate::indicators::{
    base_mode_normal_mode_indicators, normal_base_table, shortcut_view, shortcuts_view, table_view,
    ShortcutView,
};
use crate::keys::{
    join_labels, join_modifier_labels, lemma_join_labels_len, lemma_ordered_modifiers_len,
    ordered_modifiers, KeyModifier,
};
use crate::line::{ColoredElements, LinePart, SegmentStyle};
use ansi_term::Style;
use crate::mode::{InputMode, ModeInfo, TabInfo};
use crate::shortcut::{mode_shortcut, separator_fits, tile_text, KeyAction, KeyShortcut, Tier};
use vstd::prelude::*;
use vstd::string::*;

verus! {

/// The banner that announces the modifiers shared by all shown keys, e.g.
/// " Ctrl +" and the separator, the modifiers in the order given; with
/// arrow glyphs a space comes before the separator.
pub open spec fn banner_text(common: Seq<KeyModifier>, arrow_fonts: bool, sep: Seq<char>) -> Seq<char> {
    " "@ + join_labels(common, false, "-"@) + (if arrow_fonts { " + "@ } else { " +"@ }) + sep
}

/// The modifiers shared by the current mode's switch keys, in canonical
/// order.
pub open spec fn superkey_modifiers(mode_info: ModeInfo) -> Seq<KeyModifier> {
    ordered_modifiers(shared_by_all(switch_keys(mode_info.binds_of(mode_info.mode))))
}

/// The banner for `common`, or nothing when no modifier is shared.
pub open spec fn banner_part(common: Seq<KeyModifier>, arrow_fonts: bool, sep: Seq<char>) -> Seq<char> {
    if common.len() == 0 { Seq::empty() } else { banner_text(common, arrow_fonts, sep) }
}

/// The tiles of `keys` in one style. A tile is first on the line when the
/// line was empty and all tiles before it are empty.
pub open spec fn tiles_text(
    keys: Seq<ShortcutView>,
    sep: Seq<char>,
    common: Seq<KeyModifier>,
    first: bool,
    tier: Tier,
) -> Seq<char>
    decreases keys.len(),
{
    if keys.len() == 0 {
        Seq::empty()
    } else {
        let t = tile_text(keys[0].0, keys[0].1, keys[0].2, sep, common, first, tier);
        t + tiles_text(keys.drop_first(), sep, common, first && t.len() == 0, tier)
    }
}

/// Whether the tiles in style `tier` fit after `used` characters: the total
/// must stay strictly below `max_len`.
pub open spec fn tier_fits(
    keys: Seq<ShortcutView>,
    sep: Seq<char>,
    common: Seq<KeyModifier>,
    used: nat,
    max_len: nat,
    tier: Tier,
) -> bool {
    used + tiles_text(keys, sep, common, used == 0, tier).len() < max_len
}

/// The tiles in the widest style that fits, or nothing when none fits.
pub open spec fn fitting_tiles(
    keys: Seq<ShortcutView>,
    sep: Seq<char>,
    common: Seq<KeyModifier>,
    used: nat,
    max_len: nat,
) -> Seq<char> {
    if tier_fits(keys, sep, common, used, max_len, Tier::Long) {
        tiles_text(keys, sep, common, used == 0, Tier::Long)
    } else if tier_fits(keys, sep, common, used, max_len, Tier::Shortened) {
        tiles_text(keys, sep, common, used == 0, Tier::Shortened)
    } else if tier_fits(keys, sep, common, used, max_len, Tier::Short) {
        tiles_text(keys, sep, common, used == 0, Tier::Short)
    } else {
        Seq::empty()
    }
}

/// Whether the tiles fit in at least one style.
pub open spec fn some_tier_fits(
    keys: Seq<ShortcutView>,
    sep: Seq<char>,
    common: Seq<KeyModifier>,
    used: nat,
    max_len: nat,
) -> bool {
    tier_fits(keys, sep, common, used, max_len, Tier::Long)
        || tier_fits(keys, sep, common, used, max_len, Tier::Shortened)
        || tier_fits(keys, sep, common, used, max_len, Tier::Short)
}

/// What the mode-indicator segment adds after `used` characters: the banner
/// and the widest tiles that fit after it, or nothing at all when there are
/// no keys or no tile style fits.
pub open spec fn indicators_text(
    keys: Seq<ShortcutView>,
    common: Seq<KeyModifier>,
    arrow_fonts: bool,
    sep: Seq<char>,
    used: nat,
    max_len: nat,
) -> Seq<char> {
    let b = banner_part(common, arrow_fonts, sep);
    if keys.len() > 0 && some_tier_fits(keys, sep, common, used + b.len(), max_len) {
        b + fitting_tiles(keys, sep, common, used + b.len(), max_len)
    } else {
        Seq::empty()
    }
}

/// When no tile style fits, the mode-indicator segment adds nothing, not
/// even the banner.
pub proof fn lemma_nothing_fits(
    keys: Seq<ShortcutView>,
    common: Seq<KeyModifier>,
    arrow_fonts: bool,
    sep: Seq<char>,
    used: nat,
    max_len: nat,
)
    requires
        !some_tier_fits(keys, sep, common, used + banner_part(common, arrow_fonts, sep).len(), max_len),
    ensures
        indicators_text(keys, common, arrow_fonts, sep, used, max_len).len() == 0,
{
}

/// A segment that fits stays below `max_len` together with what came
/// before it.
pub proof fn lemma_indicators_fit(
    keys: Seq<ShortcutView>,
    common: Seq<KeyModifier>,
    arrow_fonts: bool,
    sep: Seq<char>,
    used: nat,
    max_len: nat,
)
    ensures
        indicators_text(keys, common, arrow_fonts, sep, used, max_len).len() == 0 || used
            + indicators_text(keys, common, arrow_fonts, sep, used, max_len).len() < max_len,
{
}

/// Appends the shared-modifier banner to `line`: the banner text in the
/// superkey prefix style, then the separator in its own style.
pub fn render_common_modifiers(
    palette: &ColoredElements,
    mode_info: &ModeInfo,
    common_modifiers: &Vec<KeyModifier>,
    line_part_to_render: &mut LinePart,
    separator: &str,
)
    requires
        old(line_part_to_render).wf(),
        old(line_part_to_render).len + 6 * common_modifiers@.len() + separator@.len() + 4 <= usize::MAX,
    ensures
        final(line_part_to_render).wf(),
        final(line_part_to_render).text_view() == old(line_part_to_render).text_view() + banner_text(
            common_modifiers@,
            mode_info.arrow_fonts,
            separator@,
        ),
        final(line_part_to_render).pieces@ == old(line_part_to_render).pieces@ + seq![
            final(line_part_to_render).pieces@[old(line_part_to_render).pieces@.len() as int],
            final(line_part_to_render).pieces@[old(line_part_to_render).pieces@.len() + 1int],
        ],
        final(line_part_to_render).pieces@[old(line_part_to_render).pieces@.len() as int].style == palette.superkey_prefix,
        final(line_part_to_render).pieces@[old(line_part_to_render).pieces@.len() + 1int].style
            == palette.superkey_suffix_separator,
{
    proof {
        reveal_strlit(" ");
        reveal_strlit("-");
        reveal_strlit(" + ");
        reveal_strlit(" +");
        lemma_join_labels_len(common_modifiers@, false, "-"@);
    }
    let mut prefix_text = String::from_str(" ");
    let names = join_modifier_labels(common_modifiers, false, "-");
    prefix_text.append(names.as_str());
    if mode_info.arrow_fonts {
        prefix_text.append(" + ");
    } else {
        prefix_text.append(" +");
    }
    let ghost before = line_part_to_render.pieces@;
    line_part_to_render.push_styled(palette.superkey_prefix, prefix_text.as_str());
    line_part_to_render.push_styled(palette.superkey_suffix_separator, separator);
    assert(line_part_to_render.pieces@ =~= before + seq![
        line_part_to_render.pieces@[before.len() as int],
        line_part_to_render.pieces@[before.len() + 1int],
    ]);
    assert(line_part_to_render.text_view() =~= old(line_part_to_render).text_view() + banner_text(
        common_modifiers@,
        mode_info.arrow_fonts,
        separator@,
    ));
}

/// Finds the modifiers shared by the current mode's switch keys and, if
/// there are any, appends their banner to `line_part_to_render`.
pub fn superkey(
    palette: ColoredElements,
    separator: &str,
    mode_info: &ModeInfo,
    line_part_to_render: &mut LinePart,
) -> (r: Vec<KeyModifier>)
    requires
        old(line_part_to_render).wf(),
        old(line_part_to_render).len + separator@.len() + 32 <= usize::MAX,
    ensures
        r@ == superkey_modifiers(*mode_info),
        final(line_part_to_render).wf(),
        final(line_part_to_render).text_view() == old(line_part_to_render).text_view() + banner_part(
            r@,
            mode_info.arrow_fonts,
            separator@,
        ),
        r@.len() == 0 ==> final(line_part_to_render).pieces@ == old(line_part_to_render).pieces@,
{
    let keys = mode_switch_keys(mode_info);
    let common_modifiers = get_common_modifiers(&keys);
    if common_modifiers.len() == 0 {
        assert(line_part_to_render.text_view() =~= old(line_part_to_render).text_view() + Seq::<char>::empty());
        return common_modifiers;
    }
    proof {
        lemma_ordered_modifiers_len(shared_by_all(key_views(keys@)));
    }
    render_common_modifiers(&palette, mode_info, &common_modifiers, line_part_to_render, separator);
    common_modifiers
}

proof fn lemma_tiles_step(
    keys: Seq<ShortcutView>,
    i: int,
    sep: Seq<char>,
    common: Seq<KeyModifier>,
    first: bool,
    tier: Tier,
)
    requires
        0 <= i < keys.len(),
    ensures
        ({
            let t = tile_text(keys[i].0, keys[i].1, keys[i].2, sep, common, first, tier);
            tiles_text(keys.skip(i), sep, common, first, tier) == t + tiles_text(
                keys.skip(i + 1),
                sep,
                common,
                first && t.len() == 0,
                tier,
            )
        }),
{
    assert(keys.skip(i).drop_first() =~= keys.skip(i + 1));
    assert(keys.skip(i)[0] == keys[i]);
}

/// The tiles of `keys` in style `tier`, if their length stays below `limit`.
fn build_tier(
    keys: &Vec<KeyShortcut>,
    palette: ColoredElements,
    separator: &str,
    common_modifiers: &Vec<KeyModifier>,
    first: bool,
    limit: usize,
    tier: Tier,
) -> (r: Option<LinePart>)
    requires
        separator_fits(separator@),
    ensures
        r is Some <==> tiles_text(shortcuts_view(keys@), separator@, common_modifiers@, first, tier).len() < limit,
        r matches Some(seg) ==> seg.wf() && seg.text_view() == tiles_text(
            shortcuts_view(keys@),
            separator@,
            common_modifiers@,
            first,
            tier,
        ),
{
    let ghost ks = shortcuts_view(keys@);
    let ghost total = tiles_text(ks, separator@, common_modifiers@, first, tier);
    let mut seg = LinePart::new();
    let mut cur_first = first;
    let mut i: usize = 0;
    assert(ks.skip(0) =~= ks);
    if limit == 0 {
        return None;
    }
    while i < keys.len()
        invariant
            0 <= i <= keys@.len(),
            ks == shortcuts_view(keys@),
            separator_fits(separator@),
            total == tiles_text(ks, separator@, common_modifiers@, first, tier),
            seg.wf(),
            seg.len < limit,
            cur_first == (first && seg.len == 0),
            seg.text_view() + tiles_text(ks.skip(i as int), separator@, common_modifiers@, cur_first, tier) == total,
        decreases keys@.len() - i,
    {
        let t = mode_shortcut(&keys[i], palette, separator, common_modifiers, cur_first, tier);
        proof {
            assert(ks[i as int] == shortcut_view(keys@[i as int]));
            lemma_tiles_step(ks, i as int, separator@, common_modifiers@, cur_first, tier);
        }
        if t.len >= limit - seg.len {
            assert(total.len() >= seg.len + t.len);
            return None;
        }
        let ghost before = seg.text_view();
        seg.append(&t);
        assert(seg.text_view() + tiles_text(ks.skip(i + 1), separator@, common_modifiers@, cur_first && t.len == 0, tier)
            =~= before + (t.text_view() + tiles_text(ks.skip(i + 1), separator@, common_modifiers@, cur_first && t.len == 0, tier)));
        cur_first = cur_first && t.len == 0;
        i = i + 1;
    }
    assert(ks.skip(keys@.len() as int) =~= Seq::<ShortcutView>::empty());
    assert(seg.text_view() =~= total);
    Some(seg)
}

/// Appends the mode-indicator segment: the shared-modifier banner and the
/// tiles of `keys` in the widest style whose total stays below `max_len`.
/// Banner and tiles are added together or not at all.
pub fn key_indicators(
    max_len: usize,
    keys: &Vec<KeyShortcut>,
    palette: ColoredElements,
    separator: &str,
    mode_info: &ModeInfo,
    line_part_to_render: &mut LinePart,
)
    requires
        old(line_part_to_render).wf(),
        separator_fits(separator@),
        old(line_part_to_render).len + separator@.len() + 32 <= usize::MAX,
    ensures
        final(line_part_to_render).wf(),
        final(line_part_to_render).text_view() == old(line_part_to_render).text_view() + indicators_text(
            shortcuts_view(keys@),
            superkey_modifiers(*mode_info),
            mode_info.arrow_fonts,
            separator@,
            old(line_part_to_render).len as nat,
            max_len as nat,
        ),
        indicators_text(
            shortcuts_view(keys@),
            superkey_modifiers(*mode_info),
            mode_info.arrow_fonts,
            separator@,
            old(line_part_to_render).len as nat,
            max_len as nat,
        ).len() == 0 ==> final(line_part_to_render).pieces@ == old(line_part_to_render).pieces@,
{
    let ghost ks = shortcuts_view(keys@);
    let ghost start = old(line_part_to_render).text_view();
    let ghost old_len = old(line_part_to_render).len as nat;
    if keys.len() == 0 {
        assert(line_part_to_render.text_view() =~= start + Seq::<char>::empty());
        return;
    }
    let switch = mode_switch_keys(mode_info);
    let shared_modifiers = get_common_modifiers(&switch);
    let mut candidate = LinePart::new();
    if shared_modifiers.len() > 0 {
        proof {
            lemma_ordered_modifiers_len(shared_by_all(key_views(switch@)));
        }
        render_common_modifiers(&palette, mode_info, &shared_modifiers, &mut candidate, separator);
    }
    let ghost b = banner_part(shared_modifiers@, mode_info.arrow_fonts, separator@);
    assert(candidate.text_view() =~= b);
    let ghost used = old_len + b.len();
    if line_part_to_render.len >= max_len || candidate.len >= max_len - line_part_to_render.len {
        assert(!some_tier_fits(ks, separator@, shared_modifiers@, used, max_len as nat));
        assert(line_part_to_render.text_view() =~= start + Seq::<char>::empty());
        return;
    }
    let limit = max_len - line_part_to_render.len - candidate.len;
    let first = line_part_to_render.len == 0 && candidate.len == 0;
    let mut chosen = build_tier(keys, palette, separator, &shared_modifiers, first, limit, Tier::Long);
    if chosen.is_none() {
        chosen = build_tier(keys, palette, separator, &shared_modifiers, first, limit, Tier::Shortened);
    }
    if chosen.is_none() {
        chosen = build_tier(keys, palette, separator, &shared_modifiers, first, limit, Tier::Short);
    }
    match chosen {
        Some(seg) => {
            assert(seg.text_view() == fitting_tiles(ks, separator@, shared_modifiers@, used, max_len as nat));
            candidate.append(&seg);
            if candidate.len > 0 {
                line_part_to_render.append(&candidate);
            }
            assert(line_part_to_render.text_view() =~= start + (b + seg.text_view()));
        },
        None => {
            assert(line_part_to_render.text_view() =~= start + Seq::<char>::empty());
        },
    }
}

/// An ASCII lower-case letter in upper case; any other character as it is.
pub open spec fn ascii_upper(c: char) -> char {
    if 'a' <= c && c <= 'z' {
        ((c as u32) - 32) as char
    } else {
        c
    }
}

/// Relies on `str::to_ascii_uppercase`: maps 'a'..='z' to 'A'..='Z' and
/// keeps every other character.
#[verifier::external_body]
fn to_ascii_uppercase(s: &str) -> (r: String)
    ensures
        r@.len() == s@.len(),
        forall|i: int| 0 <= i < s@.len() ==> r@[i] == ascii_upper(#[trigger] s@[i]),
{
    s.to_ascii_uppercase()
}

/// The style profile of the swap-layout indicator: demoted when the layout
/// has been changed by hand.
pub open spec fn swap_profile(colored_elements: ColoredElements, is_swap_layout_damaged: bool) -> SegmentStyle {
    if is_swap_layout_damaged {
        colored_elements.unselected
    } else {
        colored_elements.selected
    }
}

/// The swap-layout indicator: the name in capitals between spaces and
/// separators.
pub open spec fn swap_indicator_text(name: Seq<char>, sep: Seq<char>) -> Seq<char> {
    sep + (" "@ + name + " "@).map_values(|c: char| ascii_upper(c)) + sep
}

/// What the swap-layout segment shows within `max_len`: the key code and
/// the indicator if both fit, else the indicator alone if it fits and the
/// mode is not locked, else nothing; nothing without a layout name.
pub open spec fn swap_status_text(
    max_len: nat,
    name: Option<Seq<char>>,
    mode: InputMode,
    keycode: Seq<char>,
    sep: Seq<char>,
) -> Option<Seq<char>> {
    match name {
        None => None,
        Some(n) => {
            let indicator = swap_indicator_text(n, sep);
            if keycode.len() + indicator.len() <= max_len {
                Some(keycode + indicator)
            } else if indicator.len() <= max_len && mode != InputMode::Locked {
                Some(indicator)
            } else {
                None
            }
        },
    }
}

pub open spec fn opt_string_view(s: Option<String>) -> Option<Seq<char>> {
    match s {
        Some(s) => Some(s@),
        None => None,
    }
}

/// The swap-layout segment: the key code that cycles layouts followed by
/// the layout's name, or the name alone when only that fits.
pub fn swap_layout_status(
    max_len: usize,
    swap_layout_name: &Option<String>,
    is_swap_layout_damaged: bool,
    mode: InputMode,
    keycode: &LinePart,
    colored_elements: ColoredElements,
    separator: &str,
) -> (r: Option<LinePart>)
    requires
        keycode.wf(),
    ensures
        opt_line_text(r) == swap_status_text(
            max_len as nat,
            opt_string_view(*swap_layout_name),
            mode,
            keycode.text_view(),
            separator@,
        ),
        r matches Some(p) ==> {
            &&& p.wf()
            &&& p.len <= max_len
            &&& p.pieces@.len() >= 3
            &&& p.pieces@[p.pieces@.len() - 3].style == swap_profile(colored_elements, is_swap_layout_damaged).prefix_separator
            &&& p.pieces@[p.pieces@.len() - 2].style == swap_profile(colored_elements, is_swap_layout_damaged).styled_text
            &&& p.pieces@[p.pieces@.len() - 1].style == swap_profile(colored_elements, is_swap_layout_damaged).suffix_separator
            &&& (p.pieces@.len() == 3 || p.pieces@ == keycode.pieces@ + p.pieces@.skip(keycode.pieces@.len() as int))
        },
{
    match swap_layout_name {
        None => None,
        Some(name) => {
            let mut padded = String::from_str(" ");
            padded.append(name.as_str());
            padded.append(" ");
            let upper = to_ascii_uppercase(padded.as_str());
            assert(upper@ =~= padded@.map_values(|c: char| ascii_upper(c)));
            let style = if is_swap_layout_damaged {
                colored_elements.unselected
            } else {
                colored_elements.selected
            };
            let sep_len = separator.unicode_len();
            let name_len = upper.as_str().unicode_len();
            if sep_len > max_len || name_len > max_len - sep_len || sep_len > max_len - sep_len - name_len {
                // The indicator alone is wider than `max_len`.
                return None;
            }
            let mut indicator = LinePart::new();
            indicator.push_styled(style.prefix_separator, separator);
            indicator.push_styled(style.styled_text, upper.as_str());
            indicator.push_styled(style.suffix_separator, separator);
            assert(indicator.pieces@.len() == 3);
            assert(indicator.pieces@[0].style == style.prefix_separator);
            assert(indicator.pieces@[1].style == style.styled_text);
            assert(indicator.pieces@[2].style == style.suffix_separator);
            assert(indicator.len <= max_len);
            proof {
                reveal_strlit(" ");
                assert(indicator.text_view() =~= swap_indicator_text(name@, separator@));
            }
            if keycode.len <= max_len - indicator.len {
                let mut full = LinePart::new();
                let ghost empty = full.pieces@;
                full.append(keycode);
                let ghost mid = full.pieces@;
                assert forall|i: int| 0 <= i < mid.len() implies mid[i] == keycode.pieces@[i] by {
                    assert(mid[empty.len() + i] == keycode.pieces@[i]);
                }
                assert(mid =~= keycode.pieces@);
                full.append(&indicator);
                assert(full.pieces@.len() == keycode.pieces@.len() + 3);
                assert(full.pieces@[mid.len() + 0int] == indicator.pieces@[0]);
                assert(full.pieces@[mid.len() + 1int] == indicator.pieces@[1]);
                assert(full.pieces@[mid.len() + 2int] == indicator.pieces@[2]);
                assert(forall|i: int| 0 <= i < mid.len() ==> full.pieces@[i] == mid[i]);
                assert(full.pieces@ =~= keycode.pieces@ + full.pieces@.skip(keycode.pieces@.len() as int));
                assert(full.text_view() =~= keycode.text_view() + indicator.text_view());
                Some(full)
            } else if mode != InputMode::Locked {
                Some(indicator)
            } else {
                None
            }
        },
    }
}

pub open spec fn opt_line_text(p: Option<LinePart>) -> Option<Seq<char>> {
    match p {
        Some(p) => Some(p.text_view()),
        None => None,
    }
}


/// Segments drawn by the host's other components: the extra key hints of
/// the base modes, the quick-navigation hints of the other modes, the key
/// code that cycles swap layouts, and the separator that closes the mode
/// indicators outside the base modes.
pub struct Hints {
    pub secondary_keybinds: LinePart,
    pub quick_navigation: LinePart,
    pub swap_layout_keycode: LinePart,
    pub keygroup_separator: LinePart,
}

impl Hints {
    pub open spec fn wf(&self) -> bool {
        &&& self.secondary_keybinds.wf()
        &&& self.quick_navigation.wf()
        &&& self.swap_layout_keycode.wf()
        &&& self.keygroup_separator.wf()
    }
}

/// The swap-layout segment for the active tab, if any is shown.
pub open spec fn tab_swap_text(
    help: ModeInfo,
    tab_info: Option<&TabInfo>,
    hints: Hints,
    max_len: nat,
    sep: Seq<char>,
) -> Option<Seq<char>> {
    match tab_info {
        None => None,
        Some(t) => swap_status_text(
            max_len,
            opt_string_view(t.active_swap_layout_name),
            help.mode,
            hints.swap_layout_keycode.text_view(),
            sep,
        ),
    }
}

/// The secondary segment: the extra key hints, then the swap-layout
/// segment if one is shown.
pub open spec fn secondary_text(
    help: ModeInfo,
    tab_info: Option<&TabInfo>,
    hints: Hints,
    max_len: nat,
    sep: Seq<char>,
) -> Seq<char> {
    hints.secondary_keybinds.text_view() + match tab_swap_text(help, tab_info, hints, max_len, sep) {
        Some(s) => s,
        None => Seq::empty(),
    }
}

/// `n` spaces.
pub open spec fn spaces(n: nat) -> Seq<char> {
    Seq::new(n, |i: int| ' ')
}

/// The secondary segment after `used` characters, pushed right by spaces so
/// that one column stays free at the end of `max_len`; no spaces when there
/// is no room.
pub open spec fn padded_secondary(used: nat, secondary: Seq<char>, max_len: nat) -> Seq<char> {
    spaces(padding_len(used, secondary, max_len)) + secondary
}

/// How many spaces push the secondary segment right.
pub open spec fn padding_len(used: nat, secondary: Seq<char>, max_len: nat) -> nat {
    if max_len > used + secondary.len() + 1 {
        (max_len - used - secondary.len() - 1) as nat
    } else {
        0
    }
}

/// Appends the secondary segment, right-aligned within `max_len`.
pub fn render_secondary_info(
    help: &ModeInfo,
    tab_info: Option<&TabInfo>,
    hints: &Hints,
    max_len: usize,
    separator: &str,
    current_line: &mut LinePart,
)
    requires
        old(current_line).wf(),
        hints.wf(),
        old(current_line).len + hints.secondary_keybinds.len + max_len <= usize::MAX,
    ensures
        final(current_line).wf(),
        final(current_line).text_view() == old(current_line).text_view() + padded_secondary(
            old(current_line).len as nat,
            secondary_text(*help, tab_info, *hints, max_len as nat, separator@),
            max_len as nat,
        ),
        forall|i: int| 0 <= i < old(current_line).pieces@.len() ==> #[trigger] final(current_line).pieces@[i]
            == old(current_line).pieces@[i],
        forall|i: int| old(current_line).pieces@.len() <= i < old(current_line).pieces@.len() + padding_len(
            old(current_line).len as nat,
            secondary_text(*help, tab_info, *hints, max_len as nat, separator@),
            max_len as nat,
        ) ==> (#[trigger] final(current_line).pieces@[i]).style == help.colors.superkey_prefix,
{
    let ghost start = current_line.text_view();
    let ghost start_pieces = current_line.pieces@;
    let mut secondary_info = LinePart::new();
    secondary_info.append(&hints.secondary_keybinds);
    let ghost swap = tab_swap_text(*help, tab_info, *hints, max_len as nat, separator@);
    match tab_info {
        Some(t) => {
            match swap_layout_status(
                max_len,
                &t.active_swap_layout_name,
                t.is_swap_layout_dirty,
                help.mode,
                &hints.swap_layout_keycode,
                help.colors,
                separator,
            ) {
                Some(indicator) => {
                    secondary_info.append(&indicator);
                },
                None => {
                    assert(secondary_info.text_view() =~= hints.secondary_keybinds.text_view() + Seq::<char>::empty());
                },
            }
        },
        None => {
            assert(secondary_info.text_view() =~= hints.secondary_keybinds.text_view() + Seq::<char>::empty());
        },
    }
    assert(secondary_info.text_view() == secondary_text(*help, tab_info, *hints, max_len as nat, separator@));
    let remaining: usize = if max_len > current_line.len && max_len - current_line.len > secondary_info.len
        && max_len - current_line.len - secondary_info.len > 1 {
        max_len - current_line.len - secondary_info.len - 1
    } else {
        0
    };
    let ghost used = current_line.len;
    let mut k: usize = 0;
    while k < remaining
        invariant
            0 <= k <= remaining,
            used + remaining < max_len || remaining == 0,
            current_line.wf(),
            current_line.len == used + k,
            current_line.text_view() == start + spaces(k as nat),
            current_line.pieces@.len() == start_pieces.len() + k,
            forall|i: int| 0 <= i < start_pieces.len() ==> #[trigger] current_line.pieces@[i] == start_pieces[i],
            forall|i: int| start_pieces.len() <= i < start_pieces.len() + k ==> (#[trigger] current_line.pieces@[i]).style
                == help.colors.superkey_prefix,
        decreases remaining - k,
    {
        proof {
            reveal_strlit(" ");
        }
        current_line.push_styled(help.colors.superkey_prefix, " ");
        assert(current_line.text_view() =~= start + spaces((k + 1) as nat));
        k = k + 1;
    }
    assert(remaining as nat == padding_len(
        used as nat,
        secondary_text(*help, tab_info, *hints, max_len as nat, separator@),
        max_len as nat,
    ));
    current_line.append(&secondary_info);
    assert(current_line.text_view() =~= start + padded_secondary(
        used as nat,
        secondary_text(*help, tab_info, *hints, max_len as nat, separator@),
        max_len as nat,
    ));
}

/// The shortcuts listed for `mode`: those of its first entry, or none.
pub open spec fn entry_for(t: Seq<(InputMode, Seq<ShortcutView>)>, mode: InputMode) -> Seq<ShortcutView>
    decreases t.len(),
{
    if t.len() == 0 {
        Seq::empty()
    } else if t[0].0 == mode {
        t[0].1
    } else {
        entry_for(t.drop_first(), mode)
    }
}

/// Whether `mode` is one of the two base modes.
pub open spec fn is_base_mode(mode: InputMode) -> bool {
    mode == InputMode::Normal || mode == InputMode::Locked
}

/// What the mode-indicator segment adds after `used` characters: the
/// banner and tiles of the current mode's shortcuts, then, outside the base
/// modes, the key-group separator if the line stays within `max_len`.
pub open spec fn mode_segment_text(help: ModeInfo, hints: Hints, sep: Seq<char>, used: nat, max_len: nat) -> Seq<char> {
    let ind = indicators_text(
        entry_for(normal_base_table(help), help.mode),
        superkey_modifiers(help),
        help.arrow_fonts,
        sep,
        used,
        max_len,
    );
    let group = hints.keygroup_separator.text_view();
    if !is_base_mode(help.mode) && used + ind.len() + group.len() <= max_len {
        ind + group
    } else {
        ind
    }
}

/// Appends the mode-indicator segment for the current mode.
pub fn render_mode_key_indicators(
    help: &ModeInfo,
    hints: &Hints,
    max_len: usize,
    separator: &str,
    line_part_to_render: &mut LinePart,
)
    requires
        old(line_part_to_render).wf(),
        hints.wf(),
        separator_fits(separator@),
        old(line_part_to_render).len + separator@.len() + 32 <= usize::MAX,
    ensures
        final(line_part_to_render).wf(),
        final(line_part_to_render).text_view() == old(line_part_to_render).text_view() + mode_segment_text(
            *help,
            *hints,
            separator@,
            old(line_part_to_render).len as nat,
            max_len as nat,
        ),
{
    let ghost start = old(line_part_to_render).text_view();
    let ghost start_len = old(line_part_to_render).len as nat;
    let default_keys = base_mode_normal_mode_indicators(help);
    let ghost t = table_view(default_keys@);
    assert(t == normal_base_table(*help));
    let ghost ind = indicators_text(
        entry_for(t, help.mode),
        superkey_modifiers(*help),
        help.arrow_fonts,
        separator@,
        start_len,
        max_len as nat,
    );
    let mut i: usize = 0;
    let mut found: Option<usize> = None;
    assert(t.skip(0) =~= t);
    while i < default_keys.len() && found.is_none()
        invariant
            0 <= i <= default_keys@.len(),
            t == table_view(default_keys@),
            found matches Some(j) ==> j < default_keys@.len() && default_keys@[j as int].0 == help.mode
                && entry_for(t, help.mode) == t[j as int].1,
            found is None ==> entry_for(t.skip(i as int), help.mode) == entry_for(t, help.mode),
        decreases default_keys@.len() - i + (if found is None { 1int } else { 0int }),
    {
        assert(t.skip(i as int).drop_first() =~= t.skip(i + 1));
        assert(t.skip(i as int)[0] == t[i as int]);
        assert(t[i as int].0 == default_keys@[i as int].0);
        if default_keys[i].0 == help.mode {
            found = Some(i);
        } else {
            i = i + 1;
        }
    }
    match found {
        Some(j) => {
            assert(t[j as int].1 == shortcuts_view(default_keys@[j as int].1@));
            key_indicators(max_len, &default_keys[j].1, help.colors, separator, help, line_part_to_render);
        },
        None => {
            assert(t.skip(i as int) =~= Seq::<(InputMode, Seq<ShortcutView>)>::empty());
            assert(entry_for(t, help.mode) =~= Seq::<ShortcutView>::empty());
            assert(line_part_to_render.text_view() =~= start + Seq::<char>::empty());
        },
    }
    assert(line_part_to_render.text_view() == start + ind);
    proof {
        lemma_indicators_fit(
            entry_for(t, help.mode),
            superkey_modifiers(*help),
            help.arrow_fonts,
            separator@,
            start_len,
            max_len as nat,
        );
    }
    if help.mode != InputMode::Normal && help.mode != InputMode::Locked {
        if line_part_to_render.len <= max_len && hints.keygroup_separator.len <= max_len - line_part_to_render.len {
            line_part_to_render.append(&hints.keygroup_separator);
            assert(line_part_to_render.text_view() =~= start + (ind + hints.keygroup_separator.text_view()));
        }
    }
}

/// The whole status line: the mode-indicator segment, then, in the base
/// modes, the right-aligned secondary segment if the line is still shorter
/// than `max_len`, or, in the other modes, the quick-navigation hints if
/// they fit.
pub open spec fn first_line_text(
    help: ModeInfo,
    tab_info: Option<&TabInfo>,
    hints: Hints,
    max_len: nat,
    sep: Seq<char>,
) -> Seq<char> {
    let ind = mode_segment_text(help, hints, sep, 0, max_len);
    if is_base_mode(help.mode) {
        if ind.len() < max_len {
            ind + padded_secondary(ind.len(), secondary_text(help, tab_info, hints, max_len, sep), max_len)
        } else {
            ind
        }
    } else {
        let quick = hints.quick_navigation.text_view();
        if ind.len() + quick.len() <= max_len {
            ind + quick
        } else {
            ind
        }
    }
}

/// Renders the status line within `max_len` characters.
pub fn first_line(
    help: &ModeInfo,
    tab_info: Option<&TabInfo>,
    hints: &Hints,
    max_len: usize,
    separator: &str,
) -> (r: LinePart)
    requires
        separator_fits(separator@),
        hints.wf(),
        2 * max_len + hints.secondary_keybinds.len <= usize::MAX,
    ensures
        r.wf(),
        r.text_view() == first_line_text(*help, tab_info, *hints, max_len as nat, separator@),
{
    let mut line_part_to_render = LinePart::new();
    render_mode_key_indicators(help, hints, max_len, separator, &mut line_part_to_render);
    let ghost ind = line_part_to_render.text_view();
    assert(ind =~= Seq::<char>::empty() + ind);
    match help.mode {
        InputMode::Normal | InputMode::Locked => {
            if line_part_to_render.len < max_len {
                render_secondary_info(help, tab_info, hints, max_len, separator, &mut line_part_to_render);
            }
        },
        _ => {
            if line_part_to_render.len <= max_len && hints.quick_navigation.len <= max_len - line_part_to_render.len {
                line_part_to_render.append(&hints.quick_navigation);
            }
        },
    }
    line_part_to_render
}

/// The action whose tile stands for input mode `mode`, if it has one.
pub open spec fn tile_action_of_mode(mode: InputMode) -> Option<KeyAction> {
    match mode {
        InputMode::Normal | InputMode::Prompt | InputMode::Tmux => None,
        InputMode::Locked => Some(KeyAction::Lock),
        InputMode::Pane | InputMode::RenamePane => Some(KeyAction::Pane),
        InputMode::Tab | InputMode::RenameTab => Some(KeyAction::Tab),
        InputMode::Resize => Some(KeyAction::Resize),
        InputMode::Move => Some(KeyAction::Move),
        InputMode::Scroll | InputMode::Search | InputMode::EnterSearch => Some(KeyAction::Search),
        InputMode::Session => Some(KeyAction::Session),
    }
}

/// The position of the first shortcut whose action stands for `mode`.
pub fn get_key_shortcut_for_mode(shortcuts: &Vec<KeyShortcut>, mode: &InputMode) -> (r: Option<usize>)
    ensures
        r matches Some(i) ==> i < shortcuts@.len() && tile_action_of_mode(*mode) == Some(shortcuts@[i as int].action)
            && forall|j: int| 0 <= j < i ==> shortcuts@[j].action != shortcuts@[i as int].action,
        r is None ==> (tile_action_of_mode(*mode) matches Some(a) ==> forall|j: int| 0 <= j < shortcuts@.len()
            ==> shortcuts@[j].action != a),
{
    let key_action = match mode {
        InputMode::Normal | InputMode::Prompt | InputMode::Tmux => {
            return None;
        },
        InputMode::Locked => KeyAction::Lock,
        InputMode::Pane | InputMode::RenamePane => KeyAction::Pane,
        InputMode::Tab | InputMode::RenameTab => KeyAction::Tab,
        InputMode::Resize => KeyAction::Resize,
        InputMode::Move => KeyAction::Move,
        InputMode::Scroll | InputMode::Search | InputMode::EnterSearch => KeyAction::Search,
        InputMode::Session => KeyAction::Session,
    };
    let mut i: usize = 0;
    while i < shortcuts.len()
        invariant
            0 <= i <= shortcuts@.len(),
            tile_action_of_mode(*mode) == Some(key_action),
            forall|j: int| 0 <= j < i ==> shortcuts@[j].action != key_action,
        decreases shortcuts@.len() - i,
    {
        if shortcuts[i].action == key_action {
            return Some(i);
        }
        i = i + 1;
    }
    None
}


/// The styles of the current-mode label: locked, normal, and every other
/// mode.
#[derive(Clone, Copy)]
pub struct ModeColors {
    pub locked: Style,
    pub normal: Style,
    pub other: Style,
}

/// The name of an input mode in capitals.
pub open spec fn mode_name(m: InputMode) -> Seq<char> {
    match m {
        InputMode::Normal => "NORMAL"@,
        InputMode::Locked => "LOCKED"@,
        InputMode::Resize => "RESIZE"@,
        InputMode::Pane => "PANE"@,
        InputMode::Tab => "TAB"@,
        InputMode::Scroll => "SCROLL"@,
        InputMode::EnterSearch => "ENTERSEARCH"@,
        InputMode::Search => "SEARCH"@,
        InputMode::RenameTab => "RENAMETAB"@,
        InputMode::RenamePane => "RENAMEPANE"@,
        InputMode::Session => "SESSION"@,
        InputMode::Move => "MOVE"@,
        InputMode::Prompt => "PROMPT"@,
        InputMode::Tmux => "TMUX"@,
    }
}

/// `s` centred in `width` columns; an odd padding leaves the extra space on
/// the right. Text as wide as `width` or wider stays as it is.
pub open spec fn centered(s: Seq<char>, width: nat) -> Seq<char> {
    if s.len() >= width {
        s
    } else {
        let pad = (width - s.len()) as nat;
        spaces(pad / 2) + s + spaces((pad - pad / 2) as nat)
    }
}

/// The current-mode label, e.g. " NORMAL  ".
pub open spec fn current_mode_text(m: InputMode) -> Seq<char> {
    " "@ + centered(mode_name(m), 7) + " "@
}

fn mode_name_string(m: InputMode) -> (r: String)
    ensures
        r@ == mode_name(m),
        r@.len() <= 11,
{
    proof {
        reveal_strlit("NORMAL");
        reveal_strlit("LOCKED");
        reveal_strlit("RESIZE");
        reveal_strlit("PANE");
        reveal_strlit("TAB");
        reveal_strlit("SCROLL");
        reveal_strlit("ENTERSEARCH");
        reveal_strlit("SEARCH");
        reveal_strlit("RENAMETAB");
        reveal_strlit("RENAMEPANE");
        reveal_strlit("SESSION");
        reveal_strlit("MOVE");
        reveal_strlit("PROMPT");
        reveal_strlit("TMUX");
    }
    match m {
        InputMode::Normal => String::from_str("NORMAL"),
        InputMode::Locked => String::from_str("LOCKED"),
        InputMode::Resize => String::from_str("RESIZE"),
        InputMode::Pane => String::from_str("PANE"),
        InputMode::Tab => String::from_str("TAB"),
        InputMode::Scroll => String::from_str("SCROLL"),
        InputMode::EnterSearch => String::from_str("ENTERSEARCH"),
        InputMode::Search => String::from_str("SEARCH"),
        InputMode::RenameTab => String::from_str("RENAMETAB"),
        InputMode::RenamePane => String::from_str("RENAMEPANE"),
        InputMode::Session => String::from_str("SESSION"),
        InputMode::Move => String::from_str("MOVE"),
        InputMode::Prompt => String::from_str("PROMPT"),
        InputMode::Tmux => String::from_str("TMUX"),
    }
}

fn append_spaces(s: &mut String, n: usize)
    ensures
        final(s)@ == old(s)@ + spaces(n as nat),
{
    let mut k: usize = 0;
    while k < n
        invariant
            0 <= k <= n,
            s@ == old(s)@ + spaces(k as nat),
        decreases n - k,
    {
        proof {
            reveal_strlit(" ");
        }
        s.append(" ");
        assert(s@ =~= old(s)@ + spaces((k + 1) as nat));
        k = k + 1;
    }
}

/// Appends the label of the current mode, in its mode's colour, if it fits
/// within `max_len`.
pub fn render_current_mode(mode: InputMode, colors: ModeColors, max_len: usize, line_part: &mut LinePart)
    requires
        old(line_part).wf(),
        old(line_part).len + 13 <= usize::MAX,
    ensures
        final(line_part).wf(),
        final(line_part).text_view() == old(line_part).text_view() + (if current_mode_text(mode).len() <= max_len {
            current_mode_text(mode)
        } else {
            Seq::empty()
        }),
{
    let name = mode_name_string(mode);
    let len = name.as_str().unicode_len();
    let mut mode_text = String::from_str(" ");
    if len < 7 {
        let pad = 7 - len;
        append_spaces(&mut mode_text, pad / 2);
        mode_text.append(name.as_str());
        append_spaces(&mut mode_text, pad - pad / 2);
    } else {
        mode_text.append(name.as_str());
    }
    mode_text.append(" ");
    proof {
        reveal_strlit(" ");
    }
    assert(mode_text@ =~= current_mode_text(mode));
    let style = if mode == InputMode::Locked {
        colors.locked
    } else if mode == InputMode::Normal {
        colors.normal
    } else {
        colors.other
    };
    if mode_text.as_str().unicode_len() <= max_len {
        line_part.push_styled(style, mode_text.as_str());
    } else {
        assert(line_part.text_view() =~= old(line_part).text_view() + Seq::<char>::empty());
    }
}

} // verus!
