//! Styled line fragments whose visible length is tracked exactly.
use ansi_term::Style;
use vstd::prelude::*;
use vstd::string::*;

verus! {

/// `ansi_term::Style`: the colours and attributes of a run of text, carried
/// through as an opaque value.
#[verifier::external_type_specification]
#[verifier::external_body]
pub struct ExStyle(ansi_term::Style);

/// One run of text drawn in one style.
pub struct Piece {
    pub style: Style,
    pub text: String,
}

/// The styles of the six fragments of a shortcut tile.
#[derive(Clone, Copy)]
pub struct SegmentStyle {
    pub prefix_separator: Style,
    pub char_left_separator: Style,
    pub char_shortcut: Style,
    pub char_right_separator: Style,
    pub styled_text: Style,
    pub suffix_separator: Style,
}

/// The resolved styles of a status line: one tile profile for each display
/// mode of a shortcut, and the two styles of the shared-modifier banner.
#[derive(Clone, Copy)]
pub struct ColoredElements {
    pub selected: SegmentStyle,
    pub unselected: SegmentStyle,
    pub unselected_alternate: SegmentStyle,
    pub disabled: SegmentStyle,
    pub superkey_prefix: Style,
    pub superkey_suffix_separator: Style,
}

/// The plain text of a run of pieces, styles left out.
pub open spec fn pieces_text(p: Seq<Piece>) -> Seq<char>
    decreases p.len(),
{
    if p.len() == 0 {
        Seq::empty()
    } else {
        pieces_text(p.drop_last()) + p.last().text@
    }
}

/// The styles of a run of pieces, in order.
pub open spec fn piece_styles(p: Seq<Piece>) -> Seq<Style> {
    p.map_values(|x: Piece| x.style)
}

/// A fragment of a status line and its visible length in characters.
pub struct LinePart {
    pub pieces: Vec<Piece>,
    pub len: usize,
}

/// The escape character that starts a control sequence.
pub open spec fn is_escape(c: char) -> bool {
    c == '\u{1b}'
}

/// `s` with its escape sequences removed: each runs from an escape
/// character up to and including the next 'm'. `in_escape` says whether
/// `s` starts inside one.
pub open spec fn strip_escapes(s: Seq<char>, in_escape: bool) -> Seq<char>
    decreases s.len(),
{
    if s.len() == 0 {
        Seq::empty()
    } else if in_escape {
        strip_escapes(s.drop_first(), s[0] != 'm')
    } else if is_escape(s[0]) {
        strip_escapes(s.drop_first(), true)
    } else {
        seq![s[0]] + strip_escapes(s.drop_first(), false)
    }
}

/// The visible text of a styled string.
pub open spec fn visible_text(s: Seq<char>) -> Seq<char> {
    strip_escapes(s, false)
}

/// No piece holds an escape character of its own.
pub open spec fn pieces_plain(p: Seq<Piece>) -> bool {
    forall|i: int, j: int| 0 <= i < p.len() && 0 <= j < p[i].text@.len() ==> !is_escape(#[trigger] p[i].text@[j])
}

/// Relies on `ansi_term::ANSIStrings`: writes each piece's text, preceded
/// and followed only by escape sequences of the form ESC '[' codes 'm'
/// (display.rs, ansi.rs); no pieces give the empty string.
#[verifier::external_body]
fn render_pieces(pieces: &Vec<Piece>) -> (r: String)
    ensures
        pieces@.len() == 0 ==> r@.len() == 0,
        pieces_plain(pieces@) ==> visible_text(r@) == pieces_text(pieces@),
{
    let painted: Vec<ansi_term::ANSIString> = pieces.iter().map(|p| p.style.paint(p.text.as_str())).collect();
    ansi_term::ANSIStrings(&painted).to_string()
}

proof fn lemma_pieces_text_push(p: Seq<Piece>, x: Piece)
    ensures
        pieces_text(p.push(x)) == pieces_text(p) + x.text@,
{
    assert(p.push(x).drop_last() =~= p);
}

impl LinePart {
    /// The plain text of this part.
    pub open spec fn text_view(&self) -> Seq<char> {
        pieces_text(self.pieces@)
    }

    /// The recorded length is the number of visible characters.
    pub open spec fn wf(&self) -> bool {
        self.len == self.text_view().len()
    }

    /// The empty part.
    pub fn new() -> (r: LinePart)
        ensures
            r.wf(),
            r.text_view() == Seq::<char>::empty(),
            r.len == 0,
            r.pieces@.len() == 0,
    {
        LinePart { pieces: Vec::new(), len: 0 }
    }

    /// Adds `text` drawn in `style` at the end.
    pub fn push_styled(&mut self, style: Style, text: &str)
        requires
            old(self).wf(),
            old(self).len + text@.len() <= usize::MAX,
        ensures
            final(self).wf(),
            final(self).text_view() == old(self).text_view() + text@,
            final(self).pieces@.len() == old(self).pieces@.len() + 1,
            final(self).pieces@.last().style == style,
            final(self).pieces@.last().text@ == text@,
            forall|i: int| 0 <= i < old(self).pieces@.len() ==> #[trigger] final(self).pieces@[i] == old(self).pieces@[i],
    {
        let n = text.unicode_len();
        let piece = Piece { style, text: String::from_str(text) };
        proof {
            lemma_pieces_text_push(self.pieces@, piece);
        }
        self.pieces.push(piece);
        self.len = self.len + n;
    }

    /// Adds the pieces of `other` at the end.
    pub fn append(&mut self, other: &LinePart)
        requires
            old(self).wf(),
            other.wf(),
            old(self).len + other.len <= usize::MAX,
        ensures
            final(self).wf(),
            final(self).text_view() == old(self).text_view() + other.text_view(),
            final(self).pieces@.len() == old(self).pieces@.len() + other.pieces@.len(),
            forall|i: int| 0 <= i < old(self).pieces@.len() ==> #[trigger] final(self).pieces@[i] == old(self).pieces@[i],
            forall|i: int| 0 <= i < other.pieces@.len() ==>
                #[trigger] final(self).pieces@[old(self).pieces@.len() + i] == other.pieces@[i],
    {
        let ghost start = self.text_view();
        let mut i: usize = 0;
        while i < other.pieces.len()
            invariant
                0 <= i <= other.pieces@.len(),
                self.text_view() == start + pieces_text(other.pieces@.take(i as int)),
                self.len == old(self).len,
                start == old(self).text_view(),
                old(self).wf(),
                other.wf(),
                old(self).len + other.len <= usize::MAX,
                self.pieces@.len() == old(self).pieces@.len() + i,
                forall|j: int| 0 <= j < old(self).pieces@.len() ==> #[trigger] self.pieces@[j] == old(self).pieces@[j],
                forall|j: int| 0 <= j < i ==>
                    #[trigger] self.pieces@[old(self).pieces@.len() + j] == other.pieces@[j],
            decreases other.pieces@.len() - i,
        {
            let piece = Piece { style: other.pieces[i].style, text: other.pieces[i].text.clone() };
            proof {
                lemma_pieces_text_push(self.pieces@, piece);
                assert(other.pieces@.take(i + 1).drop_last() =~= other.pieces@.take(i as int));
            }
            self.pieces.push(piece);
            i = i + 1;
        }
        assert(other.pieces@.take(other.pieces@.len() as int) =~= other.pieces@);
        self.len = self.len + other.len;
    }

    /// The text of this part without styles.
    pub fn text(&self) -> (r: String)
        ensures
            r@ == self.text_view(),
    {
        let mut out = String::new();
        let mut i: usize = 0;
        while i < self.pieces.len()
            invariant
                0 <= i <= self.pieces@.len(),
                out@ == pieces_text(self.pieces@.take(i as int)),
            decreases self.pieces@.len() - i,
        {
            out.append(self.pieces[i].text.as_str());
            assert(self.pieces@.take(i + 1).drop_last() =~= self.pieces@.take(i as int));
            i = i + 1;
        }
        assert(self.pieces@.take(self.pieces@.len() as int) =~= self.pieces@);
        out
    }

    /// The text of this part with the escape codes of its styles. Unless a
    /// piece holds an escape character itself, removing the escape
    /// sequences gives back the plain text.
    pub fn part(&self) -> (r: String)
        ensures
            self.pieces@.len() == 0 ==> r@.len() == 0,
            pieces_plain(self.pieces@) ==> visible_text(r@) == self.text_view(),
    {
        render_pieces(&self.pieces)
    }
}

} // verus!
