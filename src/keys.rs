//! Keys, modifiers and their display text.
use vstd::prelude::*;
use vstd::string::*;

verus! {

/// A modifier held down together with a key.
#[derive(Clone, Copy, Debug, PartialEq, Eq, Structural)]
pub enum KeyModifier {
    Ctrl,
    Alt,
    Shift,
    Super,
}

/// A key without its modifiers.
#[derive(Clone, Copy, Debug, PartialEq, Eq, Structural)]
pub enum BareKey {
    PageDown,
    PageUp,
    Left,
    Down,
    Up,
    Right,
    Home,
    End,
    Backspace,
    Delete,
    Insert,
    F(u8),
    Char(char),
    Tab,
    Esc,
    Enter,
    CapsLock,
    ScrollLock,
    NumLock,
    PrintScreen,
    Pause,
    Menu,
}

/// A key together with the set of modifiers pressed with it.
///
/// The modifiers are a set: their order and repetitions in the vector
/// carry no meaning.
#[derive(Debug)]
pub struct KeyWithModifier {
    pub bare_key: BareKey,
    pub key_modifiers: Vec<KeyModifier>,
}

/// The modifiers of `mods` that `common` does not list.
pub open spec fn stripped(mods: Set<KeyModifier>, common: Seq<KeyModifier>) -> Set<KeyModifier> {
    mods.difference(modifier_set(common))
}

/// The set of modifiers listed in `v`.
pub open spec fn modifier_set(v: Seq<KeyModifier>) -> Set<KeyModifier> {
    Set::new(|m: KeyModifier| v.contains(m))
}

/// The members of `s`, in the canonical order Ctrl, Alt, Shift, Super.
pub open spec fn ordered_modifiers(s: Set<KeyModifier>) -> Seq<KeyModifier> {
    (if s.contains(KeyModifier::Ctrl) { seq![KeyModifier::Ctrl] } else { Seq::empty() })
        + (if s.contains(KeyModifier::Alt) { seq![KeyModifier::Alt] } else { Seq::empty() })
        + (if s.contains(KeyModifier::Shift) { seq![KeyModifier::Shift] } else { Seq::empty() })
        + (if s.contains(KeyModifier::Super) { seq![KeyModifier::Super] } else { Seq::empty() })
}

/// The full name of a modifier ("Ctrl"), or its abbreviation ("^C").
pub open spec fn modifier_label(m: KeyModifier, abbreviated: bool) -> Seq<char> {
    match m {
        KeyModifier::Ctrl => if abbreviated { "^C"@ } else { "Ctrl"@ },
        KeyModifier::Alt => if abbreviated { "^A"@ } else { "Alt"@ },
        KeyModifier::Shift => if abbreviated { "^Sh"@ } else { "Shift"@ },
        KeyModifier::Super => if abbreviated { "^Su"@ } else { "Super"@ },
    }
}

/// The labels of `ms`, joined by `sep`.
pub open spec fn join_labels(ms: Seq<KeyModifier>, abbreviated: bool, sep: Seq<char>) -> Seq<char>
    decreases ms.len(),
{
    if ms.len() == 0 {
        Seq::empty()
    } else if ms.len() == 1 {
        modifier_label(ms[0], abbreviated)
    } else {
        join_labels(ms.drop_last(), abbreviated, sep) + sep + modifier_label(ms.last(), abbreviated)
    }
}

/// The labels of the modifier set `s` in canonical order, joined by `sep`.
pub open spec fn modifiers_text(s: Set<KeyModifier>, abbreviated: bool, sep: Seq<char>) -> Seq<char> {
    join_labels(ordered_modifiers(s), abbreviated, sep)
}

/// The text shown for a bare key: arrows as arrow glyphs, named keys in
/// capitals, a character as itself (a space as "SPACE").
pub open spec fn bare_key_text(k: BareKey) -> Seq<char> {
    match k {
        BareKey::PageDown => "PgDn"@,
        BareKey::PageUp => "PgUp"@,
        BareKey::Left => "←"@,
        BareKey::Down => "↓"@,
        BareKey::Up => "↑"@,
        BareKey::Right => "→"@,
        BareKey::Home => "HOME"@,
        BareKey::End => "END"@,
        BareKey::Backspace => "BACKSPACE"@,
        BareKey::Delete => "DEL"@,
        BareKey::Insert => "INS"@,
        BareKey::F(n) => seq!['F'] + decimal_text(n as nat),
        BareKey::Char(c) => if c == ' ' { "SPACE"@ } else { seq![c] },
        BareKey::Tab => "TAB"@,
        BareKey::Esc => "ESC"@,
        BareKey::Enter => "ENTER"@,
        BareKey::CapsLock => "CAPSlOCK"@,
        BareKey::ScrollLock => "SCROLLlOCK"@,
        BareKey::NumLock => "NUMLOCK"@,
        BareKey::PrintScreen => "PRINTSCREEN"@,
        BareKey::Pause => "PAUSE"@,
        BareKey::Menu => "MENU"@,
    }
}

/// The decimal digit for `d < 10`.
pub open spec fn digit(d: nat) -> char {
    if d == 0 { '0' } else if d == 1 { '1' } else if d == 2 { '2' } else if d == 3 { '3' }
    else if d == 4 { '4' } else if d == 5 { '5' } else if d == 6 { '6' } else if d == 7 { '7' }
    else if d == 8 { '8' } else { '9' }
}

/// `n` written in decimal, without leading zeros.
pub open spec fn decimal_text(n: nat) -> Seq<char>
    decreases n,
{
    if n < 10 {
        seq![digit(n)]
    } else {
        decimal_text(n / 10) + seq![digit(n % 10)]
    }
}

/// The text shown for a key with the modifier set `mods`: the modifier
/// names joined by spaces, a space, then the bare key.
pub open spec fn key_text(bare: BareKey, mods: Set<KeyModifier>) -> Seq<char> {
    if ordered_modifiers(mods).len() == 0 {
        bare_key_text(bare)
    } else {
        modifiers_text(mods, false, " "@) + " "@ + bare_key_text(bare)
    }
}


/// Relies on `String::push`: appends one character.
#[verifier::external_body]
pub(crate) fn push_char(s: &mut String, c: char)
    ensures
        final(s)@ == old(s)@.push(c),
{
    s.push(c)
}

/// Whether `m` is listed in `v`.
pub fn has_modifier(v: &Vec<KeyModifier>, m: KeyModifier) -> (r: bool)
    ensures
        r == v@.contains(m),
{
    let mut i: usize = 0;
    while i < v.len()
        invariant
            0 <= i <= v.len(),
            forall|j: int| 0 <= j < i ==> v@[j] != m,
        decreases v.len() - i,
    {
        if v[i] == m {
            return true;
        }
        i = i + 1;
    }
    false
}

/// The label of one modifier, full or abbreviated.
pub fn modifier_label_string(m: KeyModifier, abbreviated: bool) -> (r: String)
    ensures
        r@ == modifier_label(m, abbreviated),
{
    match m {
        KeyModifier::Ctrl => if abbreviated { String::from_str("^C") } else { String::from_str("Ctrl") },
        KeyModifier::Alt => if abbreviated { String::from_str("^A") } else { String::from_str("Alt") },
        KeyModifier::Shift => if abbreviated { String::from_str("^Sh") } else { String::from_str("Shift") },
        KeyModifier::Super => if abbreviated { String::from_str("^Su") } else { String::from_str("Super") },
    }
}

proof fn lemma_join_push(ms: Seq<KeyModifier>, m: KeyModifier, abbreviated: bool, sep: Seq<char>)
    ensures
        join_labels(ms.push(m), abbreviated, sep) == if ms.len() == 0 {
            modifier_label(m, abbreviated)
        } else {
            join_labels(ms, abbreviated, sep) + sep + modifier_label(m, abbreviated)
        },
{
    assert(ms.push(m).drop_last() =~= ms);
}

/// Appends the label of `m` to `out` when `v` lists it, after `sep`
/// unless it is the first label.
fn append_if_present(
    out: &mut String,
    done: &mut usize,
    v: &Vec<KeyModifier>,
    m: KeyModifier,
    abbreviated: bool,
    sep: &str,
    Ghost(listed): Ghost<Seq<KeyModifier>>,
) -> (now_listed: Ghost<Seq<KeyModifier>>)
    requires
        old(out)@ == join_labels(listed, abbreviated, sep@),
        *old(done) == listed.len(),
        listed.len() < 4,
    ensures
        now_listed@ == listed + (if v@.contains(m) { seq![m] } else { Seq::empty() }),
        final(out)@ == join_labels(now_listed@, abbreviated, sep@),
        *final(done) == now_listed@.len(),
{
    if has_modifier(v, m) {
        proof {
            lemma_join_push(listed, m, abbreviated, sep@);
        }
        if *done > 0 {
            out.append(sep);
        }
        let label = modifier_label_string(m, abbreviated);
        out.append(label.as_str());
        *done = *done + 1;
        assert(listed + seq![m] =~= listed.push(m));
        Ghost(listed.push(m))
    } else {
        assert(listed + Seq::empty() =~= listed);
        Ghost(listed)
    }
}

/// The labels of the modifiers listed in `v`, in canonical order, joined by
/// `sep`.
pub fn modifiers_label(v: &Vec<KeyModifier>, abbreviated: bool, sep: &str) -> (r: String)
    ensures
        r@ == modifiers_text(modifier_set(v@), abbreviated, sep@),
{
    let mut out = String::new();
    let mut done: usize = 0;
    let ghost s = modifier_set(v@);
    let listed = append_if_present(&mut out, &mut done, v, KeyModifier::Ctrl, abbreviated, sep, Ghost(Seq::empty()));
    let listed = append_if_present(&mut out, &mut done, v, KeyModifier::Alt, abbreviated, sep, listed);
    let listed = append_if_present(&mut out, &mut done, v, KeyModifier::Shift, abbreviated, sep, listed);
    let listed = append_if_present(&mut out, &mut done, v, KeyModifier::Super, abbreviated, sep, listed);
    proof {
        assert(forall|m: KeyModifier| s.contains(m) == v@.contains(m));
        assert(listed@ =~= ordered_modifiers(s));
    }
    out
}

/// The labels of `v`, in the order given, joined by `sep`.
pub fn join_modifier_labels(v: &Vec<KeyModifier>, abbreviated: bool, sep: &str) -> (r: String)
    ensures
        r@ == join_labels(v@, abbreviated, sep@),
{
    let mut out = String::new();
    let mut i: usize = 0;
    while i < v.len()
        invariant
            0 <= i <= v@.len(),
            out@ == join_labels(v@.take(i as int), abbreviated, sep@),
        decreases v@.len() - i,
    {
        proof {
            lemma_join_push(v@.take(i as int), v@[i as int], abbreviated, sep@);
            assert(v@.take(i as int).push(v@[i as int]) =~= v@.take(i + 1));
        }
        if i > 0 {
            out.append(sep);
        }
        let label = modifier_label_string(v[i], abbreviated);
        out.append(label.as_str());
        i = i + 1;
    }
    assert(v@.take(v@.len() as int) =~= v@);
    out
}

/// The decimal digit for `d < 10`.
fn digit_char(d: u8) -> (c: char)
    requires
        d < 10,
    ensures
        c == digit(d as nat),
{
    if d == 0 { '0' } else if d == 1 { '1' } else if d == 2 { '2' } else if d == 3 { '3' }
    else if d == 4 { '4' } else if d == 5 { '5' } else if d == 6 { '6' } else if d == 7 { '7' }
    else if d == 8 { '8' } else { '9' }
}

/// `n` written in decimal.
fn decimal_string(n: u8) -> (r: String)
    ensures
        r@ == decimal_text(n as nat),
{
    let mut out = String::new();
    if n >= 100 {
        push_char(&mut out, digit_char(n / 100));
        push_char(&mut out, digit_char((n / 10) % 10));
        push_char(&mut out, digit_char(n % 10));
        proof {
            let m = (n / 10) as nat;
            assert(decimal_text(m) == decimal_text(m / 10) + seq![digit(m % 10)]);
            assert(decimal_text(m / 10) == seq![digit(m / 10)]);
            assert(decimal_text(n as nat) == decimal_text(m) + seq![digit((n % 10) as nat)]);
            assert(m / 10 == (n / 100) as nat);
            assert(out@ =~= decimal_text(n as nat));
        }
    } else if n >= 10 {
        push_char(&mut out, digit_char(n / 10));
        push_char(&mut out, digit_char(n % 10));
        proof {
            assert(decimal_text((n / 10) as nat) == seq![digit((n / 10) as nat)]);
            assert(out@ =~= decimal_text(n as nat));
        }
    } else {
        push_char(&mut out, digit_char(n));
        assert(out@ =~= decimal_text(n as nat));
    }
    out
}

/// The text shown for a bare key.
pub fn bare_key_label(k: BareKey) -> (r: String)
    ensures
        r@ == bare_key_text(k),
{
    match k {
        BareKey::PageDown => String::from_str("PgDn"),
        BareKey::PageUp => String::from_str("PgUp"),
        BareKey::Left => String::from_str("←"),
        BareKey::Down => String::from_str("↓"),
        BareKey::Up => String::from_str("↑"),
        BareKey::Right => String::from_str("→"),
        BareKey::Home => String::from_str("HOME"),
        BareKey::End => String::from_str("END"),
        BareKey::Backspace => String::from_str("BACKSPACE"),
        BareKey::Delete => String::from_str("DEL"),
        BareKey::Insert => String::from_str("INS"),
        BareKey::F(n) => {
            let mut out = String::from_str("F");
            proof {
                reveal_strlit("F");
            }
            let digits = decimal_string(n);
            out.append(digits.as_str());
            assert(out@ =~= seq!['F'] + decimal_text(n as nat));
            out
        },
        BareKey::Char(c) => {
            if c == ' ' {
                String::from_str("SPACE")
            } else {
                let mut out = String::new();
                push_char(&mut out, c);
                assert(out@ =~= seq![c]);
                out
            }
        },
        BareKey::Tab => String::from_str("TAB"),
        BareKey::Esc => String::from_str("ESC"),
        BareKey::Enter => String::from_str("ENTER"),
        BareKey::CapsLock => String::from_str("CAPSlOCK"),
        BareKey::ScrollLock => String::from_str("SCROLLlOCK"),
        BareKey::NumLock => String::from_str("NUMLOCK"),
        BareKey::PrintScreen => String::from_str("PRINTSCREEN"),
        BareKey::Pause => String::from_str("PAUSE"),
        BareKey::Menu => String::from_str("MENU"),
    }
}


impl View for KeyWithModifier {
    type V = (BareKey, Set<KeyModifier>);

    /// A key is its bare key and its set of modifiers.
    open spec fn view(&self) -> (BareKey, Set<KeyModifier>) {
        (self.bare_key, self.modifiers())
    }
}

impl KeyWithModifier {
    /// The set of modifiers of this key.
    pub open spec fn modifiers(&self) -> Set<KeyModifier> {
        modifier_set(self.key_modifiers@)
    }

    /// The text shown for this key, e.g. "Ctrl a".
    pub open spec fn text(&self) -> Seq<char> {
        key_text(self.bare_key, self.modifiers())
    }

    /// A key without modifiers.
    pub fn new(bare_key: BareKey) -> (r: KeyWithModifier)
        ensures
            r.bare_key == bare_key,
            r.modifiers() == Set::<KeyModifier>::empty(),
    {
        let r = KeyWithModifier { bare_key, key_modifiers: Vec::new() };
        assert(r.modifiers() =~= Set::<KeyModifier>::empty());
        r
    }

    /// A key with the modifiers listed in `key_modifiers`.
    pub fn new_with_modifiers(bare_key: BareKey, key_modifiers: Vec<KeyModifier>) -> (r: KeyWithModifier)
        ensures
            r.bare_key == bare_key,
            r.key_modifiers@ == key_modifiers@,
    {
        KeyWithModifier { bare_key, key_modifiers }
    }

    /// This key with `m` added to its modifiers.
    pub fn with_modifier(self, m: KeyModifier) -> (r: KeyWithModifier)
        ensures
            r.bare_key == self.bare_key,
            r.modifiers() == self.modifiers().insert(m),
    {
        let mut mods = self.key_modifiers;
        let ghost before = mods@;
        mods.push(m);
        let r = KeyWithModifier { bare_key: self.bare_key, key_modifiers: mods };
        proof {
            assert forall|x: KeyModifier| r.modifiers().contains(x) == self.modifiers().insert(m).contains(x) by {
                if x != m {
                    if before.contains(x) {
                        let j = choose|j: int| 0 <= j < before.len() && before[j] == x;
                        assert(r.key_modifiers@[j] == x);
                    }
                    if r.key_modifiers@.contains(x) {
                        let j = choose|j: int| 0 <= j < r.key_modifiers@.len() && r.key_modifiers@[j] == x;
                        assert(before[j] == x);
                    }
                } else {
                    assert(r.key_modifiers@[before.len() as int] == m);
                }
            }
            assert(r.modifiers() =~= self.modifiers().insert(m));
        }
        r
    }

    /// This key with Ctrl added to its modifiers.
    pub fn with_ctrl_modifier(self) -> (r: KeyWithModifier)
        ensures
            r.bare_key == self.bare_key,
            r.modifiers() == self.modifiers().insert(KeyModifier::Ctrl),
    {
        self.with_modifier(KeyModifier::Ctrl)
    }

    /// This key with Alt added to its modifiers.
    pub fn with_alt_modifier(self) -> (r: KeyWithModifier)
        ensures
            r.bare_key == self.bare_key,
            r.modifiers() == self.modifiers().insert(KeyModifier::Alt),
    {
        self.with_modifier(KeyModifier::Alt)
    }

    /// This key with the modifiers listed in `common_modifiers` removed.
    pub fn strip_common_modifiers(&self, common_modifiers: &Vec<KeyModifier>) -> (r: KeyWithModifier)
        ensures
            r.bare_key == self.bare_key,
            r.modifiers() == stripped(self.modifiers(), common_modifiers@),
    {
        let mut kept: Vec<KeyModifier> = Vec::new();
        let mut i: usize = 0;
        while i < self.key_modifiers.len()
            invariant
                0 <= i <= self.key_modifiers@.len(),
                forall|x: KeyModifier| kept@.contains(x) <==> (exists|j: int| 0 <= j < i
                    && self.key_modifiers@[j] == x && !common_modifiers@.contains(x)),
            decreases self.key_modifiers@.len() - i,
        {
            let m = self.key_modifiers[i];
            let ghost before = kept@;
            if !has_modifier(common_modifiers, m) {
                kept.push(m);
                proof {
                    assert forall|x: KeyModifier| kept@.contains(x) <==> (exists|j: int| 0 <= j < i + 1
                        && self.key_modifiers@[j] == x && !common_modifiers@.contains(x)) by {
                        if kept@.contains(x) {
                            let k = choose|k: int| 0 <= k < kept@.len() && kept@[k] == x;
                            if k < before.len() {
                                assert(before[k] == x);
                                assert(before.contains(x));
                            } else {
                                assert(self.key_modifiers@[i as int] == x);
                            }
                        }
                        if exists|j: int| 0 <= j < i + 1 && self.key_modifiers@[j] == x && !common_modifiers@.contains(x) {
                            let j = choose|j: int| 0 <= j < i + 1 && self.key_modifiers@[j] == x && !common_modifiers@.contains(x);
                            if j < i {
                                assert(before.contains(x));
                                let k = choose|k: int| 0 <= k < before.len() && before[k] == x;
                                assert(kept@[k] == x);
                            } else {
                                assert(kept@[before.len() as int] == x);
                            }
                        }
                    }
                }
            } else {
                proof {
                    assert forall|x: KeyModifier| kept@.contains(x) <==> (exists|j: int| 0 <= j < i + 1
                        && self.key_modifiers@[j] == x && !common_modifiers@.contains(x)) by {
                        if exists|j: int| 0 <= j < i + 1 && self.key_modifiers@[j] == x && !common_modifiers@.contains(x) {
                            let j = choose|j: int| 0 <= j < i + 1 && self.key_modifiers@[j] == x && !common_modifiers@.contains(x);
                            assert(j != i);
                        }
                    }
                }
            }
            i = i + 1;
        }
        let r = KeyWithModifier { bare_key: self.bare_key, key_modifiers: kept };
        proof {
            assert forall|x: KeyModifier| r.modifiers().contains(x) == stripped(self.modifiers(), common_modifiers@).contains(x) by {
                if self.key_modifiers@.contains(x) && !common_modifiers@.contains(x) {
                    let j = choose|j: int| 0 <= j < self.key_modifiers@.len() && self.key_modifiers@[j] == x;
                    assert(kept@.contains(x));
                }
            }
            assert(r.modifiers() =~= stripped(self.modifiers(), common_modifiers@));
        }
        r
    }

    /// A copy of this key.
    pub fn duplicate(&self) -> (r: KeyWithModifier)
        ensures
            r.bare_key == self.bare_key,
            r.key_modifiers@ == self.key_modifiers@,
    {
        let mut mods: Vec<KeyModifier> = Vec::new();
        let mut i: usize = 0;
        while i < self.key_modifiers.len()
            invariant
                0 <= i <= self.key_modifiers@.len(),
                mods@ == self.key_modifiers@.take(i as int),
            decreases self.key_modifiers@.len() - i,
        {
            mods.push(self.key_modifiers[i]);
            assert(mods@ =~= self.key_modifiers@.take(i + 1));
            i = i + 1;
        }
        assert(mods@ =~= self.key_modifiers@);
        KeyWithModifier { bare_key: self.bare_key, key_modifiers: mods }
    }

    /// The text shown for this key: its modifiers in canonical order and the
    /// bare key, separated by spaces.
    pub fn to_text(&self) -> (r: String)
        ensures
            r@ == self.text(),
    {
        let bare = bare_key_label(self.bare_key);
        if self.has_no_modifier() {
            bare
        } else {
            let mut out = modifiers_label(&self.key_modifiers, false, " ");
            out.append(" ");
            out.append(bare.as_str());
            out
        }
    }

    /// Whether this key has no modifier.
    pub fn has_no_modifier(&self) -> (r: bool)
        ensures
            r == (ordered_modifiers(self.modifiers()).len() == 0),
    {
        let r = !has_modifier(&self.key_modifiers, KeyModifier::Ctrl)
            && !has_modifier(&self.key_modifiers, KeyModifier::Alt)
            && !has_modifier(&self.key_modifiers, KeyModifier::Shift)
            && !has_modifier(&self.key_modifiers, KeyModifier::Super);
        r
    }
}


/// Every modifier label has at most five characters.
pub proof fn lemma_modifier_label_len(m: KeyModifier, abbreviated: bool)
    ensures
        modifier_label(m, abbreviated).len() <= 5,
{
    reveal_strlit("^C");
    reveal_strlit("Ctrl");
    reveal_strlit("^A");
    reveal_strlit("Alt");
    reveal_strlit("^Sh");
    reveal_strlit("Shift");
    reveal_strlit("^Su");
    reveal_strlit("Super");
}

/// Labels joined by a one-character separator take at most six characters
/// each.
pub proof fn lemma_join_labels_len(ms: Seq<KeyModifier>, abbreviated: bool, sep: Seq<char>)
    requires
        sep.len() == 1,
    ensures
        join_labels(ms, abbreviated, sep).len() <= 6 * ms.len(),
    decreases ms.len(),
{
    if ms.len() == 1 {
        lemma_modifier_label_len(ms[0], abbreviated);
    } else if ms.len() > 1 {
        lemma_join_labels_len(ms.drop_last(), abbreviated, sep);
        lemma_modifier_label_len(ms.last(), abbreviated);
    }
}

/// A modifier set in canonical order has at most four members.
pub proof fn lemma_ordered_modifiers_len(s: Set<KeyModifier>)
    ensures
        ordered_modifiers(s).len() <= 4,
{
}

/// A modifier set, joined by a one-character separator, takes at most 24
/// characters.
pub proof fn lemma_modifiers_text_len(s: Set<KeyModifier>, abbreviated: bool, sep: Seq<char>)
    requires
        sep.len() == 1,
    ensures
        modifiers_text(s, abbreviated, sep).len() <= 24,
{
    lemma_join_labels_len(ordered_modifiers(s), abbreviated, sep);
}

/// A bare key is shown with at most eleven characters.
pub proof fn lemma_bare_key_text_len(k: BareKey)
    ensures
        bare_key_text(k).len() <= 11,
{
        reveal_strlit("PgDn");
        reveal_strlit("PgUp");
        reveal_strlit("←");
        reveal_strlit("↓");
        reveal_strlit("↑");
        reveal_strlit("→");
        reveal_strlit("HOME");
        reveal_strlit("END");
        reveal_strlit("BACKSPACE");
        reveal_strlit("DEL");
        reveal_strlit("INS");
        reveal_strlit("SPACE");
        reveal_strlit("TAB");
        reveal_strlit("ESC");
        reveal_strlit("ENTER");
        reveal_strlit("CAPSlOCK");
        reveal_strlit("SCROLLlOCK");
        reveal_strlit("NUMLOCK");
        reveal_strlit("PRINTSCREEN");
        reveal_strlit("PAUSE");
        reveal_strlit("MENU");
    if let BareKey::F(n) = k {
        let m = n as nat;
        if m >= 10 {
            assert(decimal_text(m) == decimal_text(m / 10) + seq![digit(m % 10)]);
            if m / 10 >= 10 {
                assert(decimal_text(m / 10) == decimal_text(m / 100) + seq![digit((m / 10) % 10)]);
                assert(m / 10 / 10 == m / 100);
                assert(decimal_text(m / 100).len() == 1);
            }
        }
    }
}

/// A key is shown with at most 36 characters.
pub proof fn lemma_key_text_len(bare: BareKey, mods: Set<KeyModifier>)
    ensures
        key_text(bare, mods).len() <= 36,
{
    reveal_strlit(" ");
    lemma_bare_key_text_len(bare);
    lemma_modifiers_text_len(mods, false, " "@);
}


/// Stripping exactly the modifiers a key has leaves it without modifiers,
/// and stripping a modifier the key does not have changes nothing.
pub proof fn lemma_strip_common_modifiers(mods: Set<KeyModifier>, common: Seq<KeyModifier>, m: KeyModifier)
    ensures
        modifier_set(common) == mods ==> stripped(mods, common) == Set::<KeyModifier>::empty(),
        !mods.contains(m) ==> stripped(mods, seq![m]) == mods,
{
    assert(modifier_set(common) == mods ==> stripped(mods, common) =~= Set::<KeyModifier>::empty());
    if !mods.contains(m) {
        assert forall|x: KeyModifier| #[trigger] modifier_set(seq![m]).contains(x) == (x == m) by {
            if x == m {
                assert(seq![m][0] == m);
            }
        }
        assert(stripped(mods, seq![m]) =~= mods);
    }
}

} // verus!
