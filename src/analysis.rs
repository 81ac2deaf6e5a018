//! Which keys the status line shows, and which modifiers they all share.
use crate::keys::{has_modifier, ordered_modifiers, BareKey, KeyModifier, KeyWithModifier};
use crate::mode::{key_views, Action, Binding, InputMode, ModeInfo};
use crate::shortcut::{opt_view, KeyShortcut};
use vstd::prelude::*;

verus! {

/// Space, Enter and Esc: by default they lead back to normal mode, so they
/// say nothing about a shared modifier.
pub open spec fn is_return_key(b: BareKey) -> bool {
    b == BareKey::Enter || b == BareKey::Char(' ') || b == BareKey::Esc
}

/// The first key that is not a return key.
pub open spec fn first_informative(ks: Seq<(BareKey, Set<KeyModifier>)>) -> Option<(BareKey, Set<KeyModifier>)>
    decreases ks.len(),
{
    if ks.len() == 0 {
        None
    } else if !is_return_key(ks[0].0) {
        Some(ks[0])
    } else {
        first_informative(ks.drop_first())
    }
}

/// The key shown for a list of keys bound to one action: the first that is
/// not a return key, else the first of all, else none.
pub open spec fn chosen_key(ks: Seq<(BareKey, Set<KeyModifier>)>) -> Option<(BareKey, Set<KeyModifier>)> {
    match first_informative(ks) {
        Some(k) => Some(k),
        None => if ks.len() == 0 { None } else { Some(ks[0]) },
    }
}

fn is_return_bare_key(b: BareKey) -> (r: bool)
    ensures
        r == is_return_key(b),
{
    b == BareKey::Enter || b == BareKey::Char(' ') || b == BareKey::Esc
}

/// Picks the key to show among keys bound to one action: the first that is
/// not Space, Enter or Esc; failing that, the first key.
pub fn to_char(kv: Vec<KeyWithModifier>) -> (r: Option<KeyWithModifier>)
    ensures
        opt_view(r) == chosen_key(key_views(kv@)),
{
    let ghost ks = key_views(kv@);
    let mut i: usize = 0;
    assert(ks.skip(0) =~= ks);
    while i < kv.len()
        invariant
            0 <= i <= kv@.len(),
            ks == key_views(kv@),
            first_informative(ks.skip(i as int)) == first_informative(ks),
        decreases kv@.len() - i,
    {
        assert(ks.skip(i as int).drop_first() =~= ks.skip(i + 1));
        if !is_return_bare_key(kv[i].bare_key) {
            return Some(kv[i].duplicate());
        }
        i = i + 1;
    }
    if kv.len() == 0 {
        None
    } else {
        Some(kv[0].duplicate())
    }
}

/// The input modes whose switch keys are looked at for a shared modifier.
pub open spec fn is_displayed_mode(m: InputMode) -> bool {
    m == InputMode::Normal || m == InputMode::Locked || m == InputMode::Pane || m == InputMode::Tab
        || m == InputMode::Resize || m == InputMode::Move || m == InputMode::Scroll
        || m == InputMode::Session
}

/// Whether a binding switches to a displayed mode or quits, by its first
/// action, and is not bound to a return key.
pub open spec fn is_switch_binding(b: Binding) -> bool {
    b.1@.len() > 0 && !is_return_key(b.0.bare_key) && match b.1@[0] {
        Action::SwitchToMode(m) => is_displayed_mode(m),
        Action::Quit => true,
        _ => false,
    }
}

/// The keys of the switch bindings, in order.
pub open spec fn switch_keys(binds: Seq<Binding>) -> Seq<(BareKey, Set<KeyModifier>)>
    decreases binds.len(),
{
    if binds.len() == 0 {
        Seq::empty()
    } else {
        let rest = switch_keys(binds.drop_last());
        if is_switch_binding(binds.last()) { rest.push(binds.last().0@) } else { rest }
    }
}

fn is_switch(b: &Binding) -> (r: bool)
    ensures
        r == is_switch_binding(*b),
{
    if b.1.len() == 0 || is_return_bare_key(b.0.bare_key) {
        return false;
    }
    match b.1[0] {
        Action::SwitchToMode(m) => match m {
            InputMode::Normal | InputMode::Locked | InputMode::Pane | InputMode::Tab
            | InputMode::Resize | InputMode::Move | InputMode::Scroll | InputMode::Session => true,
            _ => false,
        },
        Action::Quit => true,
        _ => false,
    }
}

/// The keys of the current mode that switch to a displayed mode or quit,
/// leaving out Space, Enter and Esc.
pub fn mode_switch_keys(mode_info: &ModeInfo) -> (r: Vec<KeyWithModifier>)
    ensures
        key_views(r@) == switch_keys(mode_info.binds_of(mode_info.mode)),
{
    let mut r: Vec<KeyWithModifier> = Vec::new();
    let idx = mode_info.keybinds_index(mode_info.mode);
    match idx {
        None => {
            assert(key_views(r@) =~= Seq::empty());
            r
        },
        Some(j) => {
            let binds = &mode_info.keybinds[j].1;
            let mut i: usize = 0;
            while i < binds.len()
                invariant
                    0 <= i <= binds@.len(),
                    key_views(r@) == switch_keys(binds@.take(i as int)),
                decreases binds@.len() - i,
            {
                assert(binds@.take(i + 1).drop_last() =~= binds@.take(i as int));
                if is_switch(&binds[i]) {
                    let k = binds[i].0.duplicate();
                    assert(key_views(r@.push(k)) =~= key_views(r@).push(k@));
                    r.push(k);
                }
                i = i + 1;
            }
            assert(binds@.take(binds@.len() as int) =~= binds@);
            r
        },
    }
}

/// The modifiers held by every key of `ks`; none when `ks` is empty.
pub open spec fn shared_by_all(ks: Seq<(BareKey, Set<KeyModifier>)>) -> Set<KeyModifier> {
    if ks.len() == 0 {
        Set::empty()
    } else {
        Set::new(|m: KeyModifier| forall|i: int| 0 <= i < ks.len() ==> #[trigger] ks[i].1.contains(m))
    }
}

/// A subset of the four modifiers, one flag each.
pub struct ModifierFlags {
    pub ctrl: bool,
    pub alt: bool,
    pub shift: bool,
    pub sup: bool,
}

impl ModifierFlags {
    pub open spec fn has(&self, m: KeyModifier) -> bool {
        match m {
            KeyModifier::Ctrl => self.ctrl,
            KeyModifier::Alt => self.alt,
            KeyModifier::Shift => self.shift,
            KeyModifier::Super => self.sup,
        }
    }

    pub open spec fn as_set(&self) -> Set<KeyModifier> {
        Set::new(|m: KeyModifier| self.has(m))
    }

    /// All four modifiers.
    pub fn all() -> (r: ModifierFlags)
        ensures
            forall|m: KeyModifier| r.has(m),
    {
        ModifierFlags { ctrl: true, alt: true, shift: true, sup: true }
    }

    /// Keeps only the modifiers that `k` also has.
    pub fn keep_common(&mut self, k: &KeyWithModifier)
        ensures
            forall|m: KeyModifier| final(self).has(m) == (old(self).has(m) && k.modifiers().contains(m)),
    {
        self.ctrl = self.ctrl && has_modifier(&k.key_modifiers, KeyModifier::Ctrl);
        self.alt = self.alt && has_modifier(&k.key_modifiers, KeyModifier::Alt);
        self.shift = self.shift && has_modifier(&k.key_modifiers, KeyModifier::Shift);
        self.sup = self.sup && has_modifier(&k.key_modifiers, KeyModifier::Super);
    }

    /// The flagged modifiers in canonical order.
    pub fn to_vec(&self) -> (r: Vec<KeyModifier>)
        ensures
            r@ == ordered_modifiers(self.as_set()),
    {
        let ghost s = self.as_set();
        let mut r: Vec<KeyModifier> = Vec::new();
        if self.ctrl {
            r.push(KeyModifier::Ctrl);
        }
        let ghost a = r@;
        if self.alt {
            r.push(KeyModifier::Alt);
        }
        let ghost b = r@;
        if self.shift {
            r.push(KeyModifier::Shift);
        }
        let ghost c = r@;
        if self.sup {
            r.push(KeyModifier::Super);
        }
        proof {
            assert(s.contains(KeyModifier::Ctrl) == self.ctrl);
            assert(s.contains(KeyModifier::Alt) == self.alt);
            assert(s.contains(KeyModifier::Shift) == self.shift);
            assert(s.contains(KeyModifier::Super) == self.sup);
            assert(a =~= (if s.contains(KeyModifier::Ctrl) { seq![KeyModifier::Ctrl] } else { Seq::empty() }));
            assert(b =~= a + (if s.contains(KeyModifier::Alt) { seq![KeyModifier::Alt] } else { Seq::empty() }));
            assert(c =~= b + (if s.contains(KeyModifier::Shift) { seq![KeyModifier::Shift] } else { Seq::empty() }));
            assert(r@ =~= c + (if s.contains(KeyModifier::Super) { seq![KeyModifier::Super] } else { Seq::empty() }));
        }
        r
    }
}

/// The modifiers that every key of `keys` has, in canonical order; none for
/// no keys.
pub fn get_common_modifiers(keys: &Vec<KeyWithModifier>) -> (r: Vec<KeyModifier>)
    ensures
        r@ == ordered_modifiers(shared_by_all(key_views(keys@))),
{
    let ghost ks = key_views(keys@);
    if keys.len() == 0 {
        let r = Vec::new();
        assert(shared_by_all(ks) =~= Set::<KeyModifier>::empty());
        assert(r@ =~= ordered_modifiers(shared_by_all(ks)));
        return r;
    }
    let mut flags = ModifierFlags::all();
    let mut i: usize = 0;
    while i < keys.len()
        invariant
            0 <= i <= keys@.len(),
            ks == key_views(keys@),
            forall|m: KeyModifier| flags.has(m) == (forall|j: int| 0 <= j < i ==> #[trigger] ks[j].1.contains(m)),
        decreases keys@.len() - i,
    {
        flags.keep_common(&keys[i]);
        proof {
            assert forall|m: KeyModifier| flags.has(m) == (forall|j: int| 0 <= j < i + 1 ==> #[trigger] ks[j].1.contains(m)) by {
                assert(ks[i as int].1 == keys@[i as int].modifiers());
            }
        }
        i = i + 1;
    }
    assert(flags.as_set() =~= shared_by_all(ks));
    flags.to_vec()
}

/// Every mode has at least one shortcut, and every shortcut has a key.
pub open spec fn all_bound(table: Seq<(InputMode, Vec<KeyShortcut>)>) -> bool {
    table.len() > 0 && forall|i: int| 0 <= i < table.len() ==> {
        &&& (#[trigger] table[i]).1@.len() > 0
        &&& forall|j: int| 0 <= j < table[i].1@.len() ==> (#[trigger] table[i].1@[j]).key is Some
    }
}

/// The modifier set of the key of shortcut `j` of mode entry `i`.
pub open spec fn shortcut_modifiers(table: Seq<(InputMode, Vec<KeyShortcut>)>, i: int, j: int) -> Set<KeyModifier> {
    match table[i].1@[j].key {
        Some(k) => k.modifiers(),
        None => Set::empty(),
    }
}

/// The modifiers that the keys of all shortcuts of all modes share.
pub open spec fn shared_in_all_modes(table: Seq<(InputMode, Vec<KeyShortcut>)>) -> Set<KeyModifier> {
    Set::new(|m: KeyModifier| forall|i: int, j: int| 0 <= i < table.len() && 0 <= j < table[i].1@.len()
        ==> #[trigger] shortcut_modifiers(table, i, j).contains(m))
}

/// The modifiers shared by the keys of all shortcuts of all modes, in
/// canonical order.
///
/// There are none, and the result is `None`, when the table is empty, when
/// a mode has no shortcut, when a shortcut has no key, or when the keys share
/// no modifier.
pub fn common_modifiers_in_all_modes(table: &Vec<(InputMode, Vec<KeyShortcut>)>) -> (r: Option<Vec<KeyModifier>>)
    ensures
        r is Some <==> (all_bound(table@) && ordered_modifiers(shared_in_all_modes(table@)).len() > 0),
        r matches Some(v) ==> v@ == ordered_modifiers(shared_in_all_modes(table@)),
        (exists|i: int, j: int| 0 <= i < table@.len() && 0 <= j < table@[i].1@.len()
            && (#[trigger] table@[i].1@[j]).key is None) ==> r is None,
{
    if table.len() == 0 {
        return None;
    }
    let mut flags = ModifierFlags::all();
    let mut i: usize = 0;
    while i < table.len()
        invariant
            0 <= i <= table@.len(),
            forall|i2: int| 0 <= i2 < i ==> {
                &&& (#[trigger] table@[i2]).1@.len() > 0
                &&& forall|j: int| 0 <= j < table@[i2].1@.len() ==> (#[trigger] table@[i2].1@[j]).key is Some
            },
            forall|m: KeyModifier| flags.has(m) == (forall|i2: int, j: int| 0 <= i2 < i && 0 <= j < table@[i2].1@.len()
                ==> #[trigger] shortcut_modifiers(table@, i2, j).contains(m)),
        decreases table@.len() - i,
    {
        let shortcuts = &table[i].1;
        if shortcuts.len() == 0 {
            return None;
        }
        let mut j: usize = 0;
        while j < shortcuts.len()
            invariant
                0 <= i < table@.len(),
                shortcuts@ == table@[i as int].1@,
                0 <= j <= shortcuts@.len(),
                forall|j2: int| 0 <= j2 < j ==> (#[trigger] shortcuts@[j2]).key is Some,
                forall|m: KeyModifier| flags.has(m) == ((forall|i2: int, j2: int| 0 <= i2 < i && 0 <= j2 < table@[i2].1@.len()
                    ==> #[trigger] shortcut_modifiers(table@, i2, j2).contains(m))
                    && (forall|j2: int| 0 <= j2 < j ==> #[trigger] shortcut_modifiers(table@, i as int, j2).contains(m))),
            decreases shortcuts@.len() - j,
        {
            match &shortcuts[j].key {
                None => {
                    return None;
                },
                Some(k) => {
                    let ghost before = flags;
                    flags.keep_common(k);
                    proof {
                        assert(shortcut_modifiers(table@, i as int, j as int) == k.modifiers());
                        assert forall|m: KeyModifier| flags.has(m) == ((forall|i2: int, j2: int| 0 <= i2 < i && 0 <= j2 < table@[i2].1@.len()
                            ==> #[trigger] shortcut_modifiers(table@, i2, j2).contains(m))
                            && (forall|j2: int| 0 <= j2 < j + 1 ==> #[trigger] shortcut_modifiers(table@, i as int, j2).contains(m))) by {
                            if !flags.has(m) && before.has(m) {
                                assert(!shortcut_modifiers(table@, i as int, j as int).contains(m));
                            }
                        }
                    }
                },
            }
            j = j + 1;
        }
        proof {
            assert forall|m: KeyModifier| flags.has(m) == (forall|i2: int, j2: int| 0 <= i2 < i + 1 && 0 <= j2 < table@[i2].1@.len()
                ==> #[trigger] shortcut_modifiers(table@, i2, j2).contains(m)) by {
                if flags.has(m) {
                    assert forall|i2: int, j2: int| 0 <= i2 < i + 1 && 0 <= j2 < table@[i2].1@.len()
                        implies #[trigger] shortcut_modifiers(table@, i2, j2).contains(m) by {
                        if i2 == i {
                            assert(shortcut_modifiers(table@, i as int, j2).contains(m));
                        }
                    }
                }
            }
        }
        i = i + 1;
    }
    assert(flags.as_set() =~= shared_in_all_modes(table@));
    let v = flags.to_vec();
    if v.len() == 0 {
        None
    } else {
        Some(v)
    }
}

} // verus!
