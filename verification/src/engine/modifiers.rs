//! Modifier bitset and ModMatcher.

use vstd::prelude::*;

verus! {

/// Bitset of modifier keys. Bits are arbitrary but stable within a version:
/// alt = 1, ctrl = 2, shift = 4, win = 8, space = 16.
#[derive(Debug, Clone, Copy, PartialEq, Eq, Default, Structural)]
pub struct Modifiers {
    pub bits: u16,
}

impl Modifiers {
    pub fn none() -> (r: Modifiers)
        ensures
            r.bits == 0,
    {
        Modifiers { bits: 0 }
    }

    pub fn alt() -> (r: Modifiers)
        ensures
            r.bits == 1,
    {
        Modifiers { bits: 1 }
    }

    pub fn ctrl() -> (r: Modifiers)
        ensures
            r.bits == 2,
    {
        Modifiers { bits: 2 }
    }

    pub fn shift() -> (r: Modifiers)
        ensures
            r.bits == 4,
    {
        Modifiers { bits: 4 }
    }

    pub fn win() -> (r: Modifiers)
        ensures
            r.bits == 8,
    {
        Modifiers { bits: 8 }
    }

    pub fn space() -> (r: Modifiers)
        ensures
            r.bits == 16,
    {
        Modifiers { bits: 16 }
    }

    /// Union of the two sets.
    pub fn with(self, m: Modifiers) -> (r: Modifiers)
        ensures
            r.bits == self.bits | m.bits,
    {
        Modifiers { bits: self.bits | m.bits }
    }

    /// The set without the keys of `m`.
    pub fn without(self, m: Modifiers) -> (r: Modifiers)
        ensures
            r.bits == self.bits & !m.bits,
    {
        Modifiers { bits: self.bits & !m.bits }
    }

    pub open spec fn spec_contains(self, m: Modifiers) -> bool {
        self.bits & m.bits == m.bits
    }

    /// Every key of `m` is in the set.
    pub fn contains(self, m: Modifiers) -> (r: bool)
        ensures
            r == self.spec_contains(m),
    {
        (self.bits & m.bits) == m.bits
    }

    pub open spec fn spec_intersects(self, m: Modifiers) -> bool {
        self.bits & m.bits != 0
    }

    /// Some key of `m` is in the set.
    pub fn intersects(self, m: Modifiers) -> (r: bool)
        ensures
            r == self.spec_intersects(m),
    {
        (self.bits & m.bits) != 0
    }

    pub fn is_empty(self) -> (r: bool)
        ensures
            r == (self.bits == 0),
    {
        self.bits == 0
    }

    /// Human-readable name: the held keys among alt, ctrl, shift, win and
    /// space, in that order, joined by `+`, or `none`.
    pub fn to_string(&self) -> (r: String)
        ensures
            r@ == modifiers_text(self.bits),
    {
        let mut out = String::new();
        let mut first = true;
        proof {
            reveal_strlit("alt");
            reveal_strlit("ctrl");
            reveal_strlit("shift");
            reveal_strlit("win");
            reveal_strlit("space");
            reveal_strlit("none");
            reveal_strlit("+");
        }
        if self.bits & 1 == 1 {
            push_part(&mut out, &mut first, "alt");
        }
        if self.bits & 2 == 2 {
            push_part(&mut out, &mut first, "ctrl");
        }
        if self.bits & 4 == 4 {
            push_part(&mut out, &mut first, "shift");
        }
        if self.bits & 8 == 8 {
            push_part(&mut out, &mut first, "win");
        }
        if self.bits & 16 == 16 {
            push_part(&mut out, &mut first, "space");
        }
        if first {
            out.append("none");
        }
        out
    }
}

/// Appends `part`, preceded by `+` unless it is the first one.
fn push_part(out: &mut String, first: &mut bool, part: &str)
    ensures
        *final(first) == false,
        *old(first) ==> final(out)@ == old(out)@ + part@,
        !*old(first) ==> final(out)@ == old(out)@ + "+"@ + part@,
{
    if !*first {
        out.append("+");
    }
    out.append(part);
    *first = false;
}

/// Joins `s` with `part`, inserting `+` when `s` is not empty.
pub open spec fn join_plus(s: Seq<char>, part: Seq<char>) -> Seq<char> {
    if s.len() == 0 { part } else { s + "+"@ + part }
}

/// `part` when `held`, else nothing, joined onto `s`.
pub open spec fn join_if(s: Seq<char>, held: bool, part: Seq<char>) -> Seq<char> {
    if held { join_plus(s, part) } else { s }
}

/// The human-readable name of a modifier set.
pub open spec fn modifiers_text(bits: u16) -> Seq<char> {
    let s = join_if(
        join_if(
            join_if(join_if(join_if(Seq::empty(), bits & 1 == 1, "alt"@), bits & 2 == 2, "ctrl"@), bits & 4 == 4, "shift"@),
            bits & 8 == 8,
            "win"@,
        ),
        bits & 16 == 16,
        "space"@,
    );
    if s.len() == 0 { "none"@ } else { s }
}

/// A predicate over a `Modifiers` value.
#[derive(Debug, Clone, Copy, PartialEq, Eq, Structural)]
pub struct ModMatcher {
    pub required: Modifiers,
    pub forbidden: Modifiers,
    pub exact: bool,
}

impl ModMatcher {
    /// A matcher that matches only the empty modifier set.
    pub fn never() -> (r: ModMatcher)
        ensures
            r.required.bits == 0,
            r.forbidden.bits == 0,
            r.exact,
    {
        ModMatcher { required: Modifiers { bits: 0 }, forbidden: Modifiers { bits: 0 }, exact: true }
    }

    /// All required keys held, no forbidden key held, and, when `exact`, no
    /// other key held either.
    pub open spec fn spec_matches(self, m: Modifiers) -> bool {
        &&& m.spec_contains(self.required)
        &&& !m.spec_intersects(self.forbidden)
        &&& self.exact ==> m == self.required
    }

    pub fn matches(self, m: Modifiers) -> (r: bool)
        ensures
            r == self.spec_matches(m),
    {
        if !m.contains(self.required) {
            return false;
        }
        if m.intersects(self.forbidden) {
            return false;
        }
        if self.exact && m.bits != self.required.bits {
            return false;
        }
        true
    }
}

/// Adding keys and removing them again: after `with(m)` every key of `m` is
/// held; after `without(m)` none is; keys outside `m` are untouched by both.
pub proof fn lemma_with_without(a: Modifiers, m: Modifiers)
    ensures
        (Modifiers { bits: a.bits | m.bits }).spec_contains(m),
        (Modifiers { bits: a.bits | m.bits }).spec_contains(a),
        !(Modifiers { bits: a.bits & !m.bits }).spec_intersects(m),
        forall|k: u16| #![trigger (k & m.bits)] k & m.bits == 0 ==> ((a.bits | m.bits) & k == a.bits & k
            && (a.bits & !m.bits) & k == a.bits & k),
{
    let x = a.bits;
    let y = m.bits;
    assert((x | y) & y == y) by (bit_vector);
    assert((x | y) & x == x) by (bit_vector);
    assert((x & !y) & y == 0) by (bit_vector);
    assert forall|k: u16| #![trigger (k & y)] k & y == 0 implies ((x | y) & k == x & k && (x & !y) & k == x & k) by {
        assert(k & y == 0 ==> (x | y) & k == x & k && (x & !y) & k == x & k) by (bit_vector);
    }
}

/// The never-matcher matches exactly the empty set.
pub proof fn lemma_never_matches_only_none(m: Modifiers)
    ensures
        (ModMatcher { required: Modifiers { bits: 0 }, forbidden: Modifiers { bits: 0 }, exact: true })
            .spec_matches(m) <==> m.bits == 0,
{
    let b = m.bits;
    assert(b & 0 == 0) by (bit_vector);
}

/// A non-exact matcher is monotone in extra keys that are not forbidden:
/// holding more keys never stops it from matching, unless a new key is
/// forbidden.
pub proof fn lemma_matcher_monotone(mm: ModMatcher, m: Modifiers, extra: Modifiers)
    requires
        !mm.exact,
        mm.spec_matches(m),
        extra.bits & mm.forbidden.bits == 0,
    ensures
        mm.spec_matches(Modifiers { bits: m.bits | extra.bits }),
{
    let a = m.bits;
    let e = extra.bits;
    let r = mm.required.bits;
    let f = mm.forbidden.bits;
    assert(a & r == r && a & f == 0 && e & f == 0 ==> (a | e) & r == r && (a | e) & f == 0) by (bit_vector);
}

} // verus!
