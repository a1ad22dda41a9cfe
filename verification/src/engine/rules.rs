//! WindowRule pattern matching.
//!
//! Rules are evaluated in order; the first matching rule's `action` is returned.

use vstd::prelude::*;

verus! {

/// What `str::to_lowercase` (Unicode lowercase mapping) gives for a string.
pub uninterp spec fn lowercase(s: Seq<char>) -> Seq<char>;

/// Whether `regex::RegexBuilder` accepts the pattern `source` with the given
/// case-insensitivity flag (syntax and size limits).
pub uninterp spec fn regex_valid(source: Seq<char>, case_insensitive: bool) -> bool;

/// Whether the regex compiled from `source` (with the given flag) finds a
/// match anywhere in `haystack`.
pub uninterp spec fn regex_match(source: Seq<char>, case_insensitive: bool, haystack: Seq<char>) -> bool;

/// Every character is ASCII.
pub open spec fn ascii_only(s: Seq<char>) -> bool {
    forall|i: int| 0 <= i < s.len() ==> (#[trigger] s[i] as u32) < 128
}

/// `A`..`Z` mapped to `a`..`z`, every other character kept.
pub open spec fn ascii_lower(s: Seq<char>) -> Seq<char> {
    Seq::new(s.len(), |i: int| ascii_fold(s[i]) as char)
}

/// Calls `str::to_lowercase`: the Unicode lowercase form of `s`. Claimed:
/// the result is `lowercase(s@)`, a function of the characters of `s` alone,
/// and on an all-ASCII string it maps `A`..`Z` to `a`..`z` and keeps every
/// other character (the Unicode lowercase mapping of the ASCII range). What
/// it does to other characters is left to the name `lowercase`.
#[verifier::external_body]
pub(crate) fn str_to_lowercase(s: &str) -> (r: String)
    ensures
        r@ == lowercase(s@),
        ascii_only(s@) ==> r@ == ascii_lower(s@),
{
    s.to_lowercase()
}

/// Calls `regex::RegexBuilder::new(source).case_insensitive(ci).build()` and
/// reports whether it succeeded. Claimed: the answer is
/// `regex_valid(source@, ci)`, which depends on its arguments alone.
#[verifier::external_body]
fn regex_compiles(source: &str, case_insensitive: bool) -> (r: bool)
    ensures
        r == regex_valid(source@, case_insensitive),
{
    regex::RegexBuilder::new(source).case_insensitive(case_insensitive).build().is_ok()
}

/// Builds the regex as `regex_compiles` does and calls `Regex::is_match` on
/// `haystack`; a pattern the builder refuses matches nothing. Claimed: the
/// answer is `regex_valid(source@, ci) && regex_match(source@, ci, haystack@)`.
#[verifier::external_body]
fn regex_is_match(source: &str, case_insensitive: bool, haystack: &str) -> (r: bool)
    ensures
        r == (regex_valid(source@, case_insensitive) && regex_match(source@, case_insensitive, haystack@)),
{
    match regex::RegexBuilder::new(source).case_insensitive(case_insensitive).build() {
        Ok(re) => re.is_match(haystack),
        Err(_) => false,
    }
}

/// The characters of `s`, in order.
pub fn chars_of(s: &str) -> (v: Vec<char>)
    ensures
        v@ == s@,
{
    let mut v: Vec<char> = Vec::new();
    for c in it: s.chars()
        invariant
            v@ == it.seq().take(it.index() as int),
    {
        v.push(c);
    }
    v
}

/// Exact string equality, character by character.
pub fn str_equal(a: &str, b: &str) -> (r: bool)
    ensures
        r == (a@ == b@),
{
    let av = chars_of(a);
    let bv = chars_of(b);
    if av.len() != bv.len() {
        return false;
    }
    let mut i: usize = 0;
    while i < av.len()
        invariant
            av@ == a@,
            bv@ == b@,
            av.len() == bv.len(),
            i <= av.len(),
            forall|k: int| 0 <= k < i ==> #[trigger] a@[k] == b@[k],
        decreases av.len() - i,
    {
        if av[i] != bv[i] {
            return false;
        }
        i += 1;
    }
    assert(a@ =~= b@);
    true
}

/// ASCII-only lowercase of a character's code point.
pub open spec fn ascii_fold(c: char) -> u32 {
    if 65 <= (c as u32) <= 90 { (c as u32 + 32) as u32 } else { c as u32 }
}

pub fn fold_char(c: char) -> (r: u32)
    ensures
        r == ascii_fold(c),
{
    let u = c as u32;
    if u >= 65 && u <= 90 {
        u + 32
    } else {
        u
    }
}

/// Equality up to ASCII letter case, character by character (what
/// `str::eq_ignore_ascii_case` computes: non-ASCII characters must match
/// exactly).
pub open spec fn ascii_ci_eq(a: Seq<char>, b: Seq<char>) -> bool {
    &&& a.len() == b.len()
    &&& forall|i: int| 0 <= i < a.len() ==> #[trigger] ascii_fold(a[i]) == ascii_fold(b[i])
}

/// Case-insensitive (ASCII) string equality.
pub fn eq_ignore_ascii_case(a: &str, b: &str) -> (r: bool)
    ensures
        r == ascii_ci_eq(a@, b@),
{
    let av = chars_of(a);
    let bv = chars_of(b);
    if av.len() != bv.len() {
        return false;
    }
    let mut i: usize = 0;
    while i < av.len()
        invariant
            av@ == a@,
            bv@ == b@,
            av.len() == bv.len(),
            i <= av.len(),
            forall|k: int| 0 <= k < i ==> #[trigger] ascii_fold(a@[k]) == ascii_fold(b@[k]),
        decreases av.len() - i,
    {
        if fold_char(av[i]) != fold_char(bv[i]) {
            return false;
        }
        i += 1;
    }
    true
}

/// Every character of `p` from index `pi` on is `*`.
pub open spec fn all_stars_from(p: Seq<char>, pi: int) -> bool {
    forall|k: int| pi <= k < p.len() ==> p[k] == '*'
}

/// A consistent state of the two-pointer wildcard matcher: pattern index,
/// text index, last star (or -1) and the text index the star is stretched to.
pub open spec fn glob_state_ok(p: Seq<char>, t: Seq<char>, pi: int, ti: int, star: int, mi: int) -> bool {
    &&& 0 <= pi <= p.len()
    &&& 0 <= mi <= ti <= t.len()
    &&& (star == -1 || 0 <= star < pi)
}

/// The two-pointer wildcard matcher run from a state: a `*` becomes the
/// backtrack point; a pattern character equal to the text character, or
/// `?`, consumes one of each; on a mismatch the last `*` swallows one more
/// text character; when the text is used up the rest of the pattern must be
/// all `*`.
pub open spec fn glob_run(p: Seq<char>, t: Seq<char>, pi: int, ti: int, star: int, mi: int) -> bool
    decreases (if star < 0 { t.len() + 1int } else { t.len() - mi }), t.len() - ti, p.len() - pi,
    when glob_state_ok(p, t, pi, ti, star, mi)
{
    if ti >= t.len() {
        all_stars_from(p, pi)
    } else if pi < p.len() && p[pi] == '*' {
        glob_run(p, t, pi + 1, ti, pi, ti)
    } else if pi < p.len() && (p[pi] == t[ti] || p[pi] == '?') {
        glob_run(p, t, pi + 1, ti + 1, star, mi)
    } else if star >= 0 {
        glob_run(p, t, star + 1, mi + 1, star, mi + 1)
    } else {
        false
    }
}

/// Whether the wildcard pattern `p` (`*` any run, `?` any one character)
/// matches the text `t`, as the two-pointer matcher decides it.
pub open spec fn glob_matches(p: Seq<char>, t: Seq<char>) -> bool {
    glob_run(p, t, 0, 0, -1, 0)
}

/// Glob matching with `*` (any run of characters, the empty one included)
/// and `?` (any one character), by a two-pointer scan that backtracks to the
/// last `*`.
pub fn glob_match(pattern: &str, text: &str) -> (r: bool)
    ensures
        r == wildcard_matches(pattern@, text@),
{
    proof {
        lemma_glob_is_wildcard_match(pattern@, text@);
    }
    let p = chars_of(pattern);
    let t = chars_of(text);
    let ghost ps = pattern@;
    let ghost ts = text@;
    let mut pi: usize = 0;
    let mut ti: usize = 0;
    let mut star: usize = usize::MAX;
    let mut match_i: usize = 0;
    while ti < t.len()
        invariant
            p@ == ps,
            t@ == ts,
            ps == pattern@,
            ts == text@,
            star == usize::MAX || star < pi,
            glob_state_ok(ps, ts, pi as int, ti as int, if star == usize::MAX { -1 } else { star as int }, match_i as int),
            glob_run(ps, ts, pi as int, ti as int, if star == usize::MAX { -1 } else { star as int }, match_i as int)
                == glob_matches(ps, ts),
            glob_matches(ps, ts) == wildcard_matches(ps, ts),
        decreases (if star == usize::MAX { t.len() + 1 } else { t.len() - match_i }) as int, t.len() - ti, p.len() - pi,
    {
        if pi < p.len() && p[pi] == '*' {
            star = pi;
            match_i = ti;
            pi += 1;
        } else if pi < p.len() && (p[pi] == t[ti] || p[pi] == '?') {
            pi += 1;
            ti += 1;
        } else if star != usize::MAX {
            pi = star + 1;
            match_i += 1;
            ti = match_i;
        } else {
            return false;
        }
    }
    while pi < p.len() && p[pi] == '*'
        invariant
            p@ == ps,
            t@ == ts,
            ps == pattern@,
            ts == text@,
            pi <= p.len(),
            all_stars_from(ps, pi as int) == glob_matches(ps, ts),
        decreases p.len() - pi,
    {
        pi += 1;
    }
    pi == p.len()
}

/// Wildcard matching as a definition: `p[i..]` matches `t[j..]` when both
/// are used up, or `p[i]` is `*` and either matches nothing or swallows one
/// more character, or `p[i]` is `?` or equals `t[j]` and the rests match.
pub open spec fn wildcard_from(p: Seq<char>, t: Seq<char>, i: int, j: int) -> bool
    decreases (p.len() - i) + (t.len() - j),
    when 0 <= i <= p.len() && 0 <= j <= t.len()
{
    if i >= p.len() {
        j == t.len()
    } else if p[i] == '*' {
        wildcard_from(p, t, i + 1, j) || (j < t.len() && wildcard_from(p, t, i, j + 1))
    } else {
        j < t.len() && (p[i] == '?' || p[i] == t[j]) && wildcard_from(p, t, i + 1, j + 1)
    }
}

/// The whole pattern matches the whole text.
pub open spec fn wildcard_matches(p: Seq<char>, t: Seq<char>) -> bool {
    wildcard_from(p, t, 0, 0)
}

/// `p[i..i + n]` holds no `*`.
pub open spec fn segment_star_free(p: Seq<char>, i: int, n: int) -> bool {
    forall|k: int| i <= k < i + n ==> p[k] != '*'
}

/// At the end of the text, a pattern rest matches iff it is all stars.
proof fn lemma_wildcard_at_text_end(p: Seq<char>, t: Seq<char>, i: int)
    requires
        0 <= i <= p.len(),
    ensures
        wildcard_from(p, t, i, t.len() as int) == all_stars_from(p, i),
    decreases p.len() - i,
{
    if i < p.len() {
        lemma_wildcard_at_text_end(p, t, i + 1);
        if p[i] == '*' {
            assert(all_stars_from(p, i + 1) ==> all_stars_from(p, i));
        } else {
            assert(!all_stars_from(p, i));
        }
    }
}

/// A star-free run of `n` pattern characters consumes exactly `n` text
/// characters.
proof fn lemma_wildcard_segment(p: Seq<char>, t: Seq<char>, i: int, j: int, n: int)
    requires
        0 <= i,
        0 <= n,
        i + n <= p.len(),
        0 <= j <= t.len(),
        segment_star_free(p, i, n),
        wildcard_from(p, t, i, j),
    ensures
        j + n <= t.len(),
        wildcard_from(p, t, i + n, j + n),
    decreases n,
{
    if n > 0 {
        assert(p[i] != '*');
        lemma_wildcard_segment(p, t, i + 1, j + 1, n - 1);
    }
}

/// A star followed by a star-free run of `n` characters cannot match fewer
/// than `n` remaining text characters.
proof fn lemma_wildcard_star_needs_room(p: Seq<char>, t: Seq<char>, s: int, j: int, n: int)
    requires
        0 <= s,
        0 <= n,
        s + 1 + n <= p.len(),
        p[s] == '*',
        segment_star_free(p, s + 1, n),
        0 <= j <= t.len(),
        j + n > t.len(),
    ensures
        !wildcard_from(p, t, s, j),
    decreases t.len() - j,
{
    if wildcard_from(p, t, s + 1, j) {
        lemma_wildcard_segment(p, t, s + 1, j, n);
    }
    if j < t.len() {
        lemma_wildcard_star_needs_room(p, t, s, j + 1, n);
    }
}

/// If a star, a star-free run of `n` characters and the next star match
/// from text index `j`, the next star matches from `j + n`.
proof fn lemma_wildcard_next_star(p: Seq<char>, t: Seq<char>, s: int, j: int, n: int)
    requires
        0 <= s,
        0 <= n,
        s + 1 + n < p.len(),
        p[s] == '*',
        segment_star_free(p, s + 1, n),
        p[s + 1 + n] == '*',
        0 <= j <= t.len(),
        wildcard_from(p, t, s, j),
    ensures
        j + n <= t.len(),
        wildcard_from(p, t, s + 1 + n, j + n),
    decreases t.len() - j,
{
    if wildcard_from(p, t, s + 1, j) {
        lemma_wildcard_segment(p, t, s + 1, j, n);
    } else {
        lemma_wildcard_next_star(p, t, s, j + 1, n);
    }
}

/// What the two-pointer matcher computes from a state: without a star so
/// far, whether the pattern rest matches the text rest; after the star at
/// `star`, also whether that star matches from one past the text index it
/// was last stretched to.
proof fn lemma_glob_run_matches_wildcard(p: Seq<char>, t: Seq<char>, pi: int, ti: int, star: int, mi: int)
    requires
        glob_state_ok(p, t, pi, ti, star, mi),
        star >= 0 ==> p[star] == '*' && segment_star_free(p, star + 1, pi - star - 1) && ti - mi == pi - star - 1,
    ensures
        glob_run(p, t, pi, ti, star, mi) == (if star < 0 {
            wildcard_from(p, t, pi, ti)
        } else {
            wildcard_from(p, t, pi, ti) || (mi < t.len() && wildcard_from(p, t, star, mi + 1))
        }),
    decreases (if star < 0 { t.len() + 1int } else { t.len() - mi }), t.len() - ti, p.len() - pi,
{
    if ti >= t.len() {
        lemma_wildcard_at_text_end(p, t, pi);
        if star >= 0 && mi < t.len() {
            lemma_wildcard_star_needs_room(p, t, star, mi + 1, pi - star - 1);
        }
    } else if pi < p.len() && p[pi] == '*' {
        lemma_glob_run_matches_wildcard(p, t, pi + 1, ti, pi, ti);
        if star >= 0 && mi < t.len() && wildcard_from(p, t, star, mi + 1) {
            lemma_wildcard_next_star(p, t, star, mi + 1, pi - star - 1);
        }
    } else if pi < p.len() && (p[pi] == t[ti] || p[pi] == '?') {
        lemma_glob_run_matches_wildcard(p, t, pi + 1, ti + 1, star, mi);
    } else if star >= 0 {
        lemma_glob_run_matches_wildcard(p, t, star + 1, mi + 1, star, mi + 1);
    }
}

/// The two-pointer matcher is exactly wildcard matching: `*` matches any run
/// of characters, `?` any one character, and every other character itself.
pub proof fn lemma_glob_is_wildcard_match(p: Seq<char>, t: Seq<char>)
    ensures
        glob_matches(p, t) == wildcard_matches(p, t),
{
    lemma_glob_run_matches_wildcard(p, t, 0, 0, -1, 0);
}

/// A regex pattern accepted by the regex builder, kept as its source text and
/// case-insensitivity flag.
#[derive(Debug, Clone)]
pub struct RegexPattern {
    source: String,
    case_insensitive: bool,
}

impl RegexPattern {
    pub closed spec fn source_view(self) -> Seq<char> {
        self.source@
    }

    pub closed spec fn ci_view(self) -> bool {
        self.case_insensitive
    }

    /// Compiles-checks `source`; `None` when the regex builder refuses it.
    pub fn new(source: &str, case_insensitive: bool) -> (r: Option<RegexPattern>)
        ensures
            r is Some <==> regex_valid(source@, case_insensitive),
            r matches Some(x) ==> x.source_view() == source@ && x.ci_view() == case_insensitive,
    {
        if regex_compiles(source, case_insensitive) {
            Some(RegexPattern { source: source.to_owned(), case_insensitive })
        } else {
            None
        }
    }

    /// Whether the regex finds a match in `haystack` (never, for a source the
    /// builder refuses; `new` hands out none such).
    pub fn is_match(&self, haystack: &str) -> (r: bool)
        ensures
            r == (regex_valid(self.source_view(), self.ci_view()) && regex_match(
                self.source_view(),
                self.ci_view(),
                haystack@,
            )),
    {
        regex_is_match(self.source.as_str(), self.case_insensitive, haystack)
    }
}

/// A string pattern.
#[derive(Debug, Clone)]
pub enum Pattern {
    /// Case-insensitive exact match: the lowercased haystack equals the
    /// pattern, which is stored lowercased.
    Exact(String),
    /// `*` and `?` wildcards, case-insensitive; stored lowercased.
    Glob(String),
    /// Full regex.
    Regex(RegexPattern),
}

impl Pattern {
    pub fn exact(s: &str) -> (r: Pattern)
        ensures
            r matches Pattern::Exact(p) && p@ == lowercase(s@),
            ascii_only(s@) ==> (r matches Pattern::Exact(p) && p@ == ascii_lower(s@)),
    {
        Pattern::Exact(str_to_lowercase(s))
    }

    pub fn glob(s: &str) -> (r: Pattern)
        ensures
            r matches Pattern::Glob(p) && p@ == lowercase(s@),
            ascii_only(s@) ==> (r matches Pattern::Glob(p) && p@ == ascii_lower(s@)),
    {
        Pattern::Glob(str_to_lowercase(s))
    }

    pub fn regex(r: RegexPattern) -> (out: Pattern)
        ensures
            out == Pattern::Regex(r),
    {
        Pattern::Regex(r)
    }

    /// Exact: the lowercased haystack equals the pattern; Glob: the pattern
    /// matches the lowercased haystack; Regex: the regex finds a match in it.
    pub open spec fn spec_matches(self, haystack: Seq<char>) -> bool {
        match self {
            Pattern::Exact(p) => lowercase(haystack) == p@,
            Pattern::Glob(p) => wildcard_matches(p@, lowercase(haystack)),
            Pattern::Regex(r) => regex_valid(r.source_view(), r.ci_view()) && regex_match(
                r.source_view(),
                r.ci_view(),
                haystack,
            ),
        }
    }

    pub fn matches(&self, haystack: &str) -> (r: bool)
        ensures
            r == self.spec_matches(haystack@),
            ascii_only(haystack@) ==> (self matches Pattern::Exact(p) ==> r == (ascii_lower(haystack@) == p@)),
            ascii_only(haystack@) ==> (self matches Pattern::Glob(p) ==> r == wildcard_matches(p@, ascii_lower(haystack@))),
    {
        match self {
            Pattern::Exact(p) => {
                let lower = str_to_lowercase(haystack);
                str_equal(lower.as_str(), p.as_str())
            },
            Pattern::Glob(p) => {
                let lower = str_to_lowercase(haystack);
                glob_match(p.as_str(), lower.as_str())
            },
            Pattern::Regex(r) => r.is_match(haystack),
        }
    }
}

#[derive(Debug, Clone, Copy, Default, PartialEq, Eq, Structural)]
pub struct WindowTraits {
    pub is_topmost: bool,
    pub is_cloaked: bool,
    pub is_tool: bool,
    pub is_owned: bool,
}

#[derive(Debug, Clone, Copy, Default, PartialEq, Eq, Structural)]
pub struct WindowTraitMask {
    pub require_topmost: Option<bool>,
    pub require_cloaked: Option<bool>,
    pub require_tool: Option<bool>,
    pub require_owned: Option<bool>,
}

/// An absent requirement accepts anything; a present one must equal the trait.
pub open spec fn trait_ok(req: Option<bool>, actual: bool) -> bool {
    match req {
        Some(r) => r == actual,
        None => true,
    }
}

fn check_trait(req: Option<bool>, actual: bool) -> (r: bool)
    ensures
        r == trait_ok(req, actual),
{
    match req {
        Some(r) => r == actual,
        None => true,
    }
}

impl WindowTraitMask {
    pub open spec fn spec_matches(self, t: WindowTraits) -> bool {
        &&& trait_ok(self.require_topmost, t.is_topmost)
        &&& trait_ok(self.require_cloaked, t.is_cloaked)
        &&& trait_ok(self.require_tool, t.is_tool)
        &&& trait_ok(self.require_owned, t.is_owned)
    }

    pub fn matches(self, t: WindowTraits) -> (r: bool)
        ensures
            r == self.spec_matches(t),
    {
        check_trait(self.require_topmost, t.is_topmost) && check_trait(self.require_cloaked, t.is_cloaked)
            && check_trait(self.require_tool, t.is_tool) && check_trait(self.require_owned, t.is_owned)
    }

    /// Whether no trait is required at all.
    pub open spec fn is_unconstrained(self) -> bool {
        &&& self.require_topmost is None
        &&& self.require_cloaked is None
        &&& self.require_tool is None
        &&& self.require_owned is None
    }
}

/// What the adapter knows of a target window.
#[derive(Debug, Clone)]
pub struct WindowInfo {
    /// Lowercase executable file name.
    pub process_basename: String,
    pub class_name: String,
    pub title: String,
    pub traits: WindowTraits,
}

#[derive(Debug, Clone, Copy, PartialEq, Eq, Structural)]
pub enum RuleAction {
    Exclude,
    IncludeOnly,
}

#[derive(Debug, Clone)]
pub struct WindowRule {
    pub match_process: Option<Pattern>,
    pub match_class: Option<Pattern>,
    pub match_title: Option<Pattern>,
    pub match_traits: WindowTraitMask,
    pub action: RuleAction,
}

/// An absent pattern accepts anything.
pub open spec fn opt_pattern_ok(p: Option<Pattern>, haystack: Seq<char>) -> bool {
    match p {
        Some(pat) => pat.spec_matches(haystack),
        None => true,
    }
}

fn check_pattern(p: &Option<Pattern>, haystack: &str) -> (r: bool)
    ensures
        r == opt_pattern_ok(*p, haystack@),
{
    match p {
        Some(pat) => pat.matches(haystack),
        None => true,
    }
}

impl WindowRule {
    /// Every present pattern matches its field and the trait mask matches.
    pub open spec fn spec_matches(self, w: WindowInfo) -> bool {
        &&& opt_pattern_ok(self.match_process, w.process_basename@)
        &&& opt_pattern_ok(self.match_class, w.class_name@)
        &&& opt_pattern_ok(self.match_title, w.title@)
        &&& self.match_traits.spec_matches(w.traits)
    }

    fn matches(&self, w: &WindowInfo) -> (r: bool)
        ensures
            r == self.spec_matches(*w),
    {
        check_pattern(&self.match_process, w.process_basename.as_str()) && check_pattern(
            &self.match_class,
            w.class_name.as_str(),
        ) && check_pattern(&self.match_title, w.title.as_str()) && self.match_traits.matches(w.traits)
    }
}

/// The action of the first rule of `rules` that matches `w`, if any.
pub open spec fn first_action(rules: Seq<WindowRule>, w: WindowInfo) -> Option<RuleAction>
    decreases rules.len(),
{
    if rules.len() == 0 {
        None
    } else if rules[0].spec_matches(w) {
        Some(rules[0].action)
    } else {
        first_action(rules.drop_first(), w)
    }
}

/// Rules are evaluated in order; the first matching rule's action is returned.
pub fn evaluate<'a>(rules: &'a [WindowRule], w: &WindowInfo) -> (r: Option<&'a RuleAction>)
    ensures
        match r {
            Some(a) => first_action(rules@, *w) == Some(*a),
            None => first_action(rules@, *w) is None,
        },
{
    let mut i: usize = 0;
    assert(rules@.skip(0) =~= rules@);
    while i < rules.len()
        invariant
            i <= rules@.len(),
            first_action(rules@, *w) == first_action(rules@.skip(i as int), *w),
        decreases rules.len() - i,
    {
        if rules[i].matches(w) {
            return Some(&rules[i].action);
        }
        proof {
            assert(rules@.skip(i as int).drop_first() =~= rules@.skip(i + 1));
        }
        i += 1;
    }
    None
}

/// The first matching rule wins: if rule `i` matches and no earlier rule does,
/// the decision is rule `i`'s action; if none matches, there is no decision.
pub proof fn lemma_first_match_wins(rules: Seq<WindowRule>, w: WindowInfo, i: int)
    ensures
        0 <= i < rules.len() && rules[i].spec_matches(w) && (forall|k: int| 0 <= k < i ==> !#[trigger] rules[k].spec_matches(w))
            ==> first_action(rules, w) == Some(rules[i].action),
        (forall|k: int| 0 <= k < rules.len() ==> !#[trigger] rules[k].spec_matches(w)) ==> first_action(rules, w) is None,
    decreases rules.len(),
{
    if rules.len() > 0 {
        lemma_first_match_wins(rules.drop_first(), w, i - 1);
        if 0 <= i < rules.len() && rules[i].spec_matches(w) && (forall|k: int| 0 <= k < i ==> !#[trigger] rules[k].spec_matches(w)) {
            if i > 0 {
                assert(!rules[0].spec_matches(w));
                assert forall|k: int| 0 <= k < i - 1 implies !#[trigger] rules.drop_first()[k].spec_matches(w) by {
                    assert(rules.drop_first()[k] == rules[k + 1]);
                }
            }
        }
        if forall|k: int| 0 <= k < rules.len() ==> !#[trigger] rules[k].spec_matches(w) {
            assert(!rules[0].spec_matches(w));
            assert forall|k: int| 0 <= k < rules.len() - 1 implies !#[trigger] rules.drop_first()[k].spec_matches(w) by {
                assert(rules.drop_first()[k] == rules[k + 1]);
            }
        }
    }
}


/// A trait mask matches a window exactly when every trait it requires has
/// the required value: `require_tool == Some(b)` needs `is_tool == b`, and
/// likewise for topmost, cloaked and owned; a trait it leaves `None` may be
/// anything.
pub proof fn lemma_trait_mask(mask: WindowTraitMask, t: WindowTraits)
    ensures
        mask.spec_matches(t) <==> {
            &&& mask.require_topmost matches Some(b) ==> t.is_topmost == b
            &&& mask.require_cloaked matches Some(b) ==> t.is_cloaked == b
            &&& mask.require_tool matches Some(b) ==> t.is_tool == b
            &&& mask.require_owned matches Some(b) ==> t.is_owned == b
        },
{
}

/// A rule whose trait mask requires a trait value never decides for a
/// window without that value: with `require_tool == Some(true)`, an ordinary
/// (non-tool) window is not matched, whatever its names, and a rule list of
/// that rule alone decides nothing for it.
pub proof fn lemma_trait_rule_skips(r: WindowRule, w: WindowInfo)
    requires
        r.match_traits.require_tool == Some(true),
        !w.traits.is_tool,
    ensures
        !r.spec_matches(w),
        first_action(seq![r], w) is None,
{
    lemma_trait_mask(r.match_traits, w.traits);
    assert(seq![r].drop_first() =~= Seq::<WindowRule>::empty());
    reveal_with_fuel(first_action, 2);
}

} // verus!
