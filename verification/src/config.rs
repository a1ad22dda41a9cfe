//! The configuration file's shape and its conversion to the engine's view.
//!
//! The TOML text itself is read by the adapter; this module holds the values
//! it yields and decides what they mean: the modifier names, the center and
//! middle-click modes, the exclusion and `[[rules]]` entries, and the snap
//! distances.

use vstd::prelude::*;
use crate::engine::config::{CenterMode, EngineConfig, MiddleClickAction, SnapEngineConfig, ZoneToggles, default_zone_toggles};
use crate::engine::modifiers::{ModMatcher, Modifiers};
use crate::engine::policy::{ActivationPolicy, default_policy};
use crate::engine::rules::{
    Pattern, RegexPattern, RuleAction, WindowRule, WindowTraitMask, ascii_ci_eq, chars_of, lowercase, regex_valid,
};

verus! {

#[derive(Debug, Clone, PartialEq)]
pub struct Activation {
    /// `alt`, `ctrl`, `shift`, `win`, or several joined by `+`.
    pub modifier: String,
}

impl Default for Activation {
    fn default() -> (r: Self)
        ensures
            r.modifier@ == "alt"@,
    {
        proof {
            reveal_strlit("alt");
        }
        Activation { modifier: String::from_str("alt") }
    }
}

#[derive(Debug, Clone, PartialEq)]
pub struct Behavior {
    pub enable_move: bool,
    pub enable_resize: bool,
    pub raise_on_drag: bool,
    pub restore_maximized_on_move: bool,
    /// `none` or `toggle_maximize`; anything else means `none`.
    pub middle_click_action: String,
}

impl Default for Behavior {
    fn default() -> (r: Self)
        ensures
            r.enable_move && r.enable_resize && !r.raise_on_drag && r.restore_maximized_on_move,
            r.middle_click_action@ == "none"@,
    {
        Behavior {
            enable_move: true,
            enable_resize: true,
            raise_on_drag: false,
            restore_maximized_on_move: true,
            middle_click_action: String::from_str("none"),
        }
    }
}

/// The `[resize]` section. Its `center_fraction` is read and applied by the
/// adapter, which turns it into band widths per press.
#[derive(Debug, Clone, PartialEq)]
pub struct Resize {
    /// `symmetric`, `bottom_right` or `move`; anything else means `symmetric`.
    pub center_mode: String,
}

impl Default for Resize {
    fn default() -> (r: Self)
        ensures
            r.center_mode@ == "symmetric"@,
    {
        Resize { center_mode: String::from_str("symmetric") }
    }
}

#[derive(Debug, Clone, Default, PartialEq)]
pub struct Exclude {
    /// Executable names whose windows are never dragged.
    pub processes: Vec<String>,
}

/// The `[snap]` section.
#[derive(Debug, Clone, PartialEq)]
pub struct Snap {
    pub enabled: bool,
    pub engage_distance_px: u32,
    pub disengage_distance_px: u32,
    pub preview_opacity: u8,
    pub zones: ZoneToggles,
}

impl Default for Snap {
    fn default() -> (r: Self)
        ensures
            r.enabled,
            r.engage_distance_px == 24,
            r.disengage_distance_px == 32,
            r.preview_opacity == 0x99,
            r.zones == default_zone_toggles(),
    {
        Snap {
            enabled: true,
            engage_distance_px: 24,
            disengage_distance_px: 32,
            preview_opacity: 0x99,
            zones: ZoneToggles::default(),
        }
    }
}

/// A string pattern as written in a rule.
#[derive(Debug, Clone, PartialEq, Eq)]
pub enum PatternFile {
    Exact(String),
    Glob(String),
    Regex(String),
}

/// One `[[rules]]` entry.
#[derive(Debug, Clone, PartialEq)]
pub struct RuleFile {
    pub match_process: Option<PatternFile>,
    pub match_class: Option<PatternFile>,
    pub match_title: Option<PatternFile>,
    pub match_traits: WindowTraitMask,
    /// Only `exclude` is acted on; other actions drop the rule.
    pub action: String,
}

#[derive(Debug, Clone, PartialEq)]
pub struct FileConfig {
    pub activation: Activation,
    pub behavior: Behavior,
    pub resize: Resize,
    pub exclude: Exclude,
    pub snap: Snap,
    pub rules: Vec<RuleFile>,
}

impl Default for FileConfig {
    fn default() -> (r: Self)
        ensures
            r.activation.modifier@ == "alt"@,
            r.behavior.enable_move && r.behavior.enable_resize && !r.behavior.raise_on_drag
                && r.behavior.restore_maximized_on_move,
            r.behavior.middle_click_action@ == "none"@,
            r.resize.center_mode@ == "symmetric"@,
            r.exclude.processes@.len() == 0,
            r.snap.enabled && r.snap.engage_distance_px == 24 && r.snap.disengage_distance_px == 32,
            r.snap.preview_opacity == 0x99,
            r.snap.zones == default_zone_toggles(),
            r.rules@.len() == 0,
    {
        FileConfig {
            activation: Activation::default(),
            behavior: Behavior::default(),
            resize: Resize::default(),
            exclude: Exclude { processes: Vec::new() },
            snap: Snap::default(),
            rules: Vec::new(),
        }
    }
}

/// Why a configuration cannot be used.
#[derive(Debug, Clone, PartialEq, Eq)]
pub enum ConfigError {
    /// `[activation].modifier` names a key that is not a modifier.
    UnknownModifier(String),
}

/// Adapter-side settings derived from the file.
#[derive(Debug, Clone, Copy, PartialEq, Eq)]
pub struct AdapterConfig {
    /// Whole-window alpha of the snap preview.
    pub preview_opacity: u8,
}

#[derive(Debug, Clone)]
pub struct RuntimeConfig {
    pub engine: EngineConfig,
    pub adapter: AdapterConfig,
}

// ---------------------------------------------------------------------------
// Names
// ---------------------------------------------------------------------------

/// The modifier bit a key name stands for (ASCII case ignored): alt 1,
/// ctrl 2, shift 4, win 8.
pub open spec fn token_bit(tok: Seq<char>) -> Option<u16> {
    if ascii_ci_eq(tok, "alt"@) {
        Some(1u16)
    } else if ascii_ci_eq(tok, "ctrl"@) {
        Some(2u16)
    } else if ascii_ci_eq(tok, "shift"@) {
        Some(4u16)
    } else if ascii_ci_eq(tok, "win"@) {
        Some(8u16)
    } else {
        None
    }
}

/// Reads `s[i..]` given the token read so far and the bits of the tokens
/// before it: the `+`-separated tokens of the string must all be key names,
/// and their bits are or-ed together.
pub open spec fn scan_modifiers(s: Seq<char>, i: int, cur: Seq<char>, bits: u16) -> Option<u16>
    decreases s.len() - i,
{
    if i >= s.len() {
        match token_bit(cur) {
            Some(b) => Some(bits | b),
            None => None,
        }
    } else if s[i] == '+' {
        match token_bit(cur) {
            Some(b) => scan_modifiers(s, i + 1, Seq::empty(), bits | b),
            None => None,
        }
    } else {
        scan_modifiers(s, i + 1, cur.push(s[i]), bits)
    }
}

/// The modifier set a `modifier` string names, if every `+`-separated token
/// is one of `alt`, `ctrl`, `shift`, `win` (ASCII case ignored).
pub open spec fn modifier_bits(s: Seq<char>) -> Option<u16> {
    scan_modifiers(s, 0, Seq::empty(), 0)
}

fn ci_eq_chars(a: &Vec<char>, b: &str) -> (r: bool)
    ensures
        r == ascii_ci_eq(a@, b@),
{
    let bv = chars_of(b);
    if a.len() != bv.len() {
        return false;
    }
    let mut i: usize = 0;
    while i < a.len()
        invariant
            bv@ == b@,
            a.len() == bv.len(),
            i <= a.len(),
            forall|k: int| 0 <= k < i ==> #[trigger] crate::engine::rules::ascii_fold(a@[k])
                == crate::engine::rules::ascii_fold(b@[k]),
        decreases a.len() - i,
    {
        if crate::engine::rules::fold_char(a[i]) != crate::engine::rules::fold_char(bv[i]) {
            return false;
        }
        i += 1;
    }
    true
}

fn token_value(tok: &Vec<char>) -> (r: Option<u16>)
    ensures
        r == token_bit(tok@),
{
    if ci_eq_chars(tok, "alt") {
        Some(1)
    } else if ci_eq_chars(tok, "ctrl") {
        Some(2)
    } else if ci_eq_chars(tok, "shift") {
        Some(4)
    } else if ci_eq_chars(tok, "win") {
        Some(8)
    } else {
        None
    }
}

/// Parses a `modifier` string such as `alt` or `alt+ctrl`.
pub fn parse_modifier(s: &str) -> (r: Option<Modifiers>)
    ensures
        match r {
            Some(m) => modifier_bits(s@) == Some(m.bits),
            None => modifier_bits(s@) is None,
        },
{
    let cs = chars_of(s);
    let mut cur: Vec<char> = Vec::new();
    let mut bits: u16 = 0;
    let mut i: usize = 0;
    while i < cs.len()
        invariant
            cs@ == s@,
            i <= cs@.len(),
            scan_modifiers(s@, i as int, cur@, bits) == modifier_bits(s@),
        decreases cs.len() - i,
    {
        let c = cs[i];
        if c == '+' {
            match token_value(&cur) {
                Some(b) => {
                    bits = bits | b;
                    cur = Vec::new();
                    assert(cur@ =~= Seq::<char>::empty());
                },
                None => {
                    return None;
                },
            }
        } else {
            cur.push(c);
        }
        i += 1;
    }
    match token_value(&cur) {
        Some(b) => Some(Modifiers { bits: bits | b }),
        None => None,
    }
}

/// `toggle_maximize` (ASCII case ignored) toggles maximize; anything else,
/// `none` included, does nothing.
pub open spec fn middle_click_from(s: Seq<char>) -> MiddleClickAction {
    if ascii_ci_eq(s, "toggle_maximize"@) {
        MiddleClickAction::ToggleMaximize
    } else {
        MiddleClickAction::Nothing
    }
}

pub fn parse_middle_click_action(s: &str) -> (r: MiddleClickAction)
    ensures
        r == middle_click_from(s@),
{
    if crate::engine::rules::eq_ignore_ascii_case(s, "toggle_maximize") {
        MiddleClickAction::ToggleMaximize
    } else {
        MiddleClickAction::Nothing
    }
}

/// `bottom_right` and `move` (ASCII case ignored) select those modes;
/// anything else is `symmetric`.
pub open spec fn center_mode_from(s: Seq<char>) -> CenterMode {
    if ascii_ci_eq(s, "bottom_right"@) {
        CenterMode::BottomRight
    } else if ascii_ci_eq(s, "move"@) {
        CenterMode::Move
    } else {
        CenterMode::Symmetric
    }
}

pub fn parse_center_mode(s: &str) -> (r: CenterMode)
    ensures
        r == center_mode_from(s@),
{
    if crate::engine::rules::eq_ignore_ascii_case(s, "bottom_right") {
        CenterMode::BottomRight
    } else if crate::engine::rules::eq_ignore_ascii_case(s, "move") {
        CenterMode::Move
    } else {
        CenterMode::Symmetric
    }
}

// ---------------------------------------------------------------------------
// Rules
// ---------------------------------------------------------------------------

/// A written pattern can be used: a regex must be accepted by the regex
/// builder.
pub open spec fn pattern_usable(pf: PatternFile, case_insensitive: bool) -> bool {
    match pf {
        PatternFile::Regex(src) => regex_valid(src@, case_insensitive),
        _ => true,
    }
}

/// `p` is the pattern written as `pf`: exact and glob patterns lowercased,
/// a regex compiled with the given case-insensitivity.
pub open spec fn pattern_from(pf: PatternFile, case_insensitive: bool, p: Pattern) -> bool {
    match (pf, p) {
        (PatternFile::Exact(s), Pattern::Exact(q)) => q@ == lowercase(s@),
        (PatternFile::Glob(s), Pattern::Glob(q)) => q@ == lowercase(s@),
        (PatternFile::Regex(s), Pattern::Regex(r)) => r.source_view() == s@ && r.ci_view() == case_insensitive,
        _ => false,
    }
}

pub open spec fn opt_usable(pf: Option<PatternFile>, case_insensitive: bool) -> bool {
    match pf {
        Some(p) => pattern_usable(p, case_insensitive),
        None => true,
    }
}

pub open spec fn opt_from(pf: Option<PatternFile>, case_insensitive: bool, p: Option<Pattern>) -> bool {
    match (pf, p) {
        (None, None) => true,
        (Some(a), Some(b)) => pattern_from(a, case_insensitive, b),
        _ => false,
    }
}

/// A rule entry is kept when its action is `exclude` (ASCII case ignored),
/// it matches on something (a pattern or a trait), and each regex compiles;
/// process regexes are compiled case-insensitively, class and title regexes
/// as written.
pub open spec fn rule_kept(r: RuleFile) -> bool {
    &&& ascii_ci_eq(r.action@, "exclude"@)
    &&& !(r.match_process is None && r.match_class is None && r.match_title is None
        && r.match_traits.is_unconstrained())
    &&& opt_usable(r.match_process, true)
    &&& opt_usable(r.match_class, false)
    &&& opt_usable(r.match_title, false)
}

/// `w` is the engine rule for the entry `r`.
pub open spec fn rule_from(r: RuleFile, w: WindowRule) -> bool {
    &&& opt_from(r.match_process, true, w.match_process)
    &&& opt_from(r.match_class, false, w.match_class)
    &&& opt_from(r.match_title, false, w.match_title)
    &&& w.match_traits == r.match_traits
    &&& w.action == RuleAction::Exclude
}

/// The kept entries, in order.
pub open spec fn kept_rules(rs: Seq<RuleFile>) -> Seq<RuleFile>
    decreases rs.len(),
{
    if rs.len() == 0 {
        Seq::empty()
    } else if rule_kept(rs.last()) {
        kept_rules(rs.drop_last()).push(rs.last())
    } else {
        kept_rules(rs.drop_last())
    }
}

/// `w` is the exclusion rule for the executable name `name`.
pub open spec fn exclusion_from(name: String, w: WindowRule) -> bool {
    &&& w.match_process matches Some(Pattern::Exact(q)) && q@ == lowercase(name@)
    &&& w.match_class is None
    &&& w.match_title is None
    &&& w.match_traits.is_unconstrained()
    &&& w.action == RuleAction::Exclude
}

fn convert_pattern(pf: &PatternFile, case_insensitive: bool) -> (r: Option<Pattern>)
    ensures
        r is Some <==> pattern_usable(*pf, case_insensitive),
        r matches Some(p) ==> pattern_from(*pf, case_insensitive, p),
{
    match pf {
        PatternFile::Exact(s) => Some(Pattern::exact(s.as_str())),
        PatternFile::Glob(s) => Some(Pattern::glob(s.as_str())),
        PatternFile::Regex(s) => match RegexPattern::new(s.as_str(), case_insensitive) {
            Some(re) => Some(Pattern::regex(re)),
            None => None,
        },
    }
}

fn convert_opt(pf: &Option<PatternFile>, case_insensitive: bool) -> (r: Option<Option<Pattern>>)
    ensures
        r is Some <==> opt_usable(*pf, case_insensitive),
        r matches Some(p) ==> opt_from(*pf, case_insensitive, p),
{
    match pf {
        None => Some(None),
        Some(p) => match convert_pattern(p, case_insensitive) {
            Some(q) => Some(Some(q)),
            None => None,
        },
    }
}

fn mask_unconstrained(m: WindowTraitMask) -> (r: bool)
    ensures
        r == m.is_unconstrained(),
{
    m.require_topmost.is_none() && m.require_cloaked.is_none() && m.require_tool.is_none()
        && m.require_owned.is_none()
}

/// The engine rule for a `[[rules]]` entry, or `None` when the entry is
/// dropped (see `rule_kept`).
pub fn convert_rule(r: &RuleFile) -> (out: Option<WindowRule>)
    ensures
        out is Some <==> rule_kept(*r),
        out matches Some(w) ==> rule_from(*r, w),
{
    if !crate::engine::rules::eq_ignore_ascii_case(r.action.as_str(), "exclude") {
        return None;
    }
    if r.match_process.is_none() && r.match_class.is_none() && r.match_title.is_none() && mask_unconstrained(
        r.match_traits,
    ) {
        return None;
    }
    let p = match convert_opt(&r.match_process, true) {
        Some(p) => p,
        None => {
            return None;
        },
    };
    let c = match convert_opt(&r.match_class, false) {
        Some(c) => c,
        None => {
            return None;
        },
    };
    let t = match convert_opt(&r.match_title, false) {
        Some(t) => t,
        None => {
            return None;
        },
    };
    Some(WindowRule {
        match_process: p,
        match_class: c,
        match_title: t,
        match_traits: r.match_traits,
        action: RuleAction::Exclude,
    })
}

// ---------------------------------------------------------------------------
// The bridge
// ---------------------------------------------------------------------------

/// Snap distances: the engage distance is capped at 256 px, and the
/// disengage distance is capped likewise and raised to at least the engage
/// distance.
pub open spec fn engage_from(e: u32) -> u32 {
    if e <= 256 { e } else { 256 }
}

pub open spec fn disengage_from(e: u32, d: u32) -> u32 {
    let capped = if d <= 256 { d } else { 256 };
    if capped >= engage_from(e) { capped } else { engage_from(e) }
}

/// The arm matcher for a modifier set: those keys required, Win forbidden
/// unless it is one of them.
pub open spec fn arm_for(bits: u16) -> ModMatcher {
    ModMatcher { required: Modifiers { bits }, forbidden: Modifiers { bits: 8u16 & !bits }, exact: false }
}

impl FileConfig {
    /// The engine config the file describes, when its modifier names are
    /// all known.
    pub open spec fn engine_view_ok(self, ec: EngineConfig) -> bool {
        let n = self.exclude.processes@.len();
        let kept = kept_rules(self.rules@);
        &&& ec.enabled
        &&& ec.enable_move == self.behavior.enable_move
        &&& ec.enable_resize == self.behavior.enable_resize
        &&& ec.raise_on_drag == self.behavior.raise_on_drag
        &&& ec.restore_maximized_on_move == self.behavior.restore_maximized_on_move
        &&& ec.policy == (ActivationPolicy {
            arm: arm_for(modifier_bits(self.activation.modifier@)->0),
            ..default_policy()
        })
        &&& ec.center_mode == center_mode_from(self.resize.center_mode@)
        &&& ec.middle_click_action == middle_click_from(self.behavior.middle_click_action@)
        &&& ec.snap == (SnapEngineConfig {
            enabled: self.snap.enabled,
            engage_px: engage_from(self.snap.engage_distance_px),
            disengage_px: disengage_from(self.snap.engage_distance_px, self.snap.disengage_distance_px),
            zones: self.snap.zones,
        })
        &&& ec.rules@.len() == n + kept.len()
        &&& forall|i: int| 0 <= i < n ==> exclusion_from(#[trigger] self.exclude.processes@[i], ec.rules@[i])
        &&& forall|j: int| 0 <= j < kept.len() ==> rule_from(#[trigger] kept[j], ec.rules@[n + j])
    }

    /// Converts the file's values to the engine's config. Fails exactly when
    /// the modifier string names an unknown key. `[exclude].processes`
    /// become exact, case-insensitive process rules placed before the kept
    /// `[[rules]]` entries; unknown middle-click and center modes fall back
    /// to their defaults.
    pub fn to_engine_config(&self) -> (r: Result<EngineConfig, ConfigError>)
        ensures
            r is Ok <==> modifier_bits(self.activation.modifier@) is Some,
            r matches Ok(ec) ==> self.engine_view_ok(ec),
            r matches Err(e) ==> e == ConfigError::UnknownModifier(self.activation.modifier),
    {
        let mods = match parse_modifier(self.activation.modifier.as_str()) {
            Some(m) => m,
            None => {
                return Err(ConfigError::UnknownModifier(self.activation.modifier.clone()));
            },
        };
        let defaults = ActivationPolicy::default();
        let policy = ActivationPolicy {
            arm: ModMatcher { required: mods, forbidden: Modifiers { bits: 8u16 & !mods.bits }, exact: false },
            ..defaults
        };

        let mut rules: Vec<WindowRule> = Vec::new();
        let n = self.exclude.processes.len();
        let mut i: usize = 0;
        while i < n
            invariant
                n == self.exclude.processes@.len(),
                i <= n,
                rules@.len() == i,
                forall|k: int| 0 <= k < i ==> exclusion_from(#[trigger] self.exclude.processes@[k], rules@[k]),
            decreases n - i,
        {
            let p = Pattern::exact(self.exclude.processes[i].as_str());
            rules.push(WindowRule {
                match_process: Some(p),
                match_class: None,
                match_title: None,
                match_traits: WindowTraitMask {
                    require_topmost: None,
                    require_cloaked: None,
                    require_tool: None,
                    require_owned: None,
                },
                action: RuleAction::Exclude,
            });
            i += 1;
        }
        let mut j: usize = 0;
        while j < self.rules.len()
            invariant
                n == self.exclude.processes@.len(),
                j <= self.rules@.len(),
                rules@.len() == n + kept_rules(self.rules@.take(j as int)).len(),
                forall|k: int| 0 <= k < n ==> exclusion_from(#[trigger] self.exclude.processes@[k], rules@[k]),
                forall|k: int| 0 <= k < kept_rules(self.rules@.take(j as int)).len() ==> rule_from(
                    #[trigger] kept_rules(self.rules@.take(j as int))[k],
                    rules@[n + k],
                ),
            decreases self.rules.len() - j,
        {
            proof {
                assert(self.rules@.take(j + 1).drop_last() =~= self.rules@.take(j as int));
                assert(self.rules@.take(j + 1).last() == self.rules@[j as int]);
            }
            match convert_rule(&self.rules[j]) {
                Some(w) => {
                    rules.push(w);
                },
                None => {},
            }
            j += 1;
        }
        proof {
            assert(self.rules@.take(self.rules@.len() as int) =~= self.rules@);
        }
        let e = self.snap.engage_distance_px;
        let engage = if e <= 256 { e } else { 256 };
        let d = self.snap.disengage_distance_px;
        let capped = if d <= 256 { d } else { 256 };
        let disengage = if capped >= engage { capped } else { engage };
        Ok(EngineConfig {
            enabled: true,
            enable_move: self.behavior.enable_move,
            enable_resize: self.behavior.enable_resize,
            raise_on_drag: self.behavior.raise_on_drag,
            restore_maximized_on_move: self.behavior.restore_maximized_on_move,
            policy,
            rules,
            center_mode: parse_center_mode(self.resize.center_mode.as_str()),
            middle_click_action: parse_middle_click_action(self.behavior.middle_click_action.as_str()),
            snap: SnapEngineConfig { enabled: self.snap.enabled, engage_px: engage, disengage_px: disengage, zones: self.snap.zones },
        })
    }

    /// The engine config and the adapter's settings (the preview opacity).
    pub fn to_runtime_config(&self) -> (r: Result<RuntimeConfig, ConfigError>)
        ensures
            r is Ok <==> modifier_bits(self.activation.modifier@) is Some,
            r matches Ok(rt) ==> self.engine_view_ok(rt.engine) && rt.adapter.preview_opacity
                == self.snap.preview_opacity,
            r matches Err(e) ==> e == ConfigError::UnknownModifier(self.activation.modifier),
    {
        match self.to_engine_config() {
            Ok(engine) => Ok(RuntimeConfig { engine, adapter: AdapterConfig { preview_opacity: self.snap.preview_opacity } }),
            Err(e) => Err(e),
        }
    }
}

/// The bridge keeps the snap distances sane: the engage distance is at most
/// 256 px and the disengage distance at least the engage distance (and at
/// most 256 px).
pub proof fn lemma_snap_distances(e: u32, d: u32)
    ensures
        engage_from(e) <= 256,
        engage_from(e) <= disengage_from(e, d) <= 256,
        e <= 256 ==> engage_from(e) == e,
{
}


/// The arm matcher the bridge builds from `[activation].modifier`: the
/// configured keys alone arm; every set that arms holds all of them; holding
/// further keys (Ctrl, Shift, Space, and Win when Win is configured) keeps
/// it armed, so Alt+Ctrl still arms with `modifier = "alt"`; and Win, when
/// not configured, never arms.
pub proof fn lemma_arm_matcher(fc: FileConfig, ec: EngineConfig, held: Modifiers, extra: Modifiers)
    requires
        modifier_bits(fc.activation.modifier@) is Some,
        fc.engine_view_ok(ec),
    ensures
        ({
            let bits = modifier_bits(fc.activation.modifier@)->0;
            let arm = ec.policy.arm;
            &&& arm.spec_matches(Modifiers { bits })
            &&& arm.spec_matches(held) ==> held.bits & bits == bits
            &&& arm.spec_matches(held) && (extra.bits & 8 == 0 || bits & 8 != 0) ==> arm.spec_matches(
                Modifiers { bits: held.bits | extra.bits },
            )
            &&& bits & 8 == 0 && held.bits & 8 != 0 ==> !arm.spec_matches(held)
        }),
{
    let bits = modifier_bits(fc.activation.modifier@)->0;
    let arm = ec.policy.arm;
    let h = held.bits;
    let x = extra.bits;
    assert(arm == arm_for(bits));
    assert(bits & bits == bits && bits & (8u16 & !bits) == 0) by (bit_vector);
    if arm.spec_matches(held) && (x & 8 == 0 || bits & 8 != 0) {
        assert((x & 8 == 0 || bits & 8 != 0) ==> x & (8u16 & !bits) == 0) by (bit_vector);
        crate::engine::modifiers::lemma_matcher_monotone(arm, held, extra);
    }
    assert(bits & 8 == 0 && h & 8 != 0 ==> h & (8u16 & !bits) != 0) by (bit_vector);
}

} // verus!
