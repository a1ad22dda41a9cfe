use alt3rsnap::engine::modifiers::{ModMatcher, Modifiers};
use alt3rsnap::engine::policy::ActivationPolicy;
use alt3rsnap::engine::rules::glob_match;

#[test]
fn modifiers_display_is_human_readable() {
    let m = Modifiers::alt().with(Modifiers::ctrl());
    assert_eq!(m.to_string(), "alt+ctrl");
}

#[test]
fn modifiers_contains_respects_bits() {
    let both = Modifiers::alt().with(Modifiers::shift());
    assert!(both.contains(Modifiers::alt()));
    assert!(both.contains(Modifiers::shift()));
    assert!(!both.contains(Modifiers::ctrl()));
}

#[test]
fn matcher_with_only_required_accepts_required_plus_others() {
    let m = ModMatcher {
        required: Modifiers::alt(),
        forbidden: Modifiers::none(),
        exact: false,
    };
    assert!(m.matches(Modifiers::alt()));
    assert!(m.matches(Modifiers::alt().with(Modifiers::ctrl())));
    assert!(!m.matches(Modifiers::ctrl()));
}

#[test]
fn matcher_with_forbidden_rejects_when_forbidden_present() {
    let m = ModMatcher {
        required: Modifiers::alt(),
        forbidden: Modifiers::win(),
        exact: false,
    };
    assert!(m.matches(Modifiers::alt()));
    assert!(!m.matches(Modifiers::alt().with(Modifiers::win())));
}

#[test]
fn matcher_exact_requires_no_extras() {
    let m = ModMatcher {
        required: Modifiers::alt(),
        forbidden: Modifiers::none(),
        exact: true,
    };
    assert!(m.matches(Modifiers::alt()));
    assert!(!m.matches(Modifiers::alt().with(Modifiers::ctrl())));
}

#[test]
fn default_policy_arms_on_alt_alone() {
    let p = ActivationPolicy::default();
    assert!(p.arm.matches(Modifiers::alt()));
}

#[test]
fn default_policy_does_not_arm_on_alt_plus_win() {
    let p = ActivationPolicy::default();
    assert!(!p.arm.matches(Modifiers::alt().with(Modifiers::win())));
}

#[test]
fn default_policy_raises_on_ctrl() {
    let p = ActivationPolicy::default();
    assert!(p.raise.matches(Modifiers::ctrl()));
    assert!(p.raise.matches(Modifiers::ctrl().with(Modifiers::alt())));
}

#[test]
fn glob_matches_suffix() {
    assert!(glob_match("*foo", "barfoo"));
    assert!(!glob_match("*foo", "foobar"));
}

#[test]
fn glob_matches_single_char() {
    assert!(glob_match("fo?", "foo"));
    assert!(!glob_match("fo?", "fooo"));
}

// ---- further checks of the same types ----

#[test]
fn modifiers_display_lists_every_key_in_fixed_order() {
    let all = Modifiers::space()
        .with(Modifiers::win())
        .with(Modifiers::shift())
        .with(Modifiers::ctrl())
        .with(Modifiers::alt());
    assert_eq!(all.to_string(), "alt+ctrl+shift+win+space");
    assert_eq!(Modifiers::none().to_string(), "none");
    assert_eq!(Modifiers::win().to_string(), "win");
}

#[test]
fn modifiers_without_removes_only_given_bits() {
    let m = Modifiers::alt().with(Modifiers::ctrl()).without(Modifiers::alt());
    assert_eq!(m, Modifiers::ctrl());
    assert!(m.intersects(Modifiers::ctrl().with(Modifiers::win())));
    assert!(!m.intersects(Modifiers::win()));
    assert!(Modifiers::none().is_empty());
    assert!(!m.is_empty());
}

#[test]
fn never_matcher_matches_only_no_modifiers() {
    let m = ModMatcher::never();
    assert!(m.matches(Modifiers::none()));
    assert!(!m.matches(Modifiers::alt()));
    assert!(!m.matches(Modifiers::space()));
}

#[test]
fn default_policy_suspends_snap_on_space() {
    let p = ActivationPolicy::default();
    assert!(p.no_snap.matches(Modifiers::space()));
    assert!(p.no_snap.matches(Modifiers::space().with(Modifiers::alt())));
    assert!(!p.no_snap.matches(Modifiers::alt()));
}

#[test]
fn glob_star_matches_empty_and_question_needs_one_char() {
    assert!(glob_match("*", ""));
    assert!(glob_match("a*b*c", "axxbyyc"));
    assert!(!glob_match("?", ""));
    assert!(glob_match("", ""));
    assert!(!glob_match("", "a"));
}

#[test]
fn glob_without_star_in_text_is_wildcard_matching() {
    assert!(glob_match("*.exe", "notepad.exe"));
    assert!(glob_match("?otepad*", "notepad.exe"));
    assert!(glob_match("**a**", "banana"));
    assert!(!glob_match("*a?", "banana"));
    assert!(glob_match("*a?a", "banana"));
}

#[test]
fn glob_star_in_text_is_an_ordinary_character() {
    assert!(glob_match("*a", "*ba"));
    assert!(glob_match("*b", "*ab"));
    assert!(glob_match("*notepad++", "*new 1 - notepad++"));
    assert!(glob_match("*b", "*b"));
    assert!(!glob_match("a*c", "ab"));
    assert!(glob_match("a*b*c", "axbyc"));
}
