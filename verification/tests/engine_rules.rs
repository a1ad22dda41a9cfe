use alt3rsnap::engine::rules::{
    evaluate, Pattern, RegexPattern, RuleAction, WindowInfo, WindowRule, WindowTraitMask, WindowTraits,
};

fn info(process: &str, class: &str, title: &str) -> WindowInfo {
    WindowInfo {
        process_basename: process.to_lowercase(),
        class_name: class.to_string(),
        title: title.to_string(),
        traits: WindowTraits::default(),
    }
}

#[test]
fn process_exact_match_excludes() {
    let rules = vec![WindowRule {
        match_process: Some(Pattern::exact("mstsc.exe")),
        match_class: None,
        match_title: None,
        match_traits: WindowTraitMask::default(),
        action: RuleAction::Exclude,
    }];
    assert_eq!(
        evaluate(&rules, &info("mstsc.exe", "", "")),
        Some(&RuleAction::Exclude)
    );
    assert_eq!(evaluate(&rules, &info("notepad.exe", "", "")), None);
}

#[test]
fn process_exact_is_case_insensitive() {
    let rules = vec![WindowRule {
        match_process: Some(Pattern::exact("MSTSC.exe")),
        match_class: None,
        match_title: None,
        match_traits: WindowTraitMask::default(),
        action: RuleAction::Exclude,
    }];
    assert_eq!(
        evaluate(&rules, &info("mstsc.exe", "", "")),
        Some(&RuleAction::Exclude)
    );
}

#[test]
fn glob_matches_prefix() {
    let rules = vec![WindowRule {
        match_process: Some(Pattern::glob("game_*.exe")),
        match_class: None,
        match_title: None,
        match_traits: WindowTraitMask::default(),
        action: RuleAction::Exclude,
    }];
    assert_eq!(
        evaluate(&rules, &info("game_foo.exe", "", "")),
        Some(&RuleAction::Exclude)
    );
    assert_eq!(evaluate(&rules, &info("foo.exe", "", "")), None);
}

#[test]
fn first_matching_rule_wins() {
    let rules = vec![
        WindowRule {
            match_process: Some(Pattern::exact("notepad.exe")),
            match_class: None,
            match_title: None,
            match_traits: WindowTraitMask::default(),
            action: RuleAction::IncludeOnly,
        },
        WindowRule {
            match_process: Some(Pattern::exact("notepad.exe")),
            match_class: None,
            match_title: None,
            match_traits: WindowTraitMask::default(),
            action: RuleAction::Exclude,
        },
    ];
    assert_eq!(
        evaluate(&rules, &info("notepad.exe", "", "")),
        Some(&RuleAction::IncludeOnly)
    );
}

#[test]
fn class_and_title_both_required_to_match() {
    let rules = vec![WindowRule {
        match_process: None,
        match_class: Some(Pattern::exact("MyClass")),
        match_title: Some(Pattern::exact("MyTitle")),
        match_traits: WindowTraitMask::default(),
        action: RuleAction::Exclude,
    }];
    assert_eq!(
        evaluate(&rules, &info("x.exe", "MyClass", "MyTitle")),
        Some(&RuleAction::Exclude)
    );
    assert_eq!(evaluate(&rules, &info("x.exe", "MyClass", "Other")), None);
    assert_eq!(
        evaluate(&rules, &info("x.exe", "OtherClass", "MyTitle")),
        None
    );
}

#[test]
fn trait_mask_require_topmost_filters() {
    let rules = vec![WindowRule {
        match_process: None,
        match_class: None,
        match_title: None,
        match_traits: WindowTraitMask {
            require_topmost: Some(true),
            ..Default::default()
        },
        action: RuleAction::Exclude,
    }];
    let mut topmost = info("x.exe", "", "");
    topmost.traits.is_topmost = true;
    assert_eq!(evaluate(&rules, &topmost), Some(&RuleAction::Exclude));
    assert_eq!(evaluate(&rules, &info("x.exe", "", "")), None);
}

// ---- further checks ----

#[test]
fn pattern_constructors_lowercase_their_text() {
    assert!(matches!(Pattern::exact("MSTSC.EXE"), Pattern::Exact(ref p) if p == "mstsc.exe"));
    assert!(matches!(Pattern::glob("Game_*.EXE"), Pattern::Glob(ref p) if p == "game_*.exe"));
}

#[test]
fn glob_pattern_ignores_haystack_case() {
    assert!(Pattern::glob("GAME_*").matches("Game_Foo.exe"));
    assert!(!Pattern::glob("game_?").matches("game_"));
}

#[test]
fn regex_pattern_finds_match_anywhere() {
    let r = RegexPattern::new("^Chrome_Widget", false).expect("valid regex");
    let p = Pattern::regex(r);
    assert!(p.matches("Chrome_WidgetWin_1"));
    assert!(!p.matches("chrome_widgetwin_1"));
    let ci = Pattern::regex(RegexPattern::new("widget", true).expect("valid regex"));
    assert!(ci.matches("Chrome_WidgetWin_1"));
}

#[test]
fn invalid_regex_is_refused() {
    assert!(RegexPattern::new("(unclosed", false).is_none());
}

#[test]
fn empty_rule_list_decides_nothing() {
    let rules: Vec<WindowRule> = Vec::new();
    assert_eq!(evaluate(&rules, &info("x.exe", "", "")), None);
}

#[test]
fn exact_pattern_is_unicode_case_insensitive() {
    assert!(Pattern::exact("Ä").matches("Ä"));
    assert!(Pattern::exact("Ä").matches("ä"));
    assert!(Pattern::exact("ÉDITEUR.EXE").matches("éditeur.exe"));
    assert!(!Pattern::exact("Ä").matches("A"));
}
