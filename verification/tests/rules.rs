use layerhook::config::Rule;
use layerhook::pattern::{literal_pattern, match_verdict, pattern_error, pattern_matches};
use layerhook::pattern::numbers::has_short_numbers;
use layerhook::pattern::outline::{judge, Verdict};
use layerhook::rules::{drop_position, layer_of_first_hit, move_rule, resolve_layer};

fn rule(pattern: &str, layer: u8) -> Rule {
    Rule { pattern: pattern.to_string(), layer }
}

fn layers(rules: &Vec<Rule>) -> Vec<u8> {
    rules.iter().map(|r| r.layer).collect()
}

#[test]
fn patterns_ignore_case() {
    assert!(pattern_matches("photoshop\\.exe", "[Photoshop.exe]:(null)"));
    assert!(pattern_matches("PHOTOSHOP", "[photoshop.exe]:Untitled-1"));
    assert!(!pattern_matches("gimp", "[Photoshop.exe]:(null)"));
}

#[test]
fn patterns_match_anywhere_and_alternate() {
    assert!(pattern_matches(".*vscod.*|.*gedit.*", "notes - gedit"));
    assert!(pattern_matches("tes", "notes - gedit"));
    assert!(!pattern_matches("^tes", "notes - gedit"));
    assert!(pattern_matches("", "anything"));
}

#[test]
fn lookarounds_exclude_titles() {
    let pattern = "^(?!.*Firefox).*YouTube";
    assert!(pattern_matches(pattern, "YouTube - Chromium"));
    assert!(!pattern_matches(pattern, "YouTube - Firefox"));
}

#[test]
fn invalid_pattern_matches_nothing() {
    assert!(!pattern_matches("(", "("));
    assert!(!pattern_matches("[a", "a"));
    let note = pattern_error("(").unwrap();
    assert!(note.starts_with("Invalid regex: "));
    assert!(note.len() > "Invalid regex: ".len());
    assert!(pattern_error("(a)").is_none());
    assert!(pattern_error("(?!x)y").is_none());
}

fn objection(pattern: &str) -> String {
    assert!(!pattern_matches(pattern, "a"));
    pattern_error(pattern).unwrap()
}

#[test]
fn references_inside_their_own_group() {
    let note = "Invalid regex: a group refers to itself";
    assert_eq!(objection("(?:(a|b\\1)x)+"), note);
    assert!(!pattern_matches("(?:(a|b\\1)x)+", "axbx"));
    assert_eq!(objection("(?<n>a|(b|\\k<n>))+"), note);
    assert_eq!(objection("(a)((?=(c\\2))d)"), note);
    assert_eq!(objection("(?P<n>(?P=n)|a)"), note);
    assert!(pattern_error("(a)(b\\1)\\2").is_none());
    assert!(pattern_matches("^(a)(b\\1)\\2$", "abaBA"));
    assert!(pattern_matches("^(?:(a|c)x|b\\1)+$", "axbacxbc"));
    assert!(pattern_matches("^(?:(?=.*(d))[abc]|\\1)+$", "abcdd"));
}

#[test]
fn large_patterns() {
    let note = "Invalid regex: the pattern is too large";
    assert_eq!(objection("(?:a{65536}b){65536}"), note);
    assert_eq!(objection("(?x) (?: a { 2000 (?#}) } ) { 2000 }"), note);
    assert_eq!(objection("(?<=(?:\\w{1,100}){1,100})x"), note);
    assert_eq!(objection("(?:\\b|a){99999999}\\K"), note);
    let mut doubling = "(a)".to_string();
    for group in 1..70 {
        doubling.push_str(&format!("(\\{group}\\{group})"));
    }
    doubling.push_str("{2}");
    assert_eq!(objection(&doubling), note);
}

#[test]
fn long_numbers() {
    let note = "Invalid regex: a number in the pattern is too long";
    for pattern in [
        "(?:a{4294967296}b){4294967296}",
        "a{ 4294967296 }",
        "a{(?#})4294967296}",
        "a{,4294967296}",
        "\\\\{4294967296}",
        "\\p\\{4294967296}",
        "(a)\\k<-9223372036854775808>",
        "(a)\\k'99999999999'",
        "(a)\\g<99999999999>",
        "(a)(?(99999999999)b|c)",
        "(a)(?(<99999999999>)b|c)",
        "(a)(?P=99999999999)",
        "(?<n>a)\\k<n-9223372036854775808>",
    ] {
        assert!(!has_short_numbers(pattern), "{pattern}");
        assert_eq!(objection(pattern), note);
    }
    for pattern in ["a{4}|20240101123045", "\\{4294967296\\}", "\\\\p\\{4294967296", "k<4294967296>", "(4294967296)", "a,4294967296"] {
        assert!(has_short_numbers(pattern), "{pattern}");
        assert!(pattern_error(pattern).is_none(), "{pattern}");
    }
}

#[test]
fn what_the_engine_itself_refuses() {
    for pattern in ["(a)(?(9)b|c)", "(a)\\9", "(?<w>a|b)\\g<w>\\g<w>", "(?=....(a))\\g<1>\\1", "\\p\\", "(?<a>b)\\p\\\\g<a>", "a{2,1}"] {
        let note = objection(pattern);
        assert!(note.starts_with("Invalid regex: "));
        assert!(!note.contains("the pattern") && !note.contains("refers to itself"), "{note}");
    }
}

#[test]
fn ordinary_patterns_compile() {
    for (pattern, title) in [
        ("^(\\d{1,3}\\.){3}\\d{1,3}$", "192.168.0.17"),
        ("[0-9a-f]{8}-[0-9a-f]{4}-[0-9a-f]{4}-[0-9a-f]{4}-[0-9a-f]{12}", "550E8400-e29b-41d4-a716-446655440000"),
        ("\\d{4}-\\d{2}-\\d{2} Report", "2024-01-31 report"),
        ("Screenshot 20240101123045999", "Screenshot 20240101123045999.png"),
        ("a{4}|2023|2024|2025", "report 2024"),
        ("Visual Studio ?(2019|2022)", "Visual Studio 2022"),
        ("Build ?(19045|22621)", "Build 22621"),
        ("v?(1|2)\\.0", "v1.0"),
        ("(\\w+) \\1", "Tick tick"),
        ("(?P<w>\\w+) (?P=w)", "tick tick"),
        ("(?<w>\\w+) \\k<w>", "tick tick"),
        ("(\\w)(\\w)\\k<-1>\\k<-2>", "xyyx"),
        ("^(a)?(?(1)b|c)$", "ab"),
        ("^(a)?(?(1)b|c)$", "c"),
        ("^(?<q>x)?(?(<q>)y|z)$", "xy"),
        ("(a)?(?((?=b))b|c)", "ab"),
        ("\\p{Lu}\\p{Ll}{2,}", "Abc"),
        ("(?x) a  b # comment", "ab"),
        ("a{1000}", &"a".repeat(1000)),
        ("(?<!not )here", "there"),
        ("(?<=v\\d{1,3}) beta", "app v12 beta"),
        ("a{,3}b{2,}?c", "aabbbc"),
        ("(?>a+)b", "aab"),
    ] {
        assert!(pattern_error(pattern).is_none(), "{pattern}");
        assert!(pattern_matches(pattern, title), "{pattern}");
    }
    for title in ["{550e8400-e29b-41d4-a716-446655440000}", "(?(9)a|b) \\k<9999999999> a{99999999999}", "Bob's 20240101123045 (1)", "\\{1234567890}"] {
        let pattern = literal_pattern(title);
        assert!(has_short_numbers(&pattern));
        assert!(pattern_matches(&pattern, title));
    }
}

#[test]
fn references_in_long_titles() {
    let title: String = "\u{3b8}\u{398}".repeat(2048);
    assert!(pattern_matches("^(?=(.{4095})).\\1$", &title));
    let longer = format!("{title}{title}");
    assert!(!pattern_matches("^(..)\\1", &longer));
    assert!(pattern_matches("^..\u{3b8}", &longer));
    assert!(pattern_matches("^(..)\\1", &"Ab".repeat(5000)));
}

#[test]
fn verdicts_on_outlines() {
    let read = |pattern: &str| fancy_regex::Expr::parse_tree(pattern).ok().map(|tree| tree.expr);
    assert!(judge(&read("a(b)")) == Verdict::Fine { refers: false });
    assert!(judge(&read("a(b)\\1")) == Verdict::Fine { refers: true });
    assert!(judge(&read("a(b\\1)")) == Verdict::SelfReference);
    assert!(judge(&read("a{1048576}")) == Verdict::Fine { refers: false });
    assert!(judge(&read("a{1048577}")) == Verdict::TooLarge);
    assert!(judge(&read("(?<=a{4096})")) == Verdict::Fine { refers: false });
    assert!(judge(&read("(?<=a{4097})")) == Verdict::TooLarge);
    assert!(judge(&None) == Verdict::Fine { refers: false });
}

#[test]
fn search_that_gives_up_does_not_match() {
    let title = "a".repeat(40);
    assert!(pattern_error("(?=(a+)+$)(a+)+b\\1").is_none());
    assert!(!pattern_matches("(?=(a+)+$)(a+)+b\\1", &title));
}

#[test]
fn verdict_on_every_outcome() {
    assert!(match_verdict(Some(true)));
    assert!(!match_verdict(Some(false)));
    assert!(!match_verdict(None));
}

#[test]
fn picked_titles_become_literal_patterns() {
    assert_eq!(literal_pattern("Untitled-1 @ 50% (RGB/8)"), "Untitled\\-1 @ 50% \\(RGB/8\\)");
    assert_eq!(literal_pattern("plain"), "plain");
    assert_eq!(literal_pattern("\\.+*?()|[]{}^$#&-~"), "\\\\\\.\\+\\*\\?\\(\\)\\|\\[\\]\\{\\}\\^\\$\\#\\&\\-\\~");
    for title in ["Untitled-1 @ 50% (RGB/8)", "a.b", "[x.exe]:#1 & ~/{y}|$z^"] {
        let pattern = literal_pattern(title);
        assert!(pattern_matches(&pattern, title));
        assert!(pattern_matches(&pattern, &format!("before {title} after")));
    }
    assert!(!pattern_matches(&literal_pattern("a.b"), "axb"));
}

#[test]
fn first_match_wins() {
    let rules = vec![rule("nomatch", 1), rule("code", 2), rule(".*", 3), rule("code", 4)];
    assert_eq!(resolve_layer(&rules, "main.rs - Code"), Some(2));
    assert_eq!(resolve_layer(&rules, "terminal"), Some(3));
    assert_eq!(resolve_layer(&rules[..1], "terminal"), None);
    assert_eq!(resolve_layer(&[], "terminal"), None);
}

#[test]
fn invalid_rule_is_skipped() {
    let rules = vec![rule("(", 1), rule("code", 2)];
    assert_eq!(resolve_layer(&rules, "code ("), Some(2));
}

#[test]
fn first_hit_among_those_tried() {
    let rules = vec![rule("a", 5), rule("b", 6), rule("c", 7)];
    assert_eq!(layer_of_first_hit(&rules, &[false, true, true]), Some(6));
    assert_eq!(layer_of_first_hit(&rules, &[false, false]), None);
    assert_eq!(layer_of_first_hit(&rules, &[]), None);
}

#[test]
fn rules_move() {
    let fresh = || vec![rule("a", 0), rule("b", 1), rule("c", 2), rule("d", 3)];
    let mut r = fresh();
    move_rule(&mut r, 0, 4);
    assert_eq!(layers(&r), vec![1, 2, 3, 0]);
    let mut r = fresh();
    move_rule(&mut r, 3, 0);
    assert_eq!(layers(&r), vec![3, 0, 1, 2]);
    let mut r = fresh();
    move_rule(&mut r, 1, 3);
    assert_eq!(layers(&r), vec![0, 2, 1, 3]);
    let mut r = fresh();
    move_rule(&mut r, 2, 1);
    assert_eq!(layers(&r), vec![0, 2, 1, 3]);
    let mut r = fresh();
    move_rule(&mut r, 2, 2);
    move_rule(&mut r, 2, 3);
    assert_eq!(layers(&r), vec![0, 1, 2, 3]);
}

#[test]
fn a_move_can_be_undone() {
    let mut r = vec![rule("a", 0), rule("b", 1), rule("c", 2), rule("d", 3)];
    move_rule(&mut r, 0, 3);
    assert_eq!(layers(&r), vec![1, 2, 0, 3]);
    move_rule(&mut r, 2, 0);
    assert_eq!(layers(&r), vec![0, 1, 2, 3]);
    move_rule(&mut r, 3, 1);
    assert_eq!(layers(&r), vec![0, 3, 1, 2]);
    move_rule(&mut r, 1, 4);
    assert_eq!(layers(&r), vec![0, 1, 2, 3]);
}

#[test]
fn moved_to_the_top_a_rule_decides() {
    let mut r = vec![rule(".*", 1), rule("code", 2)];
    assert_eq!(resolve_layer(&r, "code"), Some(1));
    move_rule(&mut r, 1, 0);
    assert_eq!(resolve_layer(&r, "code"), Some(2));
}

#[test]
fn row_half_decides_the_drop() {
    assert_eq!(drop_position(0, 2, true), 2);
    assert_eq!(drop_position(0, 2, false), 3);
    assert_eq!(drop_position(2, 2, false), 2);
    assert_eq!(drop_position(2, 2, true), 2);
}

#[test]
fn added_rule_comes_last() {
    let mut r = vec![rule("code", 2)];
    r.push(rule(".*", 9));
    assert_eq!(resolve_layer(&r, "code"), Some(2));
    assert_eq!(resolve_layer(&r, "other"), Some(9));
}
