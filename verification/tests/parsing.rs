use surely_you_jest::definitions::{add_descriptions, comment_state_after, parse_declared};
use surely_you_jest::outcome::TestInfo;
use surely_you_jest::results::{duration_in, name_in, parse_executed};
use surely_you_jest::text::{
    count_lines, from_chars, index_of, parse_u64, split_lines, to_chars, trim,
};

fn chars(s: &str) -> Vec<char> {
    s.chars().collect()
}

fn text(v: &[char]) -> String {
    v.iter().collect()
}

#[test]
fn passed_test_with_duration() {
    let out = parse_executed("\u{2713} renders correctly (12ms)\n");
    assert_eq!(out.len(), 1);
    assert_eq!(out[0].name, "renders correctly");
    assert!(out[0].passed);
    assert_eq!(out[0].duration, Some(12));
    assert_eq!(out[0].error, None);
}

#[test]
fn failed_test_gathers_error_lines() {
    let out = parse_executed("\u{d7} computes total\nError: expected 4 got 5\n");
    assert_eq!(out.len(), 1);
    assert_eq!(out[0].name, "computes total");
    assert!(!out[0].passed);
    assert_eq!(out[0].error, Some("Error: expected 4 got 5\n".to_string()));
    assert_eq!(out[0].duration, None);
}

#[test]
fn markers_may_be_words_and_indented() {
    let out = parse_executed("noise\n  PASS src/a.test.js\n    FAIL src/b.test.js\nmore\n");
    assert_eq!(out.len(), 2);
    assert_eq!(out[0].name, "src/a.test.js");
    assert!(out[0].passed);
    assert_eq!(out[0].error, None);
    assert_eq!(out[1].name, "src/b.test.js");
    assert!(!out[1].passed);
    assert_eq!(out[1].error, Some(String::new()));
}

#[test]
fn outcomes_keep_the_order_of_their_markers() {
    let raw = "\u{2713} one (3ms)\n\u{d7} two\n  Error: boom\n  at somewhere\n  TypeError: bad\n\u{2713} three\n";
    let out = parse_executed(raw);
    assert_eq!(out.len(), 3);
    assert_eq!(out[0].name, "one");
    assert_eq!(out[0].duration, Some(3));
    assert_eq!(out[1].name, "two");
    assert!(!out[1].passed);
    assert_eq!(out[1].error, Some("Error: boom\nTypeError: bad\n".to_string()));
    assert_eq!(out[2].name, "three");
    assert!(out[2].passed);
    assert_eq!(out[2].duration, None);
    assert_eq!(out[2].error, None);
}

#[test]
fn error_lines_of_a_passed_test_are_passed_over() {
    let out = parse_executed("\u{2713} fine\nError: not mine\n");
    assert_eq!(out.len(), 1);
    assert_eq!(out[0].error, None);
}

#[test]
fn lines_before_the_first_marker_are_dropped() {
    let out = parse_executed("Error: early\nsomething\n");
    assert!(out.is_empty());
    assert!(parse_executed("").is_empty());
}

#[test]
fn marker_without_a_name_starts_nothing() {
    let out = parse_executed("\u{2713} first\n\u{2713}\nError: x\n");
    assert_eq!(out.len(), 1);
    assert_eq!(out[0].name, "first");
    let out = parse_executed("\u{d7} (5ms)\n");
    assert!(out.is_empty());
}

#[test]
fn suffix_that_is_no_duration_is_still_stripped() {
    let out = parse_executed("\u{2713} adds (fast)\n\u{2713} subtracts (1.5ms)\n\u{2713} mul ( 7 ms)\n");
    assert_eq!(out.len(), 3);
    assert_eq!(out[0].name, "adds");
    assert_eq!(out[0].duration, None);
    assert_eq!(out[1].name, "subtracts");
    assert_eq!(out[1].duration, None);
    assert_eq!(out[2].name, "mul");
    assert_eq!(out[2].duration, Some(7));
}

#[test]
fn brackets_in_the_wrong_order_are_left_alone() {
    let out = parse_executed("\u{2713} a) b (c\n");
    assert_eq!(out.len(), 1);
    assert_eq!(out[0].name, "a) b (c");
    assert_eq!(out[0].duration, None);
}

#[test]
fn name_and_duration_of_a_field() {
    assert_eq!(text(&name_in(&chars("renders (12ms)"))), "renders");
    assert_eq!(duration_in(&chars("renders (12ms)")), Some(12));
    assert_eq!(duration_in(&chars("renders (+12ms)")), Some(12));
    assert_eq!(duration_in(&chars("renders (18446744073709551615ms)")), Some(u64::MAX));
    assert_eq!(duration_in(&chars("renders (18446744073709551616ms)")), None);
    assert_eq!(duration_in(&chars("renders (ms)")), None);
    assert_eq!(duration_in(&chars("renders")), None);
    assert_eq!(text(&name_in(&chars("renders"))), "renders");
}

#[test]
fn parsing_twice_gives_the_same() {
    let raw = "\u{2713} one (3ms)\n\u{d7} two\nError: boom\n";
    let a = parse_executed(raw);
    let b = parse_executed(raw);
    assert_eq!(a.len(), b.len());
    for i in 0..a.len() {
        assert_eq!(a[i].name, b[i].name);
        assert_eq!(a[i].passed, b[i].passed);
        assert_eq!(a[i].error, b[i].error);
        assert_eq!(a[i].duration, b[i].duration);
    }
}

#[test]
fn same_description_is_declared_once() {
    let src = "test('adds numbers', () => {})\nit(\"adds numbers\", () => {})\n";
    let out = parse_declared(src);
    assert_eq!(out.len(), 1);
    assert_eq!(out[0].name, "adds numbers");
    assert!(!out[0].passed);
    assert_eq!(out[0].error, None);
    assert_eq!(out[0].duration, None);
}

#[test]
fn block_comment_hides_declarations() {
    let src = "/*\ndescribe('hidden', () => {\n  it('also hidden', () => {})\n})\n*/\ndescribe('shown', () => {})\n";
    let out = parse_declared(src);
    assert_eq!(out.len(), 1);
    assert_eq!(out[0].name, "shown");
}

#[test]
fn line_comments_and_blank_lines_are_skipped() {
    let src = "\n// test('no', () => {})\n   \n  test ( 'yes' , () => {})\n";
    let out = parse_declared(src);
    assert_eq!(out.len(), 1);
    assert_eq!(out[0].name, "yes");
}

#[test]
fn cases_come_before_groups_on_a_line() {
    let src = "describe('group', () => { it('case', () => {}) })\ntest(' padded ', f)\n";
    let out = parse_declared(src);
    assert_eq!(out.len(), 3);
    assert_eq!(out[0].name, "case");
    assert_eq!(out[1].name, "group");
    assert_eq!(out[2].name, "padded");
}

#[test]
fn source_without_tests_declares_none() {
    assert!(parse_declared("const x = 1;\n").is_empty());
    assert!(parse_declared("").is_empty());
}

#[test]
fn descriptions_are_trimmed_and_kept_once() {
    let mut tests = vec![TestInfo {
        name: "a".to_string(),
        passed: true,
        error: None,
        duration: Some(1),
    }];
    let found = vec![
        Some(" a ".to_string()),
        None,
        Some(" ".to_string()),
        Some("b".to_string()),
        Some(String::new()),
        Some("b ".to_string()),
        Some("\t\u{a0}".to_string()),
    ];
    add_descriptions(&mut tests, &found);
    assert_eq!(tests.len(), 2);
    assert_eq!(tests[0].name, "a");
    assert!(tests[0].passed);
    assert_eq!(tests[1].name, "b");
    assert!(!tests[1].passed);
    assert_eq!(tests[1].error, None);
    assert_eq!(tests[1].duration, None);
}

#[test]
fn chars_round_trip() {
    let s = "a\u{2713}b\n";
    assert_eq!(to_chars(s), vec!['a', '\u{2713}', 'b', '\n']);
    assert_eq!(from_chars(&to_chars(s)), s);
    assert_eq!(from_chars(&[]), "");
}

#[test]
fn trim_drops_white_space_at_both_ends() {
    assert_eq!(text(&trim(&chars("  a b\t\r\n"))), "a b");
    assert_eq!(text(&trim(&chars("\u{a0}\u{3000}x\u{2003}"))), "x");
    assert_eq!(text(&trim(&chars(" \t "))), "");
    assert_eq!(text(&trim(&chars(""))), "");
    assert_eq!(text(&trim(&chars("\u{200b}x"))), "\u{200b}x");
}

#[test]
fn lines_end_at_line_feeds() {
    let ls = split_lines(&chars("a\r\nb\n\nc"));
    let ls: Vec<String> = ls.iter().map(|l| text(l)).collect();
    assert_eq!(ls, vec!["a", "b", "", "c"]);
    assert_eq!(count_lines(&chars("")), 0);
    assert_eq!(count_lines(&chars("\n")), 1);
    assert_eq!(count_lines(&chars("a")), 1);
    assert_eq!(count_lines(&chars("a\n")), 1);
    assert_eq!(count_lines(&chars("a\nb")), 2);
    let ls = split_lines(&chars("a\rb\r"));
    assert_eq!(ls.len(), 1);
    assert_eq!(text(&ls[0]), "a\rb\r");
}

#[test]
fn first_occurrence_is_found() {
    assert_eq!(index_of(&chars("abcabc"), &chars("bc")), Some(1));
    assert_eq!(index_of(&chars("abc"), &chars("")), Some(0));
    assert_eq!(index_of(&chars(""), &chars("")), Some(0));
    assert_eq!(index_of(&chars("abc"), &chars("abcd")), None);
    assert_eq!(index_of(&chars("abc"), &chars("c")), Some(2));
    assert_eq!(index_of(&chars("abc"), &chars("x")), None);
}

#[test]
fn numbers_are_read_as_decimal() {
    assert_eq!(parse_u64(&chars("0")), Some(0));
    assert_eq!(parse_u64(&chars("007")), Some(7));
    assert_eq!(parse_u64(&chars("+5")), Some(5));
    assert_eq!(parse_u64(&chars("")), None);
    assert_eq!(parse_u64(&chars("+")), None);
    assert_eq!(parse_u64(&chars("-1")), None);
    assert_eq!(parse_u64(&chars("1 ")), None);
    assert_eq!(parse_u64(&chars("++1")), None);
    assert_eq!(parse_u64(&chars("18446744073709551615")), Some(u64::MAX));
    assert_eq!(parse_u64(&chars("18446744073709551616")), None);
    assert_eq!(parse_u64(&chars("99999999999999999999999")), None);
}

#[test]
fn blank_description_declares_nothing() {
    assert!(parse_declared("test(' ', () => {})\n").is_empty());
    let out = parse_declared("it('  ', f)\nit(' real ', f)\ndescribe(\"\t\", f)\n");
    assert_eq!(out.len(), 1);
    assert_eq!(out[0].name, "real");
    let mut none: Vec<TestInfo> = Vec::new();
    add_descriptions(&mut none, &vec![Some(" ".to_string())]);
    assert!(none.is_empty());
}

#[test]
fn comment_opened_after_code_hides_declarations() {
    let src = "x /*\ndescribe('hidden', () => {})\n*/\ndescribe('shown', () => {})\n";
    let out = parse_declared(src);
    assert_eq!(out.len(), 1);
    assert_eq!(out[0].name, "shown");
    let src = "const a = 1; /* note\n it('inside', f)\n still inside */ \nit('after', f)\n";
    let out = parse_declared(src);
    assert_eq!(out.len(), 1);
    assert_eq!(out[0].name, "after");
    let src = "x /*\ndescribe('hidden', () => {})\n";
    assert!(parse_declared(src).is_empty());
}

#[test]
fn comment_state_is_carried_across_lines() {
    let src = "/* one */ /* two\nit('hidden', f)\nend */ x /* three\nit('hidden too', f)\n*/\nit('seen', f)\n";
    let out = parse_declared(src);
    assert_eq!(out.len(), 1);
    assert_eq!(out[0].name, "seen");
    let src = "/* closed at once */\nit('seen', f)\n";
    let out = parse_declared(src);
    assert_eq!(out.len(), 1);
    let src = "// a line comment /*\nit('seen', f)\n";
    let out = parse_declared(src);
    assert_eq!(out.len(), 1);
    assert_eq!(out[0].name, "seen");
    let src = "stray */ here\nit('seen', f)\n";
    let out = parse_declared(src);
    assert_eq!(out.len(), 1);
}

#[test]
fn lines_that_a_comment_touches_are_passed_over() {
    let src = "it('before', f) /* opens\n*/ it('behind', f)\nit('plain', f) /* c */\nit('last', f)\n";
    let out = parse_declared(src);
    assert_eq!(out.len(), 1);
    assert_eq!(out[0].name, "last");
}

#[test]
fn comment_state_after_a_line() {
    let line = |s: &str| -> Vec<char> { s.chars().collect() };
    assert!(comment_state_after(&line("x /*"), false));
    assert!(!comment_state_after(&line("x /* y */"), false));
    assert!(comment_state_after(&line("x /* y */ /*"), false));
    assert!(!comment_state_after(&line("x */ y"), false));
    assert!(!comment_state_after(&line("x */ y"), true));
    assert!(comment_state_after(&line("x /* y"), true));
    assert!(comment_state_after(&line("*/ /*"), true));
    assert!(!comment_state_after(&line("/*/"), true));
    assert!(comment_state_after(&line("/*/"), false));
    assert!(!comment_state_after(&line("/**/"), false));
    assert!(comment_state_after(&line(""), true));
    assert!(!comment_state_after(&line("/"), false));
    assert!(comment_state_after(&line("'**/*.js'"), false));
}
