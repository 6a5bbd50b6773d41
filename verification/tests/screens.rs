use surely_you_jest::discovery::{
    choose_config, config_file_names, declares_jest, default_test_matches, is_dependency_path,
    patterns_from, source_from, split_patterns, strip_quotes, test_matches_and_source,
    test_matches_in, ConfigChoice, PatternSource,
};
use surely_you_jest::outcome::TestInfo;
use surely_you_jest::state::{App, AppView};
use surely_you_jest::text::{decimal_text, join};
use surely_you_jest::widgets::{
    tone, HelpBarWidget, SpinnerStyle, SpinnerWidget, TestDetailWidget, TestListWidget,
    TestResultsWidget, TestTerminalWidget, Tone,
};

fn strings(v: &[&str]) -> Vec<String> {
    v.iter().map(|s| s.to_string()).collect()
}

fn defaults() -> Vec<String> {
    strings(&[
        "**/*.test.js",
        "**/*.test.ts",
        "**/*.test.tsx",
        "**/*.test.jsx",
        "**/*.spec.js",
        "**/*.spec.ts",
        "**/*.spec.tsx",
        "**/*.spec.jsx",
        "**/__tests__/**/*.js",
        "**/__tests__/**/*.ts",
    ])
}

#[test]
fn names_and_default_patterns() {
    assert_eq!(
        config_file_names(),
        strings(&[
            "jest.config.js",
            "jest.config.ts",
            "jest.config.mjs",
            "jest.config.cjs",
            "jest.config.json",
            ".jestrc",
            ".jestrc.js",
            ".jestrc.json",
        ])
    );
    assert_eq!(default_test_matches(), defaults());
}

#[test]
fn package_description_and_dependency_paths() {
    assert!(declares_jest("{ \"jest\": {} }"));
    assert!(!declares_jest("{ \"jester\": {} }"));
    assert!(!declares_jest("jest"));
    assert!(is_dependency_path("/p/node_modules/x/a.test.js"));
    assert!(!is_dependency_path("/p/node_modules"));
    assert!(!is_dependency_path("/p/src/a.test.js"));
}

#[test]
fn nearest_configuration_is_chosen() {
    let none = vec![vec![false; 8]; 4];
    assert_eq!(choose_config(true, &none), ConfigChoice::Package);
    assert_eq!(choose_config(false, &none), ConfigChoice::Missing);
    assert_eq!(choose_config(false, &Vec::new()), ConfigChoice::Missing);
    let mut some = none.clone();
    some[1][2] = true;
    some[1][5] = true;
    some[2][0] = true;
    assert_eq!(choose_config(false, &some), ConfigChoice::File { level: 1, name: 2 });
    assert_eq!(choose_config(true, &some), ConfigChoice::Package);
    some[0][7] = true;
    assert_eq!(choose_config(false, &some), ConfigChoice::File { level: 0, name: 7 });
    let mut far = vec![vec![false; 8]; 5];
    far[4][0] = true;
    assert_eq!(choose_config(false, &far), ConfigChoice::Missing);
    far[3][7] = true;
    assert_eq!(choose_config(false, &far), ConfigChoice::File { level: 3, name: 7 });
    let wide = vec![vec![false, false, false, false, false, false, false, false, true]];
    assert_eq!(choose_config(false, &wide), ConfigChoice::Missing);
    let short = vec![vec![], vec![false, true]];
    assert_eq!(choose_config(false, &short), ConfigChoice::File { level: 1, name: 1 });
}

#[test]
fn patterns_of_a_list() {
    assert_eq!(
        split_patterns("\"**/*.test.js\", '**/*.spec.js'"),
        strings(&["**/*.test.js", "**/*.spec.js"])
    );
    assert_eq!(split_patterns(""), strings(&[""]));
    assert_eq!(split_patterns("a,,b,"), strings(&["a", "", "b", ""]));
    assert_eq!(split_patterns(" \"'x'\" "), strings(&["x"]));
    assert_eq!(split_patterns("\" x \""), strings(&[" x "]));
    let q: Vec<char> = "\"'\"".chars().collect();
    assert!(strip_quotes(&q).is_empty());
    let q: Vec<char> = "'a\"b'".chars().collect();
    assert_eq!(strip_quotes(&q), vec!['a', '"', 'b']);
}

#[test]
fn patterns_of_a_configuration() {
    let found = test_matches_in("module.exports = { testMatch: ['**/a.js', \"**/b.js\"] };").unwrap();
    assert_eq!(found, strings(&["**/a.js", "**/b.js"]));
    let found = test_matches_in("{ \"testMatch\": [ \"**/c.js\" ] }").unwrap();
    assert_eq!(found, strings(&["**/c.js"]));
    let found = test_matches_in("{ \"testMatch\" [ \"**/d.js\" ] }").unwrap();
    assert_eq!(found, strings(&["**/d.js"]));
    assert_eq!(test_matches_in("module.exports = {};").unwrap(), defaults());
    assert_eq!(test_matches_in("").unwrap(), defaults());
    assert_eq!(test_matches_in("testMatch: []").unwrap(), defaults());
    let (found, source) = test_matches_and_source("testMatch: ['a']").unwrap();
    assert_eq!(found, strings(&["a"]));
    assert_eq!(source, PatternSource::PlainKey);
    let (found, source) = test_matches_and_source("{}").unwrap();
    assert_eq!(found, defaults());
    assert_eq!(source, PatternSource::Defaults);
}

#[test]
fn patterns_from_what_was_captured() {
    let plain = vec![Some("'a', 'b'".to_string()), Some("'z'".to_string())];
    let quoted = vec![Some("'c'".to_string())];
    assert_eq!(patterns_from(&plain, &quoted), strings(&["a", "b"]));
    assert_eq!(patterns_from(&vec![None], &quoted), strings(&["c"]));
    assert_eq!(patterns_from(&Vec::new(), &quoted), strings(&["c"]));
    assert_eq!(patterns_from(&Vec::new(), &vec![None]), defaults());
    assert_eq!(patterns_from(&Vec::new(), &Vec::new()), defaults());
    assert_eq!(source_from(&plain, &quoted), PatternSource::PlainKey);
    assert_eq!(source_from(&vec![None], &quoted), PatternSource::QuotedKey);
    assert_eq!(source_from(&Vec::new(), &quoted), PatternSource::QuotedKey);
    assert_eq!(source_from(&Vec::new(), &vec![None]), PatternSource::Defaults);
    assert_eq!(source_from(&Vec::new(), &Vec::new()), PatternSource::Defaults);
}

#[test]
fn numbers_and_joined_texts() {
    assert_eq!(decimal_text(0), "0");
    assert_eq!(decimal_text(7), "7");
    assert_eq!(decimal_text(10), "10");
    assert_eq!(decimal_text(1203), "1203");
    assert_eq!(decimal_text(u64::MAX), "18446744073709551615");
    assert_eq!(join(&strings(&[]), ", "), "");
    assert_eq!(join(&strings(&["a"]), ", "), "a");
    assert_eq!(join(&strings(&["a", "", "c"]), ", "), "a, , c");
}

#[test]
fn header_of_each_screen() {
    let mut app = App::new(
        "/proj".to_string(),
        strings(&["**/*.test.js", "**/*.spec.js"]),
        strings(&["a.test.js", "b.test.js"]),
    );
    app.next();
    let h = app.header();
    assert_eq!(h.title, "Surely You Jest");
    assert_eq!(
        h.subtitle,
        "Tests in: /proj (Found: 2) [Patterns: **/*.test.js, **/*.spec.js]"
    );
    app.view = AppView::TestDetail;
    let h = app.header();
    assert_eq!(h.title, "Test File");
    assert_eq!(h.subtitle, "b.test.js");
    app.view = AppView::TestRunning;
    let h = app.header();
    assert_eq!(h.title, "Test Results");
    assert_eq!(h.subtitle, "Running: b.test.js");
    assert_eq!(app.busy_label(), "Running b.test.js...");
    assert_eq!(app.display_command(), "cd /proj && npx jest b.test.js --no-cache");
    app.view = AppView::TestResults;
    let h = app.header();
    assert_eq!(h.title, "Individual Tests");
    assert_eq!(h.subtitle, "File: b.test.js");
    let mut empty = App::new("/p".to_string(), Vec::new(), Vec::new());
    assert_eq!(empty.header().subtitle, "Tests in: /p (Found: 0) [Patterns: ]");
    empty.view = AppView::TestRunning;
    assert_eq!(empty.header().subtitle, "Running: Unknown Test");
    assert_eq!(empty.busy_label(), "Running test...");
    assert_eq!(empty.display_command(), "cd /p && npx jest  --no-cache");
}

#[test]
fn list_follows_its_cursor() {
    let files: Vec<String> = (0..10).map(|i| format!("f{}", i)).collect();
    let mut w = TestListWidget::new(&files, 7, 0);
    assert_eq!(w.visible_items(7), 5);
    assert_eq!(w.visible_items(2), 0);
    assert_eq!(w.visible_items(1), 0);
    assert_eq!(w.visible_items(0), 0);
    w.update_scroll(5);
    assert_eq!(w.scroll_offset, 3);
    assert_eq!(w.visible_end(5), 8);
    w.selected_index = 9;
    w.update_scroll(5);
    assert_eq!(w.scroll_offset, 5);
    assert_eq!(w.visible_end(5), 10);
    w.selected_index = 6;
    w.update_scroll(5);
    assert_eq!(w.scroll_offset, 5);
    w.scroll_offset = 9;
    w.update_scroll(5);
    assert_eq!(w.scroll_offset, 5);
    w.update_scroll(20);
    assert_eq!(w.scroll_offset, 0);
    assert_eq!(w.visible_end(20), 10);
    w.selected_index = 4;
    w.update_scroll(0);
    assert_eq!(w.scroll_offset, 5);
    assert_eq!(w.item_text(4), "\u{25b6} f4");
    assert_eq!(w.item_text(5), "  f5");
    assert_eq!(w.scroll_info(5), Some("[5/10]".to_string()));
    assert_eq!(w.scroll_info(10), None);
    let none: Vec<String> = Vec::new();
    let mut e = TestListWidget::new(&none, 0, 3);
    e.update_scroll(5);
    assert_eq!(e.scroll_offset, 3);
}

#[test]
fn lines_of_output_get_their_tone() {
    assert_eq!(tone("PASS src/a.test.js"), Tone::Passed);
    assert_eq!(tone("  \u{2713} works Error:"), Tone::Passed);
    assert_eq!(tone("FAIL src/a.test.js"), Tone::Failed);
    assert_eq!(tone("  \u{d7} breaks"), Tone::Failed);
    assert_eq!(tone("TypeError: x"), Tone::Failed);
    assert_eq!(tone("    at Object.<anonymous>"), Tone::Trace);
    assert_eq!(tone("   at Object.<anonymous>"), Tone::Plain);
    assert_eq!(tone("Stack: here Expected: 1"), Tone::Trace);
    assert_eq!(tone("Expected: 1"), Tone::Compared);
    assert_eq!(tone("Received: 2 console.log"), Tone::Compared);
    assert_eq!(tone("console.log hello"), Tone::Console);
    assert_eq!(tone("console.info warning"), Tone::Console);
    assert_eq!(tone("a warning"), Tone::Warning);
    assert_eq!(tone("Warning: b"), Tone::Warning);
    assert_eq!(tone("WARNING"), Tone::Plain);
    assert_eq!(tone(""), Tone::Plain);
}

#[test]
fn window_of_the_output() {
    let w = TestTerminalWidget::new("cmd", "a\r\nb\n\nc", 2, false);
    assert_eq!(w.command_text(), "cmd [Press Enter to copy]");
    assert_eq!(w.output_lines(), strings(&["a", "b", "", "c"]));
    assert_eq!(w.first_line(4), 2);
    assert_eq!(w.end_line(2, 5, 4), 4);
    assert_eq!(w.end_line(0, 3, 4), 3);
    assert_eq!(w.end_line(1, usize::MAX, 4), 4);
    let w = TestTerminalWidget::new("cmd", "", 9, true);
    assert_eq!(w.command_text(), "cmd [Copied \u{2713}]");
    assert!(w.output_lines().is_empty());
    assert_eq!(w.first_line(0), 0);
    assert_eq!(w.first_line(4), 3);
    assert_eq!(w.end_line(0, 5, 0), 0);
    assert_eq!(TestDetailWidget::new("body").content, "body");
}

#[test]
fn busy_indicator_turns() {
    let w = SpinnerWidget::default();
    assert_eq!(w.label, "Loading...");
    assert_eq!(w.style, SpinnerStyle::Line);
    assert_eq!(w.get_frames(), vec!["-", "\\", "|", "/"]);
    assert_eq!(w.current_frame(0), "-");
    assert_eq!(w.current_frame(149), "-");
    assert_eq!(w.current_frame(150), "\\");
    assert_eq!(w.current_frame(450), "/");
    assert_eq!(w.current_frame(600), "-");
    assert_eq!(w.text(300), "| Loading...");
    let d = SpinnerWidget::new("Running a...".to_string()).style(SpinnerStyle::Dot);
    assert_eq!(d.label, "Running a...");
    assert_eq!(
        d.get_frames(),
        vec!["\u{280b}", "\u{2819}", "\u{2838}", "\u{2834}", "\u{2826}", "\u{2807}"]
    );
    assert_eq!(d.current_frame(150 * 5), "\u{2807}");
    assert_eq!(d.current_frame(150 * 6), "\u{280b}");
    assert_eq!(d.current_frame(usize::MAX), d.get_frames()[(usize::MAX / 150) % 6]);
    let b = SpinnerWidget::new(String::new()).style(SpinnerStyle::Box);
    assert_eq!(b.get_frames(), vec!["\u{25f0}", "\u{25f3}", "\u{25f2}", "\u{25f1}"]);
    assert_eq!(b.text(150), "\u{25f3} ");
}

#[test]
fn controls_of_each_screen() {
    assert_eq!(
        HelpBarWidget::for_test_list().controls,
        vec![
            ("\u{2191}/\u{2193}", "Navigate"),
            ("PgUp/PgDn", "Page Up/Down"),
            ("Ctrl+\u{2192}", "View File"),
            ("\u{2192}", "View Tests"),
            ("Enter", "Run Test"),
            ("q", "Quit"),
        ]
    );
    assert_eq!(
        HelpBarWidget::for_test_detail().controls,
        vec![("\u{2190}", "Back to List"), ("Enter", "Run Test"), ("q", "Quit")]
    );
    assert_eq!(
        HelpBarWidget::for_test_terminal().controls,
        vec![
            ("\u{2190}", "Back to List"),
            ("\u{2192}", "View Tests"),
            ("\u{2191}/\u{2193}", "Scroll"),
            ("PgUp/PgDn", "Scroll Faster"),
            ("Home/End", "Top/Bottom"),
            ("Enter", "View Tests/Copy"),
            ("q", "Quit"),
        ]
    );
    assert_eq!(
        HelpBarWidget::for_test_results().controls,
        vec![
            ("\u{2190}", "Back to Output"),
            ("\u{2191}/\u{2193}", "Select Test"),
            ("\u{2192}/Enter", "Run Selected Test"),
            ("q", "Quit"),
        ]
    );
    assert_eq!(HelpBarWidget::for_view(AppView::TestDetail).controls.len(), 3);
    assert_eq!(HelpBarWidget::for_view(AppView::TestList).controls.len(), 6);
    assert_eq!(HelpBarWidget::for_view(AppView::TestRunning).controls.len(), 7);
    assert_eq!(HelpBarWidget::for_view(AppView::TestResults).controls.len(), 4);
    assert_eq!(HelpBarWidget::new(vec![("a", "b")]).controls, vec![("a", "b")]);
}

#[test]
fn test_cases_as_lines_and_details() {
    let tests = vec![
        TestInfo { name: "one".to_string(), passed: true, error: None, duration: Some(12) },
        TestInfo {
            name: "two".to_string(),
            passed: false,
            error: Some("Error: boom\n".to_string()),
            duration: None,
        },
    ];
    let w = TestResultsWidget::new(&tests, 1);
    assert_eq!(w.line_text(0), "  \u{2705} one (12 ms)");
    assert_eq!(w.line_text(1), "\u{25b6} \u{274c} two");
    assert_eq!(
        w.details(),
        Some("Name: two\nStatus: Failed\nDuration: Unknown\n\nError Details:\nError: boom\n".to_string())
    );
    let w = TestResultsWidget::new(&tests, 0);
    assert_eq!(w.details(), Some("Name: one\nStatus: Passed\nDuration: 12 ms".to_string()));
    let w = TestResultsWidget::new(&tests, 2);
    assert_eq!(w.details(), None);
    let copy = tests[1].clone();
    assert_eq!(copy.error, Some("Error: boom\n".to_string()));
}
