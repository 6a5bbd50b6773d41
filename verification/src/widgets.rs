use crate::outcome::{Outcome, TestInfo};
use crate::runner::{shell_command, shell_text};
use crate::state::{App, AppView, Session};
use crate::text::{
    contains, decimal, decimal_text, from_chars, has_infix, has_prefix, join, joined, lines,
    split_lines, starts_with, to_chars, views,
};
use vstd::prelude::*;
use vstd::string::StringExecFns;

verus! {

/// The line at the top of every screen.
#[derive(Debug)]
pub struct HeaderWidget {
    /// What the screen is.
    pub title: String,
    /// What it is about.
    pub subtitle: String,
}

impl Session {
    /// The file under the cursor, or `fallback` where there is no file.
    pub open spec fn shown_file(self, fallback: Seq<char>) -> Seq<char> {
        if self.tests.len() > 0 {
            self.selected_file()
        } else {
            fallback
        }
    }

    /// The title of the screen that is shown.
    pub open spec fn title(self) -> Seq<char> {
        match self.view {
            AppView::TestList => "Surely You Jest"@,
            AppView::TestDetail => "Test File"@,
            AppView::TestRunning => "Test Results"@,
            AppView::TestResults => "Individual Tests"@,
        }
    }

    /// The subtitle of the screen that is shown.
    pub open spec fn subtitle(self) -> Seq<char> {
        match self.view {
            AppView::TestList => "Tests in: "@ + self.search_path + " (Found: "@ + decimal(
                self.tests.len(),
            ) + ") [Patterns: "@ + joined(self.test_matches, ", "@) + "]"@,
            AppView::TestDetail => self.shown_file("Unknown Test"@),
            AppView::TestRunning => "Running: "@ + self.shown_file("Unknown Test"@),
            AppView::TestResults => "File: "@ + self.shown_file("Unknown Test"@),
        }
    }

    /// What stands beside the busy indicator while a run is in flight.
    pub open spec fn busy_label(self) -> Seq<char> {
        "Running "@ + self.shown_file("test"@) + "..."@
    }

    /// The shell command that the running screen displays.
    pub open spec fn command_displayed(self) -> Seq<char> {
        shell_text(self.search_path, self.shown_file(""@))
    }
}

impl App {
    /// The file under the cursor, or `fallback` where there is no file.
    fn shown_file<'a>(&'a self, fallback: &'a str) -> (name: &'a str)
        requires
            self.wf(),
        ensures
            name@ == self@.shown_file(fallback@),
    {
        if self.tests.len() > 0 {
            self.tests[self.selected_index].as_str()
        } else {
            fallback
        }
    }

    /// The line at the top of the screen that is shown.
    pub fn header(&self) -> (h: HeaderWidget)
        requires
            self.wf(),
        ensures
            h.title@ == self@.title(),
            h.subtitle@ == self@.subtitle(),
    {
        match self.view {
            AppView::TestList => {
                let mut subtitle = "Tests in: ".to_owned();
                subtitle.append(self.search_path.as_str());
                subtitle.append(" (Found: ");
                subtitle.append(decimal_text(self.tests.len() as u64).as_str());
                subtitle.append(") [Patterns: ");
                subtitle.append(join(&self.test_matches, ", ").as_str());
                subtitle.append("]");
                HeaderWidget { title: "Surely You Jest".to_owned(), subtitle }
            },
            AppView::TestDetail => HeaderWidget {
                title: "Test File".to_owned(),
                subtitle: self.shown_file("Unknown Test").to_owned(),
            },
            AppView::TestRunning => {
                let mut subtitle = "Running: ".to_owned();
                subtitle.append(self.shown_file("Unknown Test"));
                HeaderWidget { title: "Test Results".to_owned(), subtitle }
            },
            AppView::TestResults => {
                let mut subtitle = "File: ".to_owned();
                subtitle.append(self.shown_file("Unknown Test"));
                HeaderWidget { title: "Individual Tests".to_owned(), subtitle }
            },
        }
    }

    /// What stands beside the busy indicator while a run is in flight.
    pub fn busy_label(&self) -> (label: String)
        requires
            self.wf(),
        ensures
            label@ == self@.busy_label(),
    {
        let mut label = "Running ".to_owned();
        label.append(self.shown_file("test"));
        label.append("...");
        label
    }

    /// The shell command that the running screen displays.
    pub fn display_command(&self) -> (command: String)
        requires
            self.wf(),
        ensures
            command@ == self@.command_displayed(),
    {
        shell_command(self.search_path.as_str(), self.shown_file(""))
    }
}

/// How many items a list of the given height shows: two lines go to its
/// border.
pub open spec fn items_visible(height: u16) -> nat {
    if height < 2 {
        0
    } else {
        (height - 2) as nat
    }
}

/// Where a list of `len` items starts to show them, once it has followed a
/// cursor that left it at the bottom and stopped at its last page.
pub open spec fn scroll_for(len: nat, selected: nat, scroll: nat, visible: nat) -> nat {
    if len == 0 {
        scroll
    } else {
        let followed = if selected >= scroll + visible {
            (selected - visible + 1) as nat
        } else {
            scroll
        };
        let last_page = if len >= visible {
            (len - visible) as nat
        } else {
            0
        };
        if followed < last_page {
            followed
        } else {
            last_page
        }
    }
}

/// The end of the part that a list of `len` items shows from `scroll` on.
pub open spec fn window_end(len: nat, scroll: nat, visible: nat) -> nat {
    if scroll + visible < len {
        scroll + visible
    } else {
        len
    }
}

/// A list that follows its cursor keeps the item under the cursor among
/// those it shows.
pub proof fn lemma_cursor_is_visible(len: nat, selected: nat, scroll: nat, visible: nat)
    requires
        selected < len,
        scroll <= selected,
        visible >= 1,
    ensures
        scroll_for(len, selected, scroll, visible) <= selected < window_end(
            len,
            scroll_for(len, selected, scroll, visible),
            visible,
        ),
        scroll_for(len, selected, scroll, visible) <= len,
{
}

/// The list of test files, as a screen shows it.
#[derive(Debug)]
pub struct TestListWidget<'a> {
    /// The test files.
    pub tests: &'a [String],
    /// The test file under the cursor.
    pub selected_index: usize,
    /// The first test file that is shown.
    pub scroll_offset: usize,
}

impl<'a> TestListWidget<'a> {
    /// A list of `tests` with its cursor and its first item.
    pub fn new(tests: &'a [String], selected_index: usize, scroll_offset: usize) -> (w: Self)
        ensures
            w.tests@ == tests@,
            w.selected_index == selected_index,
            w.scroll_offset == scroll_offset,
    {
        TestListWidget { tests, selected_index, scroll_offset }
    }

    /// How many items an area of the given height shows.
    pub fn visible_items(&self, height: u16) -> (n: usize)
        ensures
            n == items_visible(height),
    {
        height.saturating_sub(2) as usize
    }

    /// Lets the list follow its cursor.
    pub fn update_scroll(&mut self, visible_items: usize)
        ensures
            final(self).tests@ == old(self).tests@,
            final(self).selected_index == old(self).selected_index,
            final(self).scroll_offset == scroll_for(
                old(self).tests@.len(),
                old(self).selected_index as nat,
                old(self).scroll_offset as nat,
                visible_items as nat,
            ),
    {
        let len = self.tests.len();
        if len == 0 {
            return ;
        }
        let max_scroll = len.saturating_sub(visible_items);
        let mut followed = self.scroll_offset;
        if visible_items <= self.selected_index && self.scroll_offset <= self.selected_index
            - visible_items {
            followed = (self.selected_index - visible_items).saturating_add(1);
        }
        if followed < max_scroll {
            self.scroll_offset = followed;
        } else {
            self.scroll_offset = max_scroll;
        }
    }

    /// The end of the part of the list that is shown.
    pub fn visible_end(&self, visible_items: usize) -> (end: usize)
        ensures
            end == window_end(
                self.tests@.len(),
                self.scroll_offset as nat,
                visible_items as nat,
            ),
    {
        let reach = self.scroll_offset.saturating_add(visible_items);
        if reach < self.tests.len() {
            reach
        } else {
            self.tests.len()
        }
    }

    /// The text of the item `index`: a pointer before the item under the
    /// cursor, and two spaces before any other.
    pub fn item_text(&self, index: usize) -> (line: String)
        requires
            index < self.tests@.len(),
        ensures
            line@ == (if index == self.selected_index {
                "\u{25b6} "@
            } else {
                "  "@
            }) + self.tests@[index as int]@,
    {
        let mut line = if index == self.selected_index {
            "\u{25b6} ".to_owned()
        } else {
            "  ".to_owned()
        };
        line.append(self.tests[index].as_str());
        line
    }

    /// The position of the cursor among the items, for a list that does
    /// not show all of them at once.
    pub fn scroll_info(&self, visible_items: usize) -> (info: Option<String>)
        requires
            self.selected_index < usize::MAX,
        ensures
            match info {
                Some(text) => self.tests@.len() > visible_items && text@ == "["@ + decimal(
                    self.selected_index as nat + 1,
                ) + "/"@ + decimal(self.tests@.len()) + "]"@,
                None => self.tests@.len() <= visible_items,
            },
    {
        if self.tests.len() > visible_items {
            let mut text = "[".to_owned();
            text.append(decimal_text(self.selected_index as u64 + 1).as_str());
            text.append("/");
            text.append(decimal_text(self.tests.len() as u64).as_str());
            text.append("]");
            Some(text)
        } else {
            None
        }
    }
}

/// The content of a test file, as a screen shows it.
#[derive(Debug)]
pub struct TestDetailWidget<'a> {
    /// The content.
    pub content: &'a str,
}

impl<'a> TestDetailWidget<'a> {
    /// A view of `content`.
    pub fn new(content: &'a str) -> (w: Self)
        ensures
            w.content@ == content@,
    {
        TestDetailWidget { content }
    }
}

/// What a line of output tells of, which decides its colour.
#[derive(Debug, Clone, Copy, PartialEq, Eq, Structural)]
pub enum Tone {
    /// Something passed.
    Passed,
    /// Something failed.
    Failed,
    /// A line of a stack trace.
    Trace,
    /// An expected or a received value.
    Compared,
    /// Output of the console.
    Console,
    /// A warning.
    Warning,
    /// Anything else.
    Plain,
}

/// What the line `line` tells of. The first of these that fits decides: a
/// pass marker, a fail marker or an error tag, a stack trace, a compared
/// value, console output, a warning.
pub open spec fn tone_of(line: Seq<char>) -> Tone {
    if contains(line, "PASS"@) || contains(line, "\u{2713}"@) {
        Tone::Passed
    } else if contains(line, "FAIL"@) || contains(line, "\u{d7}"@) || contains(line, "Error:"@) {
        Tone::Failed
    } else if starts_with(line, "    at "@) || contains(line, "Stack:"@) {
        Tone::Trace
    } else if contains(line, "Expected:"@) || contains(line, "Received:"@) {
        Tone::Compared
    } else if contains(line, "console.log"@) || contains(line, "console.info"@) {
        Tone::Console
    } else if contains(line, "warning"@) || contains(line, "Warning:"@) {
        Tone::Warning
    } else {
        Tone::Plain
    }
}

/// Whether `word` stands somewhere in `line`.
fn holds(line: &[char], word: &str) -> (b: bool)
    ensures
        b == contains(line@, word@),
{
    let w = to_chars(word);
    has_infix(line, w.as_slice())
}

/// Computes `tone_of`.
pub fn tone(line: &str) -> (t: Tone)
    ensures
        t == tone_of(line@),
{
    let l = to_chars(line);
    let l = l.as_slice();
    if holds(l, "PASS") || holds(l, "\u{2713}") {
        Tone::Passed
    } else if holds(l, "FAIL") || holds(l, "\u{d7}") || holds(l, "Error:") {
        Tone::Failed
    } else if has_prefix(l, to_chars("    at ").as_slice()) || holds(l, "Stack:") {
        Tone::Trace
    } else if holds(l, "Expected:") || holds(l, "Received:") {
        Tone::Compared
    } else if holds(l, "console.log") || holds(l, "console.info") {
        Tone::Console
    } else if holds(l, "warning") || holds(l, "Warning:") {
        Tone::Warning
    } else {
        Tone::Plain
    }
}

/// The first line that an output of `line_count` lines shows when it is
/// scrolled to `scroll`: no line past the last one.
pub open spec fn first_shown(scroll: nat, line_count: nat) -> nat {
    if line_count == 0 {
        0
    } else if scroll < line_count - 1 {
        scroll
    } else {
        (line_count - 1) as nat
    }
}

/// The output of a run with the command that gave it, as a screen shows
/// them.
#[derive(Debug)]
pub struct TestTerminalWidget<'a> {
    /// The command that was run.
    pub command: &'a str,
    /// What it wrote.
    pub output: &'a str,
    /// The first line of output that is shown.
    pub scroll_position: usize,
    /// Whether the command was copied.
    pub command_copied: bool,
}

impl<'a> TestTerminalWidget<'a> {
    /// A view of `output` under `command`.
    pub fn new(command: &'a str, output: &'a str, scroll_position: usize, command_copied: bool) -> (w:
        Self)
        ensures
            w.command@ == command@,
            w.output@ == output@,
            w.scroll_position == scroll_position,
            w.command_copied == command_copied,
    {
        TestTerminalWidget { command, output, scroll_position, command_copied }
    }

    /// The command with a note that says whether it was copied.
    pub fn command_text(&self) -> (text: String)
        ensures
            text@ == self.command@ + (if self.command_copied {
                " [Copied \u{2713}]"@
            } else {
                " [Press Enter to copy]"@
            }),
    {
        let mut text = self.command.to_owned();
        if self.command_copied {
            text.append(" [Copied \u{2713}]");
        } else {
            text.append(" [Press Enter to copy]");
        }
        text
    }

    /// The lines of the output.
    pub fn output_lines(&self) -> (out: Vec<String>)
        ensures
            out.deep_view() == lines(self.output@),
    {
        let chars = to_chars(self.output);
        let ls = split_lines(chars.as_slice());
        let mut out: Vec<String> = Vec::new();
        let mut i: usize = 0;
        while i < ls.len()
            invariant
                i <= ls@.len(),
                out@.len() == i,
                forall|j: int| 0 <= j < i ==> (#[trigger] out@[j])@ == ls@[j]@,
            decreases ls@.len() - i,
        {
            out.push(from_chars(ls[i].as_slice()));
            i += 1;
        }
        assert(out.deep_view() =~= views(ls@));
        out
    }

    /// The first line that is shown of `line_count` lines.
    pub fn first_line(&self, line_count: usize) -> (start: usize)
        ensures
            start == first_shown(self.scroll_position as nat, line_count as nat),
    {
        let last = line_count.saturating_sub(1);
        if self.scroll_position < last {
            self.scroll_position
        } else {
            last
        }
    }

    /// The line after the last one that is shown, where `visible_lines`
    /// lines are shown from `start` on.
    pub fn end_line(&self, start: usize, visible_lines: usize, line_count: usize) -> (end: usize)
        ensures
            end == window_end(line_count as nat, start as nat, visible_lines as nat),
    {
        let reach = start.saturating_add(visible_lines);
        if reach < line_count {
            reach
        } else {
            line_count
        }
    }
}

/// The shapes of a busy indicator.
#[derive(Debug, Clone, Copy, PartialEq, Eq, Structural)]
pub enum SpinnerStyle {
    /// A turning line.
    Line,
    /// A turning dot.
    Dot,
    /// A turning box.
    Box,
}

/// How long a busy indicator shows one frame, in milliseconds.
pub const FRAME_MILLIS: usize = 150;

/// The frames that a busy indicator of the given shape goes through.
pub open spec fn frames_of(style: SpinnerStyle) -> Seq<Seq<char>> {
    match style {
        SpinnerStyle::Line => seq!["-"@, "\\"@, "|"@, "/"@],
        SpinnerStyle::Dot => seq![
            "\u{280b}"@,
            "\u{2819}"@,
            "\u{2838}"@,
            "\u{2834}"@,
            "\u{2826}"@,
            "\u{2807}"@,
        ],
        SpinnerStyle::Box => seq!["\u{25f0}"@, "\u{25f3}"@, "\u{25f2}"@, "\u{25f1}"@],
    }
}

/// The contents of a list of texts.
pub open spec fn texts(v: Seq<&str>) -> Seq<Seq<char>> {
    Seq::new(v.len(), |i: int| v[i]@)
}

/// The frame that a busy indicator of the given shape shows at
/// `current_millis` milliseconds: the frames follow one another at a fixed
/// pace and begin again after the last.
pub open spec fn frame_at(style: SpinnerStyle, current_millis: nat) -> Seq<char> {
    frames_of(style)[((current_millis / FRAME_MILLIS as nat) % frames_of(style).len()) as int]
}

/// A busy indicator with a label.
#[derive(Debug)]
pub struct SpinnerWidget {
    /// What stands beside the indicator.
    pub label: String,
    /// The shape of the indicator.
    pub style: SpinnerStyle,
}

impl Default for SpinnerWidget {
    fn default() -> (w: Self)
        ensures
            w.label@ == "Loading..."@,
            w.style == SpinnerStyle::Line,
    {
        SpinnerWidget { label: "Loading...".to_owned(), style: SpinnerStyle::Line }
    }
}

impl SpinnerWidget {
    /// A turning line with the given label.
    pub fn new(label: String) -> (w: Self)
        ensures
            w.label@ == label@,
            w.style == SpinnerStyle::Line,
    {
        SpinnerWidget { label, style: SpinnerStyle::Line }
    }

    /// The same indicator in another shape.
    pub fn style(self, style: SpinnerStyle) -> (w: Self)
        ensures
            w.label@ == self.label@,
            w.style == style,
    {
        let mut w = self;
        w.style = style;
        w
    }

    /// The frames that the indicator goes through.
    pub fn get_frames(&self) -> (frames: Vec<&'static str>)
        ensures
            texts(frames@) == frames_of(self.style),
    {
        let frames = match self.style {
            SpinnerStyle::Line => vec!["-", "\\", "|", "/"],
            SpinnerStyle::Dot => vec![
                "\u{280b}",
                "\u{2819}",
                "\u{2838}",
                "\u{2834}",
                "\u{2826}",
                "\u{2807}",
            ],
            SpinnerStyle::Box => vec!["\u{25f0}", "\u{25f3}", "\u{25f2}", "\u{25f1}"],
        };
        assert(texts(frames@) =~= frames_of(self.style));
        frames
    }

    /// The frame that the indicator shows at `current_millis` milliseconds.
    pub fn current_frame(&self, current_millis: usize) -> (frame: &'static str)
        ensures
            frame@ == frame_at(self.style, current_millis as nat),
    {
        let frames = self.get_frames();
        assert(texts(frames@).len() == frames@.len());
        let index = (current_millis / FRAME_MILLIS) % frames.len();
        assert(texts(frames@)[index as int] == frames@[index as int]@);
        frames[index]
    }

    /// The text of the indicator at `current_millis` milliseconds: its
    /// frame, a space and its label.
    pub fn text(&self, current_millis: usize) -> (text: String)
        ensures
            text@ == frame_at(self.style, current_millis as nat) + " "@ + self.label@,
    {
        let mut text = self.current_frame(current_millis).to_owned();
        text.append(" ");
        text.append(self.label.as_str());
        text
    }
}

/// The contents of a list of controls: for each its key and what it does.
pub open spec fn controls_of(v: Seq<(&str, &str)>) -> Seq<(Seq<char>, Seq<char>)> {
    Seq::new(v.len(), |i: int| (v[i].0@, v[i].1@))
}

/// The controls of the file list.
pub open spec fn list_controls() -> Seq<(Seq<char>, Seq<char>)> {
    seq![
        ("\u{2191}/\u{2193}"@, "Navigate"@),
        ("PgUp/PgDn"@, "Page Up/Down"@),
        ("Ctrl+\u{2192}"@, "View File"@),
        ("\u{2192}"@, "View Tests"@),
        ("Enter"@, "Run Test"@),
        ("q"@, "Quit"@),
    ]
}

/// The controls of the detail screen.
pub open spec fn detail_controls() -> Seq<(Seq<char>, Seq<char>)> {
    seq![("\u{2190}"@, "Back to List"@), ("Enter"@, "Run Test"@), ("q"@, "Quit"@)]
}

/// The controls of the running screen.
pub open spec fn terminal_controls() -> Seq<(Seq<char>, Seq<char>)> {
    seq![
        ("\u{2190}"@, "Back to List"@),
        ("\u{2192}"@, "View Tests"@),
        ("\u{2191}/\u{2193}"@, "Scroll"@),
        ("PgUp/PgDn"@, "Scroll Faster"@),
        ("Home/End"@, "Top/Bottom"@),
        ("Enter"@, "View Tests/Copy"@),
        ("q"@, "Quit"@),
    ]
}

/// The controls of the screen of test cases.
pub open spec fn results_controls() -> Seq<(Seq<char>, Seq<char>)> {
    seq![
        ("\u{2190}"@, "Back to Output"@),
        ("\u{2191}/\u{2193}"@, "Select Test"@),
        ("\u{2192}/Enter"@, "Run Selected Test"@),
        ("q"@, "Quit"@),
    ]
}

/// The controls of the screen `view`.
pub open spec fn controls_for(view: AppView) -> Seq<(Seq<char>, Seq<char>)> {
    match view {
        AppView::TestList => list_controls(),
        AppView::TestDetail => detail_controls(),
        AppView::TestRunning => terminal_controls(),
        AppView::TestResults => results_controls(),
    }
}

/// The keys of a screen and what they do, as the bottom line shows them.
#[derive(Debug)]
pub struct HelpBarWidget<'a> {
    /// For each control its key and what it does.
    pub controls: Vec<(&'a str, &'a str)>,
}

impl<'a> HelpBarWidget<'a> {
    /// A bottom line with the given controls.
    pub fn new(controls: Vec<(&'a str, &'a str)>) -> (w: Self)
        ensures
            w.controls@ == controls@,
    {
        HelpBarWidget { controls }
    }

    /// The bottom line of the file list.
    pub fn for_test_list() -> (w: Self)
        ensures
            controls_of(w.controls@) == list_controls(),
    {
        let controls = vec![
            ("\u{2191}/\u{2193}", "Navigate"),
            ("PgUp/PgDn", "Page Up/Down"),
            ("Ctrl+\u{2192}", "View File"),
            ("\u{2192}", "View Tests"),
            ("Enter", "Run Test"),
            ("q", "Quit"),
        ];
        assert(controls_of(controls@) =~= list_controls());
        HelpBarWidget { controls }
    }

    /// The bottom line of the detail screen.
    pub fn for_test_detail() -> (w: Self)
        ensures
            controls_of(w.controls@) == detail_controls(),
    {
        let controls = vec![("\u{2190}", "Back to List"), ("Enter", "Run Test"), ("q", "Quit")];
        assert(controls_of(controls@) =~= detail_controls());
        HelpBarWidget { controls }
    }

    /// The bottom line of the running screen.
    pub fn for_test_terminal() -> (w: Self)
        ensures
            controls_of(w.controls@) == terminal_controls(),
    {
        let controls = vec![
            ("\u{2190}", "Back to List"),
            ("\u{2192}", "View Tests"),
            ("\u{2191}/\u{2193}", "Scroll"),
            ("PgUp/PgDn", "Scroll Faster"),
            ("Home/End", "Top/Bottom"),
            ("Enter", "View Tests/Copy"),
            ("q", "Quit"),
        ];
        assert(controls_of(controls@) =~= terminal_controls());
        HelpBarWidget { controls }
    }

    /// The bottom line of the screen of test cases.
    pub fn for_test_results() -> (w: Self)
        ensures
            controls_of(w.controls@) == results_controls(),
    {
        let controls = vec![
            ("\u{2190}", "Back to Output"),
            ("\u{2191}/\u{2193}", "Select Test"),
            ("\u{2192}/Enter", "Run Selected Test"),
            ("q", "Quit"),
        ];
        assert(controls_of(controls@) =~= results_controls());
        HelpBarWidget { controls }
    }

    /// The bottom line of the screen `view`.
    pub fn for_view(view: AppView) -> (w: Self)
        ensures
            controls_of(w.controls@) == controls_for(view),
    {
        match view {
            AppView::TestList => Self::for_test_list(),
            AppView::TestDetail => Self::for_test_detail(),
            AppView::TestRunning => Self::for_test_terminal(),
            AppView::TestResults => Self::for_test_results(),
        }
    }
}

/// The line that stands for the test case `o` in the list of test cases: a
/// pointer where the cursor is on it, a sign for passed or failed, its
/// name, and its duration where that is known.
pub open spec fn result_line(o: Outcome, selected: bool) -> Seq<char> {
    (if selected {
        "\u{25b6} "@
    } else {
        "  "@
    }) + (if o.passed {
        "\u{2705} "@
    } else {
        "\u{274c} "@
    }) + o.name + (match o.duration {
        Some(ms) => " ("@ + decimal(ms as nat) + " ms)"@,
        None => ""@,
    })
}

/// What is told of the test case `o` beside the list: its name, whether it
/// passed, its duration, and its failure detail where it has one.
pub open spec fn result_details(o: Outcome) -> Seq<char> {
    "Name: "@ + o.name + "\nStatus: "@ + (if o.passed {
        "Passed"@
    } else {
        "Failed"@
    }) + "\nDuration: "@ + (match o.duration {
        Some(ms) => decimal(ms as nat) + " ms"@,
        None => "Unknown"@,
    }) + (match o.error {
        Some(e) => "\n\nError Details:\n"@ + e,
        None => ""@,
    })
}

/// The test cases of a file, as a screen shows them.
#[derive(Debug)]
pub struct TestResultsWidget<'a> {
    /// The test cases.
    pub tests: &'a [TestInfo],
    /// The test case under the cursor.
    pub selected_index: usize,
}

impl<'a> TestResultsWidget<'a> {
    /// A view of `tests` with its cursor.
    pub fn new(tests: &'a [TestInfo], selected_index: usize) -> (w: Self)
        ensures
            w.tests@ == tests@,
            w.selected_index == selected_index,
    {
        TestResultsWidget { tests, selected_index }
    }

    /// The line of the test case `index` in the list.
    pub fn line_text(&self, index: usize) -> (line: String)
        requires
            index < self.tests@.len(),
        ensures
            line@ == result_line(self.tests@[index as int]@, index == self.selected_index),
    {
        let test = &self.tests[index];
        let mut line = if index == self.selected_index {
            "\u{25b6} ".to_owned()
        } else {
            "  ".to_owned()
        };
        if test.passed {
            line.append("\u{2705} ");
        } else {
            line.append("\u{274c} ");
        }
        line.append(test.name.as_str());
        match test.duration {
            Some(ms) => {
                let ghost before = line@;
                line.append(" (");
                line.append(decimal_text(ms).as_str());
                line.append(" ms)");
                assert(line@ =~= before + (" ("@ + decimal(ms as nat) + " ms)"@));
            },
            None => {
                line.append("");
            },
        }
        line
    }

    /// What is told of the test case under the cursor, or `None` where the
    /// cursor is on none.
    pub fn details(&self) -> (text: Option<String>)
        ensures
            match text {
                Some(t) => self.selected_index < self.tests@.len() && t@ == result_details(
                    self.tests@[self.selected_index as int]@,
                ),
                None => self.selected_index >= self.tests@.len(),
            },
    {
        if self.selected_index >= self.tests.len() {
            return None;
        }
        let test = &self.tests[self.selected_index];
        let mut text = "Name: ".to_owned();
        text.append(test.name.as_str());
        text.append("\nStatus: ");
        if test.passed {
            text.append("Passed");
        } else {
            text.append("Failed");
        }
        text.append("\nDuration: ");
        let ghost before = text@;
        match test.duration {
            Some(ms) => {
                text.append(decimal_text(ms).as_str());
                text.append(" ms");
                assert(text@ =~= before + (decimal(ms as nat) + " ms"@));
            },
            None => {
                text.append("Unknown");
            },
        }
        let ghost before = text@;
        match &test.error {
            Some(e) => {
                text.append("\n\nError Details:\n");
                text.append(e.as_str());
                assert(text@ =~= before + ("\n\nError Details:\n"@ + e@));
            },
            None => {
                text.append("");
            },
        }
        Some(text)
    }
}

} // verus!
