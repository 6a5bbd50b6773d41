use crate::definitions::{declared_outcomes, parse_declared};
use crate::outcome::{outcomes, Outcome, TestInfo};
use crate::results::{executed_outcomes, parse_executed};
use crate::runner::{
    file_command, file_run, shell_command, shell_text, single_command, single_test_run, Command,
    Launch, Polled, Signal, TestResult,
};
use crate::text::{count_lines, line_count, to_chars};
use vstd::prelude::*;
use vstd::string::StringExecFns;

verus! {

/// The screens of the application.
#[derive(Debug, Clone, Copy, PartialEq, Eq, Structural)]
pub enum AppView {
    /// The list of test files.
    TestList,
    /// The content of one test file.
    TestDetail,
    /// The output of a run, or the wait for it.
    TestRunning,
    /// The test cases of one file.
    TestResults,
}

/// How many lines of output a screen is taken to show.
pub const VISIBLE_LINES: usize = 20;

/// The state of a session, as a mathematical value.
pub ghost struct Session {
    /// Whether the application goes on.
    pub running: bool,
    /// The directory that is searched for tests and in which they run.
    pub search_path: Seq<char>,
    /// The patterns that the test files were found with.
    pub test_matches: Seq<Seq<char>>,
    /// The test files, as paths below the search path.
    pub tests: Seq<Seq<char>>,
    /// The test file under the cursor.
    pub selected_index: nat,
    /// The first test file that the list shows.
    pub scroll_offset: nat,
    /// The screen that is shown.
    pub view: AppView,
    /// The content of the file that was inspected last.
    pub current_test_content: Seq<char>,
    /// The output of the latest run.
    pub test_run_output: Seq<char>,
    /// The first line of output that the screen shows.
    pub terminal_scroll: nat,
    /// The shell command that was copied last.
    pub copied_command: Option<Seq<char>>,
    /// Whether a run is in flight.
    pub test_loading: bool,
    /// Whether the result of a run is awaited.
    pub run_pending: bool,
    /// The test cases of the file, found in its text or in a run's output.
    pub individual_tests: Seq<Outcome>,
    /// The test case under the cursor.
    pub selected_test_index: nat,
    /// Whether the test cases are shown as soon as the run completes.
    pub auto_show_test_results: bool,
    /// Whether the run in flight is that of one test case.
    pub running_individual_test: bool,
}

impl Session {
    /// What holds of every session: a cursor stands on an item of its list
    /// unless the list is empty, and the file list never starts below its
    /// cursor.
    pub open spec fn wf(self) -> bool {
        &&& self.tests.len() > 0 ==> self.selected_index < self.tests.len()
        &&& self.scroll_offset <= self.selected_index
        &&& self.individual_tests.len() > 0 ==> self.selected_test_index
            < self.individual_tests.len()
    }

    /// The session that an application starts with.
    pub open spec fn initial(
        search_path: Seq<char>,
        test_matches: Seq<Seq<char>>,
        tests: Seq<Seq<char>>,
    ) -> Session {
        Session {
            running: false,
            search_path,
            test_matches,
            tests,
            selected_index: 0,
            scroll_offset: 0,
            view: AppView::TestList,
            current_test_content: Seq::empty(),
            test_run_output: Seq::empty(),
            terminal_scroll: 0,
            copied_command: None,
            test_loading: false,
            run_pending: false,
            individual_tests: Seq::empty(),
            selected_test_index: 0,
            auto_show_test_results: false,
            running_individual_test: false,
        }
    }

    /// The session after the file cursor moved up by one, stopping at the
    /// first file; the list follows a cursor that leaves it at the top.
    pub open spec fn moved_up(self) -> Session {
        if self.tests.len() == 0 {
            self
        } else {
            let selected: nat = if self.selected_index == 0 {
                0
            } else {
                (self.selected_index - 1) as nat
            };
            Session {
                selected_index: selected,
                scroll_offset: if selected < self.scroll_offset {
                    selected
                } else {
                    self.scroll_offset
                },
                ..self
            }
        }
    }

    /// The session after the file cursor moved down by one, stopping at the
    /// last file.
    pub open spec fn moved_down(self) -> Session {
        if self.tests.len() == 0 {
            self
        } else {
            let last = (self.tests.len() - 1) as nat;
            Session {
                selected_index: if self.selected_index + 1 < last {
                    self.selected_index + 1
                } else {
                    last
                },
                ..self
            }
        }
    }

    /// The session after a step back: to the test cases where the run of one
    /// of them is shown, else to the file list. The output is shown from its
    /// top again and no command counts as copied.
    pub open spec fn gone_back(self) -> Session {
        Session {
            view: if self.view == AppView::TestRunning && self.running_individual_test
                && self.individual_tests.len() > 0 {
                AppView::TestResults
            } else {
                AppView::TestList
            },
            terminal_scroll: 0,
            copied_command: None,
            running_individual_test: false,
            ..self
        }
    }

    /// The last position that the output can be scrolled to.
    pub open spec fn last_scroll(self) -> nat {
        if line_count(self.test_run_output) == 0 {
            0
        } else {
            (line_count(self.test_run_output) - 1) as nat
        }
    }

    /// The session after the output was scrolled up by `amount` lines,
    /// stopping at the top.
    pub open spec fn scrolled_up(self, amount: nat) -> Session {
        if self.view == AppView::TestRunning {
            Session {
                terminal_scroll: if self.terminal_scroll < amount {
                    0
                } else {
                    (self.terminal_scroll - amount) as nat
                },
                ..self
            }
        } else {
            self
        }
    }

    /// The session after the output was scrolled down by `amount` lines,
    /// stopping at its last line.
    pub open spec fn scrolled_down(self, amount: nat) -> Session {
        if self.view == AppView::TestRunning {
            Session {
                terminal_scroll: if self.terminal_scroll + amount < self.last_scroll() {
                    self.terminal_scroll + amount
                } else {
                    self.last_scroll()
                },
                ..self
            }
        } else {
            self
        }
    }

    /// The position from which the output shows its last page.
    pub open spec fn last_page(self) -> nat {
        if line_count(self.test_run_output) < VISIBLE_LINES {
            0
        } else {
            (line_count(self.test_run_output) - VISIBLE_LINES) as nat
        }
    }

    /// The session after the selected file was read, for showing it: the
    /// detail screen shows the content, or why there is none.
    pub open spec fn content_shown(self, read: Result<Seq<char>, Seq<char>>) -> Session {
        if self.tests.len() == 0 {
            self
        } else {
            Session {
                current_test_content: match read {
                    Ok(content) => content,
                    Err(reason) => "Error reading file: "@ + reason,
                },
                view: AppView::TestDetail,
                ..self
            }
        }
    }

    /// The file under the cursor.
    pub open spec fn selected_file(self) -> Seq<char>
        recommends
            self.selected_index < self.tests.len(),
    {
        self.tests[self.selected_index as int]
    }

    /// The session after a run of the selected file was started: the
    /// running screen, in flight and awaited, with the output cleared.
    pub open spec fn run_started(self) -> Session {
        if self.tests.len() == 0 {
            self
        } else {
            Session {
                view: AppView::TestRunning,
                test_loading: true,
                running_individual_test: false,
                run_pending: true,
                test_run_output: Seq::empty(),
                ..self
            }
        }
    }

    /// The command that `run_started` asks for.
    pub open spec fn run_request(self) -> Option<Command> {
        if self.tests.len() == 0 {
            None
        } else {
            Some(file_command(self.selected_file(), self.search_path))
        }
    }

    /// Whether a test case is selected that can be run by itself.
    pub open spec fn can_run_single(self) -> bool {
        self.individual_tests.len() > 0 && self.selected_test_index < self.individual_tests.len()
    }

    /// The name of the test case under the cursor.
    pub open spec fn selected_test(self) -> Seq<char>
        recommends
            self.selected_test_index < self.individual_tests.len(),
    {
        self.individual_tests[self.selected_test_index as int].name
    }

    /// The session after a run of the selected test case was started: the
    /// running screen, in flight and awaited, with the output cleared.
    /// Nothing changes where no test case is selected or there is no file
    /// to run it in.
    pub open spec fn single_run_started(self) -> Session {
        if !self.can_run_single() || self.tests.len() == 0 {
            self
        } else {
            Session {
                view: AppView::TestRunning,
                test_loading: true,
                running_individual_test: true,
                run_pending: true,
                test_run_output: Seq::empty(),
                ..self
            }
        }
    }

    /// The command that `single_run_started` asks for.
    pub open spec fn single_run_request(self) -> Option<Command> {
        if !self.can_run_single() || self.tests.len() == 0 {
            None
        } else {
            Some(single_command(self.selected_file(), self.selected_test(), self.search_path))
        }
    }

    /// The shell command that the running screen offers for copying.
    pub open spec fn command_offered(self) -> Option<Seq<char>> {
        if self.tests.len() == 0 || self.view != AppView::TestRunning {
            None
        } else {
            Some(shell_text(self.search_path, self.selected_file()))
        }
    }

    /// The session after the offered command was handed to the clipboard:
    /// it counts as copied if that went well, and no command does if not.
    pub open spec fn command_copied(self, went_well: bool) -> Session {
        match self.command_offered() {
            Some(command) => Session {
                copied_command: if went_well {
                    Some(command)
                } else {
                    None
                },
                ..self
            },
            None => self,
        }
    }

    /// The session after the output of the latest run was parsed: its test
    /// cases take the place of the earlier ones, with the cursor on the
    /// first.
    pub open spec fn results_parsed(self) -> Session {
        Session {
            individual_tests: executed_outcomes(self.test_run_output),
            selected_test_index: 0,
            ..self
        }
    }

    /// The session after the test cases of the latest run were asked for:
    /// once the run is over its output is parsed, and the test cases are
    /// shown if there are any.
    pub open spec fn results_viewed(self) -> Session {
        if self.view == AppView::TestRunning && !self.test_loading {
            let parsed = self.results_parsed();
            if parsed.individual_tests.len() > 0 {
                Session { view: AppView::TestResults, ..parsed }
            } else {
                parsed
            }
        } else {
            self
        }
    }

    /// The session after a source text was parsed: the tests it declares
    /// take the place of the earlier ones, with the cursor on the first.
    pub open spec fn definitions_parsed(self, content: Seq<char>) -> Session {
        Session {
            individual_tests: declared_outcomes(content),
            selected_test_index: 0,
            ..self
        }
    }

    /// The session after the selected file was read, for its tests: they
    /// take the place of the earlier ones, and where the file could not be
    /// read there are none.
    pub open spec fn file_parsed(self, read: Result<Seq<char>, Seq<char>>) -> Session {
        if self.tests.len() == 0 {
            self
        } else {
            match read {
                Ok(content) => self.definitions_parsed(content),
                Err(_) => Session { individual_tests: Seq::empty(), ..self },
            }
        }
    }

    /// The session after the tests of the selected file were asked for:
    /// they are shown if the file declares any.
    pub open spec fn tests_inspected(self, read: Result<Seq<char>, Seq<char>>) -> Session {
        let parsed = self.file_parsed(read);
        if self.tests.len() > 0 && parsed.individual_tests.len() > 0 {
            Session { view: AppView::TestResults, ..parsed }
        } else {
            parsed
        }
    }

    /// The session after a run ended with `output`: the run is over, the
    /// output shows its last page, and the test cases are shown at once if
    /// that was asked for and there are any.
    pub open spec fn completed(self, output: Seq<char>) -> Session {
        let shown = Session {
            test_loading: false,
            test_run_output: output,
            run_pending: false,
            ..self
        };
        let placed = Session { terminal_scroll: shown.last_page(), ..shown };
        if self.auto_show_test_results {
            let parsed = Session { auto_show_test_results: false, ..placed }.results_parsed();
            if parsed.individual_tests.len() > 0 {
                Session { view: AppView::TestResults, ..parsed }
            } else {
                parsed
            }
        } else {
            placed
        }
    }

    /// The session after one look at the channel of the run. Nothing
    /// changes unless a result is awaited. A channel that is closed without
    /// the end of the run ends the flight with the words of a failure as
    /// output.
    pub open spec fn polled(self, signal: Signal) -> Session {
        if !self.run_pending {
            self
        } else {
            match signal {
                Signal::Running => Session { test_loading: true, ..self },
                Signal::Finished { stdout, stderr } => self.completed(stdout + "\n"@ + stderr),
                Signal::Failed { reason } => self.completed("Error running test: "@ + reason),
                Signal::Empty => self,
                Signal::Disconnected => Session {
                    test_loading: false,
                    test_run_output: "Test execution failed or was cancelled"@,
                    run_pending: false,
                    ..self
                },
            }
        }
    }

    /// The session once the application was told to end.
    pub open spec fn stopped(self) -> Session {
        Session { running: false, ..self }
    }
}

/// The application: the one owner of what a session shows and selects.
#[derive(Debug)]
pub struct App {
    /// Whether the application goes on.
    pub running: bool,
    /// The directory that is searched for tests and in which they run.
    pub search_path: String,
    /// The patterns that the test files were found with.
    pub test_matches: Vec<String>,
    /// The test files, as paths below the search path.
    pub tests: Vec<String>,
    /// The test file under the cursor.
    pub selected_index: usize,
    /// The first test file that the list shows.
    pub scroll_offset: usize,
    /// The screen that is shown.
    pub view: AppView,
    /// The content of the file that was inspected last.
    pub current_test_content: String,
    /// The output of the latest run.
    pub test_run_output: String,
    /// The first line of output that the screen shows.
    pub terminal_scroll: usize,
    /// The shell command that was copied last.
    pub copied_command: Option<String>,
    /// Whether a run is in flight.
    pub test_loading: bool,
    /// Whether the result of a run is awaited.
    pub run_pending: bool,
    /// The test cases of the file, found in its text or in a run's output.
    pub individual_tests: Vec<TestInfo>,
    /// The test case under the cursor.
    pub selected_test_index: usize,
    /// Whether the test cases are shown as soon as the run completes.
    pub auto_show_test_results: bool,
    /// Whether the run in flight is that of one test case.
    pub running_individual_test: bool,
}

impl View for App {
    type V = Session;

    open spec fn view(&self) -> Session {
        Session {
            running: self.running,
            search_path: self.search_path@,
            test_matches: self.test_matches.deep_view(),
            tests: self.tests.deep_view(),
            selected_index: self.selected_index as nat,
            scroll_offset: self.scroll_offset as nat,
            view: self.view,
            current_test_content: self.current_test_content@,
            test_run_output: self.test_run_output@,
            terminal_scroll: self.terminal_scroll as nat,
            copied_command: match self.copied_command {
                Some(c) => Some(c@),
                None => None,
            },
            test_loading: self.test_loading,
            run_pending: self.run_pending,
            individual_tests: outcomes(self.individual_tests@),
            selected_test_index: self.selected_test_index as nat,
            auto_show_test_results: self.auto_show_test_results,
            running_individual_test: self.running_individual_test,
        }
    }
}

impl Default for App {
    /// An application with nothing to search and no test files.
    fn default() -> (app: App)
        ensures
            app@ == Session::initial(Seq::empty(), Seq::empty(), Seq::empty()),
            app.wf(),
    {
        let app = App::new(String::new(), Vec::new(), Vec::new());
        assert(app@.test_matches =~= Seq::<Seq<char>>::empty());
        assert(app@.tests =~= Seq::<Seq<char>>::empty());
        app
    }
}

/// The shortest time between two drawings of a screen on which nothing
/// moves, in nanoseconds.
pub const FRAME_INTERVAL_NANOS: u128 = 100_000_000;

/// How long input is waited for while a run is in flight, in milliseconds.
pub const BUSY_POLL_MILLIS: u64 = 16;

/// How long input is waited for otherwise, in milliseconds.
pub const IDLE_POLL_MILLIS: u64 = 100;

impl App {
    /// What holds of every application state.
    pub open spec fn wf(&self) -> bool {
        self@.wf()
    }

    /// Decides `wf`.
    pub fn is_well_formed(&self) -> (b: bool)
        ensures
            b == self.wf(),
    {
        (self.tests.len() == 0 || self.selected_index < self.tests.len()) && self.scroll_offset
            <= self.selected_index && (self.individual_tests.len() == 0
            || self.selected_test_index < self.individual_tests.len())
    }

    /// A new application on the file list, with the cursor on the first of
    /// `tests`.
    pub fn new(search_path: String, test_matches: Vec<String>, tests: Vec<String>) -> (app: App)
        ensures
            app@ == Session::initial(search_path@, test_matches.deep_view(), tests.deep_view()),
            app.wf(),
    {
        let app = App {
            running: false,
            search_path,
            test_matches,
            tests,
            selected_index: 0,
            scroll_offset: 0,
            view: AppView::TestList,
            current_test_content: String::new(),
            test_run_output: String::new(),
            terminal_scroll: 0,
            copied_command: None,
            test_loading: false,
            run_pending: false,
            individual_tests: Vec::new(),
            selected_test_index: 0,
            auto_show_test_results: false,
            running_individual_test: false,
        };
        assert(app@.individual_tests =~= Seq::<Outcome>::empty());
        app
    }

    /// Moves the file cursor up by one.
    pub fn previous(&mut self)
        ensures
            final(self)@ == old(self)@.moved_up(),
    {
        if self.tests.len() > 0 {
            self.selected_index = self.selected_index.saturating_sub(1);
            if self.selected_index < self.scroll_offset {
                self.scroll_offset = self.selected_index;
            }
        }
    }

    /// Moves the file cursor down by one.
    pub fn next(&mut self)
        ensures
            final(self)@ == old(self)@.moved_down(),
    {
        if self.tests.len() > 0 {
            let last_index = self.tests.len() - 1;
            if self.selected_index < last_index {
                self.selected_index = self.selected_index + 1;
            } else {
                self.selected_index = last_index;
            }
        }
    }

    /// Steps back from the screen that is shown.
    pub fn go_back(&mut self)
        ensures
            final(self)@ == old(self)@.gone_back(),
    {
        if self.view == AppView::TestRunning && self.running_individual_test
            && self.individual_tests.len() > 0 {
            self.view = AppView::TestResults;
        } else {
            self.view = AppView::TestList;
        }
        self.terminal_scroll = 0;
        self.copied_command = None;
        self.running_individual_test = false;
    }

    /// Steps back from the screen that is shown, as `go_back` does.
    pub fn back_to_list(&mut self)
        ensures
            final(self)@ == old(self)@.gone_back(),
    {
        self.go_back();
    }

    /// How many lines the output of the latest run has.
    pub fn output_lines(&self) -> (n: usize)
        ensures
            n == line_count(self@.test_run_output),
    {
        let chars = to_chars(self.test_run_output.as_str());
        count_lines(chars.as_slice())
    }

    /// Scrolls the output up by `amount` lines.
    pub fn scroll_up(&mut self, amount: usize)
        ensures
            final(self)@ == old(self)@.scrolled_up(amount as nat),
    {
        if self.view == AppView::TestRunning {
            self.terminal_scroll = self.terminal_scroll.saturating_sub(amount);
        }
    }

    /// Scrolls the output down by `amount` lines.
    pub fn scroll_down(&mut self, amount: usize)
        ensures
            final(self)@ == old(self)@.scrolled_down(amount as nat),
    {
        if self.view == AppView::TestRunning {
            let line_count = self.output_lines();
            let limit = line_count.saturating_sub(1);
            let target = self.terminal_scroll.saturating_add(amount);
            if target < limit {
                self.terminal_scroll = target;
            } else {
                self.terminal_scroll = limit;
            }
        }
    }

    /// The text of a read, as the model has it.
    pub open spec fn read_model(read: Result<String, String>) -> Result<Seq<char>, Seq<char>> {
        match read {
            Ok(content) => Ok(content@),
            Err(reason) => Err(reason@),
        }
    }

    /// Shows the selected file, given what reading it gave: its content, or
    /// the reason why it could not be read. The reason is handed back.
    pub fn load_test_content(&mut self, read: Result<String, String>) -> (r: Result<(), String>)
        ensures
            final(self)@ == old(self)@.content_shown(Self::read_model(read)),
            match r {
                Ok(_) => old(self)@.tests.len() == 0 || read is Ok,
                Err(e) => old(self)@.tests.len() > 0 && read == Err::<String, String>(e),
            },
    {
        if self.tests.len() == 0 {
            return Ok(());
        }
        match read {
            Ok(content) => {
                self.current_test_content = content;
                self.view = AppView::TestDetail;
                Ok(())
            },
            Err(reason) => {
                let mut shown = "Error reading file: ".to_owned();
                shown.append(reason.as_str());
                self.current_test_content = shown;
                self.view = AppView::TestDetail;
                Err(reason)
            },
        }
    }

    /// Starts a run of the selected file: the command to launch, or `None`
    /// where there is no file.
    pub fn run_test(&mut self) -> (launch: Option<Launch>)
        requires
            old(self).wf(),
        ensures
            final(self)@ == old(self)@.run_started(),
            match launch {
                Some(l) => old(self)@.run_request() == Some(l@),
                None => old(self)@.run_request() is None,
            },
    {
        if self.tests.len() == 0 {
            return None;
        }
        self.view = AppView::TestRunning;
        self.test_loading = true;
        self.running_individual_test = false;
        let launch = file_run(
            self.tests[self.selected_index].as_str(),
            self.search_path.as_str(),
        );
        self.run_pending = true;
        self.test_run_output = String::new();
        Some(launch)
    }

    /// The shell command that the running screen offers for copying.
    pub fn clipboard_command(&self) -> (command: Option<String>)
        requires
            self.wf(),
        ensures
            match command {
                Some(c) => self@.command_offered() == Some(c@),
                None => self@.command_offered() is None,
            },
    {
        if self.tests.len() == 0 || self.view != AppView::TestRunning {
            None
        } else {
            Some(
                shell_command(
                    self.search_path.as_str(),
                    self.tests[self.selected_index].as_str(),
                ),
            )
        }
    }

    /// Records what became of handing the offered command to the clipboard:
    /// `copied` is `Ok` where that went well, else the reason, which is
    /// handed back.
    pub fn copy_command_to_clipboard(&mut self, copied: Result<(), String>) -> (r: Result<
        (),
        String,
    >)
        requires
            old(self).wf(),
        ensures
            final(self)@ == old(self)@.command_copied(copied is Ok),
            match r {
                Ok(_) => old(self)@.command_offered() is None || copied is Ok,
                Err(e) => old(self)@.command_offered() is Some && copied == Err::<(), String>(e),
            },
    {
        match self.clipboard_command() {
            Some(command) => match copied {
                Ok(_) => {
                    self.copied_command = Some(command);
                    Ok(())
                },
                Err(reason) => {
                    self.copied_command = None;
                    Err(reason)
                },
            },
            None => Ok(()),
        }
    }

    /// Parses the output of the latest run into test cases.
    pub fn parse_test_results(&mut self)
        ensures
            final(self)@ == old(self)@.results_parsed(),
    {
        self.individual_tests = parse_executed(self.test_run_output.as_str());
        self.selected_test_index = 0;
    }

    /// Shows the test cases of the latest run, once it is over and if its
    /// output reports any.
    pub fn view_test_results(&mut self)
        ensures
            final(self)@ == old(self)@.results_viewed(),
    {
        if self.view == AppView::TestRunning && !self.test_loading {
            self.parse_test_results();
            if self.individual_tests.len() > 0 {
                self.view = AppView::TestResults;
                self.selected_test_index = 0;
            }
        }
    }

    /// Parses a source text into the tests that it declares.
    pub fn parse_test_definitions(&mut self, content: &str)
        ensures
            final(self)@ == old(self)@.definitions_parsed(content@),
    {
        self.individual_tests = parse_declared(content);
        self.selected_test_index = 0;
    }

    /// Finds the tests that the selected file declares, given what reading
    /// it gave: its content, or the reason why it could not be read. The
    /// reason is handed back.
    pub fn load_and_parse_individual_tests(&mut self, read: Result<String, String>) -> (r: Result<
        (),
        String,
    >)
        ensures
            final(self)@ == old(self)@.file_parsed(Self::read_model(read)),
            match r {
                Ok(_) => old(self)@.tests.len() == 0 || read is Ok,
                Err(e) => old(self)@.tests.len() > 0 && read == Err::<String, String>(e),
            },
    {
        if self.tests.len() == 0 {
            return Ok(());
        }
        self.individual_tests.clear();
        assert(outcomes(self.individual_tests@) =~= Seq::<Outcome>::empty());
        match read {
            Ok(content) => {
                self.parse_test_definitions(content.as_str());
                Ok(())
            },
            Err(reason) => Err(reason),
        }
    }

    /// Finds the tests that the selected file declares and shows them if
    /// there are any, given what reading the file gave.
    pub fn inspect_tests(&mut self, read: Result<String, String>)
        ensures
            final(self)@ == old(self)@.tests_inspected(Self::read_model(read)),
    {
        if self.tests.len() > 0 {
            let _ = self.load_and_parse_individual_tests(read);
            if self.individual_tests.len() > 0 {
                self.view = AppView::TestResults;
            }
        }
    }

    /// Starts a run of the selected test case alone: the command to launch,
    /// or `None` where no test case is selected or there is no file.
    pub fn run_individual_test(&mut self) -> (launch: Option<Launch>)
        requires
            old(self).wf(),
        ensures
            final(self)@ == old(self)@.single_run_started(),
            match launch {
                Some(l) => old(self)@.single_run_request() == Some(l@),
                None => old(self)@.single_run_request() is None,
            },
    {
        if self.individual_tests.len() == 0 || self.selected_test_index
            >= self.individual_tests.len() || self.tests.len() == 0 {
            return None;
        }
        let launch = single_test_run(
            self.tests[self.selected_index].as_str(),
            self.individual_tests[self.selected_test_index].name.as_str(),
            self.search_path.as_str(),
        );
        self.view = AppView::TestRunning;
        self.test_loading = true;
        self.test_run_output = String::new();
        self.running_individual_test = true;
        self.run_pending = true;
        Some(launch)
    }

    /// Takes in the output of a run that has ended.
    fn complete(&mut self, output: String)
        ensures
            final(self)@ == old(self)@.completed(output@),
    {
        self.test_loading = false;
        self.test_run_output = output;
        self.run_pending = false;
        let line_count = self.output_lines();
        self.terminal_scroll = line_count.saturating_sub(VISIBLE_LINES);
        if self.auto_show_test_results {
            self.auto_show_test_results = false;
            self.parse_test_results();
            if self.individual_tests.len() > 0 {
                self.view = AppView::TestResults;
                self.selected_test_index = 0;
            }
        }
    }

    /// Takes in what one look at the channel of the run found.
    pub fn check_test_results(&mut self, polled: Polled)
        ensures
            final(self)@ == old(self)@.polled(polled@),
    {
        if !self.run_pending {
            return ;
        }
        match polled {
            Polled::Message(TestResult::Running) => {
                self.test_loading = true;
            },
            Polled::Message(TestResult::Completed(Ok((stdout, stderr)))) => {
                let mut output = stdout;
                output.append("\n");
                output.append(stderr.as_str());
                self.complete(output);
            },
            Polled::Message(TestResult::Completed(Err(reason))) => {
                let mut output = "Error running test: ".to_owned();
                output.append(reason.as_str());
                self.complete(output);
            },
            Polled::Empty => {},
            Polled::Disconnected => {
                self.test_loading = false;
                self.test_run_output = "Test execution failed or was cancelled".to_owned();
                self.run_pending = false;
            },
        }
    }

    /// Lets the application go on: the loop around it runs until it is
    /// told to end.
    pub fn start(&mut self)
        ensures
            final(self)@ == (Session { running: true, ..old(self)@ }),
    {
        self.running = true;
    }

    /// Whether the screen is drawn again, `elapsed_nanos` nanoseconds after
    /// it was drawn last: always while a run is in flight, else only after
    /// more than the frame interval.
    pub fn should_redraw(&self, elapsed_nanos: u128) -> (b: bool)
        ensures
            b == (self@.test_loading || elapsed_nanos > FRAME_INTERVAL_NANOS),
    {
        self.test_loading || elapsed_nanos > FRAME_INTERVAL_NANOS
    }

    /// How long input is waited for, in milliseconds: briefly while a run
    /// is in flight, so that the busy indicator moves.
    pub fn poll_timeout_millis(&self) -> (millis: u64)
        ensures
            millis == (if self@.test_loading {
                BUSY_POLL_MILLIS
            } else {
                IDLE_POLL_MILLIS
            }),
    {
        if self.test_loading {
            BUSY_POLL_MILLIS
        } else {
            IDLE_POLL_MILLIS
        }
    }

    /// Tells the application to end.
    pub fn quit(&mut self)
        ensures
            final(self)@ == old(self)@.stopped(),
    {
        self.running = false;
    }
}

} // verus!
