use crate::runner::{Command, Launch};
use crate::state::{App, AppView, Session, VISIBLE_LINES};
use vstd::prelude::*;

verus! {

/// The keys that the application tells apart.
#[derive(Debug, Clone, Copy, PartialEq, Eq, Structural)]
pub enum Key {
    /// Escape.
    Esc,
    /// Return.
    Enter,
    /// The left arrow.
    Left,
    /// The right arrow.
    Right,
    /// The up arrow.
    Up,
    /// The down arrow.
    Down,
    /// Home.
    Home,
    /// End.
    End,
    /// Page up.
    PageUp,
    /// Page down.
    PageDown,
    /// A character key.
    Char(char),
    /// Any other key.
    Other,
}

/// One key, as it was pressed.
#[derive(Debug, Clone, Copy, PartialEq, Eq, Structural)]
pub struct KeyInput {
    /// The key.
    pub key: Key,
    /// Whether Control, and no other modifier, was held.
    pub control: bool,
}

/// What the terminal reports.
#[derive(Debug, Clone, Copy, PartialEq, Eq, Structural)]
pub enum InputEvent {
    /// A key: pressed, or else released or repeated.
    Key { input: KeyInput, pressed: bool },
    /// The mouse.
    Mouse,
    /// A new size of the terminal.
    Resize,
    /// Anything else.
    Other,
}

/// What a key asks the surroundings of the application to do, as a
/// mathematical value.
pub ghost enum Request {
    /// Nothing.
    Nothing,
    /// Read the selected file and hand it to `load_test_content`.
    ReadFile,
    /// Read the selected file and hand it to `inspect_tests`.
    ReadTests,
    /// Launch this command in the background.
    Launch(Command),
    /// Hand this text to the clipboard and report to
    /// `copy_command_to_clipboard`.
    Copy(Seq<char>),
}

/// What a key asks the surroundings of the application to do.
#[derive(Debug)]
pub enum Action {
    /// Nothing.
    Nothing,
    /// Read the selected file and hand it to `load_test_content`.
    ReadFile,
    /// Read the selected file and hand it to `inspect_tests`.
    ReadTests,
    /// Launch this command in the background.
    Launch(Launch),
    /// Hand this text to the clipboard and report to
    /// `copy_command_to_clipboard`.
    Copy(String),
}

impl View for Action {
    type V = Request;

    open spec fn view(&self) -> Request {
        match self {
            Action::Nothing => Request::Nothing,
            Action::ReadFile => Request::ReadFile,
            Action::ReadTests => Request::ReadTests,
            Action::Launch(l) => Request::Launch(l@),
            Action::Copy(c) => Request::Copy(c@),
        }
    }
}

/// How many steps a page key moves by.
pub const PAGE: usize = 10;

/// Whether `input` ends the application: Escape, `q`, or Control with `c`.
pub open spec fn is_quit(input: KeyInput) -> bool {
    ||| input.key == Key::Esc
    ||| input.key == Key::Char('q')
    ||| (input.control && (input.key == Key::Char('c') || input.key == Key::Char('C')))
}

/// Whether `input` moves a cursor up.
pub open spec fn is_up(input: KeyInput) -> bool {
    input.key == Key::Up || input.key == Key::Char('k')
}

/// Whether `input` moves a cursor down.
pub open spec fn is_down(input: KeyInput) -> bool {
    input.key == Key::Down || input.key == Key::Char('j')
}

/// The request that stands for a command to launch, if there is one.
pub open spec fn launch_request(command: Option<Command>) -> Request {
    match command {
        Some(c) => Request::Launch(c),
        None => Request::Nothing,
    }
}

impl Session {
    /// The session after the file cursor moved up `n` times.
    pub open spec fn moved_up_by(self, n: nat) -> Session
        decreases n,
    {
        if n == 0 {
            self
        } else {
            self.moved_up_by((n - 1) as nat).moved_up()
        }
    }

    /// The session after the file cursor moved down `n` times.
    pub open spec fn moved_down_by(self, n: nat) -> Session
        decreases n,
    {
        if n == 0 {
            self
        } else {
            self.moved_down_by((n - 1) as nat).moved_down()
        }
    }

    /// The session after the test cursor moved up by one, stopping at the
    /// first test case.
    pub open spec fn test_moved_up(self) -> Session {
        if self.individual_tests.len() == 0 || self.selected_test_index == 0 {
            self
        } else {
            Session { selected_test_index: (self.selected_test_index - 1) as nat, ..self }
        }
    }

    /// The session after the test cursor moved down by one, stopping at the
    /// last test case.
    pub open spec fn test_moved_down(self) -> Session {
        if self.individual_tests.len() == 0 {
            self
        } else {
            let last = (self.individual_tests.len() - 1) as nat;
            Session {
                selected_test_index: if self.selected_test_index + 1 < last {
                    self.selected_test_index + 1
                } else {
                    last
                },
                ..self
            }
        }
    }

    /// The session after a key on the file list.
    pub open spec fn list_key(self, input: KeyInput) -> Session {
        if is_quit(input) {
            self.stopped()
        } else if is_up(input) {
            self.moved_up()
        } else if is_down(input) {
            self.moved_down()
        } else if input.key == Key::PageUp {
            self.moved_up_by(PAGE as nat)
        } else if input.key == Key::PageDown {
            self.moved_down_by(PAGE as nat)
        } else if input.key == Key::Home {
            Session { selected_index: 0, scroll_offset: 0, ..self }
        } else if input.key == Key::End && self.tests.len() > 0 {
            Session { selected_index: (self.tests.len() - 1) as nat, ..self }
        } else if input.key == Key::Enter {
            self.run_started()
        } else {
            self
        }
    }

    /// What a key on the file list asks for.
    pub open spec fn list_request(self, input: KeyInput) -> Request {
        if is_quit(input) || is_up(input) || is_down(input) || self.tests.len() == 0 {
            Request::Nothing
        } else if input.key == Key::Right {
            if input.control {
                Request::ReadFile
            } else {
                Request::ReadTests
            }
        } else if input.key == Key::Enter {
            launch_request(self.run_request())
        } else {
            Request::Nothing
        }
    }

    /// The session after a key on the detail screen.
    pub open spec fn detail_key(self, input: KeyInput) -> Session {
        if is_quit(input) {
            self.stopped()
        } else if input.key == Key::Left {
            self.gone_back()
        } else if input.key == Key::Enter {
            self.run_started()
        } else {
            self
        }
    }

    /// What a key on the detail screen asks for.
    pub open spec fn detail_request(self, input: KeyInput) -> Request {
        if !is_quit(input) && input.key == Key::Enter {
            launch_request(self.run_request())
        } else {
            Request::Nothing
        }
    }

    /// The session after a key on the running screen. While the run is in
    /// flight the keys that ask for its test cases do nothing.
    pub open spec fn running_key(self, input: KeyInput) -> Session {
        if is_quit(input) {
            self.stopped()
        } else if input.key == Key::Left {
            self.gone_back()
        } else if input.key == Key::Right {
            if self.test_loading {
                self
            } else {
                self.results_viewed()
            }
        } else if input.key == Key::Enter {
            if self.test_loading {
                self
            } else {
                self.results_parsed().results_viewed()
            }
        } else if input.key == Key::Up {
            self.scrolled_up(1)
        } else if input.key == Key::Down {
            self.scrolled_down(1)
        } else if input.key == Key::PageUp {
            self.scrolled_up(PAGE as nat)
        } else if input.key == Key::PageDown {
            self.scrolled_down(PAGE as nat)
        } else if input.key == Key::Home {
            Session { terminal_scroll: 0, ..self }
        } else if input.key == Key::End {
            Session { terminal_scroll: self.last_page(), ..self }
        } else {
            self
        }
    }

    /// What a key on the running screen asks for: Return offers the command
    /// for copying where the run is over and its output reports no test.
    pub open spec fn running_request(self, input: KeyInput) -> Request {
        if !is_quit(input) && input.key == Key::Enter && !self.test_loading
            && self.results_parsed().individual_tests.len() == 0 {
            match self.command_offered() {
                Some(c) => Request::Copy(c),
                None => Request::Nothing,
            }
        } else {
            Request::Nothing
        }
    }

    /// The session after a key on the screen of test cases.
    pub open spec fn results_key(self, input: KeyInput) -> Session {
        if is_quit(input) {
            self.stopped()
        } else if input.key == Key::Left {
            Session {
                view: if self.test_run_output.len() == 0 {
                    AppView::TestList
                } else {
                    AppView::TestRunning
                },
                ..self
            }
        } else if input.key == Key::Right || input.key == Key::Enter {
            self.single_run_started()
        } else if is_up(input) {
            self.test_moved_up()
        } else if is_down(input) {
            self.test_moved_down()
        } else {
            self
        }
    }

    /// What a key on the screen of test cases asks for.
    pub open spec fn results_request(self, input: KeyInput) -> Request {
        if !is_quit(input) && (input.key == Key::Right || input.key == Key::Enter) {
            launch_request(self.single_run_request())
        } else {
            Request::Nothing
        }
    }

    /// The session after a key, on whatever screen is shown.
    pub open spec fn key_pressed(self, input: KeyInput) -> Session {
        match self.view {
            AppView::TestList => self.list_key(input),
            AppView::TestDetail => self.detail_key(input),
            AppView::TestRunning => self.running_key(input),
            AppView::TestResults => self.results_key(input),
        }
    }

    /// What a key asks for, on whatever screen is shown.
    pub open spec fn key_request(self, input: KeyInput) -> Request {
        match self.view {
            AppView::TestList => self.list_request(input),
            AppView::TestDetail => self.detail_request(input),
            AppView::TestRunning => self.running_request(input),
            AppView::TestResults => self.results_request(input),
        }
    }
}

/// Decides `is_quit`.
pub fn quits(input: KeyInput) -> (b: bool)
    ensures
        b == is_quit(input),
{
    match input.key {
        Key::Esc => true,
        Key::Char(c) => c == 'q' || (input.control && (c == 'c' || c == 'C')),
        _ => false,
    }
}

/// Decides `is_up`.
pub fn moves_up(input: KeyInput) -> (b: bool)
    ensures
        b == is_up(input),
{
    match input.key {
        Key::Up => true,
        Key::Char(c) => c == 'k',
        _ => false,
    }
}

/// Decides `is_down`.
pub fn moves_down(input: KeyInput) -> (b: bool)
    ensures
        b == is_down(input),
{
    match input.key {
        Key::Down => true,
        Key::Char(c) => c == 'j',
        _ => false,
    }
}

/// The action that stands for a command to launch, if there is one.
fn launch_action(launch: Option<Launch>) -> (action: Action)
    ensures
        action@ == launch_request(
            match launch {
                Some(l) => Some(l@),
                None => None,
            },
        ),
{
    match launch {
        Some(l) => Action::Launch(l),
        None => Action::Nothing,
    }
}

impl App {
    /// Moves the file cursor up `n` times.
    fn previous_by(&mut self, n: usize)
        ensures
            final(self)@ == old(self)@.moved_up_by(n as nat),
    {
        let mut i: usize = 0;
        while i < n
            invariant
                i <= n,
                self@ == old(self)@.moved_up_by(i as nat),
            decreases n - i,
        {
            self.previous();
            i += 1;
        }
    }

    /// Moves the file cursor down `n` times.
    fn next_by(&mut self, n: usize)
        ensures
            final(self)@ == old(self)@.moved_down_by(n as nat),
    {
        let mut i: usize = 0;
        while i < n
            invariant
                i <= n,
                self@ == old(self)@.moved_down_by(i as nat),
            decreases n - i,
        {
            self.next();
            i += 1;
        }
    }

    /// Takes in a key on the file list.
    fn on_list_key(&mut self, input: KeyInput) -> (action: Action)
        requires
            old(self).wf(),
        ensures
            final(self)@ == old(self)@.list_key(input),
            action@ == old(self)@.list_request(input),
    {
        if quits(input) {
            self.quit();
            return Action::Nothing;
        }
        if moves_up(input) {
            self.previous();
            return Action::Nothing;
        }
        if moves_down(input) {
            self.next();
            return Action::Nothing;
        }
        match input.key {
            Key::PageUp => {
                self.previous_by(PAGE);
                Action::Nothing
            },
            Key::PageDown => {
                self.next_by(PAGE);
                Action::Nothing
            },
            Key::Home => {
                self.selected_index = 0;
                self.scroll_offset = 0;
                Action::Nothing
            },
            Key::End => {
                if self.tests.len() > 0 {
                    self.selected_index = self.tests.len() - 1;
                }
                Action::Nothing
            },
            Key::Right => {
                if self.tests.len() == 0 {
                    Action::Nothing
                } else if input.control {
                    Action::ReadFile
                } else {
                    Action::ReadTests
                }
            },
            Key::Enter => {
                if self.tests.len() > 0 {
                    launch_action(self.run_test())
                } else {
                    Action::Nothing
                }
            },
            _ => Action::Nothing,
        }
    }

    /// Takes in a key on the detail screen.
    fn on_detail_key(&mut self, input: KeyInput) -> (action: Action)
        requires
            old(self).wf(),
        ensures
            final(self)@ == old(self)@.detail_key(input),
            action@ == old(self)@.detail_request(input),
    {
        if quits(input) {
            self.quit();
            return Action::Nothing;
        }
        match input.key {
            Key::Left => {
                self.go_back();
                Action::Nothing
            },
            Key::Enter => launch_action(self.run_test()),
            _ => Action::Nothing,
        }
    }

    /// Takes in a key on the running screen.
    fn on_running_key(&mut self, input: KeyInput) -> (action: Action)
        requires
            old(self).wf(),
        ensures
            final(self)@ == old(self)@.running_key(input),
            action@ == old(self)@.running_request(input),
    {
        if quits(input) {
            self.quit();
            return Action::Nothing;
        }
        match input.key {
            Key::Left => {
                self.go_back();
                Action::Nothing
            },
            Key::Right => {
                if !self.test_loading {
                    self.view_test_results();
                }
                Action::Nothing
            },
            Key::Enter => {
                if self.test_loading {
                    Action::Nothing
                } else {
                    self.parse_test_results();
                    if self.individual_tests.len() > 0 {
                        self.view_test_results();
                        Action::Nothing
                    } else {
                        assert(self@ == self@.results_viewed());
                        match self.clipboard_command() {
                            Some(command) => Action::Copy(command),
                            None => Action::Nothing,
                        }
                    }
                }
            },
            Key::Up => {
                self.scroll_up(1);
                Action::Nothing
            },
            Key::Down => {
                self.scroll_down(1);
                Action::Nothing
            },
            Key::PageUp => {
                self.scroll_up(PAGE);
                Action::Nothing
            },
            Key::PageDown => {
                self.scroll_down(PAGE);
                Action::Nothing
            },
            Key::Home => {
                self.terminal_scroll = 0;
                Action::Nothing
            },
            Key::End => {
                let line_count = self.output_lines();
                self.terminal_scroll = line_count.saturating_sub(VISIBLE_LINES);
                Action::Nothing
            },
            _ => Action::Nothing,
        }
    }

    /// Takes in a key on the screen of test cases.
    fn on_results_key(&mut self, input: KeyInput) -> (action: Action)
        requires
            old(self).wf(),
        ensures
            final(self)@ == old(self)@.results_key(input),
            action@ == old(self)@.results_request(input),
    {
        if quits(input) {
            self.quit();
            return Action::Nothing;
        }
        if moves_up(input) {
            if self.individual_tests.len() > 0 {
                self.selected_test_index = self.selected_test_index.saturating_sub(1);
            }
            return Action::Nothing;
        }
        if moves_down(input) {
            if self.individual_tests.len() > 0 {
                let last = self.individual_tests.len() - 1;
                if self.selected_test_index < last {
                    self.selected_test_index = self.selected_test_index + 1;
                } else {
                    self.selected_test_index = last;
                }
            }
            return Action::Nothing;
        }
        match input.key {
            Key::Left => {
                if self.test_run_output.as_str().is_empty() {
                    self.view = AppView::TestList;
                } else {
                    self.view = AppView::TestRunning;
                }
                Action::Nothing
            },
            Key::Right | Key::Enter => launch_action(self.run_individual_test()),
            _ => Action::Nothing,
        }
    }

    /// Takes in one key: changes the state as the screen that is shown
    /// rules, and says what is to be done outside the application.
    pub fn on_key_event(&mut self, input: KeyInput) -> (action: Action)
        requires
            old(self).wf(),
        ensures
            final(self)@ == old(self)@.key_pressed(input),
            action@ == old(self)@.key_request(input),
            final(self).wf(),
    {
        proof {
            lemma_key_keeps_wf(self@, input);
        }
        match self.view {
            AppView::TestList => self.on_list_key(input),
            AppView::TestDetail => self.on_detail_key(input),
            AppView::TestRunning => self.on_running_key(input),
            AppView::TestResults => self.on_results_key(input),
        }
    }

    /// Takes in what the terminal reports: a key that was pressed goes to
    /// `on_key_event`, and everything else is passed over.
    pub fn handle_event(&mut self, event: InputEvent) -> (action: Action)
        requires
            old(self).wf(),
        ensures
            final(self)@ == old(self)@.event_handled(event),
            action@ == old(self)@.event_request(event),
            final(self).wf(),
    {
        match event {
            InputEvent::Key { input, pressed } => {
                if pressed {
                    self.on_key_event(input)
                } else {
                    Action::Nothing
                }
            },
            _ => Action::Nothing,
        }
    }
}

impl Session {
    /// The session after something the terminal reported.
    pub open spec fn event_handled(self, event: InputEvent) -> Session {
        match event {
            InputEvent::Key { input, pressed } => if pressed {
                self.key_pressed(input)
            } else {
                self
            },
            _ => self,
        }
    }

    /// What something the terminal reported asks for.
    pub open spec fn event_request(self, event: InputEvent) -> Request {
        match event {
            InputEvent::Key { input, pressed } => if pressed {
                self.key_request(input)
            } else {
                Request::Nothing
            },
            _ => Request::Nothing,
        }
    }
}

/// Moving the file cursor up any number of times keeps a session well
/// formed.
pub proof fn lemma_moved_up_by_wf(s: Session, n: nat)
    requires
        s.wf(),
    ensures
        s.moved_up_by(n).wf(),
        s.moved_up_by(n).tests == s.tests,
        s.moved_up_by(n).test_loading == s.test_loading,
        s.moved_up_by(n).run_pending == s.run_pending,
    decreases n,
{
    if n > 0 {
        lemma_moved_up_by_wf(s, (n - 1) as nat);
    }
}

/// Moving the file cursor down any number of times keeps a session well
/// formed.
pub proof fn lemma_moved_down_by_wf(s: Session, n: nat)
    requires
        s.wf(),
    ensures
        s.moved_down_by(n).wf(),
        s.moved_down_by(n).tests == s.tests,
        s.moved_down_by(n).test_loading == s.test_loading,
        s.moved_down_by(n).run_pending == s.run_pending,
    decreases n,
{
    if n > 0 {
        lemma_moved_down_by_wf(s, (n - 1) as nat);
    }
}

/// No key leads a well-formed session to one that is not, nor puts one in
/// flight without awaiting a result.
pub proof fn lemma_key_keeps_wf(s: Session, input: KeyInput)
    requires
        s.wf(),
    ensures
        s.key_pressed(input).wf(),
        (s.test_loading ==> s.run_pending) ==> (s.key_pressed(input).test_loading
            ==> s.key_pressed(input).run_pending),
{
    lemma_moved_up_by_wf(s, PAGE as nat);
    lemma_moved_down_by_wf(s, PAGE as nat);
}

} // verus!
