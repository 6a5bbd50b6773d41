use crate::runner::Signal;
use crate::state::{AppView, Session};
use crate::text::lemma_line_count_bound;
use vstd::prelude::*;

verus! {

/// One step of the file cursor.
pub ghost enum CursorStep {
    /// Up by one.
    Up,
    /// Down by one.
    Down,
}

impl Session {
    /// The session after the file cursor took the steps `steps` in turn.
    pub open spec fn cursor_moved(self, steps: Seq<CursorStep>) -> Session
        decreases steps.len(),
    {
        if steps.len() == 0 {
            self
        } else {
            let before = self.cursor_moved(steps.drop_last());
            match steps.last() {
                CursorStep::Up => before.moved_up(),
                CursorStep::Down => before.moved_down(),
            }
        }
    }

    /// The session after the output was scrolled down `n` times by `amount`
    /// lines.
    pub open spec fn scrolled_down_by(self, n: nat, amount: nat) -> Session
        decreases n,
    {
        if n == 0 {
            self
        } else {
            self.scrolled_down_by((n - 1) as nat, amount).scrolled_down(amount)
        }
    }

    /// The session after each of `signals` was found on the channel in
    /// turn.
    pub open spec fn polled_all(self, signals: Seq<Signal>) -> Session
        decreases signals.len(),
    {
        if signals.len() == 0 {
            self
        } else {
            self.polled_all(signals.drop_last()).polled(signals.last())
        }
    }
}

/// Whether `signal` leaves a run in flight: it is no message that the run
/// has ended, and the channel is not closed.
pub open spec fn keeps_waiting(signal: Signal) -> bool {
    signal is Running || signal is Empty
}

/// However the file cursor is moved up and down over a list that is not
/// empty, it stays on a file of the list, and the list never starts below
/// it.
pub proof fn lemma_cursor_stays_in_list(s: Session, steps: Seq<CursorStep>)
    requires
        s.wf(),
        s.tests.len() > 0,
    ensures
        s.cursor_moved(steps).selected_index < s.tests.len(),
        s.cursor_moved(steps).scroll_offset <= s.cursor_moved(steps).selected_index,
        s.cursor_moved(steps).tests == s.tests,
        s.cursor_moved(steps).wf(),
    decreases steps.len(),
{
    if steps.len() > 0 {
        lemma_cursor_stays_in_list(s, steps.drop_last());
    }
}

/// A run of the selected file begins in flight and awaited, with the output
/// cleared: nothing of the earlier output is left.
pub proof fn lemma_run_clears_output(s: Session)
    requires
        s.tests.len() > 0,
    ensures
        s.run_started().test_run_output.len() == 0,
        s.run_started().test_loading,
        s.run_started().run_pending,
        s.run_started().view == AppView::TestRunning,
{
}

/// A run of the selected test case begins in flight and awaited, with the
/// output cleared: nothing of the earlier output is left.
pub proof fn lemma_single_run_clears_output(s: Session)
    requires
        s.can_run_single(),
        s.tests.len() > 0,
    ensures
        s.single_run_started().test_run_output.len() == 0,
        s.single_run_started().test_loading,
        s.single_run_started().run_pending,
        s.single_run_started().view == AppView::TestRunning,
{
}

/// A run is in flight only while its result is awaited: no start of a run
/// and no look at the channel leads from a session of which that holds to
/// one of which it does not.
pub proof fn lemma_flight_is_awaited(s: Session, signal: Signal)
    requires
        s.test_loading ==> s.run_pending,
    ensures
        s.run_started().test_loading ==> s.run_started().run_pending,
        s.single_run_started().test_loading ==> s.single_run_started().run_pending,
        s.polled(signal).test_loading ==> s.polled(signal).run_pending,
{
}

/// A channel that is closed without the end of the run ends the flight and
/// the waiting, and the output tells of the failure whatever it held.
pub proof fn lemma_closed_channel_is_shown(s: Session)
    requires
        s.run_pending,
    ensures
        s.polled(Signal::Disconnected).test_run_output
            == "Test execution failed or was cancelled"@,
        s.polled(Signal::Disconnected).test_run_output.len() > 0,
        !s.polled(Signal::Disconnected).test_loading,
        !s.polled(Signal::Disconnected).run_pending,
{
    reveal_strlit("Test execution failed or was cancelled");
}

/// A run that is in flight and awaited stays so, with its output
/// untouched, for as long as the channel gives no end of the run.
pub proof fn lemma_run_stays_in_flight(s: Session, signals: Seq<Signal>)
    requires
        s.test_loading,
        s.run_pending,
        forall|i: int| 0 <= i < signals.len() ==> keeps_waiting(#[trigger] signals[i]),
    ensures
        s.polled_all(signals) == s,
    decreases signals.len(),
{
    if signals.len() > 0 {
        lemma_run_stays_in_flight(s, signals.drop_last());
    }
}

/// The end of an awaited run, whatever it is, ends the flight and the
/// waiting.
pub proof fn lemma_end_of_run_is_taken_in(s: Session, signal: Signal)
    requires
        s.run_pending,
        !keeps_waiting(signal),
    ensures
        !s.polled(signal).test_loading,
        !s.polled(signal).run_pending,
{
}

/// A run that could not be launched leaves output that is not empty and
/// begins with the words that tell of the error, and the run is over.
pub proof fn lemma_launch_error_is_shown(s: Session, reason: Seq<char>)
    requires
        s.run_pending,
    ensures
        s.polled(Signal::Failed { reason }).test_run_output.len() > 0,
        "Error running test: "@.is_prefix_of(
            s.polled(Signal::Failed { reason }).test_run_output,
        ),
        s.polled(Signal::Failed { reason }).test_run_output == "Error running test: "@ + reason,
        !s.polled(Signal::Failed { reason }).test_loading,
{
    reveal_strlit("Error running test: ");
    let words = "Error running test: "@;
    assert(words.len() == 20);
    assert((words + reason).subrange(0, words.len() as int) =~= words);
}

/// Parsing the output of a run again changes nothing: the test cases are
/// replaced, never added to.
pub proof fn lemma_parsing_results_twice(s: Session)
    ensures
        s.results_parsed().results_parsed() == s.results_parsed(),
{
}

/// The test cases that parsing finds owe nothing to the test cases that
/// were there before.
pub proof fn lemma_parsing_replaces(s: Session, earlier: Seq<crate::outcome::Outcome>, at: nat)
    ensures
        (Session { individual_tests: earlier, selected_test_index: at, ..s }).results_parsed()
            == s.results_parsed(),
{
}

/// Parsing a source text again changes nothing.
pub proof fn lemma_parsing_definitions_twice(s: Session, content: Seq<char>)
    ensures
        s.definitions_parsed(content).definitions_parsed(content) == s.definitions_parsed(
            content,
        ),
{
}

/// Scrolling down never leads past the last line of the output.
pub proof fn lemma_scroll_stays_in_output(s: Session, n: nat, amount: nat)
    requires
        s.view == AppView::TestRunning,
        n >= 1,
    ensures
        s.scrolled_down_by(n, amount).terminal_scroll <= s.last_scroll(),
        s.scrolled_down_by(n, amount) == (Session {
            terminal_scroll: s.scrolled_down_by(n, amount).terminal_scroll,
            ..s
        }),
    decreases n,
{
    if n > 1 {
        lemma_scroll_stays_in_output(s, (n - 1) as nat, amount);
    } else {
        assert(s.scrolled_down_by(0, amount) == s);
    }
}

/// Scrolling down often enough ends on the last line of the output and
/// stays there.
pub proof fn lemma_scroll_saturates(s: Session, n: nat, amount: nat)
    requires
        s.view == AppView::TestRunning,
        amount >= 1,
        n >= 1,
        n >= s.last_scroll(),
    ensures
        s.scrolled_down_by(n, amount).terminal_scroll == s.last_scroll(),
{
    lemma_scroll_progress(s, n, amount);
}

/// After `n` scrolls down by at least one line the output stands at its
/// last line or at least `n` lines down.
proof fn lemma_scroll_progress(s: Session, n: nat, amount: nat)
    requires
        s.view == AppView::TestRunning,
        amount >= 1,
        n >= 1,
    ensures
        s.scrolled_down_by(n, amount).view == AppView::TestRunning,
        s.scrolled_down_by(n, amount).test_run_output == s.test_run_output,
        s.scrolled_down_by(n, amount).terminal_scroll == s.last_scroll() || (n
            <= s.scrolled_down_by(n, amount).terminal_scroll < s.last_scroll()),
    decreases n,
{
    if n > 1 {
        lemma_scroll_progress(s, (n - 1) as nat, amount);
    } else {
        assert(s.scrolled_down_by(0, amount) == s);
    }
}

/// The last line that the output can be scrolled to is a position that a
/// machine number holds.
pub proof fn lemma_last_scroll_bound(s: Session)
    ensures
        s.last_scroll() <= s.test_run_output.len(),
{
    lemma_line_count_bound(s.test_run_output);
}

/// No look at the channel leads a well-formed session to one that is not.
pub proof fn lemma_poll_keeps_wf(s: Session, signal: Signal)
    requires
        s.wf(),
    ensures
        s.polled(signal).wf(),
{
}

/// Every other step of a session keeps it well formed: moving a cursor,
/// scrolling, starting a run, stepping back, reading a file, parsing, copying
/// and stopping.
pub proof fn lemma_steps_keep_wf(s: Session, content: Seq<char>, read: Result<Seq<char>, Seq<char>>)
    requires
        s.wf(),
    ensures
        s.run_started().wf(),
        s.single_run_started().wf(),
        s.gone_back().wf(),
        s.results_parsed().wf(),
        s.results_viewed().wf(),
        s.definitions_parsed(content).wf(),
        s.file_parsed(read).wf(),
        s.tests_inspected(read).wf(),
        s.content_shown(read).wf(),
        s.stopped().wf(),
        s.moved_up().wf(),
        s.moved_down().wf(),
        forall|amount: nat| (#[trigger] s.scrolled_up(amount)).wf(),
        forall|amount: nat| (#[trigger] s.scrolled_down(amount)).wf(),
        forall|went_well: bool| (#[trigger] s.command_copied(went_well)).wf(),
{
}

} // verus!
