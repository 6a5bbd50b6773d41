use vstd::prelude::*;
use vstd::string::StringExecFns;

verus! {

/// What the background of a run tells the application.
#[derive(Debug)]
pub enum TestResult {
    /// The run has begun.
    Running,
    /// The run has ended: with what it wrote to its standard output and to
    /// its standard error, or with the reason why it could not be launched.
    Completed(Result<(String, String), String>),
}

/// What one look at the channel of a run finds.
#[derive(Debug)]
pub enum Polled {
    /// A message of the run.
    Message(TestResult),
    /// Nothing yet.
    Empty,
    /// The channel is closed and holds no message.
    Disconnected,
}

/// What one look at the channel of a run finds, as a mathematical value.
pub ghost enum Signal {
    /// The run has begun.
    Running,
    /// The run has ended and wrote these two texts.
    Finished { stdout: Seq<char>, stderr: Seq<char> },
    /// The run could not be launched, for this reason.
    Failed { reason: Seq<char> },
    /// Nothing yet.
    Empty,
    /// The channel is closed and holds no message.
    Disconnected,
}

impl View for TestResult {
    type V = Signal;

    open spec fn view(&self) -> Signal {
        match self {
            TestResult::Running => Signal::Running,
            TestResult::Completed(Ok((out, err))) => Signal::Finished {
                stdout: out@,
                stderr: err@,
            },
            TestResult::Completed(Err(e)) => Signal::Failed { reason: e@ },
        }
    }
}

impl View for Polled {
    type V = Signal;

    open spec fn view(&self) -> Signal {
        match self {
            Polled::Message(m) => m@,
            Polled::Empty => Signal::Empty,
            Polled::Disconnected => Signal::Disconnected,
        }
    }
}

/// A process to launch, as a mathematical value.
pub ghost struct Command {
    /// The program.
    pub program: Seq<char>,
    /// Its arguments, in order.
    pub args: Seq<Seq<char>>,
    /// The directory in which it runs.
    pub dir: Seq<char>,
}

/// A process to launch.
#[derive(Debug)]
pub struct Launch {
    /// The program.
    pub program: String,
    /// Its arguments, in order.
    pub args: Vec<String>,
    /// The directory in which it runs.
    pub dir: String,
}

impl View for Launch {
    type V = Command;

    open spec fn view(&self) -> Command {
        Command { program: self.program@, args: self.args.deep_view(), dir: self.dir@ }
    }
}

/// `s` with a backslash before each double quote.
pub open spec fn escaped(s: Seq<char>) -> Seq<char>
    decreases s.len(),
{
    if s.len() == 0 {
        Seq::empty()
    } else if s.last() == '"' {
        escaped(s.drop_last()) + seq!['\\', '"']
    } else {
        escaped(s.drop_last()).push(s.last())
    }
}

/// The filter that selects the test named `name` and no other: the escaped
/// name between the anchors of a pattern.
pub open spec fn name_filter(name: Seq<char>) -> Seq<char> {
    "^"@ + escaped(name) + "$"@
}

/// The command that runs the whole of `file` in `dir`.
pub open spec fn file_command(file: Seq<char>, dir: Seq<char>) -> Command {
    Command { program: "npx"@, args: seq!["jest"@, file, "--no-cache"@], dir }
}

/// The command that runs the one test named `name` of `file` in `dir`.
pub open spec fn single_command(file: Seq<char>, name: Seq<char>, dir: Seq<char>) -> Command {
    Command {
        program: "npx"@,
        args: seq!["jest"@, file, "--no-cache"@, "--testNamePattern"@, name_filter(name)],
        dir,
    }
}

/// The shell command that runs the whole of `file` from `dir`.
pub open spec fn shell_text(dir: Seq<char>, file: Seq<char>) -> Seq<char> {
    "cd "@ + dir + " && npx jest "@ + file + " --no-cache"@
}

/// Computes `escaped`.
pub fn escape_quotes(name: &str) -> (out: String)
    ensures
        out@ == escaped(name@),
{
    let chars = crate::text::to_chars(name);
    let mut out: Vec<char> = Vec::new();
    let mut i: usize = 0;
    assert(chars@.subrange(0, 0) =~= Seq::<char>::empty());
    while i < chars.len()
        invariant
            i <= chars@.len(),
            out@ == escaped(chars@.subrange(0, i as int)),
        decreases chars@.len() - i,
    {
        proof {
            let upto = chars@.subrange(0, i + 1);
            assert(upto.drop_last() =~= chars@.subrange(0, i as int));
            assert(upto.last() == chars@[i as int]);
        }
        let ghost before = out@;
        if chars[i] == '"' {
            out.push('\\');
            out.push('"');
            assert(out@ =~= before + seq!['\\', '"']);
        } else {
            out.push(chars[i]);
        }
        i += 1;
    }
    assert(chars@.subrange(0, i as int) =~= chars@);
    crate::text::from_chars(out.as_slice())
}

/// Computes `name_filter`.
pub fn test_name_filter(name: &str) -> (out: String)
    ensures
        out@ == name_filter(name@),
{
    let mut out = "^".to_owned();
    let inner = escape_quotes(name);
    out.append(inner.as_str());
    out.append("$");
    out
}

/// Computes `file_command`.
pub fn file_run(test_file: &str, project_dir: &str) -> (out: Launch)
    ensures
        out@ == file_command(test_file@, project_dir@),
{
    let mut args: Vec<String> = Vec::new();
    args.push("jest".to_owned());
    args.push(test_file.to_owned());
    args.push("--no-cache".to_owned());
    let out = Launch { program: "npx".to_owned(), args, dir: project_dir.to_owned() };
    assert(out@.args =~= file_command(test_file@, project_dir@).args);
    out
}

/// Computes `single_command`.
pub fn single_test_run(test_file: &str, test_name: &str, project_dir: &str) -> (out: Launch)
    ensures
        out@ == single_command(test_file@, test_name@, project_dir@),
{
    let mut args: Vec<String> = Vec::new();
    args.push("jest".to_owned());
    args.push(test_file.to_owned());
    args.push("--no-cache".to_owned());
    args.push("--testNamePattern".to_owned());
    args.push(test_name_filter(test_name));
    let out = Launch { program: "npx".to_owned(), args, dir: project_dir.to_owned() };
    assert(out@.args =~= single_command(test_file@, test_name@, project_dir@).args);
    out
}

/// Computes `shell_text`.
pub fn shell_command(project_dir: &str, test_file: &str) -> (out: String)
    ensures
        out@ == shell_text(project_dir@, test_file@),
{
    let mut out = "cd ".to_owned();
    out.append(project_dir);
    out.append(" && npx jest ");
    out.append(test_file);
    out.append(" --no-cache");
    out
}

/// How far the background of a run has come.
#[derive(Debug, Clone, Copy, PartialEq, Eq, Structural)]
pub enum RunStage {
    /// Nothing was sent yet.
    Started,
    /// The start of the run was announced; its end is awaited.
    Announced,
    /// The end of the run was reported.
    Reported,
}

/// What the background of a run does next.
#[derive(Debug)]
pub enum RunStep {
    /// Send this message to the application.
    Send(TestResult),
    /// Wait for the process to end, and come back with what became of it.
    Wait,
    /// Stop: nothing is left to do.
    Stop,
}

/// What the background of a run does next, as a mathematical value.
pub ghost enum Move {
    /// Send this message to the application.
    Send(Signal),
    /// Wait for the process to end.
    Wait,
    /// Stop.
    Stop,
}

impl View for RunStep {
    type V = Move;

    open spec fn view(&self) -> Move {
        match self {
            RunStep::Send(m) => Move::Send(m@),
            RunStep::Wait => Move::Wait,
            RunStep::Stop => Move::Stop,
        }
    }
}

/// What became of a process, as a mathematical value: the texts it wrote,
/// or the reason why it could not be launched.
pub type Ending = Result<(Seq<char>, Seq<char>), Seq<char>>;

/// The message that reports `ending`.
pub open spec fn report_of(ending: Ending) -> Signal {
    match ending {
        Ok((stdout, stderr)) => Signal::Finished { stdout, stderr },
        Err(reason) => Signal::Failed { reason },
    }
}

/// The stage after one step of the background, where `ending` is what
/// became of the process, once that is known.
pub open spec fn stage_after(stage: RunStage, ending: Option<Ending>) -> RunStage {
    match stage {
        RunStage::Started => RunStage::Announced,
        RunStage::Announced => if ending is Some {
            RunStage::Reported
        } else {
            RunStage::Announced
        },
        RunStage::Reported => RunStage::Reported,
    }
}

/// What the background does in one step: it announces the run before
/// anything else, then waits for the process to end, reports what became
/// of it, and stops.
pub open spec fn move_at(stage: RunStage, ending: Option<Ending>) -> Move {
    match stage {
        RunStage::Started => Move::Send(Signal::Running),
        RunStage::Announced => match ending {
            Some(e) => Move::Send(report_of(e)),
            None => Move::Wait,
        },
        RunStage::Reported => Move::Stop,
    }
}

/// What became of a process, as the model has it.
pub open spec fn ending_of(outcome: Option<Result<(String, String), String>>) -> Option<Ending> {
    match outcome {
        Some(Ok((out, err))) => Some(Ok((out@, err@))),
        Some(Err(reason)) => Some(Err(reason@)),
        None => None,
    }
}

/// One step of the background of a run: the next stage and what to do.
/// `outcome` is what became of the process, once that is known.
pub fn next_step(stage: RunStage, outcome: Option<Result<(String, String), String>>) -> (r: (
    RunStage,
    RunStep,
))
    ensures
        r.0 == stage_after(stage, ending_of(outcome)),
        r.1@ == move_at(stage, ending_of(outcome)),
{
    match stage {
        RunStage::Started => (RunStage::Announced, RunStep::Send(TestResult::Running)),
        RunStage::Announced => match outcome {
            Some(result) => (RunStage::Reported, RunStep::Send(TestResult::Completed(result))),
            None => (RunStage::Announced, RunStep::Wait),
        },
        RunStage::Reported => (RunStage::Reported, RunStep::Stop),
    }
}

/// The stage that the background has reached after the steps `endings`.
pub open spec fn stage_reached(endings: Seq<Option<Ending>>) -> RunStage
    decreases endings.len(),
{
    if endings.len() == 0 {
        RunStage::Started
    } else {
        stage_after(stage_reached(endings.drop_last()), endings.last())
    }
}

/// The messages that the background has sent after the steps `endings`, in
/// the order in which it sent them.
pub open spec fn messages_sent(endings: Seq<Option<Ending>>) -> Seq<Signal>
    decreases endings.len(),
{
    if endings.len() == 0 {
        Seq::empty()
    } else {
        let before = messages_sent(endings.drop_last());
        match move_at(stage_reached(endings.drop_last()), endings.last()) {
            Move::Send(m) => before.push(m),
            _ => before,
        }
    }
}

/// Whatever happens to the process and whenever it is known, the
/// background sends at most two messages: first that the run has begun,
/// and only after it the one that reports the end of the run.
pub proof fn lemma_running_before_completed(endings: Seq<Option<Ending>>)
    ensures
        messages_sent(endings).len() <= 2,
        messages_sent(endings).len() >= 1 ==> messages_sent(endings)[0] == Signal::Running,
        messages_sent(endings).len() == 2 ==> !(messages_sent(endings)[1] is Running),
        match stage_reached(endings) {
            RunStage::Started => messages_sent(endings).len() == 0,
            RunStage::Announced => messages_sent(endings).len() == 1,
            RunStage::Reported => messages_sent(endings).len() == 2,
        },
    decreases endings.len(),
{
    if endings.len() > 0 {
        lemma_running_before_completed(endings.drop_last());
    }
}

} // verus!
