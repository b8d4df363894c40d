//! The supervision of the command that is run after a refresh, as a
//! machine that is told what happened and answers with what to do next.
//! It starts no process and reads no stream itself: its caller does, and
//! reports back.
//!
//! The command is started without input. Its two output streams are read
//! to their end, each by a reader of its own, before the command is
//! waited for, so that all it wrote is forwarded before its end is
//! judged.

use crate::forward::StreamTag;
use vstd::prelude::*;
use vstd::string::StringExecFns;

verus! {

/// The command to run: the program and what it is called with.
#[derive(Debug)]
pub struct ChildInvocation {
    pub program: String,
    pub args: Vec<String>,
}

/// A `ChildInvocation` as the contracts see it.
pub struct InvocationView {
    pub program: Seq<char>,
    pub args: Seq<Seq<char>>,
}

/// The texts of a vector of strings.
pub open spec fn texts(words: Seq<String>) -> Seq<Seq<char>> {
    words.map_values(|word: String| word@)
}

/// The words in a row, a space before each.
pub open spec fn spaced(words: Seq<Seq<char>>) -> Seq<char>
    decreases words.len(),
{
    if words.len() == 0 {
        Seq::empty()
    } else {
        spaced(words.drop_last()) + " "@ + words.last()
    }
}

impl InvocationView {
    /// The command as one line: the program and its arguments, a space
    /// before each argument.
    pub open spec fn command_line(self) -> Seq<char> {
        self.program + spaced(self.args)
    }

    /// The line logged before the command is started.
    pub open spec fn exec_notice(self) -> Seq<char> {
        "exec "@ + self.command_line()
    }
}

impl View for ChildInvocation {
    type V = InvocationView;

    open spec fn view(&self) -> InvocationView {
        InvocationView { program: self.program@, args: texts(self.args@) }
    }
}

impl ChildInvocation {
    /// The command that the words left over on a command line ask for:
    /// the first is the program, the others are its arguments. `None`
    /// where no word is left over.
    pub fn from_args(free: Vec<String>) -> (r: Option<ChildInvocation>)
        ensures
            r is Some <==> free@.len() > 0,
            r matches Some(c) ==> c@.program == free@[0]@ && c@.args == texts(free@).skip(1),
    {
        let mut args = free;
        if args.len() == 0 {
            return None;
        }
        let program = args.remove(0);
        proof {
            assert(texts(args@) == texts(free@).skip(1));
        }
        Some(ChildInvocation { program, args })
    }

    /// The command as one line: the program and its arguments, a space
    /// before each argument.
    pub fn command_line(&self) -> (line: String)
        ensures
            line@ == self@.command_line(),
    {
        let mut line = self.program.clone();
        let mut i: usize = 0;
        while i < self.args.len()
            invariant
                i <= self.args.len(),
                line@ == self.program@ + spaced(texts(self.args@).take(i as int)),
            decreases self.args.len() - i,
        {
            proof {
                let before = texts(self.args@).take(i as int);
                let now = texts(self.args@).take(i + 1);
                assert(now.drop_last() == before);
                assert(now.last() == self.args@[i as int]@);
            }
            line.append(" ");
            line.append(self.args[i].as_str());
            i = i + 1;
        }
        proof {
            assert(texts(self.args@).take(self.args@.len() as int) == texts(self.args@));
        }
        line
    }

    /// The line logged before the command is started.
    pub fn exec_notice(&self) -> (m: String)
        ensures
            m@ == self@.exec_notice(),
    {
        let mut m = String::from_str("exec ");
        m.append(self.command_line().as_str());
        m
    }

    /// A copy of the invocation.
    pub fn copy(&self) -> (c: ChildInvocation)
        ensures
            c@ == self@,
    {
        let mut args: Vec<String> = Vec::new();
        let mut i: usize = 0;
        while i < self.args.len()
            invariant
                i <= self.args.len(),
                texts(args@) == texts(self.args@).take(i as int),
            decreases self.args.len() - i,
        {
            let arg = self.args[i].clone();
            proof {
                assert(arg@ == self.args@[i as int]@);
                assert(texts(args@.push(arg)) == texts(args@).push(arg@));
                assert(texts(self.args@).take(i + 1) == texts(self.args@).take(i as int).push(
                    texts(self.args@)[i as int],
                ));
            }
            args.push(arg);
            i = i + 1;
        }
        proof {
            assert(texts(self.args@).take(self.args@.len() as int) == texts(self.args@));
        }
        ChildInvocation { program: self.program.clone(), args }
    }
}

/// How the command ended, as its caller saw it.
#[derive(Debug)]
pub enum ExitOutcome {
    /// It ran and ended. `success` says whether it ended well, `code` is
    /// its exit code where it has one, `status` its status as the system
    /// words it.
    Exited { success: bool, code: Option<i32>, status: String },
    /// It could not be started; `detail` says why.
    NotLaunched { detail: String },
}

/// How far the supervision has come.
#[derive(Clone, Copy, Debug, PartialEq, Eq, Structural)]
pub enum Phase {
    /// The command is not running yet.
    NotStarted,
    /// The command is running; its streams are not read yet.
    Spawned,
    /// The streams are read. A stream is open until its reader has seen
    /// its end.
    StreamsDraining { stdout_open: bool, stderr_open: bool },
    /// The supervision is over. It went well if there was no command to
    /// run, or if the command ended well after both streams had ended.
    Terminated { success: bool },
}

/// What the caller reports.
#[derive(Debug)]
pub enum SuperviseEvent {
    /// The command was started, without input, its output captured.
    Launched,
    /// A reader runs for each stream that was captured.
    ReadersStarted { stdout: bool, stderr: bool },
    /// The reader of a stream has seen its end.
    StreamEnded(StreamTag),
    /// A stream could not be read; `detail` says why.
    StreamFailed { tag: StreamTag, detail: String },
    /// The command could not be waited for; `detail` says why.
    WaitFailed { detail: String },
    /// The command ended, or could not be started.
    Outcome(ExitOutcome),
}

/// Why a supervision failed.
#[derive(Debug)]
pub enum SuperviseError {
    /// The command could not be started.
    Spawn { detail: String },
    /// An output stream of the command could not be read.
    StreamRead { tag: StreamTag, detail: String },
    /// The command could not be waited for.
    Wait { detail: String },
    /// The command ended, and not well.
    ProcessExit { invocation: ChildInvocation, code: Option<i32>, status: String },
    /// The caller reported what the supervision did not wait for.
    OutOfTurn,
}

/// What the caller is to do next.
#[derive(Debug)]
pub enum SuperviseAction {
    /// Log `notice`, then start the command with no input and both
    /// output streams captured.
    Spawn { invocation: ChildInvocation, notice: String },
    /// Start a reader for each captured stream, which forwards its lines.
    StartReaders,
    /// Wait until the reader of this stream has seen its end.
    Join(StreamTag),
    /// Wait until the command has ended.
    Wait,
    /// Nothing more: the supervision went well.
    Finish,
    /// Nothing more: the supervision failed.
    Abort(SuperviseError),
}

/// An `ExitOutcome` as the contracts see it.
pub enum OutcomeView {
    Exited { success: bool, code: Option<i32>, status: Seq<char> },
    NotLaunched { detail: Seq<char> },
}

/// A `SuperviseEvent` as the contracts see it.
pub enum SuperviseEventView {
    Launched,
    ReadersStarted { stdout: bool, stderr: bool },
    StreamEnded(StreamTag),
    StreamFailed { tag: StreamTag, detail: Seq<char> },
    WaitFailed { detail: Seq<char> },
    Outcome(OutcomeView),
}

/// A `SuperviseError` as the contracts see it.
pub enum SuperviseErrorView {
    Spawn { detail: Seq<char> },
    StreamRead { tag: StreamTag, detail: Seq<char> },
    Wait { detail: Seq<char> },
    ProcessExit { invocation: InvocationView, code: Option<i32>, status: Seq<char> },
    OutOfTurn,
}

/// A `SuperviseAction` as the contracts see it.
pub enum SuperviseActionView {
    Spawn { invocation: InvocationView, notice: Seq<char> },
    StartReaders,
    Join(StreamTag),
    Wait,
    Finish,
    Abort(SuperviseErrorView),
}

impl View for ExitOutcome {
    type V = OutcomeView;

    open spec fn view(&self) -> OutcomeView {
        match self {
            ExitOutcome::Exited { success, code, status } => OutcomeView::Exited {
                success: *success,
                code: *code,
                status: status@,
            },
            ExitOutcome::NotLaunched { detail } => OutcomeView::NotLaunched { detail: detail@ },
        }
    }
}

impl View for SuperviseEvent {
    type V = SuperviseEventView;

    open spec fn view(&self) -> SuperviseEventView {
        match self {
            SuperviseEvent::Launched => SuperviseEventView::Launched,
            SuperviseEvent::ReadersStarted { stdout, stderr } => {
                SuperviseEventView::ReadersStarted { stdout: *stdout, stderr: *stderr }
            },
            SuperviseEvent::StreamEnded(tag) => SuperviseEventView::StreamEnded(*tag),
            SuperviseEvent::StreamFailed { tag, detail } => SuperviseEventView::StreamFailed {
                tag: *tag,
                detail: detail@,
            },
            SuperviseEvent::WaitFailed { detail } => SuperviseEventView::WaitFailed {
                detail: detail@,
            },
            SuperviseEvent::Outcome(outcome) => SuperviseEventView::Outcome(outcome@),
        }
    }
}

impl View for SuperviseError {
    type V = SuperviseErrorView;

    open spec fn view(&self) -> SuperviseErrorView {
        match self {
            SuperviseError::Spawn { detail } => SuperviseErrorView::Spawn { detail: detail@ },
            SuperviseError::StreamRead { tag, detail } => SuperviseErrorView::StreamRead {
                tag: *tag,
                detail: detail@,
            },
            SuperviseError::Wait { detail } => SuperviseErrorView::Wait { detail: detail@ },
            SuperviseError::ProcessExit { invocation, code, status } => {
                SuperviseErrorView::ProcessExit {
                    invocation: invocation@,
                    code: *code,
                    status: status@,
                }
            },
            SuperviseError::OutOfTurn => SuperviseErrorView::OutOfTurn,
        }
    }
}

impl SuperviseErrorView {
    /// The error in words.
    pub open spec fn message_text(self) -> Seq<char> {
        match self {
            SuperviseErrorView::Spawn { detail } => "failed to start the command: "@ + detail,
            SuperviseErrorView::StreamRead { tag, detail } => "failed to read "@ + tag.label()
                + ": "@ + detail,
            SuperviseErrorView::Wait { detail } => "failed to wait for the command: "@ + detail,
            SuperviseErrorView::ProcessExit { invocation, code, status } => invocation.exec_notice()
                + ": failed "@ + status,
            SuperviseErrorView::OutOfTurn => "supervision was told of a step it did not ask for"@,
        }
    }

    /// The exit code of a run that ends with this error: 100 where a
    /// stream could not be read, and else 1.
    pub open spec fn exit_code(self) -> i32 {
        if self is StreamRead {
            100
        } else {
            1
        }
    }
}

impl SuperviseError {
    /// The error in words.
    pub fn message(&self) -> (m: String)
        ensures
            m@ == self@.message_text(),
    {
        match self {
            SuperviseError::Spawn { detail } => {
                let mut m = String::from_str("failed to start the command: ");
                m.append(detail.as_str());
                m
            },
            SuperviseError::StreamRead { tag, detail } => {
                let mut m = String::from_str("failed to read ");
                m.append(tag.as_str());
                m.append(": ");
                m.append(detail.as_str());
                m
            },
            SuperviseError::Wait { detail } => {
                let mut m = String::from_str("failed to wait for the command: ");
                m.append(detail.as_str());
                m
            },
            SuperviseError::ProcessExit { invocation, code, status } => {
                let mut m = invocation.exec_notice();
                m.append(": failed ");
                m.append(status.as_str());
                m
            },
            SuperviseError::OutOfTurn => String::from_str(
                "supervision was told of a step it did not ask for",
            ),
        }
    }

    /// The exit code of a run that ends with this error.
    pub fn exit_code(&self) -> (code: i32)
        ensures
            code == self@.exit_code(),
    {
        match self {
            SuperviseError::StreamRead { .. } => 100,
            _ => 1,
        }
    }
}

impl View for SuperviseAction {
    type V = SuperviseActionView;

    open spec fn view(&self) -> SuperviseActionView {
        match self {
            SuperviseAction::Spawn { invocation, notice } => SuperviseActionView::Spawn {
                invocation: invocation@,
                notice: notice@,
            },
            SuperviseAction::StartReaders => SuperviseActionView::StartReaders,
            SuperviseAction::Join(tag) => SuperviseActionView::Join(*tag),
            SuperviseAction::Wait => SuperviseActionView::Wait,
            SuperviseAction::Finish => SuperviseActionView::Finish,
            SuperviseAction::Abort(e) => SuperviseActionView::Abort(e@),
        }
    }
}

/// The phase in which streams are read, and what is asked then: to wait
/// for the reader of standard output while that stream is open, else for
/// the reader of standard error, and for the command when both have
/// ended.
pub open spec fn draining(stdout_open: bool, stderr_open: bool) -> (Phase, SuperviseActionView) {
    (
        Phase::StreamsDraining { stdout_open, stderr_open },
        if stdout_open {
            SuperviseActionView::Join(StreamTag::Stdout)
        } else if stderr_open {
            SuperviseActionView::Join(StreamTag::Stderr)
        } else {
            SuperviseActionView::Wait
        },
    )
}

/// The end of a supervision that failed.
pub open spec fn failed(error: SuperviseErrorView) -> (Phase, SuperviseActionView) {
    (Phase::Terminated { success: false }, SuperviseActionView::Abort(error))
}

/// The phase that follows `phase` when `event` is reported, and what is
/// asked of the caller then. `invocation` is the command supervised.
pub open spec fn next_phase(invocation: InvocationView, phase: Phase, event: SuperviseEventView) -> (
    Phase,
    SuperviseActionView,
) {
    match (phase, event) {
        (Phase::NotStarted, SuperviseEventView::Launched) => (
            Phase::Spawned,
            SuperviseActionView::StartReaders,
        ),
        (
            Phase::NotStarted,
            SuperviseEventView::Outcome(OutcomeView::NotLaunched { detail }),
        ) => failed(SuperviseErrorView::Spawn { detail }),
        (Phase::Spawned, SuperviseEventView::ReadersStarted { stdout, stderr }) => draining(
            stdout,
            stderr,
        ),
        (
            Phase::StreamsDraining { stdout_open, stderr_open },
            SuperviseEventView::StreamEnded(tag),
        ) => match tag {
            StreamTag::Stdout => draining(false, stderr_open),
            StreamTag::Stderr => draining(stdout_open, false),
        },
        (Phase::StreamsDraining { .. }, SuperviseEventView::StreamFailed { tag, detail }) => failed(
            SuperviseErrorView::StreamRead { tag, detail },
        ),
        (
            Phase::StreamsDraining { stdout_open: false, stderr_open: false },
            SuperviseEventView::WaitFailed { detail },
        ) => failed(SuperviseErrorView::Wait { detail }),
        (
            Phase::StreamsDraining { stdout_open: false, stderr_open: false },
            SuperviseEventView::Outcome(OutcomeView::Exited { success, code, status }),
        ) => if success {
            (Phase::Terminated { success: true }, SuperviseActionView::Finish)
        } else {
            failed(SuperviseErrorView::ProcessExit { invocation, code, status })
        },
        (Phase::Terminated { success }, _) => (
            Phase::Terminated { success },
            SuperviseActionView::Abort(SuperviseErrorView::OutOfTurn),
        ),
        _ => failed(SuperviseErrorView::OutOfTurn),
    }
}

/// The supervision of one command.
#[derive(Debug)]
pub struct Supervisor {
    invocation: ChildInvocation,
    phase: Phase,
}

impl Supervisor {
    /// The command supervised.
    pub closed spec fn invocation(&self) -> InvocationView {
        self.invocation@
    }

    /// How far the supervision has come.
    pub closed spec fn spec_phase(&self) -> Phase {
        self.phase
    }

    /// How far the supervision has come.
    #[verifier::when_used_as_spec(spec_phase)]
    pub fn phase(&self) -> (phase: Phase)
        ensures
            phase == self.spec_phase(),
    {
        self.phase
    }

    /// The supervision of `invocation`, and its first request: to start
    /// the command. Where the invocation names no program there is
    /// nothing to do, and the supervision has gone well.
    pub fn new(invocation: ChildInvocation) -> (r: (Supervisor, SuperviseAction))
        ensures
            r.0.invocation() == invocation@,
            (r.0.phase(), r.1@) == if invocation@.program.len() == 0 {
                (Phase::Terminated { success: true }, SuperviseActionView::Finish)
            } else {
                (
                    Phase::NotStarted,
                    SuperviseActionView::Spawn {
                        invocation: invocation@,
                        notice: invocation@.exec_notice(),
                    },
                )
            },
    {
        if invocation.program.as_str().is_empty() {
            (
                Supervisor { invocation, phase: Phase::Terminated { success: true } },
                SuperviseAction::Finish,
            )
        } else {
            let action = SuperviseAction::Spawn {
                invocation: invocation.copy(),
                notice: invocation.exec_notice(),
            };
            (Supervisor { invocation, phase: Phase::NotStarted }, action)
        }
    }

    /// Takes the report of what was asked for last, and asks for the next
    /// thing.
    pub fn step(&mut self, event: SuperviseEvent) -> (action: SuperviseAction)
        ensures
            final(self).invocation() == old(self).invocation(),
            (final(self).phase(), action@) == next_phase(
                old(self).invocation(),
                old(self).phase(),
                event@,
            ),
    {
        let (phase, action) = match (self.phase, event) {
            (Phase::NotStarted, SuperviseEvent::Launched) => (
                Phase::Spawned,
                SuperviseAction::StartReaders,
            ),
            (Phase::NotStarted, SuperviseEvent::Outcome(ExitOutcome::NotLaunched { detail })) => (
                Phase::Terminated { success: false },
                SuperviseAction::Abort(SuperviseError::Spawn { detail }),
            ),
            (Phase::Spawned, SuperviseEvent::ReadersStarted { stdout, stderr }) => drain(
                stdout,
                stderr,
            ),
            (
                Phase::StreamsDraining { stdout_open, stderr_open },
                SuperviseEvent::StreamEnded(tag),
            ) => match tag {
                StreamTag::Stdout => drain(false, stderr_open),
                StreamTag::Stderr => drain(stdout_open, false),
            },
            (Phase::StreamsDraining { .. }, SuperviseEvent::StreamFailed { tag, detail }) => (
                Phase::Terminated { success: false },
                SuperviseAction::Abort(SuperviseError::StreamRead { tag, detail }),
            ),
            (
                Phase::StreamsDraining { stdout_open: false, stderr_open: false },
                SuperviseEvent::WaitFailed { detail },
            ) => (
                Phase::Terminated { success: false },
                SuperviseAction::Abort(SuperviseError::Wait { detail }),
            ),
            (
                Phase::StreamsDraining { stdout_open: false, stderr_open: false },
                SuperviseEvent::Outcome(ExitOutcome::Exited { success, code, status }),
            ) => if success {
                (Phase::Terminated { success: true }, SuperviseAction::Finish)
            } else {
                (
                    Phase::Terminated { success: false },
                    SuperviseAction::Abort(
                        SuperviseError::ProcessExit {
                            invocation: self.invocation.copy(),
                            code,
                            status,
                        },
                    ),
                )
            },
            (Phase::Terminated { success }, _) => (
                Phase::Terminated { success },
                SuperviseAction::Abort(SuperviseError::OutOfTurn),
            ),
            _ => (
                Phase::Terminated { success: false },
                SuperviseAction::Abort(SuperviseError::OutOfTurn),
            ),
        };
        self.phase = phase;
        action
    }
}

fn drain(stdout_open: bool, stderr_open: bool) -> (r: (Phase, SuperviseAction))
    ensures
        (r.0, r.1@) == draining(stdout_open, stderr_open),
{
    let action = if stdout_open {
        SuperviseAction::Join(StreamTag::Stdout)
    } else if stderr_open {
        SuperviseAction::Join(StreamTag::Stderr)
    } else {
        SuperviseAction::Wait
    };
    (Phase::StreamsDraining { stdout_open, stderr_open }, action)
}

/// The verdict follows the command: when both streams have ended and the
/// command is reported to have ended well, the supervision has gone
/// well; when it is reported to have ended otherwise, the supervision
/// fails with the command, its exit code and its status as reported.
pub proof fn lemma_verdict_follows_exit(
    invocation: InvocationView,
    success: bool,
    code: Option<i32>,
    status: Seq<char>,
)
    ensures
        next_phase(
            invocation,
            Phase::StreamsDraining { stdout_open: false, stderr_open: false },
            SuperviseEventView::Outcome(OutcomeView::Exited { success, code, status }),
        ) == if success {
            (Phase::Terminated { success: true }, SuperviseActionView::Finish)
        } else {
            (
                Phase::Terminated { success: false },
                SuperviseActionView::Abort(
                    SuperviseErrorView::ProcessExit { invocation, code, status },
                ),
            )
        },
{
}

/// The end of the command is judged only after both streams have ended:
/// in no other phase is a reported exit taken for the verdict, and the
/// command is waited for only then.
pub proof fn lemma_streams_end_first(
    invocation: InvocationView,
    phase: Phase,
    event: SuperviseEventView,
)
    ensures
        ({
            let (after, action) = next_phase(invocation, phase, event);
            let drained = Phase::StreamsDraining { stdout_open: false, stderr_open: false };
            &&& action is Finish ==> phase == drained && after == (Phase::Terminated {
                success: true,
            })
            &&& action matches SuperviseActionView::Abort(
                SuperviseErrorView::ProcessExit { .. },
            ) ==> phase == drained
            &&& action is Wait ==> after == drained
            &&& after == (Phase::Terminated { success: true }) ==> phase == drained || phase
                == after
        }),
{
}

/// No phase is skipped: reading the streams begins only from `Spawned`,
/// `Spawned` is reached only from `NotStarted`, and a phase once left is
/// not come back to.
pub proof fn lemma_phases_in_order(
    invocation: InvocationView,
    phase: Phase,
    event: SuperviseEventView,
)
    ensures
        ({
            let after = next_phase(invocation, phase, event).0;
            &&& after is NotStarted ==> false
            &&& after is Spawned ==> phase is NotStarted
            &&& after is StreamsDraining ==> phase is Spawned || phase is StreamsDraining
            &&& phase is Terminated ==> after == phase
            &&& phase is StreamsDraining && after is StreamsDraining ==> (
            after->stdout_open ==> phase->stdout_open) && (after->stderr_open
                ==> phase->stderr_open)
        }),
{
}

} // verus!
