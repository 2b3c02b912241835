//! Running one command on the remote host.
//!
//! A command runs on a channel of its own: the channel is opened, the
//! command is started, its output is read to the end, the channel is
//! closed from the remote side, and the exit status is collected. An exit
//! status that is not zero is a failure like any other.

use crate::error::{Error, ErrorKind, ErrorView};
use crate::ssh::failure::{ssh_failure, ssh_failure_view};
use crate::text::is_suffix;
use vstd::prelude::*;

verus! {

/// The end of the message of a command that ran and exited with a status
/// other than zero. Callers that must tell this failure from others look
/// for it.
pub const NON_ZERO_EXIT: &'static str = "non-zero exit code";

/// The request that comes next on the command's channel.
#[derive(Debug, Clone, PartialEq, Eq)]
pub enum ChannelAction {
    /// Open a session channel.
    OpenChannel,
    /// Start the command on the channel.
    Exec(String),
    /// Read the command's output to its end.
    ReadOutput,
    /// Wait until the remote side has closed the channel.
    WaitClose,
    /// Ask for the command's exit status.
    ExitStatus,
    /// The run has ended. Its result can be taken.
    Stop,
}

/// The mathematical value of a [`ChannelAction`].
pub enum ChannelActionView {
    OpenChannel,
    Exec(Seq<char>),
    ReadOutput,
    WaitClose,
    ExitStatus,
    Stop,
}

impl View for ChannelAction {
    type V = ChannelActionView;

    open spec fn view(&self) -> ChannelActionView {
        match self {
            ChannelAction::OpenChannel => ChannelActionView::OpenChannel,
            ChannelAction::Exec(command) => ChannelActionView::Exec(command@),
            ChannelAction::ReadOutput => ChannelActionView::ReadOutput,
            ChannelAction::WaitClose => ChannelActionView::WaitClose,
            ChannelAction::ExitStatus => ChannelActionView::ExitStatus,
            ChannelAction::Stop => ChannelActionView::Stop,
        }
    }
}

/// What the remote side answered to a request.
#[derive(Debug, Clone, PartialEq, Eq)]
pub enum ChannelReply {
    /// The request succeeded and has nothing to tell.
    Done,
    /// The output that was read.
    Output(String),
    /// The exit status that was collected.
    ExitStatus(i32),
    /// The request failed; the text is what the transport said.
    Failed(String),
}

/// The mathematical value of a [`ChannelReply`].
pub enum ChannelReplyView {
    Done,
    Output(Seq<char>),
    ExitStatus(int),
    Failed(Seq<char>),
}

impl View for ChannelReply {
    type V = ChannelReplyView;

    open spec fn view(&self) -> ChannelReplyView {
        match self {
            ChannelReply::Done => ChannelReplyView::Done,
            ChannelReply::Output(text) => ChannelReplyView::Output(text@),
            ChannelReply::ExitStatus(code) => ChannelReplyView::ExitStatus(*code as int),
            ChannelReply::Failed(detail) => ChannelReplyView::Failed(detail@),
        }
    }
}

enum Stage {
    Opening,
    Starting,
    Reading,
    Closing { output: String },
    Collecting { output: String },
    Succeeded { output: String },
    Failed { error: Error },
}

/// The mathematical value of a run's position.
pub enum StageView {
    Opening,
    Starting,
    Reading,
    Closing { output: Seq<char> },
    Collecting { output: Seq<char> },
    Succeeded { output: Seq<char> },
    Failed { error: ErrorView },
}

impl View for Stage {
    type V = StageView;

    closed spec fn view(&self) -> StageView {
        match self {
            Stage::Opening => StageView::Opening,
            Stage::Starting => StageView::Starting,
            Stage::Reading => StageView::Reading,
            Stage::Closing { output } => StageView::Closing { output: output@ },
            Stage::Collecting { output } => StageView::Collecting { output: output@ },
            Stage::Succeeded { output } => StageView::Succeeded { output: output@ },
            Stage::Failed { error } => StageView::Failed { error: error@ },
        }
    }
}

/// The run of one command.
pub struct CommandRun {
    command: String,
    stage: Stage,
}

/// The mathematical value of a [`CommandRun`].
pub struct CommandRunView {
    pub command: Seq<char>,
    pub stage: StageView,
}

impl View for CommandRun {
    type V = CommandRunView;

    closed spec fn view(&self) -> CommandRunView {
        CommandRunView { command: self.command@, stage: self.stage@ }
    }
}

/// The failure when no channel could be opened.
pub open spec fn channel_failure(detail: Seq<char>) -> ErrorView {
    ssh_failure_view("Error creating SSH Channel"@, detail)
}

/// The failure when the command could not be started, its output not be
/// read or its exit status not be had.
pub open spec fn run_failure(command: Seq<char>, detail: Seq<char>) -> ErrorView {
    ssh_failure_view("Error running command "@ + command, detail)
}

/// The failure when the channel did not close.
pub open spec fn close_failure(command: Seq<char>, detail: Seq<char>) -> ErrorView {
    ssh_failure_view("Error running command, "@ + command, detail)
}

/// The failure of a command that ran and exited with a status other than
/// zero.
pub open spec fn exit_failure(command: Seq<char>) -> ErrorView {
    ErrorView {
        kind: ErrorKind::SSHError,
        message: "Command '"@ + command + "' finished with "@ + NON_ZERO_EXIT@,
    }
}

impl CommandRunView {
    /// The request that the run waits for.
    pub open spec fn action(self) -> ChannelActionView {
        match self.stage {
            StageView::Opening => ChannelActionView::OpenChannel,
            StageView::Starting => ChannelActionView::Exec(self.command),
            StageView::Reading => ChannelActionView::ReadOutput,
            StageView::Closing { .. } => ChannelActionView::WaitClose,
            StageView::Collecting { .. } => ChannelActionView::ExitStatus,
            StageView::Succeeded { .. } => ChannelActionView::Stop,
            StageView::Failed { .. } => ChannelActionView::Stop,
        }
    }

    /// The result of the run, once it has ended: the output of a command
    /// that exited with status zero, or the failure.
    pub open spec fn result(self) -> Option<Result<Seq<char>, ErrorView>> {
        match self.stage {
            StageView::Succeeded { output } => Some(Ok(output)),
            StageView::Failed { error } => Some(Err(error)),
            _ => None,
        }
    }

    /// The run after the reply to its request. A reply that does not
    /// answer the request changes nothing.
    pub open spec fn step(self, reply: ChannelReplyView) -> CommandRunView {
        let stage = match (self.stage, reply) {
            (StageView::Opening, ChannelReplyView::Done) => StageView::Starting,
            (StageView::Opening, ChannelReplyView::Failed(detail)) => StageView::Failed {
                error: channel_failure(detail),
            },
            (StageView::Starting, ChannelReplyView::Done) => StageView::Reading,
            (StageView::Starting, ChannelReplyView::Failed(detail)) => StageView::Failed {
                error: run_failure(self.command, detail),
            },
            (StageView::Reading, ChannelReplyView::Output(output)) => StageView::Closing { output },
            (StageView::Reading, ChannelReplyView::Failed(detail)) => StageView::Failed {
                error: run_failure(self.command, detail),
            },
            (StageView::Closing { output }, ChannelReplyView::Done) => StageView::Collecting {
                output,
            },
            (StageView::Closing { .. }, ChannelReplyView::Failed(detail)) => StageView::Failed {
                error: close_failure(self.command, detail),
            },
            (StageView::Collecting { output }, ChannelReplyView::ExitStatus(code)) => if code == 0 {
                StageView::Succeeded { output }
            } else {
                StageView::Failed { error: exit_failure(self.command) }
            },
            (StageView::Collecting { .. }, ChannelReplyView::Failed(detail)) => StageView::Failed {
                error: run_failure(self.command, detail),
            },
            (stage, _) => stage,
        };
        CommandRunView { command: self.command, stage }
    }
}

/// The run of `command` before anything was asked of the remote side.
pub open spec fn initial(command: Seq<char>) -> CommandRunView {
    CommandRunView { command, stage: StageView::Opening }
}

/// Prepares the run of one command.
pub fn run_command(command: &str) -> (r: CommandRun)
    ensures
        r@ == initial(command@),
{
    CommandRun { command: String::from_str(command), stage: Stage::Opening }
}

impl CommandRun {
    /// The request that the run waits for.
    pub fn action(&self) -> (r: ChannelAction)
        ensures
            r@ == self@.action(),
    {
        match &self.stage {
            Stage::Opening => ChannelAction::OpenChannel,
            Stage::Starting => ChannelAction::Exec(self.command.clone()),
            Stage::Reading => ChannelAction::ReadOutput,
            Stage::Closing { .. } => ChannelAction::WaitClose,
            Stage::Collecting { .. } => ChannelAction::ExitStatus,
            Stage::Succeeded { .. } => ChannelAction::Stop,
            Stage::Failed { .. } => ChannelAction::Stop,
        }
    }

    /// Takes the reply to the request that was asked for and moves on.
    pub fn advance(self, reply: ChannelReply) -> (r: CommandRun)
        ensures
            r@ == self@.step(reply@),
    {
        let CommandRun { command, stage } = self;
        let next = match (stage, reply) {
            (Stage::Opening, ChannelReply::Done) => Stage::Starting,
            (Stage::Opening, ChannelReply::Failed(detail)) => Stage::Failed {
                error: ssh_failure("Error creating SSH Channel", detail.as_str()),
            },
            (Stage::Starting, ChannelReply::Done) => Stage::Reading,
            (Stage::Starting, ChannelReply::Failed(detail)) => Stage::Failed {
                error: run_failed(command.as_str(), detail.as_str()),
            },
            (Stage::Reading, ChannelReply::Output(output)) => Stage::Closing { output },
            (Stage::Reading, ChannelReply::Failed(detail)) => Stage::Failed {
                error: run_failed(command.as_str(), detail.as_str()),
            },
            (Stage::Closing { output }, ChannelReply::Done) => Stage::Collecting { output },
            (Stage::Closing { .. }, ChannelReply::Failed(detail)) => Stage::Failed {
                error: close_failed(command.as_str(), detail.as_str()),
            },
            (Stage::Collecting { output }, ChannelReply::ExitStatus(code)) => if code == 0 {
                Stage::Succeeded { output }
            } else {
                Stage::Failed { error: exit_failed(command.as_str()) }
            },
            (Stage::Collecting { .. }, ChannelReply::Failed(detail)) => Stage::Failed {
                error: run_failed(command.as_str(), detail.as_str()),
            },
            (stage, _) => stage,
        };
        CommandRun { command, stage: next }
    }

    /// The result of the run, once it has ended.
    pub fn result(self) -> (r: Option<Result<String, Error>>)
        ensures
            result_view(r) == self@.result(),
    {
        match self.stage {
            Stage::Succeeded { output } => Some(Ok(output)),
            Stage::Failed { error } => Some(Err(error)),
            _ => None,
        }
    }
}

/// The view of a run's result.
pub open spec fn result_view(r: Option<Result<String, Error>>) -> Option<
    Result<Seq<char>, ErrorView>,
> {
    match r {
        Some(Ok(output)) => Some(Ok(output@)),
        Some(Err(e)) => Some(Err(e@)),
        None => None,
    }
}

/// The failure of a command that could not be run.
fn run_failed(command: &str, detail: &str) -> (r: Error)
    ensures
        r@ == run_failure(command@, detail@),
{
    let mut context = String::from_str("Error running command ");
    context.append(command);
    ssh_failure(context.as_str(), detail)
}

/// The failure of a channel that did not close.
fn close_failed(command: &str, detail: &str) -> (r: Error)
    ensures
        r@ == close_failure(command@, detail@),
{
    let mut context = String::from_str("Error running command, ");
    context.append(command);
    ssh_failure(context.as_str(), detail)
}

/// The failure of a command that exited with a status other than zero.
fn exit_failed(command: &str) -> (r: Error)
    ensures
        r@ == exit_failure(command@),
{
    let mut message = String::from_str("Command '");
    message.append(command);
    message.append("' finished with ");
    message.append(NON_ZERO_EXIT);
    Error::new(ErrorKind::SSHError, message)
}

/// A command succeeds only along one path: the channel opens, the command
/// starts, its output is read, the channel closes, and the exit status is
/// zero. The result is then the output that was read.
pub proof fn lemma_successful_run(command: Seq<char>, output: Seq<char>)
    ensures
        ({
            let start = initial(command);
            let opened = start.step(ChannelReplyView::Done);
            let started = opened.step(ChannelReplyView::Done);
            let read = started.step(ChannelReplyView::Output(output));
            let closed = read.step(ChannelReplyView::Done);
            let ended = closed.step(ChannelReplyView::ExitStatus(0));
            &&& start.action() == ChannelActionView::OpenChannel
            &&& opened.action() == ChannelActionView::Exec(command)
            &&& started.action() == ChannelActionView::ReadOutput
            &&& read.action() == ChannelActionView::WaitClose
            &&& closed.action() == ChannelActionView::ExitStatus
            &&& ended.action() == ChannelActionView::Stop
            &&& ended.result() == Some(Ok::<Seq<char>, ErrorView>(output))
        }),
{
}

/// The message of a command that exited with a status other than zero
/// ends with [`NON_ZERO_EXIT`].
pub proof fn lemma_exit_failure_ends_marked(command: Seq<char>)
    ensures
        is_suffix(exit_failure(command).message, NON_ZERO_EXIT@),
{
    let message = exit_failure(command).message;
    let front = "Command '"@ + command + "' finished with "@;
    assert(message =~= front + NON_ZERO_EXIT@);
    assert(message.subrange(message.len() - NON_ZERO_EXIT@.len(), message.len() as int)
        =~= NON_ZERO_EXIT@);
}

/// A command that exits with a status other than zero has failed, whatever
/// it printed.
pub proof fn lemma_non_zero_exit_fails(run: CommandRunView, code: int)
    requires
        run.stage is Collecting,
        code != 0,
    ensures
        run.step(ChannelReplyView::ExitStatus(code)).result() == Some(
            Err::<Seq<char>, ErrorView>(exit_failure(run.command)),
        ),
{
}

/// A request that fails ends the run with a failure of the remote session:
/// nothing is asked again.
pub proof fn lemma_failed_request_ends_run(run: CommandRunView, detail: Seq<char>)
    requires
        run.result() is None,
    ensures
        run.step(ChannelReplyView::Failed(detail)).result() matches Some(Err(e)) && e.kind
            == ErrorKind::SSHError,
        run.step(ChannelReplyView::Failed(detail)).action() == ChannelActionView::Stop,
{
}

/// A run that has ended stays as it is.
pub proof fn lemma_ended_run_stays(run: CommandRunView, reply: ChannelReplyView)
    requires
        run.result() is Some,
    ensures
        run.step(reply) == run,
{
}

/// A run has a result exactly when it asks for nothing more.
pub proof fn lemma_result_when_stopped(run: CommandRunView)
    ensures
        run.result() is Some <==> run.action() == ChannelActionView::Stop,
{
}

} // verus!
