//! Making an uploaded artifact run at every start of the remote host.
//!
//! The artifact is made executable; the user's crontab is saved to a
//! temporary file, a `@reboot` line for the artifact is added to that
//! file, the file is installed as the new crontab and removed. A user who
//! has no crontab yet makes the saving fail with an exit status other than
//! zero: the temporary file is then created empty instead. Every other
//! failure ends the installation.

use crate::error::{Error, ErrorView};
use crate::ssh::command::{exit_failure, lemma_exit_failure_ends_marked, NON_ZERO_EXIT};
use crate::text::{ends_with, is_suffix};
use vstd::prelude::*;

verus! {

/// The request that comes next.
#[derive(Debug, Clone, PartialEq, Eq)]
pub enum CronAction {
    /// Run this command on the remote host.
    Run(String),
    /// The installation has ended. Its result can be taken.
    Stop,
}

/// The mathematical value of a [`CronAction`].
pub enum CronActionView {
    Run(Seq<char>),
    Stop,
}

impl View for CronAction {
    type V = CronActionView;

    open spec fn view(&self) -> CronActionView {
        match self {
            CronAction::Run(command) => CronActionView::Run(command@),
            CronAction::Stop => CronActionView::Stop,
        }
    }
}

enum Stage {
    MakingExecutable,
    SavingCrontab,
    CreatingEmpty,
    AddingEntry,
    Installing,
    RemovingCopy,
    Installed,
    Failed { error: Error },
}

/// The mathematical value of an installation's position.
pub enum StageView {
    MakingExecutable,
    SavingCrontab,
    CreatingEmpty,
    AddingEntry,
    Installing,
    RemovingCopy,
    Installed,
    Failed { error: ErrorView },
}

impl View for Stage {
    type V = StageView;

    closed spec fn view(&self) -> StageView {
        match self {
            Stage::MakingExecutable => StageView::MakingExecutable,
            Stage::SavingCrontab => StageView::SavingCrontab,
            Stage::CreatingEmpty => StageView::CreatingEmpty,
            Stage::AddingEntry => StageView::AddingEntry,
            Stage::Installing => StageView::Installing,
            Stage::RemovingCopy => StageView::RemovingCopy,
            Stage::Installed => StageView::Installed,
            Stage::Failed { error } => StageView::Failed { error: error@ },
        }
    }
}

/// The installation of the reboot entry for one artifact.
pub struct CronJob {
    filename: String,
    stage: Stage,
}

/// The mathematical value of a [`CronJob`].
pub struct CronJobView {
    pub filename: Seq<char>,
    pub stage: StageView,
}

impl View for CronJob {
    type V = CronJobView;

    closed spec fn view(&self) -> CronJobView {
        CronJobView { filename: self.filename@, stage: self.stage@ }
    }
}

/// The command that makes the artifact executable.
pub open spec fn chmod_command(filename: Seq<char>) -> Seq<char> {
    "chmod +x "@ + filename
}

/// The command that saves the user's crontab to the temporary file.
pub open spec fn save_command() -> Seq<char> {
    "crontab -l > mycrontab"@
}

/// The command that creates the temporary file empty.
pub open spec fn touch_command() -> Seq<char> {
    "touch mycrontab"@
}

/// The crontab line that runs the artifact, which lies in the user's home
/// directory, at every start of the host.
pub open spec fn reboot_line(filename: Seq<char>) -> Seq<char> {
    "@reboot ~/"@ + filename
}

/// The command that adds the artifact's `@reboot` line to the temporary
/// file.
pub open spec fn entry_command(filename: Seq<char>) -> Seq<char> {
    "echo \""@ + reboot_line(filename) + "\" >> mycrontab"@
}

/// The command that installs the temporary file as the crontab.
pub open spec fn install_command() -> Seq<char> {
    "crontab mycrontab"@
}

/// The command that removes the temporary file.
pub open spec fn remove_command() -> Seq<char> {
    "rm mycrontab"@
}

/// Whether a failure of the saving says that the user has no crontab: its
/// message ends the way the message of a command does that exited with a
/// status other than zero.
pub open spec fn is_missing_crontab(e: ErrorView) -> bool {
    is_suffix(e.message, NON_ZERO_EXIT@)
}

/// How a command ended: its output, or the failure.
pub type CommandOutcome = Result<String, Error>;

/// The view of a command's outcome.
pub open spec fn outcome_view(outcome: CommandOutcome) -> Result<Seq<char>, ErrorView> {
    match outcome {
        Ok(output) => Ok(output@),
        Err(e) => Err(e@),
    }
}

impl CronJobView {
    /// The request that the installation waits for.
    pub open spec fn action(self) -> CronActionView {
        match self.stage {
            StageView::MakingExecutable => CronActionView::Run(chmod_command(self.filename)),
            StageView::SavingCrontab => CronActionView::Run(save_command()),
            StageView::CreatingEmpty => CronActionView::Run(touch_command()),
            StageView::AddingEntry => CronActionView::Run(entry_command(self.filename)),
            StageView::Installing => CronActionView::Run(install_command()),
            StageView::RemovingCopy => CronActionView::Run(remove_command()),
            StageView::Installed => CronActionView::Stop,
            StageView::Failed { .. } => CronActionView::Stop,
        }
    }

    /// The result of the installation, once it has ended.
    pub open spec fn result(self) -> Option<Result<(), ErrorView>> {
        match self.stage {
            StageView::Installed => Some(Ok(())),
            StageView::Failed { error } => Some(Err(error)),
            _ => None,
        }
    }

    /// The installation after its command ended with `outcome`.
    pub open spec fn step(self, outcome: Result<Seq<char>, ErrorView>) -> CronJobView {
        let stage = match self.stage {
            StageView::Installed => self.stage,
            StageView::Failed { .. } => self.stage,
            StageView::SavingCrontab => match outcome {
                Ok(_) => StageView::AddingEntry,
                Err(e) => if is_missing_crontab(e) {
                    StageView::CreatingEmpty
                } else {
                    StageView::Failed { error: e }
                },
            },
            working => match outcome {
                Err(e) => StageView::Failed { error: e },
                Ok(_) => match working {
                    StageView::MakingExecutable => StageView::SavingCrontab,
                    StageView::CreatingEmpty => StageView::AddingEntry,
                    StageView::AddingEntry => StageView::Installing,
                    StageView::Installing => StageView::RemovingCopy,
                    _ => StageView::Installed,
                },
            },
        };
        CronJobView { filename: self.filename, stage }
    }
}

/// The installation for `filename` before any command has run.
pub open spec fn initial(filename: Seq<char>) -> CronJobView {
    CronJobView { filename, stage: StageView::MakingExecutable }
}

/// Prepares the installation of the reboot entry for the artifact
/// `filename`, which lies in the remote user's home directory.
pub fn create_cron_job(filename: &str) -> (r: CronJob)
    ensures
        r@ == initial(filename@),
{
    CronJob { filename: String::from_str(filename), stage: Stage::MakingExecutable }
}

impl CronJob {
    /// The request that the installation waits for.
    pub fn action(&self) -> (r: CronAction)
        ensures
            r@ == self@.action(),
    {
        match &self.stage {
            Stage::MakingExecutable => {
                let mut command = String::from_str("chmod +x ");
                command.append(self.filename.as_str());
                CronAction::Run(command)
            },
            Stage::SavingCrontab => CronAction::Run(String::from_str("crontab -l > mycrontab")),
            Stage::CreatingEmpty => CronAction::Run(String::from_str("touch mycrontab")),
            Stage::AddingEntry => {
                let mut line = String::from_str("@reboot ~/");
                line.append(self.filename.as_str());
                let mut command = String::from_str("echo \"");
                command.append(line.as_str());
                command.append("\" >> mycrontab");
                CronAction::Run(command)
            },
            Stage::Installing => CronAction::Run(String::from_str("crontab mycrontab")),
            Stage::RemovingCopy => CronAction::Run(String::from_str("rm mycrontab")),
            Stage::Installed => CronAction::Stop,
            Stage::Failed { .. } => CronAction::Stop,
        }
    }

    /// Takes the outcome of the command that was asked for and moves on.
    pub fn advance(self, outcome: CommandOutcome) -> (r: CronJob)
        ensures
            r@ == self@.step(outcome_view(outcome)),
    {
        let CronJob { filename, stage } = self;
        let next = match stage {
            Stage::Installed => Stage::Installed,
            Stage::Failed { error } => Stage::Failed { error },
            Stage::SavingCrontab => match outcome {
                Ok(_) => Stage::AddingEntry,
                Err(e) => if ends_with(e.message.as_str(), NON_ZERO_EXIT) {
                    Stage::CreatingEmpty
                } else {
                    Stage::Failed { error: e }
                },
            },
            working => match outcome {
                Err(e) => Stage::Failed { error: e },
                Ok(_) => match working {
                    Stage::MakingExecutable => Stage::SavingCrontab,
                    Stage::CreatingEmpty => Stage::AddingEntry,
                    Stage::AddingEntry => Stage::Installing,
                    Stage::Installing => Stage::RemovingCopy,
                    _ => Stage::Installed,
                },
            },
        };
        CronJob { filename, stage: next }
    }

    /// The result of the installation, once it has ended.
    pub fn result(self) -> (r: Option<Result<(), Error>>)
        ensures
            result_view(r) == self@.result(),
    {
        match self.stage {
            Stage::Installed => Some(Ok(())),
            Stage::Failed { error } => Some(Err(error)),
            _ => None,
        }
    }
}

/// The view of an installation's result.
pub open spec fn result_view(r: Option<Result<(), Error>>) -> Option<Result<(), ErrorView>> {
    match r {
        Some(Ok(_)) => Some(Ok(())),
        Some(Err(e)) => Some(Err(e@)),
        None => None,
    }
}

/// A command that exits with a status other than zero fails with a
/// message that the installation takes for a missing crontab.
pub proof fn lemma_exit_failure_is_recognised(command: Seq<char>)
    ensures
        is_missing_crontab(exit_failure(command)),
{
    lemma_exit_failure_ends_marked(command);
}

/// On a host whose user has no crontab the installation still succeeds:
/// the failed saving is answered by creating the temporary file empty, and
/// the run goes on as usual. Six commands are asked for, in this order.
pub proof fn lemma_installs_without_crontab(
    filename: Seq<char>,
    missing: ErrorView,
    output: Seq<char>,
)
    requires
        is_missing_crontab(missing),
    ensures
        ({
            let start = initial(filename);
            let executable = start.step(Ok(output));
            let unsaved = executable.step(Err(missing));
            let created = unsaved.step(Ok(output));
            let added = created.step(Ok(output));
            let installed = added.step(Ok(output));
            let removed = installed.step(Ok(output));
            &&& start.action() == CronActionView::Run(chmod_command(filename))
            &&& executable.action() == CronActionView::Run(save_command())
            &&& unsaved.action() == CronActionView::Run(touch_command())
            &&& created.action() == CronActionView::Run(entry_command(filename))
            &&& added.action() == CronActionView::Run(install_command())
            &&& installed.action() == CronActionView::Run(remove_command())
            &&& removed.action() == CronActionView::Stop
            &&& removed.result() == Some(Ok::<(), ErrorView>(()))
        }),
{
}

/// On a host whose user has a crontab the installation asks for five
/// commands: the temporary file is never created empty.
pub proof fn lemma_installs_with_crontab(filename: Seq<char>, output: Seq<char>)
    ensures
        ({
            let start = initial(filename);
            let executable = start.step(Ok(output));
            let saved = executable.step(Ok(output));
            let added = saved.step(Ok(output));
            let installed = added.step(Ok(output));
            let removed = installed.step(Ok(output));
            &&& start.action() == CronActionView::Run(chmod_command(filename))
            &&& executable.action() == CronActionView::Run(save_command())
            &&& saved.action() == CronActionView::Run(entry_command(filename))
            &&& added.action() == CronActionView::Run(install_command())
            &&& installed.action() == CronActionView::Run(remove_command())
            &&& removed.action() == CronActionView::Stop
            &&& removed.result() == Some(Ok::<(), ErrorView>(()))
        }),
{
}

/// Only one command of an installation adds a line to the temporary file,
/// and the line it adds is the artifact's: no other command is the one
/// that adds the entry.
pub proof fn lemma_one_entry_command(filename: Seq<char>)
    ensures
        entry_command(filename) != chmod_command(filename),
        entry_command(filename) != save_command(),
        entry_command(filename) != touch_command(),
        entry_command(filename) != install_command(),
        entry_command(filename) != remove_command(),
{
    reveal_strlit("echo \"");
    reveal_strlit("chmod +x ");
    reveal_strlit("crontab -l > mycrontab");
    reveal_strlit("touch mycrontab");
    reveal_strlit("crontab mycrontab");
    reveal_strlit("rm mycrontab");
    assert(entry_command(filename)[0] == 'e');
    assert(chmod_command(filename)[0] == 'c');
    assert(save_command()[0] == 'c');
    assert(touch_command()[0] == 't');
    assert(install_command()[0] == 'c');
    assert(remove_command()[0] == 'r');
}

/// Every failure but the missing crontab ends the installation, and the
/// failure is handed on as it came.
pub proof fn lemma_other_failures_are_fatal(c: CronJobView, e: ErrorView)
    requires
        c.result() is None,
        !(c.stage is SavingCrontab && is_missing_crontab(e)),
    ensures
        c.step(Err(e)).result() == Some(Err::<(), ErrorView>(e)),
        c.step(Err(e)).action() == CronActionView::Stop,
{
}

/// An installation that has ended stays as it is.
pub proof fn lemma_ended_installation_stays(c: CronJobView, outcome: Result<Seq<char>, ErrorView>)
    requires
        c.result() is Some,
    ensures
        c.step(outcome) == c,
{
}

} // verus!
