//! The pipeline of one job: which work comes next, and which stage the job
//! is in after each piece of work has succeeded or failed.
//!
//! The pipeline does no work itself. It names the next action; the caller
//! performs it and reports how it ended. Nothing is retried: the first
//! failure ends the job.

use crate::cf_check::{find_zone, may_edit, no_access_failure, verdict, ZoneListingView, ZoneView};
use crate::error::{Error, ErrorView};
use crate::job::status::{in_stage_order, not_before, JobStatus, StatusView};
use vstd::prelude::*;

verus! {

/// The work that the pipeline asks for next.
#[derive(Debug, Clone, PartialEq, Eq)]
pub enum PipelineAction {
    /// Ask the DNS provider whether the credentials may edit the zone.
    CheckCredentials,
    /// Write the source of the agent; the reply carries the file's name.
    GenerateSource,
    /// Compile the named source; the reply carries the binary's name.
    Compile(String),
    /// Open the remote session.
    Connect,
    /// Send the named binary to the remote host.
    Upload(String),
    /// Make the named binary run at every start of the remote host.
    InstallCron(String),
    /// Remove a local file that is no longer needed. How this action ends
    /// changes nothing.
    RemoveFile(String),
    /// Nothing is left to do.
    Stop,
}

/// The mathematical value of a [`PipelineAction`].
pub enum ActionView {
    CheckCredentials,
    GenerateSource,
    Compile(Seq<char>),
    Connect,
    Upload(Seq<char>),
    InstallCron(Seq<char>),
    RemoveFile(Seq<char>),
    Stop,
}

impl View for PipelineAction {
    type V = ActionView;

    open spec fn view(&self) -> ActionView {
        match self {
            PipelineAction::CheckCredentials => ActionView::CheckCredentials,
            PipelineAction::GenerateSource => ActionView::GenerateSource,
            PipelineAction::Compile(source) => ActionView::Compile(source@),
            PipelineAction::Connect => ActionView::Connect,
            PipelineAction::Upload(binary) => ActionView::Upload(binary@),
            PipelineAction::InstallCron(binary) => ActionView::InstallCron(binary@),
            PipelineAction::RemoveFile(path) => ActionView::RemoveFile(path@),
            PipelineAction::Stop => ActionView::Stop,
        }
    }
}

/// Where the pipeline stands: the action it waits for, with the file names
/// it has to remember.
enum Phase {
    CheckingCredentials,
    GeneratingSource,
    Compiling { source: String },
    DiscardingSource { source: String, compiled: Option<String> },
    Connecting { binary: String },
    Uploading { binary: String },
    DiscardingBinary { binary: String, install: bool },
    InstallingCron { binary: String },
    Finished,
}

/// The mathematical value of a pipeline's position.
pub enum PhaseView {
    CheckingCredentials,
    GeneratingSource,
    Compiling { source: Seq<char> },
    /// The source is being removed; `compiled` names the binary, if there
    /// is one.
    DiscardingSource { source: Seq<char>, compiled: Option<Seq<char>> },
    Connecting { binary: Seq<char> },
    Uploading { binary: Seq<char> },
    /// The binary is being removed; `install` tells whether it reached the
    /// remote host.
    DiscardingBinary { binary: Seq<char>, install: bool },
    InstallingCron { binary: Seq<char> },
    Finished,
}

impl View for Phase {
    type V = PhaseView;

    closed spec fn view(&self) -> PhaseView {
        match self {
            Phase::CheckingCredentials => PhaseView::CheckingCredentials,
            Phase::GeneratingSource => PhaseView::GeneratingSource,
            Phase::Compiling { source } => PhaseView::Compiling { source: source@ },
            Phase::DiscardingSource { source, compiled } => PhaseView::DiscardingSource {
                source: source@,
                compiled: match compiled {
                    Some(b) => Some(b@),
                    None => None,
                },
            },
            Phase::Connecting { binary } => PhaseView::Connecting { binary: binary@ },
            Phase::Uploading { binary } => PhaseView::Uploading { binary: binary@ },
            Phase::DiscardingBinary { binary, install } => PhaseView::DiscardingBinary {
                binary: binary@,
                install: *install,
            },
            Phase::InstallingCron { binary } => PhaseView::InstallingCron { binary: binary@ },
            Phase::Finished => PhaseView::Finished,
        }
    }
}

/// How an action ended: the text it produced, or the failure.
pub type Outcome = Result<String, Error>;

/// The mathematical value of an [`Outcome`].
pub type OutcomeView = Result<Seq<char>, ErrorView>;

/// The view of an outcome.
pub open spec fn outcome_view(outcome: Outcome) -> OutcomeView {
    match outcome {
        Ok(text) => Ok(text@),
        Err(e) => Err(e@),
    }
}

/// The pipeline of one job.
pub struct Pipeline {
    status: JobStatus,
    phase: Phase,
}

/// The mathematical value of a [`Pipeline`]: the stage that clients see and
/// the position of the work.
pub struct PipelineView {
    pub status: StatusView,
    pub phase: PhaseView,
}

impl View for Pipeline {
    type V = PipelineView;

    closed spec fn view(&self) -> PipelineView {
        PipelineView { status: self.status@, phase: self.phase@ }
    }
}

impl PipelineView {
    /// The published stage fits the position of the work.
    pub open spec fn wf(self) -> bool {
        match self.phase {
            PhaseView::CheckingCredentials => self.status == StatusView::CheckingToken,
            PhaseView::GeneratingSource => self.status == StatusView::BuildingScript,
            PhaseView::Compiling { .. } => self.status == StatusView::BuildingScript,
            PhaseView::DiscardingSource { compiled, .. } => if compiled is Some {
                self.status == StatusView::Uploading
            } else {
                self.status is Error
            },
            PhaseView::Connecting { .. } => self.status == StatusView::Uploading,
            PhaseView::Uploading { .. } => self.status == StatusView::Uploading,
            PhaseView::DiscardingBinary { install, .. } => if install {
                self.status == StatusView::CreatingCronJob
            } else {
                self.status is Error
            },
            PhaseView::InstallingCron { .. } => self.status == StatusView::CreatingCronJob,
            PhaseView::Finished => self.status.is_terminal(),
        }
    }

    /// The action that the pipeline waits for.
    pub open spec fn action(self) -> ActionView {
        match self.phase {
            PhaseView::CheckingCredentials => ActionView::CheckCredentials,
            PhaseView::GeneratingSource => ActionView::GenerateSource,
            PhaseView::Compiling { source } => ActionView::Compile(source),
            PhaseView::DiscardingSource { source, .. } => ActionView::RemoveFile(source),
            PhaseView::Connecting { .. } => ActionView::Connect,
            PhaseView::Uploading { binary } => ActionView::Upload(binary),
            PhaseView::DiscardingBinary { binary, .. } => ActionView::RemoveFile(binary),
            PhaseView::InstallingCron { binary } => ActionView::InstallCron(binary),
            PhaseView::Finished => ActionView::Stop,
        }
    }

    /// The pipeline after its action ended with `outcome`.
    ///
    /// A failure of real work ends the job with that failure. Files that
    /// are no longer needed are removed on the way, whether the job goes on
    /// or not, and how a removal ended changes nothing.
    pub open spec fn step(self, outcome: OutcomeView) -> PipelineView {
        match self.phase {
            PhaseView::CheckingCredentials => match outcome {
                Ok(_) => PipelineView {
                    status: StatusView::BuildingScript,
                    phase: PhaseView::GeneratingSource,
                },
                Err(e) => PipelineView { status: StatusView::Error(e), phase: PhaseView::Finished },
            },
            PhaseView::GeneratingSource => match outcome {
                Ok(source) => PipelineView {
                    status: StatusView::BuildingScript,
                    phase: PhaseView::Compiling { source },
                },
                Err(e) => PipelineView { status: StatusView::Error(e), phase: PhaseView::Finished },
            },
            PhaseView::Compiling { source } => match outcome {
                Ok(binary) => PipelineView {
                    status: StatusView::Uploading,
                    phase: PhaseView::DiscardingSource { source, compiled: Some(binary) },
                },
                Err(e) => PipelineView {
                    status: StatusView::Error(e),
                    phase: PhaseView::DiscardingSource { source, compiled: None },
                },
            },
            PhaseView::DiscardingSource { compiled, .. } => match compiled {
                Some(binary) => PipelineView {
                    status: self.status,
                    phase: PhaseView::Connecting { binary },
                },
                None => PipelineView { status: self.status, phase: PhaseView::Finished },
            },
            PhaseView::Connecting { binary } => match outcome {
                Ok(_) => PipelineView {
                    status: StatusView::Uploading,
                    phase: PhaseView::Uploading { binary },
                },
                Err(e) => PipelineView {
                    status: StatusView::Error(e),
                    phase: PhaseView::DiscardingBinary { binary, install: false },
                },
            },
            PhaseView::Uploading { binary } => match outcome {
                Ok(_) => PipelineView {
                    status: StatusView::CreatingCronJob,
                    phase: PhaseView::DiscardingBinary { binary, install: true },
                },
                Err(e) => PipelineView {
                    status: StatusView::Error(e),
                    phase: PhaseView::DiscardingBinary { binary, install: false },
                },
            },
            PhaseView::DiscardingBinary { binary, install } => if install {
                PipelineView { status: self.status, phase: PhaseView::InstallingCron { binary } }
            } else {
                PipelineView { status: self.status, phase: PhaseView::Finished }
            },
            PhaseView::InstallingCron { binary } => match outcome {
                Ok(_) => PipelineView { status: StatusView::Done(binary), phase: PhaseView::Finished },
                Err(e) => PipelineView { status: StatusView::Error(e), phase: PhaseView::Finished },
            },
            PhaseView::Finished => self,
        }
    }
}

/// The pipeline of a job that was just submitted: its first stage is the
/// check of the credentials.
pub open spec fn initial() -> PipelineView {
    PipelineView { status: StatusView::CheckingToken, phase: PhaseView::CheckingCredentials }
}

impl Pipeline {
    #[verifier::type_invariant]
    spec fn inv(self) -> bool {
        self@.wf()
    }

    /// Starts the pipeline of a submitted job.
    pub fn start() -> (r: Pipeline)
        ensures
            r@ == initial(),
    {
        Pipeline { status: JobStatus::CheckingToken, phase: Phase::CheckingCredentials }
    }

    /// The stage to publish for the job.
    pub fn status(&self) -> (r: &JobStatus)
        ensures
            r@ == self@.status,
    {
        &self.status
    }

    /// Whether the pipeline has nothing left to do.
    pub fn is_finished(&self) -> (r: bool)
        ensures
            r == (self@.phase is Finished),
            r == (self@.action() is Stop),
            r ==> self@.status.is_terminal(),
    {
        proof {
            use_type_invariant(self);
        }
        match self.phase {
            Phase::Finished => true,
            _ => false,
        }
    }

    /// The action that the pipeline waits for.
    pub fn action(&self) -> (r: PipelineAction)
        ensures
            r@ == self@.action(),
    {
        match &self.phase {
            Phase::CheckingCredentials => PipelineAction::CheckCredentials,
            Phase::GeneratingSource => PipelineAction::GenerateSource,
            Phase::Compiling { source } => PipelineAction::Compile(source.clone()),
            Phase::DiscardingSource { source, .. } => PipelineAction::RemoveFile(source.clone()),
            Phase::Connecting { .. } => PipelineAction::Connect,
            Phase::Uploading { binary } => PipelineAction::Upload(binary.clone()),
            Phase::DiscardingBinary { binary, .. } => PipelineAction::RemoveFile(binary.clone()),
            Phase::InstallingCron { binary } => PipelineAction::InstallCron(binary.clone()),
            Phase::Finished => PipelineAction::Stop,
        }
    }

    /// Takes the outcome of the action that was asked for and moves on.
    pub fn advance(self, outcome: Outcome) -> (r: Pipeline)
        ensures
            r@ == self@.step(outcome_view(outcome)),
            r@.wf(),
    {
        proof {
            use_type_invariant(&self);
        }
        let Pipeline { status, phase } = self;
        match phase {
            Phase::CheckingCredentials => match outcome {
                Ok(_) => Pipeline {
                    status: JobStatus::BuildingScript,
                    phase: Phase::GeneratingSource,
                },
                Err(e) => Pipeline { status: JobStatus::Error(e), phase: Phase::Finished },
            },
            Phase::GeneratingSource => match outcome {
                Ok(source) => Pipeline {
                    status: JobStatus::BuildingScript,
                    phase: Phase::Compiling { source },
                },
                Err(e) => Pipeline { status: JobStatus::Error(e), phase: Phase::Finished },
            },
            Phase::Compiling { source } => match outcome {
                Ok(binary) => Pipeline {
                    status: JobStatus::Uploading,
                    phase: Phase::DiscardingSource { source, compiled: Some(binary) },
                },
                Err(e) => Pipeline {
                    status: JobStatus::Error(e),
                    phase: Phase::DiscardingSource { source, compiled: None },
                },
            },
            Phase::DiscardingSource { source: _, compiled } => match compiled {
                Some(binary) => Pipeline { status, phase: Phase::Connecting { binary } },
                None => Pipeline { status, phase: Phase::Finished },
            },
            Phase::Connecting { binary } => match outcome {
                Ok(_) => Pipeline { status: JobStatus::Uploading, phase: Phase::Uploading { binary } },
                Err(e) => Pipeline {
                    status: JobStatus::Error(e),
                    phase: Phase::DiscardingBinary { binary, install: false },
                },
            },
            Phase::Uploading { binary } => match outcome {
                Ok(_) => Pipeline {
                    status: JobStatus::CreatingCronJob,
                    phase: Phase::DiscardingBinary { binary, install: true },
                },
                Err(e) => Pipeline {
                    status: JobStatus::Error(e),
                    phase: Phase::DiscardingBinary { binary, install: false },
                },
            },
            Phase::DiscardingBinary { binary, install } => if install {
                Pipeline { status, phase: Phase::InstallingCron { binary } }
            } else {
                Pipeline { status, phase: Phase::Finished }
            },
            Phase::InstallingCron { binary } => match outcome {
                Ok(_) => Pipeline { status: JobStatus::Done(binary), phase: Phase::Finished },
                Err(e) => Pipeline { status: JobStatus::Error(e), phase: Phase::Finished },
            },
            Phase::Finished => Pipeline { status, phase: Phase::Finished },
        }
    }
}

/// The pipeline after a sequence of outcomes, first to last.
pub open spec fn run(p: PipelineView, outcomes: Seq<OutcomeView>) -> PipelineView
    decreases outcomes.len(),
{
    if outcomes.len() == 0 {
        p
    } else {
        run(p.step(outcomes[0]), outcomes.drop_first())
    }
}

/// The stages that the job shows while the outcomes come in: one after
/// each outcome.
pub open spec fn published(p: PipelineView, outcomes: Seq<OutcomeView>) -> Seq<StatusView>
    decreases outcomes.len(),
{
    if outcomes.len() == 0 {
        Seq::empty()
    } else {
        let next = p.step(outcomes[0]);
        seq![next.status] + published(next, outcomes.drop_first())
    }
}

/// Whether an action is real work, not the removal of a file or the end.
pub open spec fn is_work(action: ActionView) -> bool {
    !(action is RemoveFile) && !(action is Stop)
}

/// One step keeps the stage or moves it to one that may follow, and the
/// stage still fits the position of the work.
pub proof fn lemma_step_moves_forward(p: PipelineView, outcome: OutcomeView)
    requires
        p.wf(),
    ensures
        p.step(outcome).wf(),
        p.step(outcome).status == p.status || p.status.can_become(p.step(outcome).status),
{
}

/// The first stage of the pipeline may follow `Submitted`.
pub proof fn lemma_initial_follows_submission()
    ensures
        initial().wf(),
        StatusView::Submitted.can_become(initial().status),
{
}

/// Stages come in order: whatever the outcomes, the stage that a job shows
/// never goes back and never returns to one it has left.
pub proof fn lemma_stages_in_order(p: PipelineView, outcomes: Seq<OutcomeView>)
    requires
        p.wf(),
    ensures
        in_stage_order(seq![p.status] + published(p, outcomes)),
    decreases outcomes.len(),
{
    let shown = seq![p.status] + published(p, outcomes);
    if outcomes.len() > 0 {
        let next = p.step(outcomes[0]);
        let rest = seq![next.status] + published(next, outcomes.drop_first());
        lemma_step_moves_forward(p, outcomes[0]);
        lemma_stages_in_order(next, outcomes.drop_first());
        assert(shown =~= seq![p.status] + rest);
        assert forall|i: int, j: int| 0 <= i < j < shown.len() implies not_before(
            #[trigger] shown[i],
            #[trigger] shown[j],
        ) by {
            assert(shown[j] == rest[j - 1]);
            if i == 0 {
                if j > 1 {
                    assert(not_before(rest[0], rest[j - 1]));
                }
            } else {
                assert(shown[i] == rest[i - 1]);
            }
        }
    }
}

/// The whole life of a job, from `Submitted` on, is in order.
pub proof fn lemma_job_history_in_order(outcomes: Seq<OutcomeView>)
    ensures
        in_stage_order(
            seq![StatusView::Submitted] + (seq![initial().status] + published(
                initial(),
                outcomes,
            )),
        ),
{
    let rest = seq![initial().status] + published(initial(), outcomes);
    let shown = seq![StatusView::Submitted] + rest;
    lemma_stages_in_order(initial(), outcomes);
    assert forall|i: int, j: int| 0 <= i < j < shown.len() implies not_before(
        #[trigger] shown[i],
        #[trigger] shown[j],
    ) by {
        assert(shown[j] == rest[j - 1]);
        if i == 0 {
            if j > 1 {
                assert(not_before(rest[0], rest[j - 1]));
            }
        } else {
            assert(shown[i] == rest[i - 1]);
        }
    }
}

/// A finished pipeline stays as it is: no outcome changes its stage or
/// makes it ask for anything.
pub proof fn lemma_finished_stays(p: PipelineView, outcomes: Seq<OutcomeView>)
    requires
        p.phase is Finished,
    ensures
        run(p, outcomes) == p,
        published(p, outcomes).len() == outcomes.len(),
        forall|i: int| 0 <= i < outcomes.len() ==> published(p, outcomes)[i] == p.status,
    decreases outcomes.len(),
{
    if outcomes.len() > 0 {
        lemma_finished_stays(p, outcomes.drop_first());
        let rest = published(p, outcomes.drop_first());
        assert(published(p, outcomes) =~= seq![p.status] + rest);
        assert forall|i: int| 0 <= i < outcomes.len() implies published(p, outcomes)[i]
            == p.status by {
            if i > 0 {
                assert(published(p, outcomes)[i] == rest[i - 1]);
            }
        }
    }
}

/// Real work that fails ends the job with that failure.
pub proof fn lemma_failure_ends_job(p: PipelineView, e: ErrorView)
    requires
        p.wf(),
        is_work(p.action()),
    ensures
        p.step(Err(e)).status == StatusView::Error(e),
        !is_work(p.step(Err(e)).action()),
{
}

/// After a failure nothing but cleaning up is asked for: a job in stage
/// `Error` has no real work left, now or after any further outcomes.
pub proof fn lemma_no_work_after_failure(p: PipelineView, outcomes: Seq<OutcomeView>)
    requires
        p.wf(),
        p.status is Error,
    ensures
        run(p, outcomes).wf(),
        run(p, outcomes).status == p.status,
        !is_work(run(p, outcomes).action()),
    decreases outcomes.len(),
{
    if outcomes.len() > 0 {
        lemma_no_work_after_failure(p.step(outcomes[0]), outcomes.drop_first());
    }
}

/// Refused credentials stop the job where it stands: the pipeline is
/// finished at once, the job shows the refusal for ever after, and no
/// later outcome brings it to `BuildingScript` or to any other stage.
pub proof fn lemma_refused_credentials_halt(e: ErrorView, outcomes: Seq<OutcomeView>)
    ensures
        initial().action() == ActionView::CheckCredentials,
        initial().step(Err(e)).status == StatusView::Error(e),
        initial().step(Err(e)).action() == ActionView::Stop,
        run(initial().step(Err(e)), outcomes) == initial().step(Err(e)),
        forall|i: int|
            0 <= i < outcomes.len() ==> published(initial().step(Err(e)), outcomes)[i]
                == StatusView::Error(e),
{
    lemma_finished_stays(initial().step(Err(e)), outcomes);
}

/// A token that may not edit the DNS records of its zone stops the job at
/// the check of the token: the verdict is a refusal, the refusal ends the
/// job, and whatever comes later the job never shows `BuildingScript` or
/// any other stage again.
pub proof fn lemma_missing_permission_halts(
    listing: ZoneListingView,
    zone: Seq<char>,
    found: ZoneView,
    outcomes: Seq<OutcomeView>,
)
    requires
        listing.success,
        find_zone(listing.result, zone) == Some(found),
        !may_edit(found),
    ensures
        verdict(listing, zone) == Err::<(), ErrorView>(no_access_failure(zone)),
        initial().status == StatusView::CheckingToken,
        initial().step(Err(no_access_failure(zone))).status == StatusView::Error(
            no_access_failure(zone),
        ),
        initial().step(Err(no_access_failure(zone))).action() == ActionView::Stop,
        forall|i: int|
            0 <= i < outcomes.len() ==> published(
                initial().step(Err(no_access_failure(zone))),
                outcomes,
            )[i] == StatusView::Error(no_access_failure(zone)),
{
    lemma_refused_credentials_halt(no_access_failure(zone), outcomes);
}

/// When every piece of work succeeds the job passes through every stage
/// and ends `Done` with the binary that the compiler named. On the way the
/// source is removed after compiling and the binary after the upload,
/// however the removals end.
pub proof fn lemma_success_path(
    source: Seq<char>,
    binary: Seq<char>,
    text: Seq<char>,
    removed_source: OutcomeView,
    removed_binary: OutcomeView,
)
    ensures
        ({
            let checked = initial().step(Ok(text));
            let generated = checked.step(Ok(source));
            let compiled = generated.step(Ok(binary));
            let tidied = compiled.step(removed_source);
            let connected = tidied.step(Ok(text));
            let uploaded = connected.step(Ok(text));
            let cleared = uploaded.step(removed_binary);
            let installed = cleared.step(Ok(text));
            &&& checked.status == StatusView::BuildingScript
            &&& checked.action() == ActionView::GenerateSource
            &&& generated.status == StatusView::BuildingScript
            &&& generated.action() == ActionView::Compile(source)
            &&& compiled.status == StatusView::Uploading
            &&& compiled.action() == ActionView::RemoveFile(source)
            &&& tidied.status == StatusView::Uploading
            &&& tidied.action() == ActionView::Connect
            &&& connected.status == StatusView::Uploading
            &&& connected.action() == ActionView::Upload(binary)
            &&& uploaded.status == StatusView::CreatingCronJob
            &&& uploaded.action() == ActionView::RemoveFile(binary)
            &&& cleared.status == StatusView::CreatingCronJob
            &&& cleared.action() == ActionView::InstallCron(binary)
            &&& installed.status == StatusView::Done(binary)
            &&& installed.action() == ActionView::Stop
        }),
{
}

/// A binary that was compiled is removed whether or not it reaches the
/// remote host: when the connection or the upload fails, the next action
/// removes it and the pipeline then stops.
pub proof fn lemma_binary_removed_on_failure(p: PipelineView, e: ErrorView, removed: OutcomeView)
    requires
        p.wf(),
        p.action() is Connect || p.action() is Upload,
    ensures
        p.step(Err(e)).status == StatusView::Error(e),
        p.step(Err(e)).action() is RemoveFile,
        p.phase matches PhaseView::Connecting { binary } ==> p.step(Err(e)).action()
            == ActionView::RemoveFile(binary),
        p.phase matches PhaseView::Uploading { binary } ==> p.step(Err(e)).action()
            == ActionView::RemoveFile(binary),
        p.step(Err(e)).step(removed).action() == ActionView::Stop,
        p.step(Err(e)).step(removed).status == StatusView::Error(e),
{
}

/// Every pipeline that can be reached is well formed.
pub proof fn lemma_run_wf(p: PipelineView, outcomes: Seq<OutcomeView>)
    requires
        p.wf(),
    ensures
        run(p, outcomes).wf(),
    decreases outcomes.len(),
{
    if outcomes.len() > 0 {
        lemma_step_moves_forward(p, outcomes[0]);
        lemma_run_wf(p.step(outcomes[0]), outcomes.drop_first());
    }
}

} // verus!
