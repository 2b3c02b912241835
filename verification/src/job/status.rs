//! The stages of a job and the order in which they may follow each other.

use crate::error::{Error, ErrorView};
use vstd::prelude::*;

verus! {

/// The stage a job is in. `Done` carries the name of the deployed
/// artifact, `Error` the failure that ended the job.
#[derive(Debug, Clone, PartialEq, Eq)]
pub enum JobStatus {
    Submitted,
    CheckingToken,
    BuildingScript,
    Uploading,
    CreatingCronJob,
    Done(String),
    Error(Error),
}

/// The mathematical value of a [`JobStatus`].
pub enum StatusView {
    Submitted,
    CheckingToken,
    BuildingScript,
    Uploading,
    CreatingCronJob,
    Done(Seq<char>),
    Error(ErrorView),
}

impl View for JobStatus {
    type V = StatusView;

    open spec fn view(&self) -> StatusView {
        match self {
            JobStatus::Submitted => StatusView::Submitted,
            JobStatus::CheckingToken => StatusView::CheckingToken,
            JobStatus::BuildingScript => StatusView::BuildingScript,
            JobStatus::Uploading => StatusView::Uploading,
            JobStatus::CreatingCronJob => StatusView::CreatingCronJob,
            JobStatus::Done(artifact) => StatusView::Done(artifact@),
            JobStatus::Error(e) => StatusView::Error(e@),
        }
    }
}

impl StatusView {
    /// The place of a stage in the order of stages. The two final stages
    /// share the last place.
    pub open spec fn rank(self) -> nat {
        match self {
            StatusView::Submitted => 0,
            StatusView::CheckingToken => 1,
            StatusView::BuildingScript => 2,
            StatusView::Uploading => 3,
            StatusView::CreatingCronJob => 4,
            StatusView::Done(_) => 5,
            StatusView::Error(_) => 5,
        }
    }

    /// A job in a final stage never changes again.
    pub open spec fn is_terminal(self) -> bool {
        self is Done || self is Error
    }

    /// `next` may directly follow `self`: a running job moves to the stage
    /// one place further, or fails.
    pub open spec fn can_become(self, next: StatusView) -> bool {
        !self.is_terminal() && (next is Error || next.rank() == self.rank() + 1)
    }
}

/// `later` is not before `earlier`: it lies further along or is the same
/// stage.
pub open spec fn not_before(earlier: StatusView, later: StatusView) -> bool {
    earlier.rank() < later.rank() || earlier == later
}

/// Every pair of a sequence of stages is in order: the later one lies
/// further along, or the stage did not change. So no stage is left and
/// entered again.
pub open spec fn in_stage_order(stages: Seq<StatusView>) -> bool {
    forall|i: int, j: int|
        0 <= i < j < stages.len() ==> not_before(#[trigger] stages[i], #[trigger] stages[j])
}

impl JobStatus {
    /// The place of this stage in the order of stages.
    pub fn rank(&self) -> (r: u8)
        ensures
            r == self@.rank(),
    {
        match self {
            JobStatus::Submitted => 0,
            JobStatus::CheckingToken => 1,
            JobStatus::BuildingScript => 2,
            JobStatus::Uploading => 3,
            JobStatus::CreatingCronJob => 4,
            JobStatus::Done(_) => 5,
            JobStatus::Error(_) => 5,
        }
    }

    /// Whether the job has ended, well or badly.
    pub fn is_terminal(&self) -> (r: bool)
        ensures
            r == self@.is_terminal(),
    {
        match self {
            JobStatus::Done(_) => true,
            JobStatus::Error(_) => true,
            _ => false,
        }
    }

    /// Whether `next` may directly follow this stage.
    pub fn can_become(&self, next: &JobStatus) -> (r: bool)
        ensures
            r == self@.can_become(next@),
    {
        if self.is_terminal() {
            return false;
        }
        match next {
            JobStatus::Error(_) => true,
            _ => next.rank() == self.rank() + 1,
        }
    }

    /// A copy of this status.
    pub fn duplicate(&self) -> (r: JobStatus)
        ensures
            r == *self,
    {
        match self {
            JobStatus::Submitted => JobStatus::Submitted,
            JobStatus::CheckingToken => JobStatus::CheckingToken,
            JobStatus::BuildingScript => JobStatus::BuildingScript,
            JobStatus::Uploading => JobStatus::Uploading,
            JobStatus::CreatingCronJob => JobStatus::CreatingCronJob,
            JobStatus::Done(artifact) => JobStatus::Done(artifact.clone()),
            JobStatus::Error(e) => JobStatus::Error(e.duplicate()),
        }
    }
}

/// A stage that follows another lies further along.
pub proof fn lemma_successor_is_later(current: StatusView, next: StatusView)
    requires
        current.can_become(next),
    ensures
        current.rank() < next.rank(),
        current != next,
{
}

/// No stage follows a final one.
pub proof fn lemma_terminal_is_final(current: StatusView, next: StatusView)
    requires
        current.is_terminal(),
    ensures
        !current.can_become(next),
{
}

} // verus!
