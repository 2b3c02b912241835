//! The job registry: what clients poll.

use crate::job::status::{JobStatus, StatusView};
use std::collections::HashMap;
use vstd::prelude::*;

verus! {

broadcast use vstd::std_specs::hash::group_hash_axioms;

/// The jobs that are known, each with the stage it is in.
///
/// A job enters at submission and leaves the first time a poll finds it in
/// a final stage.
pub struct JobRegistry {
    jobs: HashMap<u64, JobStatus>,
}

impl View for JobRegistry {
    type V = Map<u64, StatusView>;

    closed spec fn view(&self) -> Map<u64, StatusView> {
        Map::new(|id: u64| self.jobs@.contains_key(id), |id: u64| self.jobs@[id]@)
    }
}

/// What a poll for `id` answers: the job's stage, or nothing for an unknown
/// job.
pub open spec fn poll_answer(jobs: Map<u64, StatusView>, id: u64) -> Option<StatusView> {
    if jobs.contains_key(id) {
        Some(jobs[id])
    } else {
        None
    }
}

/// What a poll for `id` leaves behind: a job found in a final stage is
/// forgotten, everything else stays.
pub open spec fn after_poll(jobs: Map<u64, StatusView>, id: u64) -> Map<u64, StatusView> {
    if jobs.contains_key(id) && jobs[id].is_terminal() {
        jobs.remove(id)
    } else {
        jobs
    }
}

/// What publishing `status` for `id` leaves behind: the stage of a known
/// job is overwritten, an unknown job stays unknown.
pub open spec fn after_set_state(jobs: Map<u64, StatusView>, id: u64, status: StatusView) -> Map<
    u64,
    StatusView,
> {
    if jobs.contains_key(id) {
        jobs.insert(id, status)
    } else {
        jobs
    }
}

/// The view of an optional status.
pub open spec fn status_view(status: Option<JobStatus>) -> Option<StatusView> {
    match status {
        Some(s) => Some(s@),
        None => None,
    }
}

impl JobRegistry {
    /// A registry without jobs.
    pub fn new() -> (r: JobRegistry)
        ensures
            r@ == Map::<u64, StatusView>::empty(),
    {
        let r = JobRegistry { jobs: HashMap::new() };
        assert(r@ =~= Map::<u64, StatusView>::empty());
        r
    }

    /// Whether a job with this identifier is known.
    pub fn contains(&self, id: u64) -> (r: bool)
        ensures
            r == self@.contains_key(id),
    {
        self.jobs.contains_key(&id)
    }

    /// The number of known jobs.
    pub fn len(&self) -> (r: usize)
        ensures
            r == self@.len(),
    {
        proof {
            assert(self@.dom() =~= self.jobs@.dom());
        }
        self.jobs.len()
    }

    /// Registers a new job in stage `Submitted`.
    pub fn submit(&mut self, id: u64)
        requires
            !old(self)@.contains_key(id),
        ensures
            final(self)@ == old(self)@.insert(id, StatusView::Submitted),
    {
        self.jobs.insert(id, JobStatus::Submitted);
        assert(self@ =~= old(self)@.insert(id, StatusView::Submitted));
    }

    /// Registers a new job in stage `Submitted` unless the identifier is
    /// taken. Tells whether the job was registered; a registry that knows
    /// the identifier already stays as it is.
    pub fn try_submit(&mut self, id: u64) -> (r: bool)
        ensures
            r == !old(self)@.contains_key(id),
            r ==> final(self)@ == old(self)@.insert(id, StatusView::Submitted),
            !r ==> final(self)@ == old(self)@,
    {
        if self.contains(id) {
            false
        } else {
            self.submit(id);
            true
        }
    }

    /// Publishes the stage that job `id` has reached. The registry does not
    /// ask whether the stage may follow the one before.
    pub fn set_state(&mut self, id: u64, status: JobStatus)
        ensures
            final(self)@ == after_set_state(old(self)@, id, status@),
    {
        if self.jobs.contains_key(&id) {
            self.jobs.insert(id, status);
        }
        assert(self@ =~= after_set_state(old(self)@, id, status@));
    }

    /// Answers a client that asks for job `id`, and forgets the job if the
    /// answer is a final stage.
    pub fn poll(&mut self, id: u64) -> (r: Option<JobStatus>)
        ensures
            status_view(r) == poll_answer(old(self)@, id),
            final(self)@ == after_poll(old(self)@, id),
    {
        let ended = match self.jobs.get(&id) {
            Some(status) => status.is_terminal(),
            None => {
                return None;
            },
        };
        if ended {
            let r = self.jobs.remove(&id);
            assert(self@ =~= after_poll(old(self)@, id));
            r
        } else {
            match self.jobs.get(&id) {
                Some(status) => Some(status.duplicate()),
                None => None,
            }
        }
    }
}

/// One operation on the registry, as the model sees it.
pub enum RegistryOp {
    /// A job is registered.
    Submit(u64),
    /// A job's pipeline publishes a stage.
    SetState(u64, StatusView),
    /// A client asks for a job.
    Poll(u64),
}

impl RegistryOp {
    /// The job that the operation speaks of.
    pub open spec fn id(self) -> u64 {
        match self {
            RegistryOp::Submit(id) => id,
            RegistryOp::SetState(id, _) => id,
            RegistryOp::Poll(id) => id,
        }
    }
}

/// The registry after one operation.
pub open spec fn apply(jobs: Map<u64, StatusView>, op: RegistryOp) -> Map<u64, StatusView> {
    match op {
        RegistryOp::Submit(id) => jobs.insert(id, StatusView::Submitted),
        RegistryOp::SetState(id, status) => after_set_state(jobs, id, status),
        RegistryOp::Poll(id) => after_poll(jobs, id),
    }
}

/// The registry after a sequence of operations, first to last.
pub open spec fn apply_all(jobs: Map<u64, StatusView>, ops: Seq<RegistryOp>) -> Map<
    u64,
    StatusView,
>
    decreases ops.len(),
{
    if ops.len() == 0 {
        jobs
    } else {
        apply_all(apply(jobs, ops[0]), ops.drop_first())
    }
}

/// A job in a final stage is delivered once: the first poll answers with
/// that stage and forgets the job, the second finds nothing.
pub proof fn lemma_terminal_delivered_once(jobs: Map<u64, StatusView>, id: u64)
    requires
        jobs.contains_key(id),
        jobs[id].is_terminal(),
    ensures
        poll_answer(jobs, id) == Some(jobs[id]),
        !after_poll(jobs, id).contains_key(id),
        poll_answer(after_poll(jobs, id), id) is None,
{
}

/// A job that is running is answered again and again: a poll that finds a
/// stage that is not final leaves the registry as it was.
pub proof fn lemma_running_job_stays(jobs: Map<u64, StatusView>, id: u64)
    requires
        jobs.contains_key(id),
        !jobs[id].is_terminal(),
    ensures
        after_poll(jobs, id) == jobs,
        poll_answer(after_poll(jobs, id), id) == Some(jobs[id]),
{
}

/// A forgotten job stays forgotten: whatever is polled or published
/// afterwards, for this job or another, a poll for it finds nothing unless
/// the same identifier is submitted again.
pub proof fn lemma_forgotten_stays_forgotten(
    jobs: Map<u64, StatusView>,
    id: u64,
    ops: Seq<RegistryOp>,
)
    requires
        !jobs.contains_key(id),
        forall|i: int| 0 <= i < ops.len() ==> ops[i] != RegistryOp::Submit(id),
    ensures
        !apply_all(jobs, ops).contains_key(id),
        poll_answer(apply_all(jobs, ops), id) is None,
    decreases ops.len(),
{
    if ops.len() > 0 {
        let next = apply(jobs, ops[0]);
        assert(ops[0] != RegistryOp::Submit(id));
        assert(!next.contains_key(id));
        assert forall|i: int| 0 <= i < ops.drop_first().len() implies ops.drop_first()[i]
            != RegistryOp::Submit(id) by {
            assert(ops.drop_first()[i] == ops[i + 1]);
        }
        lemma_forgotten_stays_forgotten(next, id, ops.drop_first());
    }
}

/// Jobs do not touch each other: an operation on one job leaves every
/// other job known or unknown as before, in the stage it was in.
pub proof fn lemma_other_jobs_untouched(jobs: Map<u64, StatusView>, op: RegistryOp, other: u64)
    requires
        op.id() != other,
    ensures
        apply(jobs, op).contains_key(other) == jobs.contains_key(other),
        jobs.contains_key(other) ==> apply(jobs, op)[other] == jobs[other],
        poll_answer(apply(jobs, op), other) == poll_answer(jobs, other),
{
}

} // verus!
