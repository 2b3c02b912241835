//! What clients can see of one job while its pipeline runs.
//!
//! The pipeline publishes stages into the registry, clients poll in
//! between, in any order. This module states what the answers look like,
//! whatever the order.

use crate::job::pipeline::{initial, lemma_job_history_in_order, published, OutcomeView};
use crate::job::registry::{after_poll, after_set_state, poll_answer};
use crate::job::status::{in_stage_order, not_before, StatusView};
use vstd::prelude::*;

verus! {

/// One thing that happens to a job.
pub enum JobEvent {
    /// The job's pipeline publishes a stage.
    Publish(StatusView),
    /// A client polls for the job.
    Poll,
}

/// The stages that the pipeline publishes, in order.
pub open spec fn publications(events: Seq<JobEvent>) -> Seq<StatusView>
    decreases events.len(),
{
    if events.len() == 0 {
        Seq::empty()
    } else {
        match events[0] {
            JobEvent::Publish(status) => seq![status] + publications(events.drop_first()),
            JobEvent::Poll => publications(events.drop_first()),
        }
    }
}

/// The answers that the clients get, one for each poll, in order.
pub open spec fn answers(jobs: Map<u64, StatusView>, id: u64, events: Seq<JobEvent>) -> Seq<
    Option<StatusView>,
>
    decreases events.len(),
{
    if events.len() == 0 {
        Seq::empty()
    } else {
        match events[0] {
            JobEvent::Publish(status) => answers(
                after_set_state(jobs, id, status),
                id,
                events.drop_first(),
            ),
            JobEvent::Poll => seq![poll_answer(jobs, id)] + answers(
                after_poll(jobs, id),
                id,
                events.drop_first(),
            ),
        }
    }
}

/// The stages among a sequence of answers, in order.
pub open spec fn stages_of(answers: Seq<Option<StatusView>>) -> Seq<StatusView>
    decreases answers.len(),
{
    if answers.len() == 0 {
        Seq::empty()
    } else {
        match answers[0] {
            Some(status) => seq![status] + stages_of(answers.drop_first()),
            None => stages_of(answers.drop_first()),
        }
    }
}

/// Whether an answer tells a final stage.
pub open spec fn tells_the_end(answer: Option<StatusView>) -> bool {
    match answer {
        Some(status) => status.is_terminal(),
        None => false,
    }
}

/// After an answer that tells a final stage every answer is empty.
pub open spec fn told_once(all: Seq<Option<StatusView>>) -> bool {
    forall|i: int, j: int|
        0 <= i < j < all.len() && tells_the_end(#[trigger] all[i]) ==> (#[trigger] all[j]) is None
}

/// A job that is not known is never answered with a stage, whatever is
/// published for it.
pub proof fn lemma_unknown_job_is_never_seen(
    jobs: Map<u64, StatusView>,
    id: u64,
    events: Seq<JobEvent>,
)
    requires
        !jobs.contains_key(id),
    ensures
        forall|i: int|
            0 <= i < answers(jobs, id, events).len() ==> answers(jobs, id, events)[i] is None,
        stages_of(answers(jobs, id, events)) == Seq::<StatusView>::empty(),
    decreases events.len(),
{
    if events.len() > 0 {
        let rest = events.drop_first();
        match events[0] {
            JobEvent::Publish(status) => {
                lemma_unknown_job_is_never_seen(after_set_state(jobs, id, status), id, rest);
            },
            JobEvent::Poll => {
                lemma_unknown_job_is_never_seen(after_poll(jobs, id), id, rest);
                let all = answers(jobs, id, events);
                let tail = answers(after_poll(jobs, id), id, rest);
                assert(all.drop_first() =~= tail);
                assert forall|i: int| 0 <= i < all.len() implies all[i] is None by {
                    if i > 0 {
                        assert(all[i] == tail[i - 1]);
                    }
                }
            },
        }
    }
}

/// A final stage is told once: after the poll that was answered with it,
/// every poll for the job finds nothing.
pub proof fn lemma_terminal_answered_once(
    jobs: Map<u64, StatusView>,
    id: u64,
    events: Seq<JobEvent>,
)
    ensures
        told_once(answers(jobs, id, events)),
    decreases events.len(),
{
    if events.len() > 0 {
        let rest = events.drop_first();
        match events[0] {
            JobEvent::Publish(status) => {
                lemma_terminal_answered_once(after_set_state(jobs, id, status), id, rest);
            },
            JobEvent::Poll => {
                let all = answers(jobs, id, events);
                let tail = answers(after_poll(jobs, id), id, rest);
                lemma_terminal_answered_once(after_poll(jobs, id), id, rest);
                if jobs.contains_key(id) && jobs[id].is_terminal() {
                    lemma_unknown_job_is_never_seen(after_poll(jobs, id), id, rest);
                }
                assert forall|i: int, j: int|
                    0 <= i < j < all.len() && tells_the_end(#[trigger] all[i]) implies (
                #[trigger] all[j]) is None by {
                    assert(all[j] == tail[j - 1]);
                    if i > 0 {
                        assert(all[i] == tail[i - 1]);
                    }
                }
            },
        }
    }
}

/// When the stages that are published for a job come in order, so do the
/// stages that clients are answered with, and none of them lies before
/// the stage the job was in at first.
pub proof fn lemma_answers_in_order(jobs: Map<u64, StatusView>, id: u64, events: Seq<JobEvent>)
    requires
        jobs.contains_key(id),
        in_stage_order(seq![jobs[id]] + publications(events)),
    ensures
        in_stage_order(stages_of(answers(jobs, id, events))),
        forall|k: int|
            0 <= k < stages_of(answers(jobs, id, events)).len() ==> not_before(
                jobs[id],
                stages_of(answers(jobs, id, events))[k],
            ),
    decreases events.len(),
{
    if events.len() > 0 {
        let rest = events.drop_first();
        let shown = seq![jobs[id]] + publications(events);
        match events[0] {
            JobEvent::Publish(status) => {
                let next = after_set_state(jobs, id, status);
                let shown_next = seq![status] + publications(rest);
                assert(shown =~= seq![jobs[id]] + shown_next);
                assert forall|i: int, j: int| 0 <= i < j < shown_next.len() implies not_before(
                    #[trigger] shown_next[i],
                    #[trigger] shown_next[j],
                ) by {
                    assert(shown_next[i] == shown[i + 1]);
                    assert(shown_next[j] == shown[j + 1]);
                }
                assert(in_stage_order(shown_next));
                assert(next[id] == status);
                assert(not_before(shown[0], shown[1]));
                lemma_answers_in_order(next, id, rest);
            },
            JobEvent::Poll => {
                let next = after_poll(jobs, id);
                let tail = answers(next, id, rest);
                let all = answers(jobs, id, events);
                assert(all.drop_first() =~= tail);
                let seen = stages_of(all);
                assert(seen =~= seq![jobs[id]] + stages_of(tail));
                if jobs[id].is_terminal() {
                    lemma_unknown_job_is_never_seen(next, id, rest);
                } else {
                    lemma_answers_in_order(next, id, rest);
                    let later = stages_of(tail);
                    assert forall|i: int, j: int| 0 <= i < j < seen.len() implies not_before(
                        #[trigger] seen[i],
                        #[trigger] seen[j],
                    ) by {
                        assert(seen[j] == later[j - 1]);
                        if i > 0 {
                            assert(seen[i] == later[i - 1]);
                        }
                    }
                }
            },
        }
    }
}

/// Clients see the stages of a job in order: whatever the outcomes of the
/// pipeline's work and whenever the polls come, the stages that the polls
/// are answered with never go back and never return to a stage that was
/// left.
pub proof fn lemma_clients_see_stages_in_order(
    jobs: Map<u64, StatusView>,
    id: u64,
    outcomes: Seq<OutcomeView>,
    events: Seq<JobEvent>,
)
    requires
        jobs.contains_key(id),
        jobs[id] == StatusView::Submitted,
        publications(events) == seq![initial().status] + published(initial(), outcomes),
    ensures
        in_stage_order(stages_of(answers(jobs, id, events))),
{
    lemma_job_history_in_order(outcomes);
    lemma_answers_in_order(jobs, id, events);
}

} // verus!
