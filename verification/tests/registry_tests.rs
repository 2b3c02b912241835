use cf_update_backend::error::{Error, ErrorKind};
use cf_update_backend::job::registry::JobRegistry;
use cf_update_backend::job::status::JobStatus;

fn failure() -> JobStatus {
    JobStatus::Error(Error::new(ErrorKind::SSHError, String::from("refused")))
}

#[test]
fn a_new_registry_knows_no_job() {
    let mut r = JobRegistry::new();
    assert_eq!(r.len(), 0);
    assert!(!r.contains(1));
    assert_eq!(r.poll(1), None);
    assert_eq!(r.len(), 0);
}

#[test]
fn a_submitted_job_is_polled_as_submitted() {
    let mut r = JobRegistry::new();
    r.submit(17);
    assert!(r.contains(17));
    assert_eq!(r.len(), 1);
    assert_eq!(r.poll(17), Some(JobStatus::Submitted));
    assert_eq!(r.poll(17), Some(JobStatus::Submitted));
    assert_eq!(r.len(), 1);
}

#[test]
fn try_submit_refuses_a_known_identifier() {
    let mut r = JobRegistry::new();
    assert!(r.try_submit(5));
    r.set_state(5, JobStatus::Uploading);
    assert!(!r.try_submit(5));
    assert_eq!(r.poll(5), Some(JobStatus::Uploading));
    assert_eq!(r.len(), 1);
}

#[test]
fn set_state_overwrites_the_stage() {
    let mut r = JobRegistry::new();
    r.submit(1);
    r.set_state(1, JobStatus::CheckingToken);
    assert_eq!(r.poll(1), Some(JobStatus::CheckingToken));
    r.set_state(1, JobStatus::BuildingScript);
    assert_eq!(r.poll(1), Some(JobStatus::BuildingScript));
}

#[test]
fn set_state_does_not_validate_the_transition() {
    let mut r = JobRegistry::new();
    r.submit(1);
    r.set_state(1, JobStatus::Uploading);
    r.set_state(1, JobStatus::CheckingToken);
    assert_eq!(r.poll(1), Some(JobStatus::CheckingToken));
}

#[test]
fn set_state_of_an_unknown_job_changes_nothing() {
    let mut r = JobRegistry::new();
    r.set_state(9, JobStatus::Uploading);
    assert!(!r.contains(9));
    assert_eq!(r.len(), 0);
    assert_eq!(r.poll(9), None);
}

#[test]
fn done_is_delivered_exactly_once() {
    let mut r = JobRegistry::new();
    r.submit(3);
    r.set_state(3, JobStatus::Done(String::from("cf-update-3")));
    assert_eq!(r.poll(3), Some(JobStatus::Done(String::from("cf-update-3"))));
    assert!(!r.contains(3));
    assert_eq!(r.poll(3), None);
    assert_eq!(r.poll(3), None);
}

#[test]
fn error_is_delivered_exactly_once() {
    let mut r = JobRegistry::new();
    r.submit(3);
    r.set_state(3, failure());
    assert_eq!(r.poll(3), Some(failure()));
    assert_eq!(r.poll(3), None);
    assert_eq!(r.len(), 0);
}

#[test]
fn a_forgotten_job_is_not_revived_by_its_pipeline() {
    let mut r = JobRegistry::new();
    r.submit(3);
    r.set_state(3, failure());
    assert_eq!(r.poll(3), Some(failure()));
    r.set_state(3, failure());
    assert_eq!(r.poll(3), None);
}

#[test]
fn a_terminal_job_that_nobody_polls_stays() {
    let mut r = JobRegistry::new();
    r.submit(3);
    r.set_state(3, JobStatus::Done(String::from("a")));
    assert_eq!(r.poll(4), None);
    assert!(r.contains(3));
    assert_eq!(r.len(), 1);
}

#[test]
fn jobs_do_not_touch_each_other() {
    let mut r = JobRegistry::new();
    r.submit(1);
    r.submit(2);
    r.set_state(1, JobStatus::Uploading);
    assert_eq!(r.poll(2), Some(JobStatus::Submitted));
    r.set_state(2, JobStatus::CheckingToken);
    r.set_state(2, JobStatus::BuildingScript);
    assert_eq!(r.poll(1), Some(JobStatus::Uploading));
    assert_eq!(r.poll(2), Some(JobStatus::BuildingScript));
    r.set_state(2, JobStatus::Done(String::from("b")));
    assert_eq!(r.poll(2), Some(JobStatus::Done(String::from("b"))));
    assert_eq!(r.poll(2), None);
    assert_eq!(r.poll(1), Some(JobStatus::Uploading));
    assert_eq!(r.len(), 1);
}

#[test]
fn polling_a_fast_job_while_a_slow_one_connects() {
    let mut r = JobRegistry::new();
    r.submit(100);
    r.submit(101);
    for s in [JobStatus::CheckingToken, JobStatus::BuildingScript, JobStatus::Uploading] {
        r.set_state(100, s);
    }
    let mut seen = Vec::new();
    for s in [
        JobStatus::CheckingToken,
        JobStatus::BuildingScript,
        JobStatus::Uploading,
        JobStatus::CreatingCronJob,
    ] {
        r.set_state(101, s.duplicate());
        assert_eq!(r.poll(101), Some(s.duplicate()));
        seen.push(s);
        assert_eq!(r.poll(100), Some(JobStatus::Uploading));
    }
    assert_eq!(seen.len(), 4);
}
