use cf_update_backend::error::{Error, ErrorKind};
use cf_update_backend::job::status::JobStatus;

fn all_stages() -> Vec<JobStatus> {
    vec![
        JobStatus::Submitted,
        JobStatus::CheckingToken,
        JobStatus::BuildingScript,
        JobStatus::Uploading,
        JobStatus::CreatingCronJob,
        JobStatus::Done(String::from("cf-update-1")),
        JobStatus::Error(Error::new(ErrorKind::SSHError, String::from("x"))),
    ]
}

#[test]
fn rank_follows_the_order_of_stages() {
    let ranks: Vec<u8> = all_stages().iter().map(|s| s.rank()).collect();
    assert_eq!(ranks, vec![0, 1, 2, 3, 4, 5, 5]);
}

#[test]
fn only_done_and_error_are_terminal() {
    let terminal: Vec<bool> = all_stages().iter().map(|s| s.is_terminal()).collect();
    assert_eq!(terminal, vec![false, false, false, false, false, true, true]);
}

#[test]
fn a_running_job_moves_one_stage_on_or_fails() {
    let stages = all_stages();
    for (i, from) in stages.iter().enumerate() {
        for (j, to) in stages.iter().enumerate() {
            let expected = i < 5 && (j == 6 || j == i + 1);
            assert_eq!(from.can_become(to), expected, "{:?} -> {:?}", from, to);
        }
    }
}

#[test]
fn a_finished_job_never_moves() {
    let done = JobStatus::Done(String::from("a"));
    let failed = JobStatus::Error(Error::new(ErrorKind::CfError, String::from("b")));
    for to in all_stages() {
        assert!(!done.can_become(&to));
        assert!(!failed.can_become(&to));
    }
}

#[test]
fn stages_are_never_skipped() {
    assert!(!JobStatus::Submitted.can_become(&JobStatus::BuildingScript));
    assert!(!JobStatus::CheckingToken.can_become(&JobStatus::Uploading));
    assert!(!JobStatus::Uploading.can_become(&JobStatus::Done(String::new())));
    assert!(!JobStatus::BuildingScript.can_become(&JobStatus::CheckingToken));
    assert!(!JobStatus::Uploading.can_become(&JobStatus::Uploading));
}

#[test]
fn duplicate_copies_the_payload() {
    for s in all_stages() {
        assert_eq!(s.duplicate(), s);
    }
}
