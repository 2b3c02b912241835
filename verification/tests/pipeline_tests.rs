use cf_update_backend::error::{Error, ErrorKind};
use cf_update_backend::job::pipeline::{Pipeline, PipelineAction};
use cf_update_backend::job::status::JobStatus;

fn ok() -> Result<String, Error> {
    Ok(String::new())
}

fn named(path: &str) -> Result<String, Error> {
    Ok(String::from(path))
}

fn fail(kind: ErrorKind, message: &str) -> Result<String, Error> {
    Err(Error::new(kind, String::from(message)))
}

fn failed_status(kind: ErrorKind, message: &str) -> JobStatus {
    JobStatus::Error(Error::new(kind, String::from(message)))
}

fn remove(path: &str) -> PipelineAction {
    PipelineAction::RemoveFile(String::from(path))
}

fn drive(outcomes: Vec<Result<String, Error>>) -> (Pipeline, Vec<JobStatus>, Vec<PipelineAction>) {
    let mut p = Pipeline::start();
    let mut stages = vec![JobStatus::Submitted, p.status().duplicate()];
    let mut actions = vec![p.action()];
    for o in outcomes {
        p = p.advance(o);
        stages.push(p.status().duplicate());
        actions.push(p.action());
    }
    (p, stages, actions)
}

fn assert_in_order(stages: &[JobStatus]) {
    for i in 0..stages.len() {
        for j in i + 1..stages.len() {
            assert!(
                stages[i].rank() < stages[j].rank() || stages[i] == stages[j],
                "{:?} then {:?}",
                stages[i],
                stages[j]
            );
        }
    }
}

#[test]
fn a_pipeline_starts_by_checking_the_token() {
    let p = Pipeline::start();
    assert_eq!(*p.status(), JobStatus::CheckingToken);
    assert_eq!(p.action(), PipelineAction::CheckCredentials);
    assert!(!p.is_finished());
    assert!(JobStatus::Submitted.can_become(p.status()));
}

#[test]
fn a_job_that_succeeds_passes_every_stage() {
    let (p, stages, actions) = drive(vec![
        ok(),
        named("i-7.go"),
        named("cf-update-7"),
        ok(),
        ok(),
        ok(),
        ok(),
        ok(),
    ]);
    assert_eq!(
        stages,
        vec![
            JobStatus::Submitted,
            JobStatus::CheckingToken,
            JobStatus::BuildingScript,
            JobStatus::BuildingScript,
            JobStatus::Uploading,
            JobStatus::Uploading,
            JobStatus::Uploading,
            JobStatus::CreatingCronJob,
            JobStatus::CreatingCronJob,
            JobStatus::Done(String::from("cf-update-7")),
        ]
    );
    assert_eq!(
        actions,
        vec![
            PipelineAction::CheckCredentials,
            PipelineAction::GenerateSource,
            PipelineAction::Compile(String::from("i-7.go")),
            remove("i-7.go"),
            PipelineAction::Connect,
            PipelineAction::Upload(String::from("cf-update-7")),
            remove("cf-update-7"),
            PipelineAction::InstallCron(String::from("cf-update-7")),
            PipelineAction::Stop,
        ]
    );
    assert!(p.is_finished());
    assert_in_order(&stages);
}

#[test]
fn a_failed_removal_does_not_fail_the_job() {
    let (p, stages, _) = drive(vec![
        ok(),
        named("i-7.go"),
        named("cf-update-7"),
        fail(ErrorKind::IOErrorNonFatal, "busy"),
        ok(),
        ok(),
        fail(ErrorKind::IOErrorNonFatal, "busy"),
        ok(),
    ]);
    assert_eq!(*p.status(), JobStatus::Done(String::from("cf-update-7")));
    assert_in_order(&stages);
}

#[test]
fn refused_credentials_halt_the_job_at_the_token_check() {
    let (p, stages, actions) = drive(vec![
        fail(ErrorKind::CfError, "Token does not have read or edit access to zone example.org"),
        named("i-1.go"),
        named("cf-update-1"),
        ok(),
    ]);
    let refused = failed_status(
        ErrorKind::CfError,
        "Token does not have read or edit access to zone example.org",
    );
    assert_eq!(
        stages,
        vec![
            JobStatus::Submitted,
            JobStatus::CheckingToken,
            refused.duplicate(),
            refused.duplicate(),
            refused.duplicate(),
            refused.duplicate(),
        ]
    );
    assert!(!stages.contains(&JobStatus::BuildingScript));
    assert_eq!(actions[0], PipelineAction::CheckCredentials);
    for a in &actions[1..] {
        assert_eq!(*a, PipelineAction::Stop);
    }
    assert!(p.is_finished());
}

#[test]
fn an_unknown_zone_ends_the_job_before_any_file_is_made() {
    let (p, stages, actions) =
        drive(vec![fail(ErrorKind::CfError, "Token does not have any zone called nowhere.org")]);
    assert_eq!(
        *p.status(),
        failed_status(ErrorKind::CfError, "Token does not have any zone called nowhere.org")
    );
    assert!(p.is_finished());
    assert!(!actions.contains(&PipelineAction::GenerateSource));
    assert!(!actions.iter().any(|a| matches!(a, PipelineAction::Compile(_))));
    assert_in_order(&stages);
}

#[test]
fn a_source_that_cannot_be_written_ends_the_job() {
    let (p, stages, actions) =
        drive(vec![ok(), fail(ErrorKind::IOError, "Error writing to source file denied")]);
    assert_eq!(
        *p.status(),
        failed_status(ErrorKind::IOError, "Error writing to source file denied")
    );
    assert_eq!(actions.last(), Some(&PipelineAction::Stop));
    assert_in_order(&stages);
}

#[test]
fn a_rejected_source_is_removed_and_the_job_ends() {
    let (p, stages, actions) = drive(vec![
        ok(),
        named("i-9.go"),
        fail(ErrorKind::CompilerError, "Compilation exited with non-zero exit code"),
    ]);
    let failed =
        failed_status(ErrorKind::CompilerError, "Compilation exited with non-zero exit code");
    assert_eq!(*p.status(), failed);
    assert_eq!(p.action(), remove("i-9.go"));
    assert!(!p.is_finished());
    let p = p.advance(ok());
    assert_eq!(*p.status(), failed);
    assert_eq!(p.action(), PipelineAction::Stop);
    assert!(!actions.contains(&PipelineAction::Connect));
    assert_in_order(&stages);
}

#[test]
fn a_refused_connection_fails_the_job_while_uploading_and_removes_the_binary() {
    let (p, stages, actions) = drive(vec![
        ok(),
        named("i-3.go"),
        named("cf-update-3"),
        ok(),
        fail(ErrorKind::SSHError, "Unable to connect to 10.0.0.1:22 Connection refused"),
    ]);
    let refused =
        failed_status(ErrorKind::SSHError, "Unable to connect to 10.0.0.1:22 Connection refused");
    assert_eq!(stages[stages.len() - 2], JobStatus::Uploading);
    assert_eq!(stages[stages.len() - 1], refused);
    assert_eq!(actions[actions.len() - 2], PipelineAction::Connect);
    assert_eq!(p.action(), remove("cf-update-3"));
    let p = p.advance(ok());
    assert_eq!(*p.status(), refused);
    assert_eq!(p.action(), PipelineAction::Stop);
    assert!(p.is_finished());
    assert!(!actions.iter().any(|a| matches!(a, PipelineAction::Upload(_))));
    assert_in_order(&stages);
}

#[test]
fn a_failed_upload_fails_the_job_and_removes_the_binary() {
    let (p, stages, _) = drive(vec![
        ok(),
        named("i-3.go"),
        named("cf-update-3"),
        ok(),
        ok(),
        fail(ErrorKind::SSHError, "Unable to write binary file closed"),
        fail(ErrorKind::IOErrorNonFatal, "gone"),
    ]);
    assert_eq!(*p.status(), failed_status(ErrorKind::SSHError, "Unable to write binary file closed"));
    assert!(p.is_finished());
    assert_eq!(stages[stages.len() - 3], JobStatus::Uploading);
    assert_in_order(&stages);
}

#[test]
fn a_failed_installation_fails_the_job_in_its_last_stage() {
    let (p, stages, _) = drive(vec![
        ok(),
        named("i-3.go"),
        named("cf-update-3"),
        ok(),
        ok(),
        ok(),
        ok(),
        fail(ErrorKind::SSHError, "Command 'crontab mycrontab' finished with non-zero exit code"),
    ]);
    assert_eq!(
        *p.status(),
        failed_status(
            ErrorKind::SSHError,
            "Command 'crontab mycrontab' finished with non-zero exit code"
        )
    );
    assert_eq!(stages[stages.len() - 2], JobStatus::CreatingCronJob);
    assert!(p.is_finished());
    assert_in_order(&stages);
}

#[test]
fn a_finished_pipeline_ignores_what_comes_later() {
    let (p, _, _) = drive(vec![fail(ErrorKind::CfError, "no")]);
    let p = p.advance(ok()).advance(named("x")).advance(fail(ErrorKind::IOError, "later"));
    assert_eq!(*p.status(), failed_status(ErrorKind::CfError, "no"));
    assert_eq!(p.action(), PipelineAction::Stop);
}

#[test]
fn stages_stay_in_order_whatever_happens() {
    let choices: Vec<Result<String, Error>> =
        vec![named("f"), fail(ErrorKind::SSHError, "a"), fail(ErrorKind::IOError, "b")];
    let mut trace = vec![0usize; 6];
    loop {
        let outcomes: Vec<Result<String, Error>> = trace
            .iter()
            .map(|&c| match &choices[c] {
                Ok(s) => Ok(s.clone()),
                Err(e) => Err(e.duplicate()),
            })
            .collect();
        let (_, stages, _) = drive(outcomes);
        assert_in_order(&stages);
        let terminal = stages.iter().filter(|s| s.is_terminal()).count();
        if terminal > 0 {
            let first = stages.iter().position(|s| s.is_terminal()).unwrap();
            assert!(stages[first..].iter().all(|s| *s == stages[first]));
        }
        let mut k = 0;
        while k < trace.len() && trace[k] == choices.len() - 1 {
            trace[k] = 0;
            k += 1;
        }
        if k == trace.len() {
            break;
        }
        trace[k] += 1;
    }
}
