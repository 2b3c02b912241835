use cf_update_backend::error::{Error, ErrorKind};
use cf_update_backend::ssh::command::{
    run_command, ChannelAction, ChannelReply, CommandRun, NON_ZERO_EXIT,
};

fn failed(detail: &str) -> ChannelReply {
    ChannelReply::Failed(String::from(detail))
}

fn ssh(message: &str) -> Option<Result<String, Error>> {
    Some(Err(Error::new(ErrorKind::SSHError, String::from(message))))
}

fn after(command: &str, replies: Vec<ChannelReply>) -> CommandRun {
    let mut run = run_command(command);
    for r in replies {
        run = run.advance(r);
    }
    run
}

#[test]
fn a_command_runs_through_five_requests() {
    let mut run = run_command("ls -l");
    assert_eq!(run.action(), ChannelAction::OpenChannel);
    run = run.advance(ChannelReply::Done);
    assert_eq!(run.action(), ChannelAction::Exec(String::from("ls -l")));
    run = run.advance(ChannelReply::Done);
    assert_eq!(run.action(), ChannelAction::ReadOutput);
    run = run.advance(ChannelReply::Output(String::from("total 0\n")));
    assert_eq!(run.action(), ChannelAction::WaitClose);
    run = run.advance(ChannelReply::Done);
    assert_eq!(run.action(), ChannelAction::ExitStatus);
    run = run.advance(ChannelReply::ExitStatus(0));
    assert_eq!(run.action(), ChannelAction::Stop);
    assert_eq!(run.result(), Some(Ok(String::from("total 0\n"))));
}

#[test]
fn a_run_that_has_not_ended_has_no_result() {
    assert_eq!(run_command("ls").result(), None);
    assert_eq!(after("ls", vec![ChannelReply::Done, ChannelReply::Done]).result(), None);
}

#[test]
fn a_non_zero_exit_status_is_a_failure() {
    let replies = |code: i32| {
        vec![
            ChannelReply::Done,
            ChannelReply::Done,
            ChannelReply::Output(String::from("some output")),
            ChannelReply::Done,
            ChannelReply::ExitStatus(code),
        ]
    };
    for code in [1, 2, 127, 255, -1, i32::MAX, i32::MIN] {
        let run = after("crontab -l > mycrontab", replies(code));
        assert_eq!(run.action(), ChannelAction::Stop);
        assert_eq!(
            run.result(),
            ssh("Command 'crontab -l > mycrontab' finished with non-zero exit code")
        );
    }
}

#[test]
fn the_message_of_a_non_zero_exit_ends_with_the_marker() {
    assert_eq!(NON_ZERO_EXIT, "non-zero exit code");
    let run = after(
        "false",
        vec![
            ChannelReply::Done,
            ChannelReply::Done,
            ChannelReply::Output(String::new()),
            ChannelReply::Done,
            ChannelReply::ExitStatus(1),
        ],
    );
    match run.result() {
        Some(Err(e)) => assert!(e.message.ends_with(NON_ZERO_EXIT)),
        other => panic!("unexpected result {:?}", other),
    }
}

#[test]
fn a_channel_that_cannot_be_opened_fails_the_run() {
    let run = after("ls", vec![failed("no channel")]);
    assert_eq!(run.action(), ChannelAction::Stop);
    assert_eq!(run.result(), ssh("Error creating SSH Channel no channel"));
}

#[test]
fn a_command_that_cannot_be_started_fails_the_run() {
    let run = after("ls", vec![ChannelReply::Done, failed("denied")]);
    assert_eq!(run.result(), ssh("Error running command ls denied"));
}

#[test]
fn output_that_cannot_be_read_fails_the_run() {
    let run = after("ls", vec![ChannelReply::Done, ChannelReply::Done, failed("reset")]);
    assert_eq!(run.result(), ssh("Error running command ls reset"));
}

#[test]
fn a_channel_that_does_not_close_fails_the_run() {
    let run = after(
        "ls",
        vec![
            ChannelReply::Done,
            ChannelReply::Done,
            ChannelReply::Output(String::from("x")),
            failed("timeout"),
        ],
    );
    assert_eq!(run.result(), ssh("Error running command, ls timeout"));
}

#[test]
fn an_exit_status_that_cannot_be_had_fails_the_run() {
    let run = after(
        "ls",
        vec![
            ChannelReply::Done,
            ChannelReply::Done,
            ChannelReply::Output(String::from("x")),
            ChannelReply::Done,
            failed("gone"),
        ],
    );
    assert_eq!(run.result(), ssh("Error running command ls gone"));
}

#[test]
fn a_run_ignores_a_reply_that_does_not_answer_its_request() {
    let run = after("ls", vec![ChannelReply::ExitStatus(0)]);
    assert_eq!(run.action(), ChannelAction::OpenChannel);
    let run = after("ls", vec![ChannelReply::Done, ChannelReply::Output(String::from("x"))]);
    assert_eq!(run.action(), ChannelAction::Exec(String::from("ls")));
    let run = after("ls", vec![ChannelReply::Done, ChannelReply::Done, ChannelReply::Done]);
    assert_eq!(run.action(), ChannelAction::ReadOutput);
    let run = after(
        "ls",
        vec![
            ChannelReply::Done,
            ChannelReply::Done,
            ChannelReply::Output(String::from("x")),
            ChannelReply::Done,
            ChannelReply::Done,
        ],
    );
    assert_eq!(run.action(), ChannelAction::ExitStatus);
    assert_eq!(run.result(), None);
}

#[test]
fn an_ended_run_stays_as_it_is() {
    let run = after("ls", vec![failed("no channel"), ChannelReply::Done, failed("again")]);
    assert_eq!(run.action(), ChannelAction::Stop);
    assert_eq!(run.result(), ssh("Error creating SSH Channel no channel"));
    let run = after(
        "ls",
        vec![
            ChannelReply::Done,
            ChannelReply::Done,
            ChannelReply::Output(String::from("out")),
            ChannelReply::Done,
            ChannelReply::ExitStatus(0),
            failed("late"),
            ChannelReply::ExitStatus(3),
        ],
    );
    assert_eq!(run.result(), Some(Ok(String::from("out"))));
}
