use cf_update_backend::error::{Error, ErrorKind};
use cf_update_backend::ssh::session::{create_session, SessionAction, SessionSetup};

fn setup(password: Option<&str>, key: Option<&str>) -> SessionSetup {
    create_session(
        String::from("example.org"),
        22,
        String::from("root"),
        password.map(String::from),
        key.map(String::from),
    )
}

fn oks(mut s: SessionSetup, n: usize) -> SessionSetup {
    for _ in 0..n {
        s = s.advance(Ok(()));
    }
    s
}

fn ssh(message: &str) -> Option<Result<(), Error>> {
    Some(Err(Error::new(ErrorKind::SSHError, String::from(message))))
}

#[test]
fn the_address_is_host_colon_port() {
    let s = setup(None, None);
    assert_eq!(s.action(), SessionAction::Connect(String::from("example.org:22")));
    let s = create_session(String::from("10.1.2.3"), 2222, String::from("u"), None, None);
    assert_eq!(s.action(), SessionAction::Connect(String::from("10.1.2.3:2222")));
    let s = create_session(String::from("h"), 0, String::from("u"), None, None);
    assert_eq!(s.action(), SessionAction::Connect(String::from("h:0")));
    let s = create_session(String::from("h"), usize::MAX, String::from("u"), None, None);
    assert_eq!(s.action(), SessionAction::Connect(format!("h:{}", usize::MAX)));
}

#[test]
fn a_session_is_connected_created_and_greeted() {
    let s = setup(None, None);
    let s = s.advance(Ok(()));
    assert_eq!(s.action(), SessionAction::CreateSession);
    let s = s.advance(Ok(()));
    assert_eq!(s.action(), SessionAction::Handshake);
    assert_eq!(s.result(), None);
}

#[test]
fn a_password_is_used_when_there_is_one() {
    let s = oks(setup(Some("hunter2"), None), 3);
    assert_eq!(
        s.action(),
        SessionAction::AuthPassword {
            username: String::from("root"),
            password: String::from("hunter2"),
        }
    );
    let s = s.advance(Ok(()));
    assert_eq!(s.action(), SessionAction::Stop);
    assert_eq!(s.result(), Some(Ok(())));
}

#[test]
fn the_password_goes_before_the_key() {
    let s = oks(setup(Some("hunter2"), Some("KEY")), 3);
    assert_eq!(
        s.action(),
        SessionAction::AuthPassword {
            username: String::from("root"),
            password: String::from("hunter2"),
        }
    );
    let s = s.advance(Ok(()));
    assert_eq!(s.action(), SessionAction::Stop);
}

#[test]
fn a_key_is_used_when_there_is_no_password() {
    let s = oks(setup(None, Some("-----BEGIN KEY-----")), 3);
    assert_eq!(
        s.action(),
        SessionAction::AuthKey {
            username: String::from("root"),
            key: String::from("-----BEGIN KEY-----"),
        }
    );
    let s = s.advance(Ok(()));
    assert_eq!(s.result(), Some(Ok(())));
}

#[test]
fn without_credentials_no_authentication_is_attempted() {
    let s = oks(setup(None, None), 3);
    assert_eq!(s.action(), SessionAction::Stop);
    assert_eq!(s.result(), Some(Ok(())));
}

#[test]
fn a_refused_connection_fails_the_setup() {
    let s = setup(Some("p"), None).advance(Err(String::from("Connection refused (os error 111)")));
    assert_eq!(s.action(), SessionAction::Stop);
    assert_eq!(
        s.result(),
        ssh("Unable to connect to example.org:22 Connection refused (os error 111)")
    );
}

#[test]
fn a_session_that_cannot_be_created_fails_the_setup() {
    let s = oks(setup(None, None), 1).advance(Err(String::from("out of memory")));
    assert_eq!(s.result(), ssh("Unable to create SSH session out of memory"));
}

#[test]
fn a_failed_handshake_fails_the_setup() {
    let s = oks(setup(None, None), 2).advance(Err(String::from("banner")));
    assert_eq!(s.result(), ssh("Unable to make ssh handshake banner"));
}

#[test]
fn a_rejected_password_fails_the_setup() {
    let s = oks(setup(Some("p"), Some("k")), 3).advance(Err(String::from("denied")));
    assert_eq!(s.result(), ssh("Unable to authenticate with username/password denied"));
}

#[test]
fn a_rejected_key_fails_the_setup() {
    let s = oks(setup(None, Some("k")), 3).advance(Err(String::from("denied")));
    assert_eq!(s.action(), SessionAction::Stop);
    assert_eq!(s.result(), ssh("Unable to authenticate with pubkey denied"));
}

#[test]
fn an_ended_setup_stays_as_it_is() {
    let s = oks(setup(None, None), 3).advance(Err(String::from("late"))).advance(Ok(()));
    assert_eq!(s.result(), Some(Ok(())));
    let s = setup(None, None).advance(Err(String::from("first")));
    let s = s.advance(Ok(())).advance(Err(String::from("second")));
    assert_eq!(s.result(), ssh("Unable to connect to example.org:22 first"));
}
