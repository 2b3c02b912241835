//! Setting up the remote session.
//!
//! The connection is opened, a session is created on it, the two sides
//! shake hands, and the user is authenticated: with the password if there
//! is one, else with the private key if there is one, else not at all.

use crate::error::{Error, ErrorView};
use crate::ssh::failure::{ssh_failure, ssh_failure_view};
use crate::text::{append_decimal, decimal};
use vstd::prelude::*;

verus! {

/// How the user is authenticated.
#[derive(Debug, Clone, PartialEq, Eq)]
pub enum Credentials {
    Password(String),
    Key(String),
    Nothing,
}

/// The mathematical value of [`Credentials`].
pub enum CredentialsView {
    Password(Seq<char>),
    Key(Seq<char>),
    Nothing,
}

impl View for Credentials {
    type V = CredentialsView;

    open spec fn view(&self) -> CredentialsView {
        match self {
            Credentials::Password(password) => CredentialsView::Password(password@),
            Credentials::Key(key) => CredentialsView::Key(key@),
            Credentials::Nothing => CredentialsView::Nothing,
        }
    }
}

/// The credentials to use: the password goes before the key.
pub open spec fn choose_credentials(
    password: Option<Seq<char>>,
    key: Option<Seq<char>>,
) -> CredentialsView {
    match password {
        Some(p) => CredentialsView::Password(p),
        None => match key {
            Some(k) => CredentialsView::Key(k),
            None => CredentialsView::Nothing,
        },
    }
}

/// The view of an optional text.
pub open spec fn text_view(text: Option<String>) -> Option<Seq<char>> {
    match text {
        Some(t) => Some(t@),
        None => None,
    }
}

/// The request that comes next.
#[derive(Debug, Clone, PartialEq, Eq)]
pub enum SessionAction {
    /// Open a connection to this address, `host:port`.
    Connect(String),
    /// Create a session on the connection.
    CreateSession,
    /// Shake hands with the remote side.
    Handshake,
    /// Authenticate the user with a password.
    AuthPassword { username: String, password: String },
    /// Authenticate the user with a private key held in memory.
    AuthKey { username: String, key: String },
    /// The setup has ended. Its result can be taken.
    Stop,
}

/// The mathematical value of a [`SessionAction`].
pub enum SessionActionView {
    Connect(Seq<char>),
    CreateSession,
    Handshake,
    AuthPassword { username: Seq<char>, password: Seq<char> },
    AuthKey { username: Seq<char>, key: Seq<char> },
    Stop,
}

impl View for SessionAction {
    type V = SessionActionView;

    open spec fn view(&self) -> SessionActionView {
        match self {
            SessionAction::Connect(address) => SessionActionView::Connect(address@),
            SessionAction::CreateSession => SessionActionView::CreateSession,
            SessionAction::Handshake => SessionActionView::Handshake,
            SessionAction::AuthPassword { username, password } => SessionActionView::AuthPassword {
                username: username@,
                password: password@,
            },
            SessionAction::AuthKey { username, key } => SessionActionView::AuthKey {
                username: username@,
                key: key@,
            },
            SessionAction::Stop => SessionActionView::Stop,
        }
    }
}

enum Stage {
    Connecting,
    Creating,
    Greeting,
    Authenticating,
    Ready,
    Failed { error: Error },
}

/// The mathematical value of a setup's position.
pub enum StageView {
    Connecting,
    Creating,
    Greeting,
    Authenticating,
    Ready,
    Failed { error: ErrorView },
}

impl View for Stage {
    type V = StageView;

    closed spec fn view(&self) -> StageView {
        match self {
            Stage::Connecting => StageView::Connecting,
            Stage::Creating => StageView::Creating,
            Stage::Greeting => StageView::Greeting,
            Stage::Authenticating => StageView::Authenticating,
            Stage::Ready => StageView::Ready,
            Stage::Failed { error } => StageView::Failed { error: error@ },
        }
    }
}

/// The setup of one remote session.
pub struct SessionSetup {
    address: String,
    username: String,
    credentials: Credentials,
    stage: Stage,
}

/// The mathematical value of a [`SessionSetup`].
pub struct SessionSetupView {
    pub address: Seq<char>,
    pub username: Seq<char>,
    pub credentials: CredentialsView,
    pub stage: StageView,
}

impl View for SessionSetup {
    type V = SessionSetupView;

    closed spec fn view(&self) -> SessionSetupView {
        SessionSetupView {
            address: self.address@,
            username: self.username@,
            credentials: self.credentials@,
            stage: self.stage@,
        }
    }
}

/// The address of a host's port: the host, a colon, the port in decimal.
pub open spec fn address_of(host: Seq<char>, port: nat) -> Seq<char> {
    host + ":"@ + decimal(port)
}

/// How a reply to a request came: well, or with what the transport said.
pub type Reply = Result<(), String>;

/// The view of a reply.
pub open spec fn reply_view(reply: Reply) -> Result<(), Seq<char>> {
    match reply {
        Ok(_) => Ok(()),
        Err(detail) => Err(detail@),
    }
}

impl SessionSetupView {
    /// Authentication is only waited for when there is something to
    /// authenticate with.
    pub open spec fn wf(self) -> bool {
        self.stage is Authenticating ==> !(self.credentials is Nothing)
    }

    /// The request that the setup waits for.
    pub open spec fn action(self) -> SessionActionView {
        match self.stage {
            StageView::Connecting => SessionActionView::Connect(self.address),
            StageView::Creating => SessionActionView::CreateSession,
            StageView::Greeting => SessionActionView::Handshake,
            StageView::Authenticating => match self.credentials {
                CredentialsView::Password(password) => SessionActionView::AuthPassword {
                    username: self.username,
                    password,
                },
                CredentialsView::Key(key) => SessionActionView::AuthKey {
                    username: self.username,
                    key,
                },
                CredentialsView::Nothing => SessionActionView::Stop,
            },
            StageView::Ready => SessionActionView::Stop,
            StageView::Failed { .. } => SessionActionView::Stop,
        }
    }

    /// What was being done when the pending request failed.
    pub open spec fn context(self) -> Seq<char> {
        match self.stage {
            StageView::Connecting => "Unable to connect to "@ + self.address,
            StageView::Creating => "Unable to create SSH session"@,
            StageView::Greeting => "Unable to make ssh handshake"@,
            _ => match self.credentials {
                CredentialsView::Password(_) => "Unable to authenticate with username/password"@,
                _ => "Unable to authenticate with pubkey"@,
            },
        }
    }

    /// The result of the setup, once it has ended.
    pub open spec fn result(self) -> Option<Result<(), ErrorView>> {
        match self.stage {
            StageView::Ready => Some(Ok(())),
            StageView::Failed { error } => Some(Err(error)),
            _ => None,
        }
    }

    /// The setup after the reply to its request.
    pub open spec fn step(self, reply: Result<(), Seq<char>>) -> SessionSetupView {
        let stage = match self.stage {
            StageView::Ready => self.stage,
            StageView::Failed { .. } => self.stage,
            working => match reply {
                Err(detail) => StageView::Failed {
                    error: ssh_failure_view(self.context(), detail),
                },
                Ok(_) => match working {
                    StageView::Connecting => StageView::Creating,
                    StageView::Creating => StageView::Greeting,
                    StageView::Greeting => if self.credentials is Nothing {
                        StageView::Ready
                    } else {
                        StageView::Authenticating
                    },
                    _ => StageView::Ready,
                },
            },
        };
        SessionSetupView { stage, ..self }
    }
}

/// The setup of a session with `host` before anything was asked.
pub open spec fn initial(
    host: Seq<char>,
    port: nat,
    username: Seq<char>,
    password: Option<Seq<char>>,
    key: Option<Seq<char>>,
) -> SessionSetupView {
    SessionSetupView {
        address: address_of(host, port),
        username,
        credentials: choose_credentials(password, key),
        stage: StageView::Connecting,
    }
}

/// Prepares the setup of a session with `host` on `port` for `username`.
pub fn create_session(
    host: String,
    port: usize,
    username: String,
    password: Option<String>,
    key: Option<String>,
) -> (r: SessionSetup)
    ensures
        r@ == initial(host@, port as nat, username@, text_view(password), text_view(key)),
        r@.wf(),
{
    let mut address = host;
    address.append(":");
    append_decimal(&mut address, port as u128);
    let credentials = match password {
        Some(p) => Credentials::Password(p),
        None => match key {
            Some(k) => Credentials::Key(k),
            None => Credentials::Nothing,
        },
    };
    SessionSetup { address, username, credentials, stage: Stage::Connecting }
}

impl SessionSetup {
    #[verifier::type_invariant]
    spec fn inv(self) -> bool {
        self@.wf()
    }

    /// The request that the setup waits for.
    pub fn action(&self) -> (r: SessionAction)
        ensures
            r@ == self@.action(),
    {
        match &self.stage {
            Stage::Connecting => SessionAction::Connect(self.address.clone()),
            Stage::Creating => SessionAction::CreateSession,
            Stage::Greeting => SessionAction::Handshake,
            Stage::Authenticating => match &self.credentials {
                Credentials::Password(password) => SessionAction::AuthPassword {
                    username: self.username.clone(),
                    password: password.clone(),
                },
                Credentials::Key(key) => SessionAction::AuthKey {
                    username: self.username.clone(),
                    key: key.clone(),
                },
                Credentials::Nothing => SessionAction::Stop,
            },
            Stage::Ready => SessionAction::Stop,
            Stage::Failed { .. } => SessionAction::Stop,
        }
    }

    /// What is being done while the pending request is out.
    fn context(&self) -> (r: String)
        ensures
            r@ == self@.context(),
    {
        match &self.stage {
            Stage::Connecting => {
                let mut context = String::from_str("Unable to connect to ");
                context.append(self.address.as_str());
                context
            },
            Stage::Creating => String::from_str("Unable to create SSH session"),
            Stage::Greeting => String::from_str("Unable to make ssh handshake"),
            _ => match &self.credentials {
                Credentials::Password(_) => String::from_str(
                    "Unable to authenticate with username/password",
                ),
                _ => String::from_str("Unable to authenticate with pubkey"),
            },
        }
    }

    /// Takes the reply to the request that was asked for and moves on.
    pub fn advance(self, reply: Reply) -> (r: SessionSetup)
        ensures
            r@ == self@.step(reply_view(reply)),
            r@.wf(),
    {
        proof {
            use_type_invariant(&self);
        }
        let next = match &self.stage {
            Stage::Ready => {
                return self;
            },
            Stage::Failed { .. } => {
                return self;
            },
            working => match reply {
                Err(detail) => {
                    let context = self.context();
                    Stage::Failed { error: ssh_failure(context.as_str(), detail.as_str()) }
                },
                Ok(_) => match working {
                    Stage::Connecting => Stage::Creating,
                    Stage::Creating => Stage::Greeting,
                    Stage::Greeting => match &self.credentials {
                        Credentials::Nothing => Stage::Ready,
                        _ => Stage::Authenticating,
                    },
                    _ => Stage::Ready,
                },
            },
        };
        let SessionSetup { address, username, credentials, stage: _ } = self;
        SessionSetup { address, username, credentials, stage: next }
    }

    /// The result of the setup, once it has ended.
    pub fn result(self) -> (r: Option<Result<(), Error>>)
        ensures
            result_view(r) == self@.result(),
    {
        match self.stage {
            Stage::Ready => Some(Ok(())),
            Stage::Failed { error } => Some(Err(error)),
            _ => None,
        }
    }
}

/// The view of a setup's result.
pub open spec fn result_view(r: Option<Result<(), Error>>) -> Option<Result<(), ErrorView>> {
    match r {
        Some(Ok(_)) => Some(Ok(())),
        Some(Err(e)) => Some(Err(e@)),
        None => None,
    }
}

/// With a password the user is authenticated by it, whether or not there
/// is a key as well, and the session is ready after four requests.
pub proof fn lemma_setup_with_password(
    host: Seq<char>,
    port: nat,
    username: Seq<char>,
    password: Seq<char>,
    key: Option<Seq<char>>,
)
    ensures
        ({
            let start = initial(host, port, username, Some(password), key);
            let connected = start.step(Ok(()));
            let created = connected.step(Ok(()));
            let greeted = created.step(Ok(()));
            let authenticated = greeted.step(Ok(()));
            &&& start.action() == SessionActionView::Connect(address_of(host, port))
            &&& connected.action() == SessionActionView::CreateSession
            &&& created.action() == SessionActionView::Handshake
            &&& greeted.action() == SessionActionView::AuthPassword { username, password }
            &&& authenticated.action() == SessionActionView::Stop
            &&& authenticated.result() == Some(Ok::<(), ErrorView>(()))
        }),
{
}

/// Without a password the user is authenticated by the key.
pub proof fn lemma_setup_with_key(host: Seq<char>, port: nat, username: Seq<char>, key: Seq<char>)
    ensures
        ({
            let start = initial(host, port, username, None, Some(key));
            let greeted = start.step(Ok(())).step(Ok(())).step(Ok(()));
            let authenticated = greeted.step(Ok(()));
            &&& greeted.action() == SessionActionView::AuthKey { username, key }
            &&& authenticated.action() == SessionActionView::Stop
            &&& authenticated.result() == Some(Ok::<(), ErrorView>(()))
        }),
{
}

/// Without a password and without a key no authentication is attempted:
/// the session is ready once the two sides have shaken hands.
pub proof fn lemma_setup_without_credentials(host: Seq<char>, port: nat, username: Seq<char>)
    ensures
        ({
            let start = initial(host, port, username, None, None);
            let greeted = start.step(Ok(())).step(Ok(())).step(Ok(()));
            &&& greeted.action() == SessionActionView::Stop
            &&& greeted.result() == Some(Ok::<(), ErrorView>(()))
        }),
{
}

/// A connection that cannot be opened fails the setup at once, with a
/// failure of the remote session that names the address and ends with
/// what the transport said.
pub proof fn lemma_refused_connection(
    host: Seq<char>,
    port: nat,
    username: Seq<char>,
    password: Option<Seq<char>>,
    key: Option<Seq<char>>,
    detail: Seq<char>,
)
    ensures
        ({
            let refused = initial(host, port, username, password, key).step(Err(detail));
            &&& refused.action() == SessionActionView::Stop
            &&& refused.result() == Some(
                Err::<(), ErrorView>(
                    ssh_failure_view("Unable to connect to "@ + address_of(host, port), detail),
                ),
            )
        }),
{
}

/// A request that fails ends the setup with a failure of the remote
/// session whose message ends with what the transport said. Nothing is
/// asked again.
pub proof fn lemma_failed_request_ends_setup(s: SessionSetupView, detail: Seq<char>)
    requires
        s.result() is None,
    ensures
        s.step(Err(detail)).result() == Some(
            Err::<(), ErrorView>(ssh_failure_view(s.context(), detail)),
        ),
        s.step(Err(detail)).action() == SessionActionView::Stop,
        crate::text::is_suffix(ssh_failure_view(s.context(), detail).message, detail),
{
    let message = ssh_failure_view(s.context(), detail).message;
    assert(message.subrange(message.len() - detail.len(), message.len() as int) =~= detail);
}

/// A setup that has ended stays as it is.
pub proof fn lemma_ended_setup_stays(s: SessionSetupView, reply: Result<(), Seq<char>>)
    requires
        s.result() is Some,
    ensures
        s.step(reply) == s,
{
}

/// A setup that can be reached asks for nothing only when it has ended.
pub proof fn lemma_setup_stops_when_ended(s: SessionSetupView, reply: Result<(), Seq<char>>)
    requires
        s.wf(),
    ensures
        s.step(reply).wf(),
        s.result() is Some <==> s.action() == SessionActionView::Stop,
{
}

} // verus!
