//! Sending the artifact to the remote host.
//!
//! The file is read into memory and announced to the remote side under its
//! own name. Its bytes are written to the transfer channel; then end of
//! file is sent and awaited, and the channel is closed and its closing
//! awaited. Only when the remote side has confirmed all of these is the
//! file sent.

use crate::error::{Error, ErrorKind, ErrorView};
use crate::ssh::failure::{ssh_failure, ssh_failure_view};
use vstd::prelude::*;

verus! {

/// The permissions that the file gets on the remote host.
pub const REMOTE_FILE_MODE: i32 = 0o644;

/// The request that comes next.
#[derive(Debug, Clone, PartialEq, Eq)]
pub enum UploadAction {
    /// Open the local file of this name.
    OpenFile(String),
    /// Read the open file to its end.
    ReadFile,
    /// Announce the file to the remote side and open the transfer channel.
    ScpSend { remote_path: String, mode: i32, size: u64 },
    /// Write all the bytes that were read to the transfer channel.
    WriteAll,
    /// Tell the remote side that no more bytes will come.
    SendEof,
    /// Wait until the remote side has seen the end of the file.
    WaitEof,
    /// Close the transfer channel.
    Close,
    /// Wait until the remote side has closed the channel.
    WaitClose,
    /// The upload has ended. Its result can be taken.
    Stop,
}

/// The mathematical value of an [`UploadAction`].
pub enum UploadActionView {
    OpenFile(Seq<char>),
    ReadFile,
    ScpSend { remote_path: Seq<char>, mode: int, size: nat },
    WriteAll,
    SendEof,
    WaitEof,
    Close,
    WaitClose,
    Stop,
}

impl View for UploadAction {
    type V = UploadActionView;

    open spec fn view(&self) -> UploadActionView {
        match self {
            UploadAction::OpenFile(path) => UploadActionView::OpenFile(path@),
            UploadAction::ReadFile => UploadActionView::ReadFile,
            UploadAction::ScpSend { remote_path, mode, size } => UploadActionView::ScpSend {
                remote_path: remote_path@,
                mode: *mode as int,
                size: *size as nat,
            },
            UploadAction::WriteAll => UploadActionView::WriteAll,
            UploadAction::SendEof => UploadActionView::SendEof,
            UploadAction::WaitEof => UploadActionView::WaitEof,
            UploadAction::Close => UploadActionView::Close,
            UploadAction::WaitClose => UploadActionView::WaitClose,
            UploadAction::Stop => UploadActionView::Stop,
        }
    }
}

/// What came back from a request.
#[derive(Debug, Clone, PartialEq, Eq)]
pub enum UploadReply {
    /// The request succeeded and has nothing to tell.
    Done,
    /// The bytes that were read from the file.
    Contents(Vec<u8>),
    /// The request failed; the text is what the system or the transport
    /// said.
    Failed(String),
}

/// The mathematical value of an [`UploadReply`].
pub enum UploadReplyView {
    Done,
    Contents(Seq<u8>),
    Failed(Seq<char>),
}

impl View for UploadReply {
    type V = UploadReplyView;

    open spec fn view(&self) -> UploadReplyView {
        match self {
            UploadReply::Done => UploadReplyView::Done,
            UploadReply::Contents(bytes) => UploadReplyView::Contents(bytes@),
            UploadReply::Failed(detail) => UploadReplyView::Failed(detail@),
        }
    }
}

enum Stage {
    OpeningFile,
    ReadingFile,
    Announcing { contents: Vec<u8>, size: u64 },
    Writing { contents: Vec<u8> },
    SendingEof,
    AwaitingEof,
    Closing,
    AwaitingClose,
    Sent,
    Failed { error: Error },
}

/// The mathematical value of an upload's position.
pub enum StageView {
    OpeningFile,
    ReadingFile,
    Announcing { contents: Seq<u8>, size: nat },
    Writing { contents: Seq<u8> },
    SendingEof,
    AwaitingEof,
    Closing,
    AwaitingClose,
    Sent,
    Failed { error: ErrorView },
}

impl View for Stage {
    type V = StageView;

    closed spec fn view(&self) -> StageView {
        match self {
            Stage::OpeningFile => StageView::OpeningFile,
            Stage::ReadingFile => StageView::ReadingFile,
            Stage::Announcing { contents, size } => StageView::Announcing {
                contents: contents@,
                size: *size as nat,
            },
            Stage::Writing { contents } => StageView::Writing { contents: contents@ },
            Stage::SendingEof => StageView::SendingEof,
            Stage::AwaitingEof => StageView::AwaitingEof,
            Stage::Closing => StageView::Closing,
            Stage::AwaitingClose => StageView::AwaitingClose,
            Stage::Sent => StageView::Sent,
            Stage::Failed { error } => StageView::Failed { error: error@ },
        }
    }
}

/// The upload of one file.
pub struct Upload {
    filename: String,
    stage: Stage,
}

/// The mathematical value of an [`Upload`].
pub struct UploadView {
    pub filename: Seq<char>,
    pub stage: StageView,
}

impl View for Upload {
    type V = UploadView;

    closed spec fn view(&self) -> UploadView {
        UploadView { filename: self.filename@, stage: self.stage@ }
    }
}

/// The size that is announced for a file of `len` bytes: eight times its
/// length.
pub open spec fn announced_size(len: nat) -> nat {
    len * 8
}

/// A failure of the local file system.
pub open spec fn io_failure(context: Seq<char>, detail: Seq<char>) -> ErrorView {
    ErrorView { kind: ErrorKind::IOError, message: context + detail }
}

/// The failure when the local file could not be opened.
pub open spec fn open_failure(detail: Seq<char>) -> ErrorView {
    io_failure("Unable to open binary file "@, detail)
}

/// The failure when the local file could not be read.
pub open spec fn read_failure(detail: Seq<char>) -> ErrorView {
    io_failure("Could not read binary file, "@, detail)
}

/// The failure when the file is so long that its announced size cannot be
/// told to the remote side.
pub open spec fn too_long_failure() -> ErrorView {
    read_failure("the file is too long to be sent"@)
}

impl UploadView {
    /// The request that the upload waits for.
    pub open spec fn action(self) -> UploadActionView {
        match self.stage {
            StageView::OpeningFile => UploadActionView::OpenFile(self.filename),
            StageView::ReadingFile => UploadActionView::ReadFile,
            StageView::Announcing { size, .. } => UploadActionView::ScpSend {
                remote_path: self.filename,
                mode: REMOTE_FILE_MODE as int,
                size,
            },
            StageView::Writing { .. } => UploadActionView::WriteAll,
            StageView::SendingEof => UploadActionView::SendEof,
            StageView::AwaitingEof => UploadActionView::WaitEof,
            StageView::Closing => UploadActionView::Close,
            StageView::AwaitingClose => UploadActionView::WaitClose,
            StageView::Sent => UploadActionView::Stop,
            StageView::Failed { .. } => UploadActionView::Stop,
        }
    }

    /// The bytes to write, while the upload holds them.
    pub open spec fn contents(self) -> Option<Seq<u8>> {
        match self.stage {
            StageView::Announcing { contents, .. } => Some(contents),
            StageView::Writing { contents } => Some(contents),
            _ => None,
        }
    }

    /// The result of the upload, once it has ended.
    pub open spec fn result(self) -> Option<Result<(), ErrorView>> {
        match self.stage {
            StageView::Sent => Some(Ok(())),
            StageView::Failed { error } => Some(Err(error)),
            _ => None,
        }
    }

    /// The failure of the pending request, given what the system or the
    /// transport said.
    pub open spec fn failure(self, detail: Seq<char>) -> ErrorView {
        match self.stage {
            StageView::OpeningFile => open_failure(detail),
            StageView::ReadingFile => read_failure(detail),
            StageView::Announcing { .. } => ssh_failure_view(
                "Failed to create file on server"@,
                detail,
            ),
            StageView::Writing { .. } => ssh_failure_view("Unable to write binary file"@, detail),
            StageView::SendingEof => ssh_failure_view("Unable to write binary file"@, detail),
            StageView::AwaitingEof => ssh_failure_view("Error sending to remote"@, detail),
            _ => ssh_failure_view("Error closing remote file"@, detail),
        }
    }

    /// The upload after the reply to its request. A reply that does not
    /// answer the request changes nothing.
    pub open spec fn step(self, reply: UploadReplyView) -> UploadView {
        let stage = match (self.stage, reply) {
            (StageView::Sent, _) => self.stage,
            (StageView::Failed { .. }, _) => self.stage,
            (_, UploadReplyView::Failed(detail)) => StageView::Failed {
                error: self.failure(detail),
            },
            (StageView::OpeningFile, UploadReplyView::Done) => StageView::ReadingFile,
            (StageView::ReadingFile, UploadReplyView::Contents(contents)) => if announced_size(
                contents.len(),
            ) <= u64::MAX {
                StageView::Announcing { contents, size: announced_size(contents.len()) }
            } else {
                StageView::Failed { error: too_long_failure() }
            },
            (StageView::Announcing { contents, .. }, UploadReplyView::Done) => StageView::Writing {
                contents,
            },
            (StageView::Writing { .. }, UploadReplyView::Done) => StageView::SendingEof,
            (StageView::SendingEof, UploadReplyView::Done) => StageView::AwaitingEof,
            (StageView::AwaitingEof, UploadReplyView::Done) => StageView::Closing,
            (StageView::Closing, UploadReplyView::Done) => StageView::AwaitingClose,
            (StageView::AwaitingClose, UploadReplyView::Done) => StageView::Sent,
            (stage, _) => stage,
        };
        UploadView { filename: self.filename, stage }
    }
}

/// The upload of `filename` before anything was asked.
pub open spec fn initial(filename: Seq<char>) -> UploadView {
    UploadView { filename, stage: StageView::OpeningFile }
}

/// Prepares the upload of the local file `filename` to a remote file of
/// the same name.
pub fn upload_file(filename: &str) -> (r: Upload)
    ensures
        r@ == initial(filename@),
{
    Upload { filename: String::from_str(filename), stage: Stage::OpeningFile }
}

/// A failure of the local file system.
fn io_failed(context: &str, detail: &str) -> (r: Error)
    ensures
        r@ == io_failure(context@, detail@),
{
    let mut message = String::from_str(context);
    message.append(detail);
    Error::new(ErrorKind::IOError, message)
}

impl Upload {
    /// The request that the upload waits for.
    pub fn action(&self) -> (r: UploadAction)
        ensures
            r@ == self@.action(),
    {
        match &self.stage {
            Stage::OpeningFile => UploadAction::OpenFile(self.filename.clone()),
            Stage::ReadingFile => UploadAction::ReadFile,
            Stage::Announcing { size, .. } => UploadAction::ScpSend {
                remote_path: self.filename.clone(),
                mode: REMOTE_FILE_MODE,
                size: *size,
            },
            Stage::Writing { .. } => UploadAction::WriteAll,
            Stage::SendingEof => UploadAction::SendEof,
            Stage::AwaitingEof => UploadAction::WaitEof,
            Stage::Closing => UploadAction::Close,
            Stage::AwaitingClose => UploadAction::WaitClose,
            Stage::Sent => UploadAction::Stop,
            Stage::Failed { .. } => UploadAction::Stop,
        }
    }

    /// The bytes to write, while the upload holds them.
    pub fn contents(&self) -> (r: Option<&Vec<u8>>)
        ensures
            match r {
                Some(bytes) => self@.contents() == Some(bytes@),
                None => self@.contents() is None,
            },
    {
        match &self.stage {
            Stage::Announcing { contents, .. } => Some(contents),
            Stage::Writing { contents } => Some(contents),
            _ => None,
        }
    }

    /// The failure of the pending request.
    fn failure(&self, detail: &str) -> (r: Error)
        ensures
            r@ == self@.failure(detail@),
    {
        match &self.stage {
            Stage::OpeningFile => io_failed("Unable to open binary file ", detail),
            Stage::ReadingFile => io_failed("Could not read binary file, ", detail),
            Stage::Announcing { .. } => ssh_failure("Failed to create file on server", detail),
            Stage::Writing { .. } => ssh_failure("Unable to write binary file", detail),
            Stage::SendingEof => ssh_failure("Unable to write binary file", detail),
            Stage::AwaitingEof => ssh_failure("Error sending to remote", detail),
            _ => ssh_failure("Error closing remote file", detail),
        }
    }

    /// Takes the reply to the request that was asked for and moves on.
    pub fn advance(self, reply: UploadReply) -> (r: Upload)
        ensures
            r@ == self@.step(reply@),
    {
        match &self.stage {
            Stage::Sent => {
                return self;
            },
            Stage::Failed { .. } => {
                return self;
            },
            _ => {},
        }
        if let UploadReply::Failed(detail) = &reply {
            let error = self.failure(detail.as_str());
            return Upload { filename: self.filename, stage: Stage::Failed { error } };
        }
        let Upload { filename, stage } = self;
        let next = match (stage, reply) {
            (Stage::OpeningFile, UploadReply::Done) => Stage::ReadingFile,
            (Stage::ReadingFile, UploadReply::Contents(contents)) => {
                let len = contents.len() as u64;
                if len <= u64::MAX / 8 {
                    Stage::Announcing { contents, size: len * 8 }
                } else {
                    Stage::Failed {
                        error: io_failed(
                            "Could not read binary file, ",
                            "the file is too long to be sent",
                        ),
                    }
                }
            },
            (Stage::Announcing { contents, .. }, UploadReply::Done) => Stage::Writing { contents },
            (Stage::Writing { .. }, UploadReply::Done) => Stage::SendingEof,
            (Stage::SendingEof, UploadReply::Done) => Stage::AwaitingEof,
            (Stage::AwaitingEof, UploadReply::Done) => Stage::Closing,
            (Stage::Closing, UploadReply::Done) => Stage::AwaitingClose,
            (Stage::AwaitingClose, UploadReply::Done) => Stage::Sent,
            (stage, _) => stage,
        };
        Upload { filename, stage: next }
    }

    /// The result of the upload, once it has ended.
    pub fn result(self) -> (r: Option<Result<(), Error>>)
        ensures
            result_view(r) == self@.result(),
    {
        match self.stage {
            Stage::Sent => Some(Ok(())),
            Stage::Failed { error } => Some(Err(error)),
            _ => None,
        }
    }
}

/// The view of an upload's result.
pub open spec fn result_view(r: Option<Result<(), Error>>) -> Option<Result<(), ErrorView>> {
    match r {
        Some(Ok(_)) => Some(Ok(())),
        Some(Err(e)) => Some(Err(e@)),
        None => None,
    }
}

/// A file is sent when every request was confirmed, in this order: the
/// file is opened and read, announced under its own name with eight times
/// its length and the fixed permissions, written, ended on both sides and
/// closed on both sides. While it is written the upload holds the bytes
/// that were read.
pub proof fn lemma_confirmed_upload(filename: Seq<char>, contents: Seq<u8>)
    requires
        announced_size(contents.len()) <= u64::MAX,
    ensures
        ({
            let start = initial(filename);
            let opened = start.step(UploadReplyView::Done);
            let read = opened.step(UploadReplyView::Contents(contents));
            let announced = read.step(UploadReplyView::Done);
            let written = announced.step(UploadReplyView::Done);
            let ended = written.step(UploadReplyView::Done);
            let end_seen = ended.step(UploadReplyView::Done);
            let closed = end_seen.step(UploadReplyView::Done);
            let close_seen = closed.step(UploadReplyView::Done);
            &&& start.action() == UploadActionView::OpenFile(filename)
            &&& opened.action() == UploadActionView::ReadFile
            &&& read.action() == UploadActionView::ScpSend {
                remote_path: filename,
                mode: REMOTE_FILE_MODE as int,
                size: contents.len() * 8,
            }
            &&& announced.action() == UploadActionView::WriteAll
            &&& announced.contents() == Some(contents)
            &&& written.action() == UploadActionView::SendEof
            &&& ended.action() == UploadActionView::WaitEof
            &&& end_seen.action() == UploadActionView::Close
            &&& closed.action() == UploadActionView::WaitClose
            &&& close_seen.action() == UploadActionView::Stop
            &&& close_seen.result() == Some(Ok::<(), ErrorView>(()))
        }),
{
}

/// Success is the last confirmation: an upload becomes sent only when the
/// remote side confirms that it has closed the channel.
pub proof fn lemma_sent_means_confirmed(u: UploadView, reply: UploadReplyView)
    requires
        u.result() is None,
        u.step(reply).result() == Some(Ok::<(), ErrorView>(())),
    ensures
        u.stage is AwaitingClose,
        reply is Done,
{
}

/// A request that fails ends the upload with the failure of that request.
/// Nothing is asked again.
pub proof fn lemma_failed_request_ends_upload(u: UploadView, detail: Seq<char>)
    requires
        u.result() is None,
    ensures
        u.step(UploadReplyView::Failed(detail)).result() == Some(
            Err::<(), ErrorView>(u.failure(detail)),
        ),
        u.step(UploadReplyView::Failed(detail)).action() == UploadActionView::Stop,
{
}

/// An upload that has ended stays as it is.
pub proof fn lemma_ended_upload_stays(u: UploadView, reply: UploadReplyView)
    requires
        u.result() is Some,
    ensures
        u.step(reply) == u,
{
}

} // verus!
