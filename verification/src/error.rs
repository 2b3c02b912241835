//! The error type shared by every stage of a deployment.

use vstd::prelude::*;

verus! {

/// What went wrong, as a tag. The detail travels in [`Error::message`].
#[derive(Debug, Clone, Copy, PartialEq, Eq)]
pub enum ErrorKind {
    /// A local file could not be read or written.
    IOError,
    /// A temporary file could not be removed. Never ends a job.
    IOErrorNonFatal,
    /// The compiler could not be run or rejected the source.
    CompilerError,
    /// The remote session failed: connection, handshake, authentication,
    /// command or transfer.
    SSHError,
    /// The DNS provider refused the credentials.
    CfError,
}

/// A failure: its kind and a message to show.
#[derive(Debug, Clone, PartialEq, Eq)]
pub struct Error {
    pub kind: ErrorKind,
    pub message: String,
}

/// The mathematical value of an [`Error`].
pub struct ErrorView {
    pub kind: ErrorKind,
    pub message: Seq<char>,
}

impl View for Error {
    type V = ErrorView;

    open spec fn view(&self) -> ErrorView {
        ErrorView { kind: self.kind, message: self.message@ }
    }
}

/// The sentence that introduces an error of the given kind.
pub open spec fn kind_text(kind: ErrorKind) -> Seq<char> {
    match kind {
        ErrorKind::IOError => "Error during IO operation"@,
        ErrorKind::IOErrorNonFatal => "Non fatal error during IO operation"@,
        ErrorKind::CompilerError => "Error during script compilation"@,
        ErrorKind::SSHError => "Error during SSH"@,
        ErrorKind::CfError => "Error during Cloudflare check"@,
    }
}

/// An error as shown to a person: the kind's sentence, a dash, the message.
pub open spec fn display_text(e: ErrorView) -> Seq<char> {
    kind_text(e.kind) + " - "@ + e.message
}

impl ErrorKind {
    /// The sentence that introduces an error of this kind.
    pub fn text(self) -> (r: &'static str)
        ensures
            r@ == kind_text(self),
    {
        match self {
            ErrorKind::IOError => "Error during IO operation",
            ErrorKind::IOErrorNonFatal => "Non fatal error during IO operation",
            ErrorKind::CompilerError => "Error during script compilation",
            ErrorKind::SSHError => "Error during SSH",
            ErrorKind::CfError => "Error during Cloudflare check",
        }
    }
}

impl Error {
    /// An error of the given kind with the given message.
    pub fn new(kind: ErrorKind, message: String) -> (r: Self)
        ensures
            r.kind == kind,
            r.message == message,
    {
        Self { kind, message }
    }

    /// A copy of this error.
    pub fn duplicate(&self) -> (r: Error)
        ensures
            r == *self,
    {
        Error { kind: self.kind, message: self.message.clone() }
    }

    /// The error as one line of text.
    pub fn to_text(&self) -> (r: String)
        ensures
            r@ == display_text(self@),
    {
        let mut out = String::from_str(self.kind.text());
        out.append(" - ");
        out.append(self.message.as_str());
        out
    }
}

} // verus!
