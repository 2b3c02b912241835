//! How a failure of the remote session is worded.

use crate::error::{Error, ErrorKind, ErrorView};
use vstd::prelude::*;

verus! {

/// The error for a request to the remote side that failed: what was being
/// done, a space, and what the transport said.
pub open spec fn ssh_failure_view(context: Seq<char>, detail: Seq<char>) -> ErrorView {
    ErrorView { kind: ErrorKind::SSHError, message: context + " "@ + detail }
}

/// The error for a request to the remote side that failed.
pub fn ssh_failure(context: &str, detail: &str) -> (r: Error)
    ensures
        r@ == ssh_failure_view(context@, detail@),
{
    let mut message = String::from_str(context);
    message.append(" ");
    message.append(detail);
    Error::new(ErrorKind::SSHError, message)
}

} // verus!
