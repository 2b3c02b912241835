//! What the service tells its clients besides the stage of a job: the
//! identifier of a new job and the answer for an unknown one.

use crate::text::{append_decimal, decimal};
use vstd::prelude::*;

verus! {

/// The identifier of a job that is submitted `elapsed_millis` milliseconds
/// after the service started: that number, as far as it fits.
pub open spec fn id_at(elapsed_millis: nat) -> u64 {
    (elapsed_millis % 0x1_0000_0000_0000_0000) as u64
}

/// The answer for a job that is not known.
pub open spec fn not_found_text(id: u64) -> Seq<char> {
    "{'error': 'No job with id "@ + decimal(id as nat) + " exists'}"@
}

/// The identifier of a job that is submitted `elapsed_millis` milliseconds
/// after the service started. Two jobs submitted within one millisecond
/// get the same identifier.
pub fn job_id(elapsed_millis: u128) -> (r: u64)
    ensures
        r == id_at(elapsed_millis as nat),
        elapsed_millis <= u64::MAX ==> r == elapsed_millis,
{
    (elapsed_millis % 0x1_0000_0000_0000_0000) as u64
}

/// The answer for a job that is not known.
pub fn not_found_body(id: u64) -> (r: String)
    ensures
        r@ == not_found_text(id),
{
    let mut body = String::from_str("{'error': 'No job with id ");
    append_decimal(&mut body, id as u128);
    body.append(" exists'}");
    body
}

} // verus!
