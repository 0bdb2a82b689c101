//! What the client makes of an answer before and after its body is read.
use vstd::prelude::*;

use crate::error::Error;

verus! {

/// Calls `reqwest::StatusCode::is_success` on the status with number `code`
/// (made with `StatusCode::from_u16`, which refuses numbers outside
/// `100..=999`). Claimed, from the `http` crate's source: the status counts as
/// a success exactly when its number is in `200..300`; a number that is no
/// status at all is no success either.
#[verifier::external_body]
fn status_is_success(code: u16) -> (r: bool)
    ensures
        r == (200 <= code < 300),
{
    match reqwest::StatusCode::from_u16(code) {
        Ok(status) => status.is_success(),
        Err(_) => false,
    }
}

/// The HTTP status numbers that count as success.
pub open spec fn is_success_status(code: u16) -> bool {
    200 <= code < 300
}

/// Whether an answer with this status number is a success.
pub fn status_succeeded(status: u16) -> (r: bool)
    ensures
        r == is_success_status(status),
{
    status_is_success(status)
}

/// Accepts a response whose status is a success; otherwise answers with
/// `Error::Status`, which keeps the status and the body the server sent.
pub fn check_status(status: u16, body: String) -> (r: Result<(), Error>)
    ensures
        is_success_status(status) ==> r == Ok::<(), Error>(()),
        !is_success_status(status) ==> r == Err::<(), Error>(Error::Status { status, body }),
{
    if status_succeeded(status) {
        Ok(())
    } else {
        Err(Error::Status { status, body })
    }
}

/// The outcome of an acknowledgement body `{"result": ...}`: success when the
/// API reported `result: true`, `Error::Unsuccessful` otherwise.
pub fn ack_result(result: bool) -> (r: Result<(), Error>)
    ensures
        result ==> r == Ok::<(), Error>(()),
        !result ==> r == Err::<(), Error>(Error::Unsuccessful),
{
    if result {
        Ok(())
    } else {
        Err(Error::Unsuccessful)
    }
}

} // verus!
