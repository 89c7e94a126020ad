//! Classification of what one round trip to the authority produced.
//!
//! Every failure is fatal for the current call: nothing is retried, nothing
//! is swallowed, and no default key is ever substituted for a missing or
//! malformed answer.

use vstd::prelude::*;

verus! {

use crate::protocol::{DeriveKeyResponse, PublicKeyResponse};

/// Transport-level verdict of a rejected call, as the surrounding runtime
/// reports it to the caller of this library.
#[derive(Clone, Copy, PartialEq, Eq, Structural, Debug)]
pub enum RejectCode {
    /// Not an error; never accompanies a rejection in practice.
    NoError,
    /// Fatal system error on the way to the destination.
    SysFatal,
    /// Transient system error; the destination was not reached.
    SysTransient,
    /// The destination does not exist or cannot be addressed.
    DestinationInvalid,
    /// The destination was reached and explicitly rejected the request.
    CanisterReject,
    /// The destination was reached and failed while handling the request.
    CanisterError,
    /// A code this library does not know.
    Unknown,
}

/// What one round trip produced: a reply that decoded against the expected
/// schema, a rejection with its code and message, or a reply that arrived but
/// did not match the schema.
pub enum RemoteOutcome<T> {
    Reply(T),
    Rejection(RejectCode, String),
    Malformed,
}

/// Error taxonomy of the client. All three are fatal for the current call and
/// surfaced to the caller unchanged.
#[derive(Debug, PartialEq, Eq)]
pub enum KdError {
    /// The authority could not be reached, or a transport-level error struck.
    RemoteUnavailable(String),
    /// The authority was reached but declined the request (malformed request,
    /// insufficient attached cost, unknown key id).
    RemoteRejected(String),
    /// A response arrived but does not match the expected schema.
    MalformedResponse,
}

/// A rejection with this code means the authority itself was reached and
/// turned the request down; any other code means it was never reached.
pub open spec fn is_reached_rejection(code: RejectCode) -> bool {
    code == RejectCode::CanisterReject || code == RejectCode::CanisterError
}

/// Maps a transport rejection into the client's error taxonomy, keeping the
/// runtime's message verbatim.
pub fn classify_rejection(code: RejectCode, message: String) -> (e: KdError)
    ensures
        is_reached_rejection(code) ==> e == KdError::RemoteRejected(message),
        !is_reached_rejection(code) ==> e == KdError::RemoteUnavailable(message),
{
    match code {
        RejectCode::CanisterReject | RejectCode::CanisterError => KdError::RemoteRejected(message),
        _ => KdError::RemoteUnavailable(message),
    }
}

/// How a completed public-key fetch relates to the outcome of its round trip:
/// the raw public-key bytes exactly when a well-formed reply arrived, and the
/// classified error otherwise.
pub open spec fn completed_fetch(outcome: RemoteOutcome<PublicKeyResponse>, r: Result<Vec<u8>, KdError>) -> bool {
    &&& (r is Ok <==> outcome is Reply)
    &&& (outcome matches RemoteOutcome::Reply(resp) ==> r == Ok::<Vec<u8>, KdError>(resp.public_key))
    &&& (outcome matches RemoteOutcome::Rejection(code, m) ==> {
        &&& is_reached_rejection(code) ==> r == Err::<Vec<u8>, KdError>(KdError::RemoteRejected(m))
        &&& !is_reached_rejection(code) ==> r == Err::<Vec<u8>, KdError>(KdError::RemoteUnavailable(m))
    })
    &&& (outcome is Malformed ==> r == Err::<Vec<u8>, KdError>(KdError::MalformedResponse))
}

/// How a completed key derivation relates to the outcome of its round trip:
/// the encrypted key share exactly when a well-formed reply arrived, and the
/// classified error otherwise.
pub open spec fn completed_derivation(outcome: RemoteOutcome<DeriveKeyResponse>, r: Result<Vec<u8>, KdError>) -> bool {
    &&& (r is Ok <==> outcome is Reply)
    &&& (outcome matches RemoteOutcome::Reply(resp) ==> r == Ok::<Vec<u8>, KdError>(resp.encrypted_key))
    &&& (outcome matches RemoteOutcome::Rejection(code, m) ==> {
        &&& is_reached_rejection(code) ==> r == Err::<Vec<u8>, KdError>(KdError::RemoteRejected(m))
        &&& !is_reached_rejection(code) ==> r == Err::<Vec<u8>, KdError>(KdError::RemoteUnavailable(m))
    })
    &&& (outcome is Malformed ==> r == Err::<Vec<u8>, KdError>(KdError::MalformedResponse))
}

/// Unwraps the outcome of a public-key fetch: the public-key bytes as-is on a
/// well-formed reply, an error on anything else — never a default key.
pub fn complete_public_key_fetch(outcome: RemoteOutcome<PublicKeyResponse>) -> (r: Result<Vec<u8>, KdError>)
    ensures
        completed_fetch(outcome, r),
{
    match outcome {
        RemoteOutcome::Reply(resp) => Ok(resp.public_key),
        RemoteOutcome::Rejection(code, message) => Err(classify_rejection(code, message)),
        RemoteOutcome::Malformed => Err(KdError::MalformedResponse),
    }
}

/// Unwraps the outcome of a key derivation: the encrypted key share as-is on
/// a well-formed reply, an error on anything else.
pub fn complete_key_derivation(outcome: RemoteOutcome<DeriveKeyResponse>) -> (r: Result<Vec<u8>, KdError>)
    ensures
        completed_derivation(outcome, r),
{
    match outcome {
        RemoteOutcome::Reply(resp) => Ok(resp.encrypted_key),
        RemoteOutcome::Rejection(code, message) => Err(classify_rejection(code, message)),
        RemoteOutcome::Malformed => Err(KdError::MalformedResponse),
    }
}

} // verus!
