use vetkey_backend::outcome::{
    classify_rejection, complete_key_derivation, complete_public_key_fetch, KdError, RejectCode,
    RemoteOutcome,
};
use vetkey_backend::protocol::{DeriveKeyResponse, PublicKeyResponse};

#[test]
fn reply_passes_public_key_through() {
    let outcome = RemoteOutcome::Reply(PublicKeyResponse { public_key: vec![9, 9, 9] });
    assert_eq!(complete_public_key_fetch(outcome), Ok(vec![9, 9, 9]));
}

#[test]
fn reply_passes_encrypted_key_through() {
    let outcome = RemoteOutcome::Reply(DeriveKeyResponse { encrypted_key: vec![4, 2] });
    assert_eq!(complete_key_derivation(outcome), Ok(vec![4, 2]));
}

#[test]
fn malformed_response_reports_error_not_default_key() {
    let outcome: RemoteOutcome<PublicKeyResponse> = RemoteOutcome::Malformed;
    let r = complete_public_key_fetch(outcome);
    assert!(r.is_err());
    assert_eq!(r, Err(KdError::MalformedResponse));
}

#[test]
fn unreachable_authority_reports_error_not_default_key() {
    let outcome: RemoteOutcome<PublicKeyResponse> =
        RemoteOutcome::Rejection(RejectCode::SysTransient, "no route".to_string());
    let r = complete_public_key_fetch(outcome);
    assert_eq!(r, Err(KdError::RemoteUnavailable("no route".to_string())));
}

#[test]
fn rejected_derivation_reports_rejection() {
    let outcome: RemoteOutcome<DeriveKeyResponse> = RemoteOutcome::Rejection(
        RejectCode::CanisterReject,
        "insufficient cycles".to_string(),
    );
    let r = complete_key_derivation(outcome);
    assert_eq!(r, Err(KdError::RemoteRejected("insufficient cycles".to_string())));
}

#[test]
fn malformed_derivation_reports_error() {
    let outcome: RemoteOutcome<DeriveKeyResponse> = RemoteOutcome::Malformed;
    assert_eq!(complete_key_derivation(outcome), Err(KdError::MalformedResponse));
}

#[test]
fn classification_of_every_reject_code() {
    let m = || "why".to_string();
    assert_eq!(classify_rejection(RejectCode::NoError, m()), KdError::RemoteUnavailable(m()));
    assert_eq!(classify_rejection(RejectCode::SysFatal, m()), KdError::RemoteUnavailable(m()));
    assert_eq!(classify_rejection(RejectCode::SysTransient, m()), KdError::RemoteUnavailable(m()));
    assert_eq!(
        classify_rejection(RejectCode::DestinationInvalid, m()),
        KdError::RemoteUnavailable(m())
    );
    assert_eq!(classify_rejection(RejectCode::CanisterReject, m()), KdError::RemoteRejected(m()));
    assert_eq!(classify_rejection(RejectCode::CanisterError, m()), KdError::RemoteRejected(m()));
    assert_eq!(classify_rejection(RejectCode::Unknown, m()), KdError::RemoteUnavailable(m()));
}
