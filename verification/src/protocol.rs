//! Request and response shapes of the derivation protocol, and the builders
//! that produce well-formed requests.
//!
//! Every request is a pure function of the injected configuration and the
//! caller's arguments: both operations carry the same domain separator and
//! key id, and a derive-key request binds exactly the byte encoding of the
//! caller-supplied user identifier as its derivation input.

use vstd::prelude::*;

verus! {

use vstd::slice::slice_to_vec;
use vstd::utf8::encode_utf8;
use crate::config::{Config, KeyId, same_key_id};

/// Request for the application's standing public key.
pub struct PublicKeyRequest {
    /// Identity whose namespace roots the derivation; absent means the
    /// caller's own identity.
    pub target_identity: Option<Vec<u8>>,
    /// The application's namespace tag; must equal the one sent with every
    /// derive-key request.
    pub domain_separator: Vec<u8>,
    /// Which key-derivation configuration to use.
    pub key_id: KeyId,
}

/// The authority's answer to a public-key request: an opaque encoded public
/// key on the configured curve, returned to the caller as-is.
pub struct PublicKeyResponse {
    pub public_key: Vec<u8>,
}

/// Request for one user-specific encrypted key share.
pub struct DeriveKeyRequest {
    /// Raw byte encoding of the user identifier: the sole variable that
    /// distinguishes one user's key from another's under a fixed domain
    /// separator and key id.
    pub derivation_input: Vec<u8>,
    /// The application's namespace tag; must equal the one sent with the
    /// public-key request.
    pub domain_separator: Vec<u8>,
    /// Caller-supplied key under which the authority encrypts its answer;
    /// opaque to this client, never validated here.
    pub transport_public_key: Vec<u8>,
    /// Which key-derivation configuration to use.
    pub key_id: KeyId,
}

/// The authority's answer to a derive-key request: the derived private-key
/// share, encrypted under the request's transport public key.
pub struct DeriveKeyResponse {
    pub encrypted_key: Vec<u8>,
}

/// A derive-key call ready to send: the request together with the fixed
/// resource-cost payment the authority charges for it.
pub struct DeriveKeyCall {
    pub request: DeriveKeyRequest,
    /// Payment attached to the call; consumed on every attempt, accepted or
    /// not.
    pub payment: u128,
}

/// What a well-formed public-key request looks like under a configuration:
/// no explicit target identity (the caller's own identity roots the
/// namespace), the configured domain separator, the configured key id.
pub open spec fn public_key_request_for(r: PublicKeyRequest, cfg: Config) -> bool {
    &&& r.target_identity is None
    &&& r.domain_separator@ == cfg.domain_separator@
    &&& same_key_id(r.key_id, cfg.key_id)
}

/// What a well-formed derive-key call looks like under a configuration: the
/// derivation input is exactly the byte encoding of the user identifier, the
/// domain separator and key id are the configured ones, the transport public
/// key is passed through unchanged, and the payment is the configured tariff.
pub open spec fn derive_key_call_for(
    c: DeriveKeyCall,
    cfg: Config,
    user_id: Seq<char>,
    transport_public_key: Seq<u8>,
) -> bool {
    &&& c.request.derivation_input@ == encode_utf8(user_id)
    &&& c.request.domain_separator@ == cfg.domain_separator@
    &&& c.request.transport_public_key@ == transport_public_key
    &&& same_key_id(c.request.key_id, cfg.key_id)
    &&& c.payment == cfg.derive_key_cost
}

/// Builds the public-key request for this application.
///
/// The request is a function of the configuration alone, so every fetch under
/// one configuration sends the same request.
pub fn public_key_request(cfg: &Config) -> (r: PublicKeyRequest)
    ensures
        public_key_request_for(r, *cfg),
{
    PublicKeyRequest {
        target_identity: None,
        domain_separator: slice_to_vec(cfg.domain_separator.as_slice()),
        key_id: KeyId { curve: cfg.key_id.curve, name: cfg.key_id.name.clone() },
    }
}

/// Builds the derive-key call for one user.
///
/// An empty `user_id` is a valid input and yields an empty derivation input;
/// whether the authority accepts it is the authority's decision, not this
/// client's.
pub fn derive_key_call(cfg: &Config, user_id: &str, transport_public_key: Vec<u8>) -> (c: DeriveKeyCall)
    ensures
        derive_key_call_for(c, *cfg, user_id@, transport_public_key@),
{
    DeriveKeyCall {
        request: DeriveKeyRequest {
            derivation_input: slice_to_vec(user_id.as_bytes()),
            domain_separator: slice_to_vec(cfg.domain_separator.as_slice()),
            transport_public_key,
            key_id: KeyId { curve: cfg.key_id.curve, name: cfg.key_id.name.clone() },
        },
        payment: cfg.derive_key_cost,
    }
}

} // verus!
