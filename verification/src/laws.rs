//! Laws the protocol obeys, stated over the request predicates and proved
//! once and for all.
//!
//! The authority derives keys as a pure function of the triple
//! (domain separator, key id, derivation input). These lemmas pin down the
//! client's half of that contract: which triples its requests carry, when two
//! requests carry the same triple, and when they cannot.

use vstd::prelude::*;

verus! {

use vstd::utf8::{encode_utf8, encode_utf8_decode_utf8};
use crate::config::{Config, same_key_id};
use crate::protocol::{DeriveKeyCall, PublicKeyRequest, derive_key_call_for, public_key_request_for};

/// The byte encoding of a user identifier is one-to-one: equal encodings come
/// only from equal identifiers.
pub proof fn lemma_user_encoding_injective(a: Seq<char>, b: Seq<char>)
    requires
        encode_utf8(a) == encode_utf8(b),
    ensures
        a == b,
{
    encode_utf8_decode_utf8(a);
    encode_utf8_decode_utf8(b);
}

/// Two derive-key calls for the same user under the same configuration carry
/// the same derivation triple — equal derivation input, domain separator and
/// key id — however their transport public keys differ. Since the authority
/// derives as a pure function of that triple, both calls obtain the same
/// underlying key; only its transport encryption differs.
pub proof fn lemma_same_user_same_derivation_triple(
    c1: DeriveKeyCall,
    c2: DeriveKeyCall,
    cfg: Config,
    user_id: Seq<char>,
    tpk1: Seq<u8>,
    tpk2: Seq<u8>,
)
    requires
        derive_key_call_for(c1, cfg, user_id, tpk1),
        derive_key_call_for(c2, cfg, user_id, tpk2),
    ensures
        c1.request.derivation_input@ == c2.request.derivation_input@,
        c1.request.domain_separator@ == c2.request.domain_separator@,
        same_key_id(c1.request.key_id, c2.request.key_id),
{
}

/// Distinct users yield distinct derivation inputs under any one
/// configuration, so the authority derives independent keys for them: the
/// derivation input is the only request field that varies with the user.
pub proof fn lemma_distinct_users_distinct_inputs(
    c1: DeriveKeyCall,
    c2: DeriveKeyCall,
    cfg: Config,
    user_id1: Seq<char>,
    user_id2: Seq<char>,
    tpk1: Seq<u8>,
    tpk2: Seq<u8>,
)
    requires
        derive_key_call_for(c1, cfg, user_id1, tpk1),
        derive_key_call_for(c2, cfg, user_id2, tpk2),
        user_id1 != user_id2,
    ensures
        c1.request.derivation_input@ != c2.request.derivation_input@,
{
    if c1.request.derivation_input@ == c2.request.derivation_input@ {
        lemma_user_encoding_injective(user_id1, user_id2);
    }
}

/// A derive-key call and a public-key request under the same configuration
/// carry byte-for-byte the same domain separator and the same key id, so a
/// key derived through the one verifies against the key fetched through the
/// other.
pub proof fn lemma_operations_share_namespace(
    p: PublicKeyRequest,
    c: DeriveKeyCall,
    cfg: Config,
    user_id: Seq<char>,
    tpk: Seq<u8>,
)
    requires
        public_key_request_for(p, cfg),
        derive_key_call_for(c, cfg, user_id, tpk),
    ensures
        c.request.domain_separator@ == p.domain_separator@,
        same_key_id(c.request.key_id, p.key_id),
{
}

/// Every public-key fetch under one configuration sends the same request, so
/// the fetch is idempotent as far as this client decides: a deterministic
/// authority answers equal requests with equal public-key bytes.
pub proof fn lemma_public_key_fetch_deterministic(
    p1: PublicKeyRequest,
    p2: PublicKeyRequest,
    cfg: Config,
)
    requires
        public_key_request_for(p1, cfg),
        public_key_request_for(p2, cfg),
    ensures
        p1.target_identity is None && p2.target_identity is None,
        p1.domain_separator@ == p2.domain_separator@,
        same_key_id(p1.key_id, p2.key_id),
{
}

/// An empty user identifier is a valid input: it yields a well-formed,
/// deterministic derivation input — the empty byte sequence — rather than an
/// error at this layer.
pub proof fn lemma_empty_user_id_empty_input(
    c: DeriveKeyCall,
    cfg: Config,
    user_id: Seq<char>,
    tpk: Seq<u8>,
)
    requires
        derive_key_call_for(c, cfg, user_id, tpk),
        user_id.len() == 0,
    ensures
        c.request.derivation_input@.len() == 0,
{
    assert(user_id =~= Seq::<char>::empty());
    assert(encode_utf8(user_id) =~= Seq::<u8>::empty());
}

} // verus!
