//! Process-wide configuration of the derivation client.
//!
//! Domain separator, key id and the fixed derive-key cost are deployment-time
//! constants: fixed when the service is built, read-only afterwards. They are
//! modelled as an immutable value injected at construction, because changing
//! any of them silently changes every key the authority derives.

use vstd::prelude::*;

verus! {

/// Elliptic-curve choice for a derivation key: a closed enumeration.
///
/// The authority currently offers a single pairing-friendly curve; any other
/// curve selection is a configuration error, not a runtime condition.
#[derive(Clone, Copy, PartialEq, Eq, Structural, Debug)]
pub enum Curve {
    /// BLS12-381, G2 group.
    Bls12381G2,
}

/// Identifies one key-derivation configuration at the authority: the curve
/// and a free-form name selecting a key instance (a test key, a production
/// key).
#[derive(Debug)]
pub struct KeyId {
    pub curve: Curve,
    pub name: String,
}

/// Two key ids select the same key-derivation configuration: equal curve and
/// byte-for-byte equal name.
pub open spec fn same_key_id(a: KeyId, b: KeyId) -> bool {
    a.curve == b.curve && a.name@ == b.name@
}

/// The constants an application deploys with: its domain separator, the key
/// id both operations must share, and the fixed resource cost the authority
/// charges for one derive-key call.
#[derive(Debug)]
pub struct Config {
    /// Namespace tag unique to the deploying application; mixed into every
    /// derivation so that unrelated applications sharing the authority never
    /// collide.
    pub domain_separator: Vec<u8>,
    /// Key-derivation configuration; identical across both operations.
    pub key_id: KeyId,
    /// Pre-agreed payment attached to each derive-key call: an
    /// authority-defined tariff, not a value this client computes.
    pub derive_key_cost: u128,
}

impl Config {
    /// Builds the immutable configuration value from its parts.
    pub fn new(domain_separator: Vec<u8>, curve: Curve, key_name: String, derive_key_cost: u128) -> (c: Config)
        ensures
            c.domain_separator@ == domain_separator@,
            c.key_id.curve == curve,
            c.key_id.name@ == key_name@,
            c.derive_key_cost == derive_key_cost,
    {
        Config {
            domain_separator,
            key_id: KeyId { curve, name: key_name },
            derive_key_cost,
        }
    }
}

} // verus!
