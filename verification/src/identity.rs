//! Measured-boot identity derivation.
//!
//! The device identity is a fixed-size value derived from the selected
//! image's content measurement and the device-unique secret. Derivation is a
//! pure function of those two inputs, so a manufacturing retry with the same
//! image and the same device reproduces the same identity, and deriving it
//! alters neither the image nor the security configuration.

use vstd::prelude::*;

verus! {

/// Size of a measurement, of the device secret, and of the identity.
pub const IDENTITY_BYTES: usize = 32;

/// A device identity derived once per boot, before the world transition.
#[derive(Clone, Debug)]
pub struct DeviceIdentity {
    /// The identity value; always `IDENTITY_BYTES` long.
    pub bytes: Vec<u8>,
}

/// The identity derived from a measurement and a device secret: the two
/// combined byte by byte.
pub open spec fn spec_derive(digest: Seq<u8>, secret: Seq<u8>) -> Seq<u8> {
    Seq::new(IDENTITY_BYTES as nat, |i: int| digest[i] ^ secret[i])
}

/// Derives the device identity from the selected image's content measurement
/// and the device-unique secret.
pub fn derive_identity(digest: &[u8], secret: &[u8]) -> (id: DeviceIdentity)
    requires
        digest@.len() == IDENTITY_BYTES,
        secret@.len() == IDENTITY_BYTES,
    ensures
        id.bytes@ == spec_derive(digest@, secret@),
        id.bytes@.len() == IDENTITY_BYTES,
{
    let mut bytes: Vec<u8> = Vec::new();
    let mut i: usize = 0;
    while i < IDENTITY_BYTES
        invariant
            i <= IDENTITY_BYTES,
            digest@.len() == IDENTITY_BYTES,
            secret@.len() == IDENTITY_BYTES,
            bytes@.len() == i,
            forall|p: int| 0 <= p < i ==> bytes@[p] == (digest@[p] ^ secret@[p]),
        decreases IDENTITY_BYTES - i,
    {
        bytes.push(digest[i] ^ secret[i]);
        i = i + 1;
    }
    assert(bytes@ =~= spec_derive(digest@, secret@));
    DeviceIdentity { bytes }
}

/// Law: identity derivation is deterministic — two identities derived from
/// the same measurement and the same secret are the same value, so
/// manufacturing retries reproduce the identity.
pub proof fn lemma_derivation_deterministic(
    digest: Seq<u8>,
    secret: Seq<u8>,
    id1: Seq<u8>,
    id2: Seq<u8>,
)
    requires
        id1 == spec_derive(digest, secret),
        id2 == spec_derive(digest, secret),
    ensures
        id1 == id2,
{
}

} // verus!
