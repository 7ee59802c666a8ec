//! Device identity records.

use vstd::prelude::*;

use crate::ids::DeviceId;
use crate::time_model::Timestamp;

verus! {

/// Raw Ed25519 public key bytes. Never secret.
#[derive(Debug, Clone, Copy, PartialEq, Eq)]
pub struct DevicePublicKey(pub [u8; 32]);

/// A human-readable derivation of a device's public key, for visual
/// confirmation during pairing. Never a security check by itself.
#[derive(Debug, Clone, PartialEq, Eq)]
pub struct DeviceFingerprint(pub String);

/// The non-secret identity of this device.
#[derive(Debug, Clone, PartialEq, Eq)]
pub struct DeviceIdentity {
    pub device_id: DeviceId,
    pub public_key: DevicePublicKey,
    pub fingerprint: DeviceFingerprint,
    pub display_name: String,
    pub created_at: Timestamp,
}

} // verus!
