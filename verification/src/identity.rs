//! Device key material, fingerprints, and the decisions of the device
//! identity lifecycle (create, load, sign).
//!
//! Persistence (the identity row and the OS secret store) is done by the
//! caller; this module decides what is stored, what a stored row means, and
//! refuses what is inconsistent. The private key never appears in any value
//! meant for display or logging.

use vstd::prelude::*;

use sha2::Digest;
use ed25519_dalek::Signer;

use crate::device::{DeviceFingerprint, DeviceIdentity, DevicePublicKey};
use crate::error::CompanionError;
use crate::ids::{DeviceId, IdParseError};
use crate::time_model::{rfc3339_format, rfc3339_instant, rfc3339_parse, rfc3339_text, Timestamp};

verus! {

/// A raw Ed25519 signing key. It has no `Debug` that could print it: its
/// only display text is [`SigningKeyMaterial::debug_text`], which redacts.
pub struct SigningKeyMaterial([u8; 32]);

impl SigningKeyMaterial {
    /// The key bytes.
    pub closed spec fn bytes(self) -> Seq<u8> {
        self.0@
    }

    /// Wraps raw key bytes.
    pub fn from_bytes(bytes: [u8; 32]) -> (k: SigningKeyMaterial)
        ensures
            k.bytes() == bytes@,
    {
        SigningKeyMaterial(bytes)
    }

    /// The raw key bytes.
    pub fn to_bytes(&self) -> (bytes: [u8; 32])
        ensures
            bytes@ == self.bytes(),
    {
        self.0
    }

    /// The only text this type ever shows: the key is redacted.
    pub fn debug_text(&self) -> (text: &'static str)
        ensures
            text@ == "SigningKeyMaterial(REDACTED)"@,
    {
        "SigningKeyMaterial(REDACTED)"
    }
}

impl Clone for SigningKeyMaterial {
    fn clone(&self) -> (k: Self)
        ensures
            k.bytes() == self.bytes(),
    {
        SigningKeyMaterial(self.0)
    }
}

/// Secret-store failures.
#[derive(Debug, Clone, PartialEq, Eq)]
pub enum SecretStoreError {
    Backend(String),
}

impl CompanionError for SecretStoreError {
    open spec fn spec_code(&self) -> Seq<char> {
        "IDENTITY_SECRET_STORE_BACKEND"@
    }

    open spec fn spec_retryable(&self) -> bool {
        false
    }

    fn code(&self) -> (code: &'static str) {
        "IDENTITY_SECRET_STORE_BACKEND"
    }

    fn retryable(&self) -> (r: bool) {
        false
    }
}

/// Persists and retrieves device key material. Implementations never write
/// plaintext key bytes to disk.
pub trait SecretStore {
    fn store_device_key(&self, device_id: &DeviceId, key: &SigningKeyMaterial) -> Result<
        (),
        SecretStoreError,
    >;

    fn load_device_key(&self, device_id: &DeviceId) -> Result<
        Option<SigningKeyMaterial>,
        SecretStoreError,
    >;

    fn delete_device_key(&self, device_id: &DeviceId) -> Result<(), SecretStoreError>;
}

/// The service name under which device keys are kept in the OS keyring.
pub const KEYRING_SERVICE_NAME: &'static str = "dev.oaslananka.kicad-mcp-pro-gateway.device-key";

/// The message of a stored secret that is not a 32-byte key.
pub open spec fn wrong_length_message() -> Seq<char> {
    "stored device key has wrong length"@
}

/// Reads what the keyring returned for a device. No entry is no key; an
/// entry of any length but 32 bytes is refused without echoing its bytes.
pub fn key_material_from_secret(secret: Option<Vec<u8>>) -> (r: Result<
    Option<SigningKeyMaterial>,
    SecretStoreError,
>)
    ensures
        match secret {
            None => r is Ok && r->Ok_0 is None,
            Some(bytes) => if bytes@.len() == 32 {
                r is Ok && r->Ok_0 is Some && r->Ok_0->0.bytes() == bytes@
            } else {
                r is Err && r->Err_0 is Backend && r->Err_0->Backend_0@ == wrong_length_message()
            },
        },
{
    match secret {
        None => Ok(None),
        Some(bytes) => {
            if bytes.len() != 32 {
                return Err(
                    SecretStoreError::Backend(
                        String::from_str("stored device key has wrong length"),
                    ),
                );
            }
            let mut key = [0u8; 32];
            let mut i: usize = 0;
            while i < 32
                invariant
                    i <= 32,
                    bytes@.len() == 32,
                    forall|j: int| 0 <= j < i ==> key@[j] == bytes@[j],
                decreases 32 - i,
            {
                key[i] = bytes[i];
                i = i + 1;
            }
            assert(key@ =~= bytes@);
            Ok(Some(SigningKeyMaterial(key)))
        },
    }
}

/// The keyring account under which a device's key is kept: the device id's
/// text.
pub fn keyring_account(device_id: &DeviceId) -> (account: String)
    ensures
        account@ == crate::ids::id_text("dev"@, device_id.value()),
{
    device_id.to_string()
}

/// The file name of a device's protected key blob: the device id's text
/// followed by `.bin`.
pub fn protected_blob_file_name(device_id: &DeviceId) -> (name: String)
    ensures
        name@ == crate::ids::id_text("dev"@, device_id.value()) + ".bin"@,
{
    device_id.to_string().concat(".bin")
}

/// A secret store that keeps device keys in the OS keyring (macOS
/// Keychain, Linux Secret Service), under [`KEYRING_SERVICE_NAME`].
#[derive(Debug, Clone, Copy, PartialEq, Eq)]
pub struct NativeKeyringSecretStore {
    service: &'static str,
}

impl NativeKeyringSecretStore {
    /// The store for the OS keyring of this platform.
    pub fn new() -> (s: NativeKeyringSecretStore)
        ensures
            s.spec_service() == KEYRING_SERVICE_NAME@,
    {
        NativeKeyringSecretStore { service: KEYRING_SERVICE_NAME }
    }

    pub closed spec fn spec_service(self) -> Seq<char> {
        self.service@
    }

    /// The keyring service name the store uses.
    pub fn service(&self) -> (s: &'static str)
        ensures
            s@ == self.spec_service(),
    {
        self.service
    }
}

/// A secret store that keeps each device key as a DPAPI-protected blob in
/// `store_dir`, scoped to the current Windows user.
#[derive(Debug, Clone, PartialEq, Eq)]
pub struct DpapiSecretStore {
    store_dir: String,
}

impl DpapiSecretStore {
    /// The store writing blobs under `store_dir`.
    pub fn new(store_dir: String) -> (s: DpapiSecretStore)
        ensures
            s.spec_store_dir() == store_dir@,
    {
        DpapiSecretStore { store_dir }
    }

    pub closed spec fn spec_store_dir(self) -> Seq<char> {
        self.store_dir@
    }

    /// The directory holding the blobs.
    pub fn store_dir(&self) -> (d: &str)
        ensures
            d@ == self.spec_store_dir(),
    {
        self.store_dir.as_str()
    }
}

/// The SHA-256 digest that the `sha2` crate computes.
pub uninterp spec fn sha256_digest(data: Seq<u8>) -> Seq<u8>;

/// Calls `sha2::Sha256::digest`. Claimed: the digest is the named one for
/// the input, and it is 32 bytes long.
#[verifier::external_body]
fn sha256(data: &[u8]) -> (digest: Vec<u8>)
    ensures
        digest@ == sha256_digest(data@),
        digest@.len() == 32,
{
    sha2::Sha256::digest(data).to_vec()
}

/// The upper-case hexadecimal digit of a value below 16.
pub open spec fn hex_digit(n: int) -> char {
    if n < 10 {
        ('0' as int + n) as char
    } else {
        ('A' as int + n - 10) as char
    }
}

/// The two upper-case hexadecimal digits of a byte.
pub open spec fn hex_byte(b: u8) -> Seq<char> {
    seq![hex_digit(b as int / 16), hex_digit(b as int % 16)]
}

/// The first ten bytes of `digest` in upper-case hexadecimal, grouped four
/// digits at a time with `-` between groups.
pub open spec fn fingerprint_text(digest: Seq<u8>) -> Seq<char> {
    hex_byte(digest[0]) + hex_byte(digest[1]) + "-"@ + hex_byte(digest[2]) + hex_byte(digest[3])
        + "-"@ + hex_byte(digest[4]) + hex_byte(digest[5]) + "-"@ + hex_byte(digest[6]) + hex_byte(
        digest[7],
    ) + "-"@ + hex_byte(digest[8]) + hex_byte(digest[9])
}

/// The text of one hexadecimal digit.
fn hex_digit_text(n: u8) -> (t: &'static str)
    requires
        n < 16,
    ensures
        t@ == seq![hex_digit(n as int)],
{
    proof {
        reveal_strlit("0");
        reveal_strlit("1");
        reveal_strlit("2");
        reveal_strlit("3");
        reveal_strlit("4");
        reveal_strlit("5");
        reveal_strlit("6");
        reveal_strlit("7");
        reveal_strlit("8");
        reveal_strlit("9");
        reveal_strlit("A");
        reveal_strlit("B");
        reveal_strlit("C");
        reveal_strlit("D");
        reveal_strlit("E");
        reveal_strlit("F");
    }
    let t = match n {
        0 => "0",
        1 => "1",
        2 => "2",
        3 => "3",
        4 => "4",
        5 => "5",
        6 => "6",
        7 => "7",
        8 => "8",
        9 => "9",
        10 => "A",
        11 => "B",
        12 => "C",
        13 => "D",
        14 => "E",
        _ => "F",
    };
    assert(t@ =~= seq![hex_digit(n as int)]);
    t
}

/// Appends the two hexadecimal digits of `b` to `text`.
fn push_hex_byte(text: String, b: u8) -> (out: String)
    ensures
        out@ == text@ + hex_byte(b),
{
    let out = text.concat(hex_digit_text(b / 16)).concat(hex_digit_text(b % 16));
    assert(out@ =~= text@ + hex_byte(b));
    out
}

/// The display fingerprint of a public key: SHA-256 of the key, first ten
/// bytes in upper-case hex, in groups of four digits joined by `-`.
pub fn compute_fingerprint(public_key: &[u8; 32]) -> (f: DeviceFingerprint)
    ensures
        f.0@ == fingerprint_text(sha256_digest(public_key@)),
{
    let digest = sha256(public_key.as_slice());
    let text = String::new();
    let text = push_hex_byte(text, digest[0]);
    let text = push_hex_byte(text, digest[1]);
    let text = text.concat("-");
    let text = push_hex_byte(text, digest[2]);
    let text = push_hex_byte(text, digest[3]);
    let text = text.concat("-");
    let text = push_hex_byte(text, digest[4]);
    let text = push_hex_byte(text, digest[5]);
    let text = text.concat("-");
    let text = push_hex_byte(text, digest[6]);
    let text = push_hex_byte(text, digest[7]);
    let text = text.concat("-");
    let text = push_hex_byte(text, digest[8]);
    let text = push_hex_byte(text, digest[9]);
    assert(text@ =~= fingerprint_text(digest@));
    DeviceFingerprint(text)
}

/// The Ed25519 public key that `ed25519_dalek` derives from a secret key.
pub uninterp spec fn ed25519_public_key(secret: Seq<u8>) -> Seq<u8>;

/// The Ed25519 signature that `ed25519_dalek` computes for a secret key and
/// a message (Ed25519 signing is deterministic).
pub uninterp spec fn ed25519_signature(secret: Seq<u8>, message: Seq<u8>) -> Seq<u8>;

/// Calls `ed25519_dalek::SigningKey::generate` with the OS random source
/// and returns the secret key bytes. Nothing is claimed of them.
#[verifier::external_body]
fn generate_secret_key() -> [u8; 32] {
    let mut csprng = rand_core::OsRng;
    ed25519_dalek::SigningKey::generate(&mut csprng).to_bytes()
}

/// Calls `ed25519_dalek::SigningKey::verifying_key`. Claimed: the public
/// key is the named derivation of the secret key.
#[verifier::external_body]
fn derive_public_key(secret: &[u8; 32]) -> (public_key: [u8; 32])
    ensures
        public_key@ == ed25519_public_key(secret@),
{
    ed25519_dalek::SigningKey::from_bytes(secret).verifying_key().to_bytes()
}

/// Calls `ed25519_dalek::SigningKey::sign`. Claimed: the signature is the
/// named one for the key and message.
#[verifier::external_body]
fn sign_bytes(secret: &[u8; 32], message: &[u8]) -> (signature: [u8; 64])
    ensures
        signature@ == ed25519_signature(secret@, message@),
{
    ed25519_dalek::SigningKey::from_bytes(secret).sign(message).to_bytes()
}

/// Device identity failures.
#[derive(Debug, Clone, PartialEq, Eq)]
pub enum IdentityError {
    AlreadyExists,
    NotFound,
    SecretStore(SecretStoreError),
    Storage(String),
    InvalidKeyMaterial(String),
}

/// The stable code of each identity error.
pub open spec fn identity_error_code(e: IdentityError) -> Seq<char> {
    match e {
        IdentityError::AlreadyExists => "IDENTITY_ALREADY_EXISTS"@,
        IdentityError::NotFound => "IDENTITY_NOT_FOUND"@,
        IdentityError::SecretStore(_) => "IDENTITY_SECRET_STORE_BACKEND"@,
        IdentityError::Storage(_) => "IDENTITY_STORAGE"@,
        IdentityError::InvalidKeyMaterial(_) => "IDENTITY_INVALID_KEY_MATERIAL"@,
    }
}

impl CompanionError for IdentityError {
    open spec fn spec_code(&self) -> Seq<char> {
        identity_error_code(*self)
    }

    open spec fn spec_retryable(&self) -> bool {
        false
    }

    fn code(&self) -> (code: &'static str) {
        match self {
            IdentityError::AlreadyExists => "IDENTITY_ALREADY_EXISTS",
            IdentityError::NotFound => "IDENTITY_NOT_FOUND",
            IdentityError::SecretStore(_) => "IDENTITY_SECRET_STORE_BACKEND",
            IdentityError::Storage(_) => "IDENTITY_STORAGE",
            IdentityError::InvalidKeyMaterial(_) => "IDENTITY_INVALID_KEY_MATERIAL",
        }
    }

    fn retryable(&self) -> (r: bool) {
        false
    }
}

/// A newly created device identity and the private key that goes with it.
pub struct NewDeviceIdentity {
    pub identity: DeviceIdentity,
    pub key: SigningKeyMaterial,
}

/// Decides the creation of the device identity. If one already exists the
/// request is refused; otherwise a fresh key pair is generated and the
/// identity is built from it: the public key is the one derived from the
/// new secret key and the fingerprint is that of the public key. The caller
/// stores the key in the secret store and the identity in the database.
pub fn create_device_identity(
    existing: &Option<DeviceIdentity>,
    device_id: DeviceId,
    display_name: &str,
    created_at: Timestamp,
) -> (r: Result<NewDeviceIdentity, IdentityError>)
    ensures
        existing is Some <==> r is Err,
        r is Err ==> r->Err_0 == IdentityError::AlreadyExists,
        r matches Ok(n) ==> {
            &&& n.identity.device_id == device_id
            &&& n.identity.public_key.0@ == ed25519_public_key(n.key.bytes())
            &&& n.identity.fingerprint.0@ == fingerprint_text(sha256_digest(n.identity.public_key.0@))
            &&& n.identity.display_name@ == display_name@
            &&& n.identity.created_at == created_at
        },
{
    if existing.is_some() {
        return Err(IdentityError::AlreadyExists);
    }
    let secret = generate_secret_key();
    let public_key = derive_public_key(&secret);
    let fingerprint = compute_fingerprint(&public_key);
    Ok(
        NewDeviceIdentity {
            identity: DeviceIdentity {
                device_id,
                public_key: DevicePublicKey(public_key),
                fingerprint,
                display_name: String::from_str(display_name),
                created_at,
            },
            key: SigningKeyMaterial(secret),
        },
    )
}

/// The message of a stored public key that is not 32 bytes.
pub open spec fn bad_public_key_message() -> Seq<char> {
    "stored public key is not 32 bytes"@
}

/// Reads a stored identity row. An unparseable device id or timestamp is a
/// storage error, and a public key of any length but 32 bytes is invalid key
/// material; the checks run in that order (id, key, timestamp).
pub fn identity_from_row(
    device_id: &str,
    public_key: &[u8],
    fingerprint: String,
    display_name: String,
    created_at: Result<Timestamp, String>,
) -> (r: Result<DeviceIdentity, IdentityError>)
    ensures
        crate::ids::parsed_id_value("dev"@, device_id@) is None ==> r is Err && r->Err_0 is Storage,
        crate::ids::parsed_id_value("dev"@, device_id@) is Some && public_key@.len() != 32 ==> r
            is Err && r->Err_0 is InvalidKeyMaterial && r->Err_0->InvalidKeyMaterial_0@
            == bad_public_key_message(),
        crate::ids::parsed_id_value("dev"@, device_id@) is Some && public_key@.len() == 32
            && created_at is Err ==> r is Err && r->Err_0 == IdentityError::Storage(
            created_at->Err_0,
        ),
        crate::ids::parsed_id_value("dev"@, device_id@) is Some && public_key@.len() == 32
            && created_at is Ok ==> r is Ok,
        r matches Ok(identity) ==> {
            &&& crate::ids::parsed_id_value("dev"@, device_id@) == Some(identity.device_id.value())
            &&& identity.public_key.0@ == public_key@
            &&& identity.fingerprint.0@ == fingerprint@
            &&& identity.display_name@ == display_name@
            &&& created_at == Ok::<Timestamp, String>(identity.created_at)
        },
{
    let id = match DeviceId::parse(device_id) {
        Ok(id) => id,
        Err(e) => {
            return Err(IdentityError::Storage(e.debug_text()));
        },
    };
    if public_key.len() != 32 {
        return Err(
            IdentityError::InvalidKeyMaterial(String::from_str("stored public key is not 32 bytes")),
        );
    }
    let mut pk = [0u8; 32];
    let mut i: usize = 0;
    while i < 32
        invariant
            i <= 32,
            public_key@.len() == 32,
            forall|j: int| 0 <= j < i ==> pk@[j] == public_key@[j],
        decreases 32 - i,
    {
        pk[i] = public_key[i];
        i = i + 1;
    }
    assert(pk@ =~= public_key@);
    let created_at = match created_at {
        Ok(t) => t,
        Err(message) => {
            return Err(IdentityError::Storage(message));
        },
    };
    Ok(
        DeviceIdentity {
            device_id: id,
            public_key: DevicePublicKey(pk),
            fingerprint: DeviceFingerprint(fingerprint),
            display_name,
            created_at,
        },
    )
}

/// The creation instant as the device table keeps it: RFC 3339 text. An
/// instant that cannot be written is a storage error.
pub fn identity_created_at_text(t: Timestamp) -> (r: Result<String, IdentityError>)
    ensures
        r is Ok <==> rfc3339_text(t.unix_nanos) is Some,
        r matches Ok(text) ==> rfc3339_text(t.unix_nanos) == Some(text@),
        r is Err ==> r->Err_0 is Storage,
{
    match rfc3339_format(t) {
        Ok(text) => Ok(text),
        Err(message) => Err(IdentityError::Storage(message)),
    }
}

/// Reads a stored identity row whose creation instant is kept as RFC 3339
/// text, as [`identity_from_row`] does: an unparseable device id or
/// creation time is a storage error, and a public key of any length but 32
/// bytes is invalid key material.
pub fn identity_from_stored_row(
    device_id: &str,
    public_key: &[u8],
    fingerprint: String,
    display_name: String,
    created_at: &str,
) -> (r: Result<DeviceIdentity, IdentityError>)
    ensures
        crate::ids::parsed_id_value("dev"@, device_id@) is None ==> r is Err && r->Err_0 is Storage,
        crate::ids::parsed_id_value("dev"@, device_id@) is Some && public_key@.len() != 32 ==> r
            is Err && r->Err_0 is InvalidKeyMaterial && r->Err_0->InvalidKeyMaterial_0@
            == bad_public_key_message(),
        crate::ids::parsed_id_value("dev"@, device_id@) is Some && public_key@.len() == 32 ==> (r
            is Ok <==> rfc3339_instant(created_at@) is Some),
        r is Err ==> r->Err_0 is Storage || r->Err_0 is InvalidKeyMaterial,
        r matches Ok(identity) ==> {
            &&& crate::ids::parsed_id_value("dev"@, device_id@) == Some(identity.device_id.value())
            &&& identity.public_key.0@ == public_key@
            &&& identity.fingerprint.0@ == fingerprint@
            &&& identity.display_name@ == display_name@
            &&& rfc3339_instant(created_at@) == Some(identity.created_at.unix_nanos)
        },
{
    identity_from_row(device_id, public_key, fingerprint, display_name, rfc3339_parse(created_at))
}

/// Signs `message` with the device key the secret store returned. No
/// identity, or no key for it, is `NotFound`.
pub fn sign_with_device_key(
    identity: &Option<DeviceIdentity>,
    key: &Option<SigningKeyMaterial>,
    message: &[u8],
) -> (r: Result<[u8; 64], IdentityError>)
    ensures
        (identity is None || key is None) <==> r is Err,
        r is Err ==> r->Err_0 == IdentityError::NotFound,
        r matches Ok(signature) ==> signature@ == ed25519_signature(key->0.bytes(), message@),
{
    if identity.is_none() {
        return Err(IdentityError::NotFound);
    }
    match key {
        None => Err(IdentityError::NotFound),
        Some(k) => Ok(sign_bytes(&k.0, message)),
    }
}

} // verus!
