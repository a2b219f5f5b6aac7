//! A key lifecycle service in front of two post-quantum schemes: the key
//! encapsulation mechanism ML-KEM-768 and the signature scheme ML-DSA-65.
//!
//! The library keeps key material for many users, rotates, revokes and sweeps
//! it, and hands secret buffers across a native call boundary. The schemes
//! themselves are an outside provider, reached through [`provider`].

use vstd::prelude::*;

pub mod dilithium;
pub mod errors;
pub mod ffi;
pub mod key_management;
pub mod kyber;
pub mod mldsa;
pub mod mlkem;
pub mod optimizations;
pub mod provider;
pub mod security;
pub mod text;

pub use crate::key_management::HSMConfig;
pub use crate::key_management::KeyMetadata;
pub use crate::key_management::KeyStatistics;
pub use crate::key_management::KeyStatus;
pub use crate::key_management::SecureKeyManager;

use crate::provider::mldsa65_keypair;
use crate::provider::mldsa65_open;
use crate::provider::mldsa65_opened;
use crate::provider::mldsa65_sign;
use crate::provider::mlkem768_decapsulate;
use crate::provider::mlkem768_decapsulated;
use crate::provider::mlkem768_encapsulate;
use crate::provider::mlkem768_keypair;
use crate::provider::secret_bytes;
use crate::provider::secret_expose;
use crate::provider::secret_new;
use crate::provider::unix_time_secs;
use crate::provider::SecretBytes;
use crate::provider::MLDSA65_PUBLIC_KEY_BYTES;
use crate::provider::MLDSA65_SECRET_KEY_BYTES;
use crate::provider::MLDSA65_SIGNATURE_BYTES;
use crate::provider::MLKEM768_CIPHERTEXT_BYTES;
use crate::provider::MLKEM768_PUBLIC_KEY_BYTES;
use crate::provider::MLKEM768_SECRET_KEY_BYTES;
use crate::provider::MLKEM768_SHARED_SECRET_BYTES;

verus! {

/// What can go wrong in a cryptographic or key management operation.
#[derive(Debug)]
pub enum PQCError {
    InvalidPublicKey(String),
    InvalidPrivateKey(String),
    InvalidCiphertext(String),
    InvalidSignature(String),
    KeyGenerationFailed(String),
    EncapsulationFailed(String),
    DecapsulationFailed(String),
    SigningFailed(String),
    VerificationFailed(String),
    KeyNotFound(String),
    InvalidKeyState(String),
    UnsupportedAlgorithm(String),
    HSMError(String),
    MemoryAllocationFailed,
    SecurityValidationFailed(String),
}

pub type PQCResult<T> = Result<T, PQCError>;

/// An error as plain values.
pub enum PQCErrorView {
    InvalidPublicKey(Seq<char>),
    InvalidPrivateKey(Seq<char>),
    InvalidCiphertext(Seq<char>),
    InvalidSignature(Seq<char>),
    KeyGenerationFailed(Seq<char>),
    EncapsulationFailed(Seq<char>),
    DecapsulationFailed(Seq<char>),
    SigningFailed(Seq<char>),
    VerificationFailed(Seq<char>),
    KeyNotFound(Seq<char>),
    InvalidKeyState(Seq<char>),
    UnsupportedAlgorithm(Seq<char>),
    HSMError(Seq<char>),
    MemoryAllocationFailed,
    SecurityValidationFailed(Seq<char>),
}

impl View for PQCError {
    type V = PQCErrorView;

    open spec fn view(&self) -> PQCErrorView {
        match self {
            PQCError::InvalidPublicKey(m) => PQCErrorView::InvalidPublicKey(m@),
            PQCError::InvalidPrivateKey(m) => PQCErrorView::InvalidPrivateKey(m@),
            PQCError::InvalidCiphertext(m) => PQCErrorView::InvalidCiphertext(m@),
            PQCError::InvalidSignature(m) => PQCErrorView::InvalidSignature(m@),
            PQCError::KeyGenerationFailed(m) => PQCErrorView::KeyGenerationFailed(m@),
            PQCError::EncapsulationFailed(m) => PQCErrorView::EncapsulationFailed(m@),
            PQCError::DecapsulationFailed(m) => PQCErrorView::DecapsulationFailed(m@),
            PQCError::SigningFailed(m) => PQCErrorView::SigningFailed(m@),
            PQCError::VerificationFailed(m) => PQCErrorView::VerificationFailed(m@),
            PQCError::KeyNotFound(m) => PQCErrorView::KeyNotFound(m@),
            PQCError::InvalidKeyState(m) => PQCErrorView::InvalidKeyState(m@),
            PQCError::UnsupportedAlgorithm(m) => PQCErrorView::UnsupportedAlgorithm(m@),
            PQCError::HSMError(m) => PQCErrorView::HSMError(m@),
            PQCError::MemoryAllocationFailed => PQCErrorView::MemoryAllocationFailed,
            PQCError::SecurityValidationFailed(m) => PQCErrorView::SecurityValidationFailed(m@),
        }
    }
}

/// Whether a result is a failure with exactly this error.
pub open spec fn fails_with<T>(result: PQCResult<T>, error: PQCErrorView) -> bool {
    result matches Err(e) && e@ == error
}

impl PQCError {
    /// The text that the error carries; empty for an error without one.
    pub open spec fn detail(&self) -> Seq<char> {
        match self {
            PQCError::InvalidPublicKey(m) => m@,
            PQCError::InvalidPrivateKey(m) => m@,
            PQCError::InvalidCiphertext(m) => m@,
            PQCError::InvalidSignature(m) => m@,
            PQCError::KeyGenerationFailed(m) => m@,
            PQCError::EncapsulationFailed(m) => m@,
            PQCError::DecapsulationFailed(m) => m@,
            PQCError::SigningFailed(m) => m@,
            PQCError::VerificationFailed(m) => m@,
            PQCError::KeyNotFound(m) => m@,
            PQCError::InvalidKeyState(m) => m@,
            PQCError::UnsupportedAlgorithm(m) => m@,
            PQCError::HSMError(m) => m@,
            PQCError::MemoryAllocationFailed => Seq::empty(),
            PQCError::SecurityValidationFailed(m) => m@,
        }
    }

    /// The fixed words that introduce each kind of error in its message.
    pub open spec fn prefix(&self) -> Seq<char> {
        match self {
            PQCError::InvalidPublicKey(_) => "Invalid public key format: "@,
            PQCError::InvalidPrivateKey(_) => "Invalid private key format: "@,
            PQCError::InvalidCiphertext(_) => "Invalid ciphertext format: "@,
            PQCError::InvalidSignature(_) => "Invalid signature format: "@,
            PQCError::KeyGenerationFailed(_) => "Key generation failed: "@,
            PQCError::EncapsulationFailed(_) => "Encapsulation failed: "@,
            PQCError::DecapsulationFailed(_) => "Decapsulation failed: "@,
            PQCError::SigningFailed(_) => "Signing failed: "@,
            PQCError::VerificationFailed(_) => "Verification failed: "@,
            PQCError::KeyNotFound(_) => "Key not found: "@,
            PQCError::InvalidKeyState(_) => "Invalid key state: "@,
            PQCError::UnsupportedAlgorithm(_) => "Unsupported algorithm: "@,
            PQCError::HSMError(_) => "HSM error: "@,
            PQCError::MemoryAllocationFailed => "Memory allocation failed"@,
            PQCError::SecurityValidationFailed(_) => "Security validation failed: "@,
        }
    }

    /// The message of the error as a reader sees it.
    pub open spec fn text(&self) -> Seq<char> {
        self.prefix() + self.detail()
    }

    /// The message of the error: the words for its kind, then its detail.
    pub fn to_string(&self) -> (s: String)
        ensures
            s@ == self.text(),
    {
        let (prefix, detail): (&str, &str) = match self {
            PQCError::InvalidPublicKey(m) => ("Invalid public key format: ", m.as_str()),
            PQCError::InvalidPrivateKey(m) => ("Invalid private key format: ", m.as_str()),
            PQCError::InvalidCiphertext(m) => ("Invalid ciphertext format: ", m.as_str()),
            PQCError::InvalidSignature(m) => ("Invalid signature format: ", m.as_str()),
            PQCError::KeyGenerationFailed(m) => ("Key generation failed: ", m.as_str()),
            PQCError::EncapsulationFailed(m) => ("Encapsulation failed: ", m.as_str()),
            PQCError::DecapsulationFailed(m) => ("Decapsulation failed: ", m.as_str()),
            PQCError::SigningFailed(m) => ("Signing failed: ", m.as_str()),
            PQCError::VerificationFailed(m) => ("Verification failed: ", m.as_str()),
            PQCError::KeyNotFound(m) => ("Key not found: ", m.as_str()),
            PQCError::InvalidKeyState(m) => ("Invalid key state: ", m.as_str()),
            PQCError::UnsupportedAlgorithm(m) => ("Unsupported algorithm: ", m.as_str()),
            PQCError::HSMError(m) => ("HSM error: ", m.as_str()),
            PQCError::MemoryAllocationFailed => ("Memory allocation failed", ""),
            PQCError::SecurityValidationFailed(m) => ("Security validation failed: ", m.as_str()),
        };
        proof {
            reveal_strlit("");
        }
        let mut s: String = prefix.to_owned();
        s.append(detail);
        assert(s@ =~= self.text());
        s
    }
}

impl SecretBytes {
    /// A secret that holds the given bytes and wipes them when it is
    /// dropped.
    pub fn new(bytes: Vec<u8>) -> (secret: Self)
        ensures
            secret_bytes(secret) == bytes@,
    {
        secret_new(bytes)
    }

    /// The bytes that the secret holds.
    pub fn expose_secret(&self) -> (bytes: &Vec<u8>)
        ensures
            bytes@ == secret_bytes(*self),
    {
        secret_expose(self)
    }
}

/// A key pair with what is known of it. The private key lives in a secret
/// buffer that is wiped when the pair is dropped.
pub struct PQCKeyPair {
    pub public_key: Vec<u8>,
    pub private_key: SecretBytes,
    pub algorithm: String,
    pub key_size: usize,
    pub security_level: u8,
    pub created_at: u64,
}

/// A key pair as plain values.
pub struct KeyPairView {
    pub public_key: Seq<u8>,
    pub private_key: Seq<u8>,
    pub algorithm: Seq<char>,
    pub key_size: usize,
    pub security_level: u8,
    pub created_at: u64,
}

impl View for PQCKeyPair {
    type V = KeyPairView;

    open spec fn view(&self) -> KeyPairView {
        KeyPairView {
            public_key: self.public_key@,
            private_key: secret_bytes(self.private_key),
            algorithm: self.algorithm@,
            key_size: self.key_size,
            security_level: self.security_level,
            created_at: self.created_at,
        }
    }
}

/// A count after one more operation. A count at the end of its range stays.
pub open spec fn counted(count: u64) -> u64 {
    if count == u64::MAX {
        count
    } else {
        (count + 1) as u64
    }
}

/// Counts one more operation. A count at the end of its range stays.
pub fn count_up(count: u64) -> (next: u64)
    ensures
        next == counted(count),
{
    if count < u64::MAX {
        count + 1
    } else {
        count
    }
}

/// Copies bytes into a fresh vector.
pub fn copy_bytes(bytes: &[u8]) -> (copy: Vec<u8>)
    ensures
        copy@ == bytes@,
{
    let mut copy: Vec<u8> = Vec::with_capacity(bytes.len());
    let mut i: usize = 0;
    while i < bytes.len()
        invariant
            i <= bytes@.len(),
            copy@ == bytes@.subrange(0, i as int),
        decreases bytes@.len() - i,
    {
        copy.push(bytes[i]);
        i += 1;
        assert(copy@ =~= bytes@.subrange(0, i as int));
    }
    assert(copy@ =~= bytes@);
    copy
}

/// Whether two byte strings are the same.
pub fn bytes_equal(a: &[u8], b: &[u8]) -> (equal: bool)
    ensures
        equal == (a@ == b@),
{
    if a.len() != b.len() {
        return false;
    }
    let mut i: usize = 0;
    while i < a.len()
        invariant
            i <= a@.len(),
            a@.len() == b@.len(),
            a@.subrange(0, i as int) == b@.subrange(0, i as int),
        decreases a@.len() - i,
    {
        if a[i] != b[i] {
            return false;
        }
        i += 1;
        assert(a@.subrange(0, i as int) =~= a@.subrange(0, i - 1).push(a@[i - 1]));
        assert(b@.subrange(0, i as int) =~= b@.subrange(0, i - 1).push(b@[i - 1]));
    }
    assert(a@ =~= a@.subrange(0, i as int));
    assert(b@ =~= b@.subrange(0, i as int));
    true
}

impl Clone for PQCKeyPair {
    /// A copy of the pair whose private key sits in a secret buffer of its own.
    fn clone(&self) -> (copy: Self)
        ensures
            copy@ == self@,
    {
        PQCKeyPair {
            public_key: copy_bytes(self.public_key.as_slice()),
            private_key: secret_new(copy_bytes(secret_expose(&self.private_key).as_slice())),
            algorithm: self.algorithm.clone(),
            key_size: self.key_size,
            security_level: self.security_level,
            created_at: self.created_at,
        }
    }
}

/// A signed message with what is known of it.
pub struct PQCSignature {
    pub signature: SecretBytes,
    pub algorithm: String,
    pub signature_size: usize,
    pub created_at: u64,
}

/// A signature as plain values.
pub struct SignatureView {
    pub signature: Seq<u8>,
    pub algorithm: Seq<char>,
    pub signature_size: usize,
    pub created_at: u64,
}

impl View for PQCSignature {
    type V = SignatureView;

    open spec fn view(&self) -> SignatureView {
        SignatureView {
            signature: secret_bytes(self.signature),
            algorithm: self.algorithm@,
            signature_size: self.signature_size,
            created_at: self.created_at,
        }
    }
}

impl Clone for PQCSignature {
    /// A copy of the signature in a secret buffer of its own.
    fn clone(&self) -> (copy: Self)
        ensures
            copy@ == self@,
    {
        PQCSignature {
            signature: secret_new(copy_bytes(secret_expose(&self.signature).as_slice())),
            algorithm: self.algorithm.clone(),
            signature_size: self.signature_size,
            created_at: self.created_at,
        }
    }
}

/// What an encapsulation hands back: the ciphertext for the peer and the
/// shared secret for the caller.
pub struct PQCEncryptionResult {
    pub ciphertext: Vec<u8>,
    pub shared_secret: SecretBytes,
    pub algorithm: String,
    pub ciphertext_size: usize,
    pub created_at: u64,
}

/// An encapsulation result as plain values.
pub struct EncryptionResultView {
    pub ciphertext: Seq<u8>,
    pub shared_secret: Seq<u8>,
    pub algorithm: Seq<char>,
    pub ciphertext_size: usize,
    pub created_at: u64,
}

impl View for PQCEncryptionResult {
    type V = EncryptionResultView;

    open spec fn view(&self) -> EncryptionResultView {
        EncryptionResultView {
            ciphertext: self.ciphertext@,
            shared_secret: secret_bytes(self.shared_secret),
            algorithm: self.algorithm@,
            ciphertext_size: self.ciphertext_size,
            created_at: self.created_at,
        }
    }
}

impl Clone for PQCEncryptionResult {
    /// A copy of the result whose shared secret sits in a secret buffer of its own.
    fn clone(&self) -> (copy: Self)
        ensures
            copy@ == self@,
    {
        PQCEncryptionResult {
            ciphertext: copy_bytes(self.ciphertext.as_slice()),
            shared_secret: secret_new(copy_bytes(secret_expose(&self.shared_secret).as_slice())),
            algorithm: self.algorithm.clone(),
            ciphertext_size: self.ciphertext_size,
            created_at: self.created_at,
        }
    }
}

/// Total size in bytes of an ML-KEM-768 key pair.
pub const MLKEM768_KEYPAIR_BYTES: usize = 3584;

/// Total size in bytes of an ML-DSA-65 key pair.
pub const MLDSA65_KEYPAIR_BYTES: usize = 5984;

/// The security category that both schemes are instantiated at.
pub const SECURITY_LEVEL: u8 = 3;

/// What an ML-KEM-768 key pair made at `created_at` from these bytes looks like.
pub open spec fn mlkem_keypair_of(public_key: Seq<u8>, private_key: Seq<u8>, created_at: u64) -> KeyPairView {
    KeyPairView {
        public_key,
        private_key,
        algorithm: "ML-KEM-768"@,
        key_size: MLKEM768_KEYPAIR_BYTES,
        security_level: SECURITY_LEVEL,
        created_at,
    }
}

/// What an ML-DSA-65 key pair made at `created_at` from these bytes looks like.
pub open spec fn mldsa_keypair_of(public_key: Seq<u8>, private_key: Seq<u8>, created_at: u64) -> KeyPairView {
    KeyPairView {
        public_key,
        private_key,
        algorithm: "ML-DSA-65"@,
        key_size: MLDSA65_KEYPAIR_BYTES,
        security_level: SECURITY_LEVEL,
        created_at,
    }
}

/// Whether a key pair has the shape of a freshly generated ML-KEM-768 pair.
pub open spec fn is_mlkem_keypair(pair: KeyPairView) -> bool {
    &&& pair.public_key.len() == MLKEM768_PUBLIC_KEY_BYTES
    &&& pair.private_key.len() == MLKEM768_SECRET_KEY_BYTES
    &&& pair == mlkem_keypair_of(pair.public_key, pair.private_key, pair.created_at)
}

/// Whether a key pair has the shape of a freshly generated ML-DSA-65 pair.
pub open spec fn is_mldsa_keypair(pair: KeyPairView) -> bool {
    &&& pair.public_key.len() == MLDSA65_PUBLIC_KEY_BYTES
    &&& pair.private_key.len() == MLDSA65_SECRET_KEY_BYTES
    &&& pair == mldsa_keypair_of(pair.public_key, pair.private_key, pair.created_at)
}

/// Generates an ML-KEM-768 key pair stamped with `now`, the reading of the
/// clock.
///
/// With a clock that could not be read no key is generated. Otherwise a
/// pair with the sizes of the scheme comes back.
pub fn generate_mlkem_keypair_at(now: Option<u64>) -> (result: PQCResult<PQCKeyPair>)
    ensures
        match now {
            None => fails_with(result, PQCErrorView::KeyGenerationFailed("System time error"@)),
            Some(time) => result is Ok && is_mlkem_keypair(result.unwrap()@) && result.unwrap()@.created_at
                == time,
        },
{
    match now {
        None => Err(PQCError::KeyGenerationFailed("System time error".to_owned())),
        Some(time) => {
            let (public_key, private_key) = mlkem768_keypair();
            Ok(
                PQCKeyPair {
                    public_key,
                    private_key,
                    algorithm: "ML-KEM-768".to_owned(),
                    key_size: MLKEM768_PUBLIC_KEY_BYTES + MLKEM768_SECRET_KEY_BYTES,
                    security_level: SECURITY_LEVEL,
                    created_at: time,
                },
            )
        },
    }
}

/// Generates an ML-KEM-768 key pair stamped with the current time.
///
/// Fails only where the clock cannot be read; a pair that comes back has
/// the sizes of the scheme.
pub fn generate_mlkem_keypair() -> (result: PQCResult<PQCKeyPair>)
    ensures
        match result {
            Ok(pair) => is_mlkem_keypair(pair@),
            Err(e) => e@ == PQCErrorView::KeyGenerationFailed("System time error"@),
        },
{
    generate_mlkem_keypair_at(unix_time_secs())
}

/// Generates an ML-DSA-65 key pair stamped with `now`, the reading of the
/// clock.
///
/// With a clock that could not be read no key is generated. Otherwise a
/// pair with the sizes of the scheme comes back.
pub fn generate_mldsa_keypair_at(now: Option<u64>) -> (result: PQCResult<PQCKeyPair>)
    ensures
        match now {
            None => fails_with(result, PQCErrorView::KeyGenerationFailed("System time error"@)),
            Some(time) => result is Ok && is_mldsa_keypair(result.unwrap()@) && result.unwrap()@.created_at
                == time,
        },
{
    match now {
        None => Err(PQCError::KeyGenerationFailed("System time error".to_owned())),
        Some(time) => {
            let (public_key, private_key) = mldsa65_keypair();
            Ok(
                PQCKeyPair {
                    public_key,
                    private_key,
                    algorithm: "ML-DSA-65".to_owned(),
                    key_size: MLDSA65_PUBLIC_KEY_BYTES + MLDSA65_SECRET_KEY_BYTES,
                    security_level: SECURITY_LEVEL,
                    created_at: time,
                },
            )
        },
    }
}

/// Generates an ML-DSA-65 key pair stamped with the current time.
///
/// Fails only where the clock cannot be read; a pair that comes back has
/// the sizes of the scheme.
pub fn generate_mldsa_keypair() -> (result: PQCResult<PQCKeyPair>)
    ensures
        match result {
            Ok(pair) => is_mldsa_keypair(pair@),
            Err(e) => e@ == PQCErrorView::KeyGenerationFailed("System time error"@),
        },
{
    generate_mldsa_keypair_at(unix_time_secs())
}

/// Whether an encapsulation result has the shape the scheme gives it.
pub open spec fn is_mlkem_encapsulation(r: EncryptionResultView) -> bool {
    &&& r.ciphertext.len() == MLKEM768_CIPHERTEXT_BYTES
    &&& r.shared_secret.len() == MLKEM768_SHARED_SECRET_BYTES
    &&& r.algorithm == "ML-KEM-768"@
    &&& r.ciphertext_size == MLKEM768_CIPHERTEXT_BYTES
}

/// What stands in the way of an encapsulation, if anything: a clock that
/// could not be read, then a key of the wrong size.
pub open spec fn encapsulation_refusal(public_key: Seq<u8>, now: Option<u64>) -> Option<PQCErrorView> {
    if now is None {
        Some(PQCErrorView::EncapsulationFailed("System time error"@))
    } else if public_key.len() != MLKEM768_PUBLIC_KEY_BYTES {
        Some(PQCErrorView::InvalidPublicKey("Failed to parse ML-KEM public key"@))
    } else {
        None
    }
}

/// Encapsulates a fresh shared secret to an ML-KEM-768 public key and
/// stamps the result with `now`, the reading of the clock. The second
/// argument is not used by the scheme.
///
/// A clock that could not be read is refused first, then a key of the
/// wrong size, both before the provider is reached. Every other call
/// succeeds.
pub fn mlkem_encapsulate_at(public_key: &[u8], _message: &[u8], now: Option<u64>) -> (result: PQCResult<
    PQCEncryptionResult,
>)
    ensures
        match encapsulation_refusal(public_key@, now) {
            Some(refusal) => fails_with(result, refusal),
            None => result is Ok && is_mlkem_encapsulation(result.unwrap()@) && result.unwrap()@.created_at
                == now.unwrap(),
        },
{
    let time: u64 = match now {
        None => {
            return Err(PQCError::EncapsulationFailed("System time error".to_owned()));
        },
        Some(time) => time,
    };
    if public_key.len() != MLKEM768_PUBLIC_KEY_BYTES {
        return Err(PQCError::InvalidPublicKey("Failed to parse ML-KEM public key".to_owned()));
    }
    let (shared_secret, ciphertext) = mlkem768_encapsulate(public_key);
    let ciphertext_size: usize = ciphertext.len();
    Ok(
        PQCEncryptionResult {
            ciphertext,
            shared_secret,
            algorithm: "ML-KEM-768".to_owned(),
            ciphertext_size,
            created_at: time,
        },
    )
}

/// Encapsulates a fresh shared secret to an ML-KEM-768 public key. The
/// second argument is not used by the scheme.
///
/// A key of the wrong size is rejected before the provider is reached. With
/// a key of the right size the call fails only where the clock cannot be
/// read.
pub fn mlkem_encapsulate(public_key: &[u8], message: &[u8]) -> (result: PQCResult<PQCEncryptionResult>)
    ensures
        match result {
            Ok(r) => public_key@.len() == MLKEM768_PUBLIC_KEY_BYTES && is_mlkem_encapsulation(r@),
            Err(e) => {
                ||| e@ == PQCErrorView::EncapsulationFailed("System time error"@)
                ||| public_key@.len() != MLKEM768_PUBLIC_KEY_BYTES && e@
                    == PQCErrorView::InvalidPublicKey("Failed to parse ML-KEM public key"@)
            },
        },
{
    mlkem_encapsulate_at(public_key, message, unix_time_secs())
}

/// What decapsulation returns for each pair of inputs.
pub open spec fn mlkem_decapsulate_spec(private_key: Seq<u8>, ciphertext: Seq<u8>) -> Result<Seq<u8>, PQCErrorView> {
    if private_key.len() != MLKEM768_SECRET_KEY_BYTES {
        Err(PQCErrorView::InvalidPrivateKey("Failed to parse ML-KEM private key"@))
    } else if ciphertext.len() != MLKEM768_CIPHERTEXT_BYTES {
        Err(PQCErrorView::InvalidCiphertext("Failed to parse ML-KEM ciphertext"@))
    } else {
        Ok(mlkem768_decapsulated(private_key, ciphertext))
    }
}

/// Recovers the shared secret of an ML-KEM-768 ciphertext.
///
/// A private key of the wrong size is rejected as `InvalidPrivateKey`, then
/// a ciphertext of the wrong size as `InvalidCiphertext`; every other input
/// is decapsulated.
pub fn mlkem_decapsulate(private_key: &[u8], ciphertext: &[u8]) -> (result: PQCResult<SecretBytes>)
    ensures
        match result {
            Ok(shared) => mlkem_decapsulate_spec(private_key@, ciphertext@) == Ok::<
                Seq<u8>,
                PQCErrorView,
            >(secret_bytes(shared)) && secret_bytes(shared).len() == MLKEM768_SHARED_SECRET_BYTES,
            Err(e) => mlkem_decapsulate_spec(private_key@, ciphertext@) == Err::<
                Seq<u8>,
                PQCErrorView,
            >(e@),
        },
{
    if private_key.len() != MLKEM768_SECRET_KEY_BYTES {
        return Err(PQCError::InvalidPrivateKey("Failed to parse ML-KEM private key".to_owned()));
    }
    if ciphertext.len() != MLKEM768_CIPHERTEXT_BYTES {
        return Err(PQCError::InvalidCiphertext("Failed to parse ML-KEM ciphertext".to_owned()));
    }
    Ok(mlkem768_decapsulate(private_key, ciphertext))
}

/// Whether a byte string has the layout of a signed message for `message`:
/// a signature of the scheme's fixed size, then the message.
pub open spec fn signed_message_of(signed: Seq<u8>, message: Seq<u8>) -> bool {
    &&& signed.len() == MLDSA65_SIGNATURE_BYTES + message.len()
    &&& signed.subrange(MLDSA65_SIGNATURE_BYTES as int, signed.len() as int) == message
}

/// Whether a signature has the shape of what ML-DSA-65 signing returns for
/// `message`: the signed message, of the size it says.
pub open spec fn is_mldsa_signature(signature: SignatureView, message: Seq<u8>) -> bool {
    &&& signature.algorithm == "ML-DSA-65"@
    &&& signature.signature_size == signature.signature.len()
    &&& signed_message_of(signature.signature, message)
}

/// What stands in the way of a signature, if anything: a clock that could
/// not be read, then a key of the wrong size.
pub open spec fn signing_refusal(private_key: Seq<u8>, now: Option<u64>) -> Option<PQCErrorView> {
    if now is None {
        Some(PQCErrorView::SigningFailed("System time error"@))
    } else if private_key.len() != MLDSA65_SECRET_KEY_BYTES {
        Some(PQCErrorView::InvalidPrivateKey("Failed to parse ML-DSA private key"@))
    } else {
        None
    }
}

/// Signs a message with an ML-DSA-65 private key and stamps the signature
/// with `now`, the reading of the clock. The signature returned is the
/// signed message: the signature proper followed by the message.
///
/// A clock that could not be read is refused first, then a key of the
/// wrong size, both before the provider is reached. Every other call
/// succeeds.
pub fn mldsa_sign_at(private_key: &[u8], message: &[u8], now: Option<u64>) -> (result: PQCResult<
    PQCSignature,
>)
    ensures
        match signing_refusal(private_key@, now) {
            Some(refusal) => fails_with(result, refusal),
            None => result is Ok && is_mldsa_signature(result.unwrap()@, message@)
                && result.unwrap()@.created_at == now.unwrap(),
        },
{
    let time: u64 = match now {
        None => {
            return Err(PQCError::SigningFailed("System time error".to_owned()));
        },
        Some(time) => time,
    };
    if private_key.len() != MLDSA65_SECRET_KEY_BYTES {
        return Err(PQCError::InvalidPrivateKey("Failed to parse ML-DSA private key".to_owned()));
    }
    let signature = mldsa65_sign(private_key, message);
    let signature_size: usize = secret_expose(&signature).len();
    Ok(PQCSignature { signature, algorithm: "ML-DSA-65".to_owned(), signature_size, created_at: time })
}

/// Signs a message with an ML-DSA-65 private key. The signature returned is
/// the signed message: the signature proper followed by the message.
///
/// A key of the wrong size is rejected before the provider is reached. With
/// a key of the right size the call fails only where the clock cannot be
/// read.
pub fn mldsa_sign(private_key: &[u8], message: &[u8]) -> (result: PQCResult<PQCSignature>)
    ensures
        match result {
            Ok(s) => private_key@.len() == MLDSA65_SECRET_KEY_BYTES && is_mldsa_signature(s@, message@),
            Err(e) => {
                ||| e@ == PQCErrorView::SigningFailed("System time error"@)
                ||| private_key@.len() != MLDSA65_SECRET_KEY_BYTES && e@
                    == PQCErrorView::InvalidPrivateKey("Failed to parse ML-DSA private key"@)
            },
        },
{
    mldsa_sign_at(private_key, message, unix_time_secs())
}

/// Whether a signed message is accepted for a message under a public key
/// of the right size: what follows its signature bytes is the message, and
/// the scheme opens it under the key.
pub open spec fn mldsa_accepts(public_key: Seq<u8>, message: Seq<u8>, signature: Seq<u8>) -> bool {
    &&& signature.len() >= MLDSA65_SIGNATURE_BYTES
    &&& signature.subrange(MLDSA65_SIGNATURE_BYTES as int, signature.len() as int) == message
    &&& mldsa65_opened(public_key, signature) is Some
}

/// Checks a signed message against a message under an ML-DSA-65 public key.
///
/// A public key of the wrong size is rejected as `InvalidPublicKey`. For
/// every other input the answer is `true` exactly when the signed message
/// opens under the key and what it carries is the message given.
pub fn mldsa_verify(public_key: &[u8], message: &[u8], signature: &[u8]) -> (result: PQCResult<bool>)
    ensures
        public_key@.len() == MLDSA65_PUBLIC_KEY_BYTES ==> result == Ok::<bool, PQCError>(
            mldsa_accepts(public_key@, message@, signature@),
        ),
        public_key@.len() != MLDSA65_PUBLIC_KEY_BYTES ==> fails_with(
            result,
            PQCErrorView::InvalidPublicKey("Failed to parse ML-DSA public key"@),
        ),
{
    if public_key.len() != MLDSA65_PUBLIC_KEY_BYTES {
        return Err(PQCError::InvalidPublicKey("Failed to parse ML-DSA public key".to_owned()));
    }
    match mldsa65_open(public_key, signature) {
        Some(opened) => Ok(bytes_equal(opened.as_slice(), message)),
        None => Ok(false),
    }
}

/// A signed message that is accepted for one message is accepted for no
/// other message under the same key.
pub proof fn lemma_signature_binds_message(
    public_key: Seq<u8>,
    message: Seq<u8>,
    other: Seq<u8>,
    signature: Seq<u8>,
)
    requires
        mldsa_accepts(public_key, message, signature),
        other != message,
    ensures
        !mldsa_accepts(public_key, other, signature),
{
}

/// What was signed for one message is accepted for no other message,
/// under any key.
pub proof fn lemma_signed_message_rejects_others(
    public_key: Seq<u8>,
    message: Seq<u8>,
    other: Seq<u8>,
    signed: Seq<u8>,
)
    requires
        signed_message_of(signed, message),
        other != message,
    ensures
        !mldsa_accepts(public_key, other, signed),
{
}

/// Whether a signed message that a host handed over is accepted. Any of
/// the three may be missing, and then the answer is no; so it is for a
/// public key of the wrong size.
pub fn pqc_ml_dsa_65_verify(signature: Option<&[u8]>, message: Option<&[u8]>, public_key: Option<&[u8]>) -> (valid:
    bool)
    ensures
        valid == (signature is Some && message is Some && public_key is Some && public_key.unwrap()@.len()
            == MLDSA65_PUBLIC_KEY_BYTES && mldsa_accepts(
            public_key.unwrap()@,
            message.unwrap()@,
            signature.unwrap()@,
        )),
{
    match (signature, message, public_key) {
        (Some(signature), Some(message), Some(public_key)) => {
            match mldsa_verify(public_key, message, signature) {
                Ok(valid) => valid,
                Err(_) => false,
            }
        },
        _ => false,
    }
}

/// A public key that is accepted for storage is neither empty nor shorter
/// than an ML-KEM-768 public key.
pub fn validate_public_key(key: &[u8]) -> (result: PQCResult<()>)
    ensures
        key@.len() >= MLKEM768_PUBLIC_KEY_BYTES ==> result is Ok,
        key@.len() == 0 ==> fails_with(result, PQCErrorView::InvalidPublicKey("Empty key data"@)),
        0 < key@.len() < MLKEM768_PUBLIC_KEY_BYTES ==> fails_with(
            result,
            PQCErrorView::InvalidPublicKey("Key too short"@),
        ),
{
    if key.len() == 0 {
        return Err(PQCError::InvalidPublicKey("Empty key data".to_owned()));
    }
    if key.len() < MLKEM768_PUBLIC_KEY_BYTES {
        return Err(PQCError::InvalidPublicKey("Key too short".to_owned()));
    }
    Ok(())
}

/// Number of bytes that [`pqc_sign_with_key`] returns.
pub const FIXED_SIGNATURE_BYTES: usize = 64;

/// Shortest key that [`pqc_sign_with_key`] accepts.
pub const SHORTEST_SIGNING_KEY_BYTES: usize = 32;

/// Stands in for a signing operation on inputs that have been checked: a
/// key of fewer than 32 bytes is rejected with a message that names no
/// secret, every other key yields 64 zero bytes.
pub fn pqc_sign_with_key(key: &[u8], _message: &[u8]) -> (result: PQCResult<Vec<u8>>)
    ensures
        key@.len() >= SHORTEST_SIGNING_KEY_BYTES ==> (result matches Ok(sig) && sig@ == Seq::new(
            FIXED_SIGNATURE_BYTES as nat,
            |i: int| 0u8,
        )),
        key@.len() < SHORTEST_SIGNING_KEY_BYTES ==> fails_with(
            result,
            PQCErrorView::InvalidPrivateKey("Invalid input length"@),
        ),
{
    if key.len() < SHORTEST_SIGNING_KEY_BYTES {
        return Err(PQCError::InvalidPrivateKey("Invalid input length".to_owned()));
    }
    let mut sig: Vec<u8> = Vec::with_capacity(FIXED_SIGNATURE_BYTES);
    let mut i: usize = 0;
    while i < FIXED_SIGNATURE_BYTES
        invariant
            i <= FIXED_SIGNATURE_BYTES,
            sig@ == Seq::new(i as nat, |j: int| 0u8),
        decreases FIXED_SIGNATURE_BYTES - i,
    {
        sig.push(0u8);
        i += 1;
        assert(sig@ =~= Seq::new(i as nat, |j: int| 0u8));
    }
    Ok(sig)
}

} // verus!
