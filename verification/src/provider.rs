//! The boundary to the cryptographic provider and to the other outside
//! services the library relies on: secret storage, key identifiers, the wall
//! clock and memory wiping.
//!
//! Nothing in this module is proved. Each item states what the rest of the
//! library assumes about the code it calls.

use pqcrypto_mldsa::mldsa65;
use pqcrypto_mlkem::mlkem768;
use pqcrypto_traits::kem::Ciphertext;
use pqcrypto_traits::kem::PublicKey;
use pqcrypto_traits::kem::SecretKey;
use pqcrypto_traits::kem::SharedSecret;
use pqcrypto_traits::sign::DetachedSignature;
use pqcrypto_traits::sign::PublicKey as SignPublicKey;
use pqcrypto_traits::sign::SecretKey as SignSecretKey;
use pqcrypto_traits::sign::SignedMessage;
use secrecy::ExposeSecret;
use rand::RngCore;
use secrecy::Secret;
use sha2::Digest;
use sha2::Sha256;
use subtle::Choice;
use subtle::ConditionallySelectable;
use std::time::Instant;
use std::time::SystemTime;
use std::time::UNIX_EPOCH;
use vstd::prelude::*;
use zeroize::Zeroize;

verus! {

/// Size in bytes of an ML-KEM-768 public key.
pub const MLKEM768_PUBLIC_KEY_BYTES: usize = 1184;

/// Size in bytes of an ML-KEM-768 secret key.
pub const MLKEM768_SECRET_KEY_BYTES: usize = 2400;

/// Size in bytes of an ML-KEM-768 ciphertext.
pub const MLKEM768_CIPHERTEXT_BYTES: usize = 1088;

/// Size in bytes of an ML-KEM-768 shared secret.
pub const MLKEM768_SHARED_SECRET_BYTES: usize = 32;

/// Size in bytes of an ML-DSA-65 public key.
pub const MLDSA65_PUBLIC_KEY_BYTES: usize = 1952;

/// Size in bytes of an ML-DSA-65 secret key.
pub const MLDSA65_SECRET_KEY_BYTES: usize = 4032;

/// Size in bytes of an ML-DSA-65 signature without its message.
pub const MLDSA65_SIGNATURE_BYTES: usize = 3309;

/// Length in characters of a key identifier.
pub const KEY_ID_LENGTH: usize = 36;

/// Secret bytes kept in a `secrecy::Secret<Vec<u8>>`, which wipes them when
/// the value is dropped.
#[verifier::external_body]
pub struct SecretBytes {
    inner: Secret<Vec<u8>>,
}

/// The bytes that a secret holds.
pub uninterp spec fn secret_bytes(s: SecretBytes) -> Seq<u8>;

/// `secrecy::Secret::new`: the secret takes ownership of `bytes` and holds
/// exactly them.
#[verifier::external_body]
pub(crate) fn secret_new(bytes: Vec<u8>) -> (s: SecretBytes)
    ensures
        secret_bytes(s) == bytes@,
{
    SecretBytes { inner: Secret::new(bytes) }
}

/// `secrecy::ExposeSecret::expose_secret`: a reference to the bytes held.
#[verifier::external_body]
pub(crate) fn secret_expose(s: &SecretBytes) -> (bytes: &Vec<u8>)
    ensures
        bytes@ == secret_bytes(*s),
{
    s.inner.expose_secret()
}

/// `mlkem768::keypair`: a fresh key pair, as the bytes of the public key and
/// of the secret key. Both have the scheme's fixed sizes.
#[verifier::external_body]
pub(crate) fn mlkem768_keypair() -> (pair: (Vec<u8>, SecretBytes))
    ensures
        pair.0@.len() == MLKEM768_PUBLIC_KEY_BYTES,
        secret_bytes(pair.1).len() == MLKEM768_SECRET_KEY_BYTES,
{
    let (pk, sk) = mlkem768::keypair();
    (pk.as_bytes().to_vec(), SecretBytes { inner: Secret::new(sk.as_bytes().to_vec()) })
}

/// `mlkem768::encapsulate` on the public key with these bytes: a fresh
/// shared secret and the ciphertext that carries it, both of fixed size.
/// The key is parsed with `PublicKey::from_bytes`, which accepts exactly the
/// byte strings of the public key size.
#[verifier::external_body]
pub(crate) fn mlkem768_encapsulate(public_key: &[u8]) -> (out: (SecretBytes, Vec<u8>))
    requires
        public_key@.len() == MLKEM768_PUBLIC_KEY_BYTES,
    ensures
        secret_bytes(out.0).len() == MLKEM768_SHARED_SECRET_BYTES,
        out.1@.len() == MLKEM768_CIPHERTEXT_BYTES,
{
    let pk = mlkem768::PublicKey::from_bytes(public_key).unwrap();
    let (ss, ct) = mlkem768::encapsulate(&pk);
    (SecretBytes { inner: Secret::new(ss.as_bytes().to_vec()) }, ct.as_bytes().to_vec())
}

/// The shared secret that ML-KEM-768 decapsulation recovers from a
/// ciphertext under a secret key.
pub uninterp spec fn mlkem768_decapsulated(secret_key: Seq<u8>, ciphertext: Seq<u8>) -> Seq<u8>;

/// `mlkem768::decapsulate`: decapsulation depends on the key and the
/// ciphertext alone and yields a shared secret of fixed size. Key and
/// ciphertext are parsed with `from_bytes`, which accept exactly the byte
/// strings of their fixed sizes.
#[verifier::external_body]
pub(crate) fn mlkem768_decapsulate(secret_key: &[u8], ciphertext: &[u8]) -> (shared: SecretBytes)
    requires
        secret_key@.len() == MLKEM768_SECRET_KEY_BYTES,
        ciphertext@.len() == MLKEM768_CIPHERTEXT_BYTES,
    ensures
        secret_bytes(shared) == mlkem768_decapsulated(secret_key@, ciphertext@),
        secret_bytes(shared).len() == MLKEM768_SHARED_SECRET_BYTES,
{
    let sk = mlkem768::SecretKey::from_bytes(secret_key).unwrap();
    let ct = mlkem768::Ciphertext::from_bytes(ciphertext).unwrap();
    let ss = mlkem768::decapsulate(&ct, &sk);
    SecretBytes { inner: Secret::new(ss.as_bytes().to_vec()) }
}

/// `mldsa65::keypair`: a fresh key pair, as the bytes of the public key and
/// of the secret key. Both have the scheme's fixed sizes.
#[verifier::external_body]
pub(crate) fn mldsa65_keypair() -> (pair: (Vec<u8>, SecretBytes))
    ensures
        pair.0@.len() == MLDSA65_PUBLIC_KEY_BYTES,
        secret_bytes(pair.1).len() == MLDSA65_SECRET_KEY_BYTES,
{
    let (pk, sk) = mldsa65::keypair();
    (pk.as_bytes().to_vec(), SecretBytes { inner: Secret::new(sk.as_bytes().to_vec()) })
}

/// `mldsa65::sign`: the signed message, which is a signature of the
/// scheme's fixed size followed by the message itself. Signing draws fresh
/// randomness, so nothing is claimed of the signature bytes. The key is
/// parsed with `SecretKey::from_bytes`, which accepts exactly the byte
/// strings of the secret key size.
#[verifier::external_body]
pub(crate) fn mldsa65_sign(secret_key: &[u8], message: &[u8]) -> (signed: SecretBytes)
    requires
        secret_key@.len() == MLDSA65_SECRET_KEY_BYTES,
    ensures
        secret_bytes(signed).len() == MLDSA65_SIGNATURE_BYTES + message@.len(),
        secret_bytes(signed).subrange(MLDSA65_SIGNATURE_BYTES as int, secret_bytes(signed).len() as int)
            == message@,
{
    let sk = mldsa65::SecretKey::from_bytes(secret_key).unwrap();
    let signed = mldsa65::sign(message, &sk);
    SecretBytes { inner: Secret::new(signed.as_bytes().to_vec()) }
}

/// The message that opening an ML-DSA-65 signed message under a public key
/// yields, if the signature in it is valid.
pub uninterp spec fn mldsa65_opened(public_key: Seq<u8>, signed_message: Seq<u8>) -> Option<
    Seq<u8>,
>;

/// `mldsa65::open`: opening depends on the key and the signed message
/// alone. Where it succeeds, the message returned is what follows the
/// signature bytes in the signed message. The key is parsed with
/// `PublicKey::from_bytes`, which accepts exactly the byte strings of the
/// public key size; any byte string is taken as a signed message.
#[verifier::external_body]
pub(crate) fn mldsa65_open(public_key: &[u8], signed_message: &[u8]) -> (opened: Option<Vec<u8>>)
    requires
        public_key@.len() == MLDSA65_PUBLIC_KEY_BYTES,
    ensures
        match opened {
            Some(m) => mldsa65_opened(public_key@, signed_message@) == Some(m@)
                && signed_message@.len() >= MLDSA65_SIGNATURE_BYTES
                && m@ == signed_message@.subrange(
                MLDSA65_SIGNATURE_BYTES as int,
                signed_message@.len() as int,
            ),
            None => mldsa65_opened(public_key@, signed_message@) is None,
        },
{
    let pk = mldsa65::PublicKey::from_bytes(public_key).unwrap();
    let sm = mldsa65::SignedMessage::from_bytes(signed_message).unwrap();
    mldsa65::open(&sm, &pk).ok()
}

/// `mldsa65::detached_sign`: a signature without its message, of the
/// scheme's fixed signature size. Signing draws fresh randomness, so
/// nothing is claimed of the bytes. The key is parsed with
/// `SecretKey::from_bytes`, which accepts exactly the byte strings of the
/// secret key size.
#[verifier::external_body]
pub(crate) fn mldsa65_detached_sign(secret_key: &[u8], message: &[u8]) -> (signature: Vec<u8>)
    requires
        secret_key@.len() == MLDSA65_SECRET_KEY_BYTES,
    ensures
        signature@.len() == MLDSA65_SIGNATURE_BYTES,
{
    let sk = mldsa65::SecretKey::from_bytes(secret_key).unwrap();
    mldsa65::detached_sign(message, &sk).as_bytes().to_vec()
}

/// Whether ML-DSA-65 accepts a detached signature for a message under a
/// public key.
pub uninterp spec fn mldsa65_accepts(public_key: Seq<u8>, message: Seq<u8>, signature: Seq<u8>) -> bool;

/// `mldsa65::verify_detached_signature`: the answer depends on the key, the
/// message and the signature alone. The key is parsed with
/// `PublicKey::from_bytes`, which accepts exactly the byte strings of the
/// public key size, the signature with `DetachedSignature::from_bytes`,
/// which accepts every byte string up to the signature size.
#[verifier::external_body]
pub(crate) fn mldsa65_verify_detached(public_key: &[u8], message: &[u8], signature: &[u8]) -> (valid:
    bool)
    requires
        public_key@.len() == MLDSA65_PUBLIC_KEY_BYTES,
        signature@.len() <= MLDSA65_SIGNATURE_BYTES,
    ensures
        valid == mldsa65_accepts(public_key@, message@, signature@),
{
    let pk = mldsa65::PublicKey::from_bytes(public_key).unwrap();
    let sig = mldsa65::DetachedSignature::from_bytes(signature).unwrap();
    mldsa65::verify_detached_signature(&sig, message, &pk).is_ok()
}

/// `uuid::Uuid::new_v4` printed in its default form: a random identifier in
/// the hyphenated layout, which is 36 characters long.
#[verifier::external_body]
pub(crate) fn new_key_id() -> (id: String)
    ensures
        id@.len() == KEY_ID_LENGTH,
{
    uuid::Uuid::new_v4().to_string()
}

/// `SystemTime::now` measured from `UNIX_EPOCH` in whole seconds; `None`
/// where the clock reads a time before the epoch.
#[verifier::external_body]
pub(crate) fn unix_time_secs() -> (now: Option<u64>) {
    match SystemTime::now().duration_since(UNIX_EPOCH) {
        Ok(elapsed) => Some(elapsed.as_secs()),
        Err(_) => None,
    }
}

/// `subtle::ConditionallySelectable::conditional_select` for bytes, with
/// the choice made from `condition` by `Choice::from`: the first byte where
/// the condition holds, the second where it does not. The selection does
/// not branch on the condition.
#[verifier::external_body]
pub(crate) fn select_byte(condition: bool, a: u8, b: u8) -> (selected: u8)
    ensures
        selected == if condition {
            a
        } else {
            b
        },
{
    u8::conditional_select(&b, &a, Choice::from(condition as u8))
}

/// `rand::RngCore::next_u32` on `rand::thread_rng()`: a random number.
/// Nothing is claimed of it.
#[verifier::external_body]
pub(crate) fn random_u32() -> (n: u32) {
    rand::thread_rng().next_u32()
}

/// The SHA-256 digest of a byte string.
pub uninterp spec fn sha256_digest(data: Seq<u8>) -> Seq<u8>;

/// `sha2::Sha256`, fed with `data` once and finalized: the digest depends
/// on the data alone.
#[verifier::external_body]
pub(crate) fn sha256(data: &[u8]) -> (digest: [u8; 32])
    ensures
        digest@ == sha256_digest(data@),
{
    let mut hasher = Sha256::new();
    hasher.update(data);
    hasher.finalize().into()
}

/// A point on the monotonic clock, `std::time::Instant`.
#[verifier::external_type_specification]
#[verifier::external_body]
pub struct ExInstant(Instant);

/// `Instant::now`: the present point on the monotonic clock.
#[verifier::external_body]
pub(crate) fn stopwatch_start() -> (start: Instant) {
    Instant::now()
}

/// `Instant::elapsed` in nanoseconds, cut to 64 bits: the time that has
/// passed since `start`. Nothing is claimed of the number.
#[verifier::external_body]
pub(crate) fn stopwatch_nanos(start: &Instant) -> (nanos: u64) {
    start.elapsed().as_nanos() as u64
}

/// `zeroize::Zeroize::zeroize` on the bytes as a slice: every byte is
/// overwritten with zero by a write the compiler may not remove, and the
/// length stays. The call does not panic: its one assertion, that the
/// length fits `isize`, holds of every slice.
#[verifier::external_body]
pub(crate) fn zeroize_bytes(bytes: &mut Vec<u8>)
    ensures
        final(bytes)@.len() == old(bytes)@.len(),
        forall|i: int| 0 <= i < final(bytes)@.len() ==> final(bytes)@[i] == 0u8,
    opens_invariants none
    no_unwind
{
    bytes.as_mut_slice().zeroize();
}

/// `str` equality: two strings are equal exactly when they hold the same
/// characters.
#[verifier::external_body]
pub(crate) fn str_eq(a: &str, b: &str) -> (equal: bool)
    ensures
        equal == (a@ == b@),
{
    a == b
}

} // verus!
