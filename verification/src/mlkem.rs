//! ML-KEM-768 with plain byte vectors in place of secret buffers, for
//! callers that take charge of the secrets themselves.

use crate::copy_bytes;
use crate::generate_mlkem_keypair;
use crate::is_mlkem_keypair;
use crate::mlkem_decapsulate;
use crate::mlkem_decapsulate_spec;
use crate::mlkem_encapsulate;
use crate::provider::secret_expose;
use crate::provider::MLKEM768_CIPHERTEXT_BYTES;
use crate::provider::MLKEM768_PUBLIC_KEY_BYTES;
use crate::provider::MLKEM768_SHARED_SECRET_BYTES;
use crate::PQCErrorView;
use crate::PQCKeyPair;
use crate::PQCResult;
use vstd::prelude::*;

verus! {

/// Generates a key pair stamped with the current time.
///
/// Fails only where the clock cannot be read; a pair that comes back has
/// the sizes of the scheme.
pub fn generate_keypair() -> (result: PQCResult<PQCKeyPair>)
    ensures
        match result {
            Ok(pair) => is_mlkem_keypair(pair@),
            Err(e) => e@ == PQCErrorView::KeyGenerationFailed("System time error"@),
        },
{
    generate_mlkem_keypair()
}

/// Encapsulates a fresh shared secret to a public key and hands back the
/// ciphertext and the shared secret, in this order.
///
/// A key of the wrong size is refused. With a key of the right size the
/// call fails only where the clock cannot be read.
pub fn encapsulate(public_key: &[u8], message: &[u8]) -> (result: PQCResult<(Vec<u8>, Vec<u8>)>)
    ensures
        match result {
            Ok(pair) => {
                &&& public_key@.len() == MLKEM768_PUBLIC_KEY_BYTES
                &&& pair.0@.len() == MLKEM768_CIPHERTEXT_BYTES
                &&& pair.1@.len() == MLKEM768_SHARED_SECRET_BYTES
            },
            Err(e) => {
                ||| e@ == PQCErrorView::EncapsulationFailed("System time error"@)
                ||| public_key@.len() != MLKEM768_PUBLIC_KEY_BYTES && e@
                    == PQCErrorView::InvalidPublicKey("Failed to parse ML-KEM public key"@)
            },
        },
{
    match mlkem_encapsulate(public_key, message) {
        Ok(encapsulated) => {
            let shared_secret: Vec<u8> = copy_bytes(secret_expose(&encapsulated.shared_secret).as_slice());
            Ok((encapsulated.ciphertext, shared_secret))
        },
        Err(e) => Err(e),
    }
}

/// Recovers the shared secret of a ciphertext.
///
/// A private key of the wrong size is refused, then a ciphertext of the
/// wrong size; every other input is decapsulated.
pub fn decapsulate(private_key: &[u8], ciphertext: &[u8]) -> (result: PQCResult<Vec<u8>>)
    ensures
        match result {
            Ok(shared) => mlkem_decapsulate_spec(private_key@, ciphertext@) == Ok::<Seq<u8>, PQCErrorView>(
                shared@,
            ) && shared@.len() == MLKEM768_SHARED_SECRET_BYTES,
            Err(e) => mlkem_decapsulate_spec(private_key@, ciphertext@) == Err::<Seq<u8>, PQCErrorView>(e@),
        },
{
    match mlkem_decapsulate(private_key, ciphertext) {
        Ok(secret) => Ok(copy_bytes(secret_expose(&secret).as_slice())),
        Err(e) => Err(e),
    }
}

} // verus!
