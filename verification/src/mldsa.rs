//! ML-DSA-65 with plain byte vectors in place of secret buffers.

use crate::copy_bytes;
use crate::fails_with;
use crate::generate_mldsa_keypair;
use crate::is_mldsa_keypair;
use crate::mldsa_accepts;
use crate::mldsa_sign;
use crate::mldsa_verify;
use crate::provider::secret_expose;
use crate::signed_message_of;
use crate::provider::MLDSA65_PUBLIC_KEY_BYTES;
use crate::provider::MLDSA65_SECRET_KEY_BYTES;
use crate::PQCError;
use crate::PQCErrorView;
use crate::PQCKeyPair;
use crate::PQCResult;
use vstd::prelude::*;

verus! {

/// Generates a key pair stamped with the current time.
///
/// Fails only where the clock cannot be read; a pair that comes back has
/// the sizes of the scheme.
pub fn generate_keypair() -> (result: PQCResult<PQCKeyPair>)
    ensures
        match result {
            Ok(pair) => is_mldsa_keypair(pair@),
            Err(e) => e@ == PQCErrorView::KeyGenerationFailed("System time error"@),
        },
{
    generate_mldsa_keypair()
}

/// Signs a message and hands back the signed message: the signature
/// followed by the message.
///
/// A key of the wrong size is refused. With a key of the right size the
/// call fails only where the clock cannot be read.
pub fn sign(private_key: &[u8], message: &[u8]) -> (result: PQCResult<Vec<u8>>)
    ensures
        match result {
            Ok(signed) => private_key@.len() == MLDSA65_SECRET_KEY_BYTES && signed_message_of(
                signed@,
                message@,
            ),
            Err(e) => {
                ||| e@ == PQCErrorView::SigningFailed("System time error"@)
                ||| private_key@.len() != MLDSA65_SECRET_KEY_BYTES && e@
                    == PQCErrorView::InvalidPrivateKey("Failed to parse ML-DSA private key"@)
            },
        },
{
    match mldsa_sign(private_key, message) {
        Ok(signature) => Ok(copy_bytes(secret_expose(&signature.signature).as_slice())),
        Err(e) => Err(e),
    }
}

/// Checks a signed message against a message under a public key.
///
/// A public key of the wrong size is refused. For every other input the
/// answer is `true` exactly when the signed message opens under the key
/// and what it opens to is the message given.
pub fn verify(public_key: &[u8], message: &[u8], signature: &[u8]) -> (result: PQCResult<bool>)
    ensures
        public_key@.len() == MLDSA65_PUBLIC_KEY_BYTES ==> result == Ok::<bool, PQCError>(
            mldsa_accepts(public_key@, message@, signature@),
        ),
        public_key@.len() != MLDSA65_PUBLIC_KEY_BYTES ==> fails_with(
            result,
            PQCErrorView::InvalidPublicKey("Failed to parse ML-DSA public key"@),
        ),
{
    mldsa_verify(public_key, message, signature)
}

} // verus!
