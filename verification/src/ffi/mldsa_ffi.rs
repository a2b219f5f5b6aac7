//! The entry points of ML-DSA-65 at the native call boundary, on plain
//! values, built on the library's own operations and secret buffers.
//!
//! A buffer that the host hands in is an `Option` of its bytes, where `None`
//! stands for the null pointer. What an entry point hands out is memory that
//! the host owns from then on and gives back through the matching free
//! function.

use crate::ffi::memory::buffer_with;
use crate::ffi::memory::ffi_buffer_free;
use crate::ffi::memory::input_bytes;
use crate::ffi::memory::input_fault;
use crate::ffi::memory::report;
use crate::ffi::memory::safe_slice_from_raw;
use crate::ffi::memory::set_last_error;
use crate::ffi::memory::slot_for;
use crate::ffi::memory::zeros;
use crate::ffi::memory::FFIErrorCode;
use crate::ffi::memory::LastError;
use crate::generate_mldsa_keypair;
use crate::mldsa_accepts;
use crate::mldsa_sign as core_mldsa_sign;
use crate::mldsa_verify as core_mldsa_verify;
use crate::provider::secret_expose;
use crate::provider::MLDSA65_PUBLIC_KEY_BYTES;
use crate::provider::MLDSA65_SECRET_KEY_BYTES;
use crate::signed_message_of;
use vstd::prelude::*;

verus! {

/// A key pair in memory that the host owns.
pub struct CMLDSAKeyPair {
    pub public_key: Vec<u8>,
    pub secret_key: Vec<u8>,
}

/// Generates a key pair into memory that the host owns.
///
/// Nothing comes back where the key pair cannot be generated or memory
/// cannot be had; the slot for the last error then holds a message.
pub fn mldsa_keypair_generate(errors: &mut LastError) -> (keypair: Option<CMLDSAKeyPair>)
    ensures
        match keypair {
            Some(pair) => pair.public_key@.len() == MLDSA65_PUBLIC_KEY_BYTES
                && pair.secret_key@.len() == MLDSA65_SECRET_KEY_BYTES,
            None => final(errors).message() == slot_for(
                "ML-DSA keypair generation failed: "@ + ("Key generation failed: "@
                    + "System time error"@),
            ) || final(errors).message() == slot_for(
                "Failed to allocate public key buffer: "@ + "Memory allocation failed"@,
            ) || final(errors).message() == slot_for(
                "Failed to allocate secret key buffer: "@ + "Memory allocation failed"@,
            ),
        },
{
    match generate_mldsa_keypair() {
        Ok(keypair) => {
            let public_buffer = match buffer_with(keypair.public_key.as_slice(), errors) {
                Ok(buffer) => buffer,
                Err(e) => {
                    report(errors, "Failed to allocate public key buffer: ", e.as_str());
                    return None;
                },
            };
            let secret_buffer = match buffer_with(
                secret_expose(&keypair.private_key).as_slice(),
                errors,
            ) {
                Ok(buffer) => buffer,
                Err(e) => {
                    report(errors, "Failed to allocate secret key buffer: ", e.as_str());
                    return None;
                },
            };
            Some(
                CMLDSAKeyPair {
                    public_key: public_buffer.into_raw(),
                    secret_key: secret_buffer.into_raw(),
                },
            )
        },
        Err(e) => {
            let detail: String = e.to_string();
            report(errors, "ML-DSA keypair generation failed: ", detail.as_str());
            None
        },
    }
}

/// The status code and message with which a signing request is turned down
/// for its buffers alone, if it is.
pub open spec fn sign_fault(
    secret_key: Option<Seq<u8>>,
    message: Option<Seq<u8>>,
    outputs_present: bool,
) -> Option<(FFIErrorCode, Seq<char>)> {
    if !outputs_present {
        Some((FFIErrorCode::InvalidInput, "Output parameters cannot be null"@))
    } else if input_fault(secret_key) is Some {
        Some(
            (
                FFIErrorCode::InvalidInput,
                "Invalid secret key buffer: "@ + input_fault(secret_key).unwrap().text(),
            ),
        )
    } else if input_fault(message) is Some {
        Some(
            (
                FFIErrorCode::InvalidInput,
                "Invalid message buffer: "@ + input_fault(message).unwrap().text(),
            ),
        )
    } else {
        None
    }
}

/// Signs a message and hands out the signed message in memory that the
/// host owns.
///
/// Missing output parameters and null or empty buffers are invalid input.
/// A key of the wrong size is a failure of the operation. Every other call
/// succeeds unless the clock cannot be read, which is a failure of the
/// operation, or memory cannot be had.
pub fn mldsa_sign(
    secret_key: Option<&[u8]>,
    message: Option<&[u8]>,
    outputs_present: bool,
    errors: &mut LastError,
) -> (result: (FFIErrorCode, Option<Vec<u8>>))
    ensures
        match sign_fault(input_bytes(secret_key), input_bytes(message), outputs_present) {
            Some(fault) => result.0 == fault.0 && result.1 is None && final(errors).message()
                == slot_for(fault.1),
            None => match result.1 {
                Some(signature) => result.0 == FFIErrorCode::Success && input_bytes(
                    secret_key,
                ).unwrap().len() == MLDSA65_SECRET_KEY_BYTES && signed_message_of(
                    signature@,
                    input_bytes(message).unwrap(),
                ),
                None => result.0 == FFIErrorCode::CryptoError || (result.0
                    == FFIErrorCode::AllocationFailed && input_bytes(secret_key).unwrap().len()
                    == MLDSA65_SECRET_KEY_BYTES),
            },
        },
        sign_fault(input_bytes(secret_key), input_bytes(message), outputs_present) is None
            && input_bytes(secret_key).unwrap().len() != MLDSA65_SECRET_KEY_BYTES ==> result.0
            == FFIErrorCode::CryptoError,
{
    if !outputs_present {
        set_last_error(errors, "Output parameters cannot be null");
        return (FFIErrorCode::InvalidInput, None);
    }
    let key: &[u8] = match safe_slice_from_raw(secret_key, errors) {
        Ok(bytes) => bytes,
        Err(e) => {
            report(errors, "Invalid secret key buffer: ", e.as_str());
            return (FFIErrorCode::InvalidInput, None);
        },
    };
    let text: &[u8] = match safe_slice_from_raw(message, errors) {
        Ok(bytes) => bytes,
        Err(e) => {
            report(errors, "Invalid message buffer: ", e.as_str());
            return (FFIErrorCode::InvalidInput, None);
        },
    };
    match core_mldsa_sign(key, text) {
        Ok(signed) => {
            match buffer_with(secret_expose(&signed.signature).as_slice(), errors) {
                Ok(buffer) => (FFIErrorCode::Success, Some(buffer.into_raw())),
                Err(e) => {
                    report(errors, "Failed to allocate signature buffer: ", e.as_str());
                    (FFIErrorCode::AllocationFailed, None)
                },
            }
        },
        Err(e) => {
            let detail: String = e.to_string();
            report(errors, "ML-DSA signing failed: ", detail.as_str());
            (FFIErrorCode::CryptoError, None)
        },
    }
}

/// The status code and message that a verification request gets.
pub open spec fn verify_outcome(
    public_key: Option<Seq<u8>>,
    message: Option<Seq<u8>>,
    signature: Option<Seq<u8>>,
) -> (FFIErrorCode, Option<Seq<char>>) {
    if input_fault(public_key) is Some {
        (
            FFIErrorCode::InvalidInput,
            Some("Invalid public key buffer: "@ + input_fault(public_key).unwrap().text()),
        )
    } else if input_fault(message) is Some {
        (
            FFIErrorCode::InvalidInput,
            Some("Invalid message buffer: "@ + input_fault(message).unwrap().text()),
        )
    } else if input_fault(signature) is Some {
        (
            FFIErrorCode::InvalidInput,
            Some("Invalid signature buffer: "@ + input_fault(signature).unwrap().text()),
        )
    } else if public_key.unwrap().len() != MLDSA65_PUBLIC_KEY_BYTES {
        (
            FFIErrorCode::CryptoError,
            Some(
                "ML-DSA verification failed: "@ + ("Invalid public key format: "@
                    + "Failed to parse ML-DSA public key"@),
            ),
        )
    } else if mldsa_accepts(public_key.unwrap(), message.unwrap(), signature.unwrap()) {
        (FFIErrorCode::Success, None)
    } else {
        (FFIErrorCode::SignatureVerificationFailed, Some("Signature verification failed"@))
    }
}

/// Checks a signed message against a message under a public key.
///
/// Null or empty buffers are invalid input; a key of the wrong size is a
/// failure of the operation. Every other call succeeds exactly when the
/// signed message opens under the key to the message given, and reports a
/// failed verification otherwise.
pub fn mldsa_verify(
    public_key: Option<&[u8]>,
    message: Option<&[u8]>,
    signature: Option<&[u8]>,
    errors: &mut LastError,
) -> (code: FFIErrorCode)
    ensures
        code == verify_outcome(
            input_bytes(public_key),
            input_bytes(message),
            input_bytes(signature),
        ).0,
        final(errors).message() == match verify_outcome(
            input_bytes(public_key),
            input_bytes(message),
            input_bytes(signature),
        ).1 {
            Some(text) => slot_for(text),
            None => old(errors).message(),
        },
{
    let key: &[u8] = match safe_slice_from_raw(public_key, errors) {
        Ok(bytes) => bytes,
        Err(e) => {
            report(errors, "Invalid public key buffer: ", e.as_str());
            return FFIErrorCode::InvalidInput;
        },
    };
    let text: &[u8] = match safe_slice_from_raw(message, errors) {
        Ok(bytes) => bytes,
        Err(e) => {
            report(errors, "Invalid message buffer: ", e.as_str());
            return FFIErrorCode::InvalidInput;
        },
    };
    let signed: &[u8] = match safe_slice_from_raw(signature, errors) {
        Ok(bytes) => bytes,
        Err(e) => {
            report(errors, "Invalid signature buffer: ", e.as_str());
            return FFIErrorCode::InvalidInput;
        },
    };
    match core_mldsa_verify(key, text, signed) {
        Ok(valid) => {
            if valid {
                FFIErrorCode::Success
            } else {
                set_last_error(errors, "Signature verification failed");
                FFIErrorCode::SignatureVerificationFailed
            }
        },
        Err(e) => {
            let detail: String = e.to_string();
            report(errors, "ML-DSA verification failed: ", detail.as_str());
            FFIErrorCode::CryptoError
        },
    }
}

/// Takes back a key pair from the host and wipes it: both keys come back
/// with every byte zero, ready to be released. No key pair is no work.
pub fn mldsa_keypair_free(keypair: Option<CMLDSAKeyPair>) -> (wiped: Option<CMLDSAKeyPair>)
    ensures
        match keypair {
            Some(pair) => wiped matches Some(w) && w.public_key@ == zeros(pair.public_key@.len())
                && w.secret_key@ == zeros(pair.secret_key@.len()),
            None => wiped is None,
        },
{
    match keypair {
        Some(pair) => Some(
            CMLDSAKeyPair {
                public_key: ffi_buffer_free(pair.public_key),
                secret_key: ffi_buffer_free(pair.secret_key),
            },
        ),
        None => None,
    }
}

} // verus!
