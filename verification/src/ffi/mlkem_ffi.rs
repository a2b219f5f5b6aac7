//! The entry points of ML-KEM-768 at the native call boundary, on plain
//! values, built on the library's own operations and secret buffers.
//!
//! A buffer that the host hands in is an `Option` of its bytes, where `None`
//! stands for the null pointer. What an entry point hands out is memory that
//! the host owns from then on and gives back through the matching free
//! function.

use crate::ffi::memory::buffer_with;
use crate::ffi::memory::ffi_buffer_free;
use crate::ffi::memory::input_bytes;
use crate::ffi::memory::input_fault;
use crate::ffi::memory::report;
use crate::ffi::memory::safe_slice_from_raw;
use crate::ffi::memory::set_last_error;
use crate::ffi::memory::slot_for;
use crate::ffi::memory::zeros;
use crate::ffi::memory::FFIErrorCode;
use crate::ffi::memory::LastError;
use crate::generate_mlkem_keypair;
use crate::mlkem_decapsulate as core_mlkem_decapsulate;
use crate::mlkem_encapsulate as core_mlkem_encapsulate;
use crate::provider::mlkem768_decapsulated;
use crate::provider::secret_expose;
use crate::provider::MLKEM768_CIPHERTEXT_BYTES;
use crate::provider::MLKEM768_PUBLIC_KEY_BYTES;
use crate::provider::MLKEM768_SECRET_KEY_BYTES;
use crate::provider::MLKEM768_SHARED_SECRET_BYTES;
use vstd::prelude::*;

verus! {

/// A key pair in memory that the host owns.
pub struct CMLKEMKeyPair {
    pub public_key: Vec<u8>,
    pub secret_key: Vec<u8>,
}

/// A shared secret and its ciphertext in memory that the host owns.
pub struct CMLKEMEncapsulation {
    pub shared_secret: Vec<u8>,
    pub ciphertext: Vec<u8>,
}

/// Generates a key pair into memory that the host owns.
///
/// Nothing comes back where the key pair cannot be generated or memory
/// cannot be had; the slot for the last error then holds a message.
pub fn mlkem_keypair_generate(errors: &mut LastError) -> (keypair: Option<CMLKEMKeyPair>)
    ensures
        match keypair {
            Some(pair) => pair.public_key@.len() == MLKEM768_PUBLIC_KEY_BYTES
                && pair.secret_key@.len() == MLKEM768_SECRET_KEY_BYTES,
            None => final(errors).message() == slot_for(
                "ML-KEM keypair generation failed: "@ + ("Key generation failed: "@
                    + "System time error"@),
            ) || final(errors).message() == slot_for(
                "Failed to allocate public key buffer: "@ + "Memory allocation failed"@,
            ) || final(errors).message() == slot_for(
                "Failed to allocate secret key buffer: "@ + "Memory allocation failed"@,
            ),
        },
{
    match generate_mlkem_keypair() {
        Ok(keypair) => {
            let public_buffer = match buffer_with(keypair.public_key.as_slice(), errors) {
                Ok(buffer) => buffer,
                Err(e) => {
                    report(errors, "Failed to allocate public key buffer: ", e.as_str());
                    return None;
                },
            };
            let secret_buffer = match buffer_with(
                secret_expose(&keypair.private_key).as_slice(),
                errors,
            ) {
                Ok(buffer) => buffer,
                Err(e) => {
                    report(errors, "Failed to allocate secret key buffer: ", e.as_str());
                    return None;
                },
            };
            Some(
                CMLKEMKeyPair {
                    public_key: public_buffer.into_raw(),
                    secret_key: secret_buffer.into_raw(),
                },
            )
        },
        Err(e) => {
            let detail: String = e.to_string();
            report(errors, "ML-KEM keypair generation failed: ", detail.as_str());
            None
        },
    }
}

/// The status code and message with which an encapsulation is turned down
/// for its buffers alone, if it is.
pub open spec fn encapsulate_fault(public_key: Option<Seq<u8>>, outputs_present: bool) -> Option<
    (FFIErrorCode, Seq<char>),
> {
    if !outputs_present {
        Some((FFIErrorCode::InvalidInput, "Output parameters cannot be null"@))
    } else if input_fault(public_key) is Some {
        Some(
            (
                FFIErrorCode::InvalidInput,
                "Invalid public key buffer: "@ + input_fault(public_key).unwrap().text(),
            ),
        )
    } else {
        None
    }
}

/// Encapsulates a fresh shared secret to a public key and hands out the
/// shared secret and the ciphertext in memory that the host owns.
///
/// Missing output parameters and a null or empty key buffer are invalid
/// input. A key of the wrong size is a failure of the operation. Every
/// other call succeeds unless the clock cannot be read, which is a failure
/// of the operation, or memory cannot be had.
pub fn mlkem_encapsulate(public_key: Option<&[u8]>, outputs_present: bool, errors: &mut LastError) -> (result: (
    FFIErrorCode,
    Option<CMLKEMEncapsulation>,
))
    ensures
        match encapsulate_fault(input_bytes(public_key), outputs_present) {
            Some(fault) => result.0 == fault.0 && result.1 is None && final(errors).message()
                == slot_for(fault.1),
            None => match result.1 {
                Some(out) => {
                    &&& result.0 == FFIErrorCode::Success
                    &&& input_bytes(public_key).unwrap().len() == MLKEM768_PUBLIC_KEY_BYTES
                    &&& out.shared_secret@.len() == MLKEM768_SHARED_SECRET_BYTES
                    &&& out.ciphertext@.len() == MLKEM768_CIPHERTEXT_BYTES
                },
                None => result.0 == FFIErrorCode::CryptoError || (result.0
                    == FFIErrorCode::AllocationFailed && input_bytes(public_key).unwrap().len()
                    == MLKEM768_PUBLIC_KEY_BYTES),
            },
        },
        encapsulate_fault(input_bytes(public_key), outputs_present) is None && input_bytes(
            public_key,
        ).unwrap().len() != MLKEM768_PUBLIC_KEY_BYTES ==> result.0 == FFIErrorCode::CryptoError,
{
    if !outputs_present {
        set_last_error(errors, "Output parameters cannot be null");
        return (FFIErrorCode::InvalidInput, None);
    }
    let key: &[u8] = match safe_slice_from_raw(public_key, errors) {
        Ok(bytes) => bytes,
        Err(e) => {
            report(errors, "Invalid public key buffer: ", e.as_str());
            return (FFIErrorCode::InvalidInput, None);
        },
    };
    let empty: Vec<u8> = Vec::new();
    match core_mlkem_encapsulate(key, empty.as_slice()) {
        Ok(result) => {
            let shared = match buffer_with(secret_expose(&result.shared_secret).as_slice(), errors) {
                Ok(buffer) => buffer,
                Err(e) => {
                    report(errors, "Failed to allocate shared secret buffer: ", e.as_str());
                    return (FFIErrorCode::AllocationFailed, None);
                },
            };
            let sent = match buffer_with(result.ciphertext.as_slice(), errors) {
                Ok(buffer) => buffer,
                Err(e) => {
                    report(errors, "Failed to allocate ciphertext buffer: ", e.as_str());
                    return (FFIErrorCode::AllocationFailed, None);
                },
            };
            (
                FFIErrorCode::Success,
                Some(
                    CMLKEMEncapsulation {
                        shared_secret: shared.into_raw(),
                        ciphertext: sent.into_raw(),
                    },
                ),
            )
        },
        Err(e) => {
            let detail: String = e.to_string();
            report(errors, "ML-KEM encapsulation failed: ", detail.as_str());
            (FFIErrorCode::CryptoError, None)
        },
    }
}

/// The status code and message with which a decapsulation is turned down
/// before memory is asked for, if it is.
pub open spec fn decapsulate_fault(
    secret_key: Option<Seq<u8>>,
    ciphertext: Option<Seq<u8>>,
    outputs_present: bool,
) -> Option<(FFIErrorCode, Seq<char>)> {
    if !outputs_present {
        Some((FFIErrorCode::InvalidInput, "Output parameters cannot be null"@))
    } else if input_fault(secret_key) is Some {
        Some(
            (
                FFIErrorCode::InvalidInput,
                "Invalid secret key buffer: "@ + input_fault(secret_key).unwrap().text(),
            ),
        )
    } else if input_fault(ciphertext) is Some {
        Some(
            (
                FFIErrorCode::InvalidInput,
                "Invalid ciphertext buffer: "@ + input_fault(ciphertext).unwrap().text(),
            ),
        )
    } else if secret_key.unwrap().len() != MLKEM768_SECRET_KEY_BYTES {
        Some(
            (
                FFIErrorCode::CryptoError,
                "ML-KEM decapsulation failed: "@ + ("Invalid private key format: "@
                    + "Failed to parse ML-KEM private key"@),
            ),
        )
    } else if ciphertext.unwrap().len() != MLKEM768_CIPHERTEXT_BYTES {
        Some(
            (
                FFIErrorCode::CryptoError,
                "ML-KEM decapsulation failed: "@ + ("Invalid ciphertext format: "@
                    + "Failed to parse ML-KEM ciphertext"@),
            ),
        )
    } else {
        None
    }
}

/// Recovers the shared secret of a ciphertext and hands it out in memory
/// that the host owns.
///
/// Missing output parameters and null or empty buffers are invalid input;
/// a key or a ciphertext of the wrong size is a failure of the operation.
/// Every other call yields the shared secret unless memory cannot be had.
pub fn mlkem_decapsulate(
    secret_key: Option<&[u8]>,
    ciphertext: Option<&[u8]>,
    outputs_present: bool,
    errors: &mut LastError,
) -> (result: (FFIErrorCode, Option<Vec<u8>>))
    ensures
        match decapsulate_fault(input_bytes(secret_key), input_bytes(ciphertext), outputs_present) {
            Some(fault) => result.0 == fault.0 && result.1 is None && final(errors).message()
                == slot_for(fault.1),
            None => match result.1 {
                Some(shared) => result.0 == FFIErrorCode::Success && shared@
                    == mlkem768_decapsulated(
                    input_bytes(secret_key).unwrap(),
                    input_bytes(ciphertext).unwrap(),
                ) && shared@.len() == MLKEM768_SHARED_SECRET_BYTES,
                None => result.0 == FFIErrorCode::AllocationFailed && final(errors).message()
                    == slot_for(
                    "Failed to allocate shared secret buffer: "@ + "Memory allocation failed"@,
                ),
            },
        },
{
    if !outputs_present {
        set_last_error(errors, "Output parameters cannot be null");
        return (FFIErrorCode::InvalidInput, None);
    }
    let key: &[u8] = match safe_slice_from_raw(secret_key, errors) {
        Ok(bytes) => bytes,
        Err(e) => {
            report(errors, "Invalid secret key buffer: ", e.as_str());
            return (FFIErrorCode::InvalidInput, None);
        },
    };
    let sent: &[u8] = match safe_slice_from_raw(ciphertext, errors) {
        Ok(bytes) => bytes,
        Err(e) => {
            report(errors, "Invalid ciphertext buffer: ", e.as_str());
            return (FFIErrorCode::InvalidInput, None);
        },
    };
    match core_mlkem_decapsulate(key, sent) {
        Ok(shared) => {
            match buffer_with(secret_expose(&shared).as_slice(), errors) {
                Ok(buffer) => (FFIErrorCode::Success, Some(buffer.into_raw())),
                Err(e) => {
                    report(errors, "Failed to allocate shared secret buffer: ", e.as_str());
                    (FFIErrorCode::AllocationFailed, None)
                },
            }
        },
        Err(e) => {
            let detail: String = e.to_string();
            report(errors, "ML-KEM decapsulation failed: ", detail.as_str());
            (FFIErrorCode::CryptoError, None)
        },
    }
}

/// Takes back a key pair from the host and wipes it: both keys come back
/// with every byte zero, ready to be released. No key pair is no work.
pub fn mlkem_keypair_free(keypair: Option<CMLKEMKeyPair>) -> (wiped: Option<CMLKEMKeyPair>)
    ensures
        match keypair {
            Some(pair) => wiped matches Some(w) && w.public_key@ == zeros(pair.public_key@.len())
                && w.secret_key@ == zeros(pair.secret_key@.len()),
            None => wiped is None,
        },
{
    match keypair {
        Some(pair) => Some(
            CMLKEMKeyPair {
                public_key: ffi_buffer_free(pair.public_key),
                secret_key: ffi_buffer_free(pair.secret_key),
            },
        ),
        None => None,
    }
}

} // verus!
