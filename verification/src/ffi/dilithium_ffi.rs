//! The entry points of the signature scheme at the native call boundary,
//! on plain values.
//!
//! A buffer that the host hands in is an `Option` of its bytes, where `None`
//! stands for the null pointer. What an entry point hands out is memory that
//! the host owns from then on and gives back through the matching free
//! function.

use crate::bytes_equal;
use crate::ffi::memory::input_bytes;
use crate::ffi::memory::input_fault;
use crate::ffi::memory::secure_copy_out;
use crate::ffi::memory::secure_deallocate;
use crate::ffi::memory::slot_for;
use crate::ffi::memory::zeros;
use crate::ffi::memory::FFIErrorCode;
use crate::ffi::memory::LastError;
use crate::provider::mldsa65_keypair;
use crate::provider::mldsa65_open;
use crate::provider::mldsa65_opened;
use crate::provider::mldsa65_sign;
use crate::provider::secret_expose;
use crate::provider::MLDSA65_PUBLIC_KEY_BYTES;
use crate::provider::MLDSA65_SECRET_KEY_BYTES;
use crate::signed_message_of;
use vstd::prelude::*;

verus! {

/// A key pair in memory that the host owns.
pub struct CDilithiumKeyPair {
    pub public_key: Vec<u8>,
    pub secret_key: Vec<u8>,
}

/// A signature in memory that the host owns.
pub struct CDilithiumSignature {
    pub signature: Vec<u8>,
}

/// Puts a message into the slot for the last error.
fn set_last_error(errors: &mut LastError, error: &str)
    ensures
        final(errors).message() == slot_for(error@),
{
    errors.set(error);
}

/// Checks a buffer that the host handed in before it is read.
fn validate(input: Option<&[u8]>) -> (result: Result<&[u8], FFIErrorCode>)
    ensures
        match input_fault(input_bytes(input)) {
            Some(code) => result == Err::<&[u8], FFIErrorCode>(code),
            None => result matches Ok(bytes) && Some(bytes@) == input_bytes(input),
        },
{
    match input {
        None => Err(FFIErrorCode::NullPointer),
        Some(bytes) => if bytes.len() == 0 {
            Err(FFIErrorCode::InvalidInput)
        } else {
            Ok(bytes)
        },
    }
}

/// The message of the last error at the boundary, if any.
pub fn dilithium_get_last_error(errors: &LastError) -> (message: Option<&str>)
    ensures
        match message {
            Some(m) => errors.message() == Some(m@),
            None => errors.message() is None,
        },
{
    errors.get()
}

/// Generates a key pair into memory that the host owns.
///
/// Nothing comes back only where memory cannot be had; the slot for the
/// last error then says for which part.
pub fn dilithium_keypair_generate(errors: &mut LastError) -> (keypair: Option<CDilithiumKeyPair>)
    ensures
        match keypair {
            Some(pair) => pair.public_key@.len() == MLDSA65_PUBLIC_KEY_BYTES
                && pair.secret_key@.len() == MLDSA65_SECRET_KEY_BYTES && final(errors).message()
                == old(errors).message(),
            None => final(errors).message() == slot_for(
                "Failed to allocate memory for public key"@,
            ) || final(errors).message() == slot_for(
                "Failed to allocate memory for secret key"@,
            ),
        },
{
    let (public, secret) = mldsa65_keypair();
    let public_key: Vec<u8> = match secure_copy_out(public.as_slice()) {
        Ok(bytes) => bytes,
        Err(_) => {
            set_last_error(errors, "Failed to allocate memory for public key");
            return None;
        },
    };
    let secret_key: Vec<u8> = match secure_copy_out(secret_expose(&secret).as_slice()) {
        Ok(bytes) => bytes,
        Err(_) => {
            set_last_error(errors, "Failed to allocate memory for secret key");
            return None;
        },
    };
    Some(CDilithiumKeyPair { public_key, secret_key })
}

/// The status code and message with which a signing request is turned down
/// before the provider is reached, if it is.
pub open spec fn sign_fault(
    secret_key: Option<Seq<u8>>,
    message: Option<Seq<u8>>,
    outputs_present: bool,
) -> Option<(FFIErrorCode, Seq<char>)> {
    if !outputs_present {
        Some((FFIErrorCode::NullPointer, "Output pointers cannot be null"@))
    } else if input_fault(secret_key) is Some {
        Some((input_fault(secret_key).unwrap(), "Invalid secret key parameters"@))
    } else if input_fault(message) is Some {
        Some((input_fault(message).unwrap(), "Invalid message parameters"@))
    } else if secret_key.unwrap().len() != MLDSA65_SECRET_KEY_BYTES {
        Some((FFIErrorCode::InvalidKeyFormat, "Invalid secret key format"@))
    } else {
        None
    }
}

/// Signs a message and hands out the signed message in memory that the
/// host owns.
///
/// Missing output parameters, null or empty buffers and a key of the wrong
/// size are turned down in this order, each with its status code and
/// message. Every other call succeeds unless memory cannot be had.
pub fn dilithium_sign(
    secret_key: Option<&[u8]>,
    message: Option<&[u8]>,
    outputs_present: bool,
    errors: &mut LastError,
) -> (result: (FFIErrorCode, Option<Vec<u8>>))
    ensures
        match sign_fault(input_bytes(secret_key), input_bytes(message), outputs_present) {
            Some(fault) => result.0 == fault.0 && result.1 is None && final(errors).message()
                == slot_for(fault.1),
            None => match result.1 {
                Some(signature) => result.0 == FFIErrorCode::Success && signed_message_of(
                    signature@,
                    input_bytes(message).unwrap(),
                ) && final(errors).message() == old(errors).message(),
                None => result.0 == FFIErrorCode::AllocationFailed && final(errors).message()
                    == slot_for("Failed to allocate memory for signature"@),
            },
        },
{
    if !outputs_present {
        set_last_error(errors, "Output pointers cannot be null");
        return (FFIErrorCode::NullPointer, None);
    }
    let key: &[u8] = match validate(secret_key) {
        Ok(bytes) => bytes,
        Err(code) => {
            set_last_error(errors, "Invalid secret key parameters");
            return (code, None);
        },
    };
    let text: &[u8] = match validate(message) {
        Ok(bytes) => bytes,
        Err(code) => {
            set_last_error(errors, "Invalid message parameters");
            return (code, None);
        },
    };
    if key.len() != MLDSA65_SECRET_KEY_BYTES {
        set_last_error(errors, "Invalid secret key format");
        return (FFIErrorCode::InvalidKeyFormat, None);
    }
    let signed = mldsa65_sign(key, text);
    match secure_copy_out(secret_expose(&signed).as_slice()) {
        Ok(bytes) => (FFIErrorCode::Success, Some(bytes)),
        Err(_) => {
            set_last_error(errors, "Failed to allocate memory for signature");
            (FFIErrorCode::AllocationFailed, None)
        },
    }
}

/// The status code and message that a verification request gets.
pub open spec fn verify_outcome(
    public_key: Option<Seq<u8>>,
    message: Option<Seq<u8>>,
    signature: Option<Seq<u8>>,
) -> (FFIErrorCode, Option<Seq<char>>) {
    if input_fault(public_key) is Some {
        (input_fault(public_key).unwrap(), Some("Invalid public key parameters"@))
    } else if input_fault(message) is Some {
        (input_fault(message).unwrap(), Some("Invalid message parameters"@))
    } else if input_fault(signature) is Some {
        (input_fault(signature).unwrap(), Some("Invalid signature parameters"@))
    } else if public_key.unwrap().len() != MLDSA65_PUBLIC_KEY_BYTES {
        (FFIErrorCode::InvalidKeyFormat, Some("Invalid public key format"@))
    } else {
        match mldsa65_opened(public_key.unwrap(), signature.unwrap()) {
            Some(opened) => if opened == message.unwrap() {
                (FFIErrorCode::Success, None)
            } else {
                (
                    FFIErrorCode::SignatureVerificationFailed,
                    Some("Message verification failed - content mismatch"@),
                )
            },
            None => (
                FFIErrorCode::SignatureVerificationFailed,
                Some("Signature verification failed"@),
            ),
        }
    }
}

/// Checks a signed message against a message under a public key.
///
/// Null or empty buffers and a key of the wrong size are turned down in
/// this order. Every other call succeeds exactly when the signed message
/// opens under the key to the message given; otherwise it reports a failed
/// verification. Success leaves the slot for the last error as it was.
pub fn dilithium_verify(
    public_key: Option<&[u8]>,
    message: Option<&[u8]>,
    signature: Option<&[u8]>,
    errors: &mut LastError,
) -> (code: FFIErrorCode)
    ensures
        code == verify_outcome(
            input_bytes(public_key),
            input_bytes(message),
            input_bytes(signature),
        ).0,
        final(errors).message() == match verify_outcome(
            input_bytes(public_key),
            input_bytes(message),
            input_bytes(signature),
        ).1 {
            Some(text) => slot_for(text),
            None => old(errors).message(),
        },
{
    let key: &[u8] = match validate(public_key) {
        Ok(bytes) => bytes,
        Err(code) => {
            set_last_error(errors, "Invalid public key parameters");
            return code;
        },
    };
    let text: &[u8] = match validate(message) {
        Ok(bytes) => bytes,
        Err(code) => {
            set_last_error(errors, "Invalid message parameters");
            return code;
        },
    };
    let signed: &[u8] = match validate(signature) {
        Ok(bytes) => bytes,
        Err(code) => {
            set_last_error(errors, "Invalid signature parameters");
            return code;
        },
    };
    if key.len() != MLDSA65_PUBLIC_KEY_BYTES {
        set_last_error(errors, "Invalid public key format");
        return FFIErrorCode::InvalidKeyFormat;
    }
    match mldsa65_open(key, signed) {
        Some(opened) => {
            if bytes_equal(opened.as_slice(), text) {
                FFIErrorCode::Success
            } else {
                set_last_error(errors, "Message verification failed - content mismatch");
                FFIErrorCode::SignatureVerificationFailed
            }
        },
        None => {
            set_last_error(errors, "Signature verification failed");
            FFIErrorCode::SignatureVerificationFailed
        },
    }
}

/// Takes back a key pair from the host and wipes it: both keys come back
/// with every byte zero, ready to be released. No key pair is no work.
pub fn dilithium_keypair_free(keypair: Option<CDilithiumKeyPair>) -> (wiped: Option<
    CDilithiumKeyPair,
>)
    ensures
        match keypair {
            Some(pair) => wiped matches Some(w) && w.public_key@ == zeros(pair.public_key@.len())
                && w.secret_key@ == zeros(pair.secret_key@.len()),
            None => wiped is None,
        },
{
    match keypair {
        Some(pair) => Some(
            CDilithiumKeyPair {
                public_key: secure_deallocate(pair.public_key),
                secret_key: secure_deallocate(pair.secret_key),
            },
        ),
        None => None,
    }
}

/// Takes back a signature from the host and wipes it: it comes back with
/// every byte zero, ready to be released. No signature is no work.
pub fn dilithium_signature_free(signature: Option<CDilithiumSignature>) -> (wiped: Option<
    CDilithiumSignature,
>)
    ensures
        match signature {
            Some(s) => wiped matches Some(w) && w.signature@ == zeros(s.signature@.len()),
            None => wiped is None,
        },
{
    match signature {
        Some(s) => Some(CDilithiumSignature { signature: secure_deallocate(s.signature) }),
        None => None,
    }
}

/// Takes back memory from the host and wipes it: the bytes come back with
/// every byte zero, ready to be released. No memory is no work.
pub fn dilithium_buffer_free(buffer: Option<Vec<u8>>) -> (wiped: Option<Vec<u8>>)
    ensures
        match buffer {
            Some(bytes) => wiped matches Some(w) && w@ == zeros(bytes@.len()),
            None => wiped is None,
        },
{
    match buffer {
        Some(bytes) => Some(secure_deallocate(bytes)),
        None => None,
    }
}

} // verus!
