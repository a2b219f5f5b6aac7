//! The entry points of the key encapsulation scheme at the native call
//! boundary, on plain values.
//!
//! A buffer that the host hands in is an `Option` of its bytes, where `None`
//! stands for the null pointer. Output parameters are present or not. What
//! an entry point hands out is memory that the host owns from then on and
//! gives back through the matching free function.

use crate::ffi::memory::ffi_buffer_free;
use crate::ffi::memory::input_bytes;
use crate::ffi::memory::input_fault;
use crate::ffi::memory::slot_for;
use crate::ffi::memory::zeros;
use crate::ffi::memory::FFIErrorCode;
use crate::ffi::memory::LastError;
use crate::provider::mlkem768_decapsulate;
use crate::provider::mlkem768_decapsulated;
use crate::provider::mlkem768_encapsulate;
use crate::provider::mlkem768_keypair;
use crate::provider::secret_expose;
use crate::provider::MLKEM768_CIPHERTEXT_BYTES;
use crate::provider::MLKEM768_PUBLIC_KEY_BYTES;
use crate::provider::MLKEM768_SECRET_KEY_BYTES;
use crate::provider::MLKEM768_SHARED_SECRET_BYTES;
use vstd::prelude::*;

verus! {

/// A key pair in memory that the host owns.
pub struct CKyberKeyPair {
    pub public_key: Vec<u8>,
    pub secret_key: Vec<u8>,
}

/// A shared secret and its ciphertext in memory that the host owns.
pub struct CKyberEncapsulationResult {
    pub shared_secret: Vec<u8>,
    pub ciphertext: Vec<u8>,
}

/// Checks a buffer that the host handed in before it is read.
fn validate_buffer_params(input: Option<&[u8]>) -> (result: Result<(), FFIErrorCode>)
    ensures
        match input_fault(input_bytes(input)) {
            Some(code) => result == Err::<(), FFIErrorCode>(code),
            None => result is Ok,
        },
{
    match input {
        None => Err(FFIErrorCode::NullPointer),
        Some(bytes) => if bytes.len() == 0 {
            Err(FFIErrorCode::InvalidInput)
        } else {
            Ok(())
        },
    }
}

/// The bytes of a buffer that the host handed in, once it is checked.
fn safe_slice_from_raw<'a>(input: Option<&'a [u8]>) -> (result: Result<&'a [u8], FFIErrorCode>)
    ensures
        match input_fault(input_bytes(input)) {
            Some(code) => result == Err::<&[u8], FFIErrorCode>(code),
            None => result matches Ok(bytes) && Some(bytes@) == input_bytes(input),
        },
{
    match validate_buffer_params(input) {
        Err(code) => Err(code),
        Ok(()) => match input {
            Some(bytes) => Ok(bytes),
            None => Err(FFIErrorCode::NullPointer),
        },
    }
}

/// Memory of `size` bytes for the host, all zero. No memory is made for
/// size zero, and none where it cannot be had.
fn allocate_buffer(size: usize) -> (result: Result<Vec<u8>, FFIErrorCode>)
    ensures
        match result {
            Ok(bytes) => size > 0 && bytes@ == zeros(size as nat),
            Err(code) => if size == 0 {
                code == FFIErrorCode::InvalidInput
            } else {
                code == FFIErrorCode::AllocationFailed
            },
        },
{
    if size == 0 {
        return Err(FFIErrorCode::InvalidInput);
    }
    let mut bytes: Vec<u8> = Vec::new();
    if bytes.try_reserve(size).is_err() {
        return Err(FFIErrorCode::AllocationFailed);
    }
    let mut i: usize = 0;
    while i < size
        invariant
            i <= size,
            bytes@ == zeros(i as nat),
        decreases size - i,
    {
        bytes.push(0u8);
        i += 1;
        assert(bytes@ =~= zeros(i as nat));
    }
    Ok(bytes)
}

/// Memory for the host that holds a copy of `source`.
fn allocate_copy(source: &[u8]) -> (result: Result<Vec<u8>, FFIErrorCode>)
    ensures
        match result {
            Ok(bytes) => source@.len() > 0 && bytes@ == source@,
            Err(code) => if source@.len() == 0 {
                code == FFIErrorCode::InvalidInput
            } else {
                code == FFIErrorCode::AllocationFailed
            },
        },
{
    let mut bytes: Vec<u8> = match allocate_buffer(source.len()) {
        Ok(bytes) => bytes,
        Err(code) => {
            return Err(code);
        },
    };
    let mut i: usize = 0;
    while i < source.len()
        invariant
            i <= source@.len(),
            bytes@.len() == source@.len(),
            bytes@.take(i as int) == source@.take(i as int),
        decreases source@.len() - i,
    {
        bytes[i] = source[i];
        i += 1;
        assert(bytes@.take(i as int) =~= source@.take(i as int));
    }
    assert(bytes@ =~= bytes@.take(i as int));
    assert(source@ =~= source@.take(i as int));
    Ok(bytes)
}

/// Generates a key pair into memory that the host owns.
///
/// Nothing comes back only where memory cannot be had; the slot for the
/// last error then says for which part.
pub fn kyber_keypair_generate(errors: &mut LastError) -> (keypair: Option<CKyberKeyPair>)
    ensures
        match keypair {
            Some(pair) => pair.public_key@.len() == MLKEM768_PUBLIC_KEY_BYTES
                && pair.secret_key@.len() == MLKEM768_SECRET_KEY_BYTES && final(errors).message()
                == old(errors).message(),
            None => final(errors).message() == slot_for(
                "Failed to allocate memory for public key"@,
            ) || final(errors).message() == slot_for(
                "Failed to allocate memory for secret key"@,
            ),
        },
{
    let (public, secret) = mlkem768_keypair();
    let public_key: Vec<u8> = match allocate_copy(public.as_slice()) {
        Ok(bytes) => bytes,
        Err(_) => {
            errors.set("Failed to allocate memory for public key");
            return None;
        },
    };
    let secret_key: Vec<u8> = match allocate_copy(secret_expose(&secret).as_slice()) {
        Ok(bytes) => bytes,
        Err(_) => {
            errors.set("Failed to allocate memory for secret key");
            return None;
        },
    };
    Some(CKyberKeyPair { public_key, secret_key })
}

/// The status code and message with which an encapsulation is turned down
/// before the provider is reached, if it is.
pub open spec fn encapsulate_fault(public_key: Option<Seq<u8>>, outputs_present: bool) -> Option<
    (FFIErrorCode, Seq<char>),
> {
    if !outputs_present {
        Some((FFIErrorCode::NullPointer, "Output parameters cannot be null"@))
    } else if input_fault(public_key) is Some {
        Some((input_fault(public_key).unwrap(), "Invalid public key parameters"@))
    } else if public_key.unwrap().len() != MLKEM768_PUBLIC_KEY_BYTES {
        Some((FFIErrorCode::InvalidKeyFormat, "Invalid public key format"@))
    } else {
        None
    }
}

/// Encapsulates a fresh shared secret to a public key and hands out the
/// shared secret and the ciphertext in memory that the host owns.
///
/// Missing output parameters, a null or empty key buffer and a key of the
/// wrong size are turned down in this order, each with its status code and
/// message. Every other call succeeds unless memory cannot be had.
pub fn kyber_encapsulate(public_key: Option<&[u8]>, outputs_present: bool, errors: &mut LastError) -> (result: (
    FFIErrorCode,
    Option<CKyberEncapsulationResult>,
))
    ensures
        match encapsulate_fault(input_bytes(public_key), outputs_present) {
            Some(fault) => result.0 == fault.0 && result.1 is None && final(errors).message()
                == slot_for(fault.1),
            None => match result.1 {
                Some(out) => result.0 == FFIErrorCode::Success && out.shared_secret@.len()
                    == MLKEM768_SHARED_SECRET_BYTES && out.ciphertext@.len()
                    == MLKEM768_CIPHERTEXT_BYTES && final(errors).message() == old(errors).message(),
                None => {
                    &&& result.0 == FFIErrorCode::AllocationFailed
                    &&& {
                        ||| final(errors).message() == slot_for(
                            "Failed to allocate memory for shared secret"@,
                        )
                        ||| final(errors).message() == slot_for(
                            "Failed to allocate memory for ciphertext"@,
                        )
                    }
                },
            },
        },
{
    if !outputs_present {
        errors.set("Output parameters cannot be null");
        return (FFIErrorCode::NullPointer, None);
    }
    let key: &[u8] = match safe_slice_from_raw(public_key) {
        Ok(bytes) => bytes,
        Err(code) => {
            errors.set("Invalid public key parameters");
            return (code, None);
        },
    };
    if key.len() != MLKEM768_PUBLIC_KEY_BYTES {
        errors.set("Invalid public key format");
        return (FFIErrorCode::InvalidKeyFormat, None);
    }
    let (shared, sent) = mlkem768_encapsulate(key);
    let shared_secret: Vec<u8> = match allocate_copy(secret_expose(&shared).as_slice()) {
        Ok(bytes) => bytes,
        Err(_) => {
            errors.set("Failed to allocate memory for shared secret");
            return (FFIErrorCode::AllocationFailed, None);
        },
    };
    let ciphertext: Vec<u8> = match allocate_copy(sent.as_slice()) {
        Ok(bytes) => bytes,
        Err(_) => {
            errors.set("Failed to allocate memory for ciphertext");
            return (FFIErrorCode::AllocationFailed, None);
        },
    };
    (FFIErrorCode::Success, Some(CKyberEncapsulationResult { shared_secret, ciphertext }))
}

/// The status code and message with which a decapsulation is turned down
/// before the provider is reached, if it is.
pub open spec fn decapsulate_fault(
    secret_key: Option<Seq<u8>>,
    ciphertext: Option<Seq<u8>>,
    outputs_present: bool,
) -> Option<(FFIErrorCode, Seq<char>)> {
    if !outputs_present {
        Some((FFIErrorCode::NullPointer, "Output parameters cannot be null"@))
    } else if input_fault(secret_key) is Some {
        Some((input_fault(secret_key).unwrap(), "Invalid secret key parameters"@))
    } else if input_fault(ciphertext) is Some {
        Some((input_fault(ciphertext).unwrap(), "Invalid ciphertext parameters"@))
    } else if secret_key.unwrap().len() != MLKEM768_SECRET_KEY_BYTES {
        Some((FFIErrorCode::InvalidKeyFormat, "Invalid secret key format"@))
    } else if ciphertext.unwrap().len() != MLKEM768_CIPHERTEXT_BYTES {
        Some((FFIErrorCode::InvalidKeyFormat, "Invalid ciphertext format"@))
    } else {
        None
    }
}

/// Recovers the shared secret of a ciphertext and hands it out in memory
/// that the host owns.
///
/// Missing output parameters, null or empty buffers and inputs of the wrong
/// size are turned down, each with its status code and message. Every other
/// call yields the shared secret unless memory cannot be had.
pub fn kyber_decapsulate(
    secret_key: Option<&[u8]>,
    ciphertext: Option<&[u8]>,
    outputs_present: bool,
    errors: &mut LastError,
) -> (result: (FFIErrorCode, Option<Vec<u8>>))
    ensures
        match decapsulate_fault(input_bytes(secret_key), input_bytes(ciphertext), outputs_present) {
            Some(fault) => result.0 == fault.0 && result.1 is None && final(errors).message()
                == slot_for(fault.1),
            None => match result.1 {
                Some(shared) => result.0 == FFIErrorCode::Success && shared@
                    == mlkem768_decapsulated(
                    input_bytes(secret_key).unwrap(),
                    input_bytes(ciphertext).unwrap(),
                ) && shared@.len() == MLKEM768_SHARED_SECRET_BYTES && final(errors).message()
                    == old(errors).message(),
                None => result.0 == FFIErrorCode::AllocationFailed && final(errors).message()
                    == slot_for("Failed to allocate memory for shared secret"@),
            },
        },
{
    if !outputs_present {
        errors.set("Output parameters cannot be null");
        return (FFIErrorCode::NullPointer, None);
    }
    let key: &[u8] = match safe_slice_from_raw(secret_key) {
        Ok(bytes) => bytes,
        Err(code) => {
            errors.set("Invalid secret key parameters");
            return (code, None);
        },
    };
    let sent: &[u8] = match safe_slice_from_raw(ciphertext) {
        Ok(bytes) => bytes,
        Err(code) => {
            errors.set("Invalid ciphertext parameters");
            return (code, None);
        },
    };
    if key.len() != MLKEM768_SECRET_KEY_BYTES {
        errors.set("Invalid secret key format");
        return (FFIErrorCode::InvalidKeyFormat, None);
    }
    if sent.len() != MLKEM768_CIPHERTEXT_BYTES {
        errors.set("Invalid ciphertext format");
        return (FFIErrorCode::InvalidKeyFormat, None);
    }
    let shared = mlkem768_decapsulate(key, sent);
    match allocate_copy(secret_expose(&shared).as_slice()) {
        Ok(bytes) => (FFIErrorCode::Success, Some(bytes)),
        Err(_) => {
            errors.set("Failed to allocate memory for shared secret");
            (FFIErrorCode::AllocationFailed, None)
        },
    }
}

/// Takes back a key pair from the host and wipes it: both keys come back
/// with every byte zero, ready to be released. No key pair is no work.
pub fn kyber_keypair_free(keypair: Option<CKyberKeyPair>) -> (wiped: Option<CKyberKeyPair>)
    ensures
        match keypair {
            Some(pair) => wiped matches Some(w) && w.public_key@ == zeros(pair.public_key@.len())
                && w.secret_key@ == zeros(pair.secret_key@.len()),
            None => wiped is None,
        },
{
    match keypair {
        Some(pair) => Some(
            CKyberKeyPair {
                public_key: ffi_buffer_free(pair.public_key),
                secret_key: ffi_buffer_free(pair.secret_key),
            },
        ),
        None => None,
    }
}

/// Takes back memory from the host and wipes it: the bytes come back with
/// every byte zero, ready to be released. No memory is no work.
pub fn kyber_buffer_free(buffer: Option<Vec<u8>>) -> (wiped: Option<Vec<u8>>)
    ensures
        match buffer {
            Some(bytes) => wiped matches Some(w) && w@ == zeros(bytes@.len()),
            None => wiped is None,
        },
{
    match buffer {
        Some(bytes) => Some(ffi_buffer_free(bytes)),
        None => None,
    }
}

/// The message of the last error at the boundary, if any.
pub fn kyber_get_last_error(errors: &LastError) -> (message: Option<&str>)
    ensures
        match message {
            Some(m) => errors.message() == Some(m@),
            None => errors.message() is None,
        },
{
    errors.get()
}

/// Forgets the last error.
pub fn kyber_clear_last_error(errors: &mut LastError)
    ensures
        final(errors).message() is None,
{
    errors.clear();
}

} // verus!
