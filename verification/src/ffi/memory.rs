//! Secret buffers for the native call boundary, the status codes of the
//! boundary and the slot for the last error message.
//!
//! A buffer owns a fixed number of bytes, its capacity. All of them are
//! zero when the buffer is made, and all of them are overwritten with zero
//! before the buffer gives its memory back.

use crate::provider::zeroize_bytes;
use vstd::prelude::*;
use vstd::string::StrSliceExecFns;

verus! {

/// The status codes that the boundary answers with.
#[derive(Debug, Clone, Copy, PartialEq, Eq, Structural)]
pub enum FFIErrorCode {
    Success,
    InvalidInput,
    AllocationFailed,
    CryptoError,
    BufferTooSmall,
    NullPointer,
    InvalidKeyFormat,
    SignatureVerificationFailed,
}

impl FFIErrorCode {
    /// The number that stands for the code on the other side of the boundary.
    pub open spec fn code_spec(self) -> i32 {
        match self {
            FFIErrorCode::Success => 0i32,
            FFIErrorCode::InvalidInput => -1i32,
            FFIErrorCode::AllocationFailed => -2i32,
            FFIErrorCode::CryptoError => -3i32,
            FFIErrorCode::BufferTooSmall => -4i32,
            FFIErrorCode::NullPointer => -5i32,
            FFIErrorCode::InvalidKeyFormat => -6i32,
            FFIErrorCode::SignatureVerificationFailed => -7i32,
        }
    }

    /// The number that stands for the code on the other side of the boundary.
    pub fn code(&self) -> (number: i32)
        ensures
            number == self.code_spec(),
    {
        match self {
            FFIErrorCode::Success => 0,
            FFIErrorCode::InvalidInput => -1,
            FFIErrorCode::AllocationFailed => -2,
            FFIErrorCode::CryptoError => -3,
            FFIErrorCode::BufferTooSmall => -4,
            FFIErrorCode::NullPointer => -5,
            FFIErrorCode::InvalidKeyFormat => -6,
            FFIErrorCode::SignatureVerificationFailed => -7,
        }
    }

    /// The words for the code.
    pub open spec fn text(self) -> Seq<char> {
        match self {
            FFIErrorCode::Success => "Success"@,
            FFIErrorCode::InvalidInput => "Invalid input"@,
            FFIErrorCode::AllocationFailed => "Allocation failed"@,
            FFIErrorCode::CryptoError => "Crypto error"@,
            FFIErrorCode::BufferTooSmall => "Buffer too small"@,
            FFIErrorCode::NullPointer => "Null pointer"@,
            FFIErrorCode::InvalidKeyFormat => "Invalid key format"@,
            FFIErrorCode::SignatureVerificationFailed => "Signature verification failed"@,
        }
    }

    /// The words for the code.
    pub fn as_str(&self) -> (words: &'static str)
        ensures
            words@ == self.text(),
    {
        match self {
            FFIErrorCode::Success => "Success",
            FFIErrorCode::InvalidInput => "Invalid input",
            FFIErrorCode::AllocationFailed => "Allocation failed",
            FFIErrorCode::CryptoError => "Crypto error",
            FFIErrorCode::BufferTooSmall => "Buffer too small",
            FFIErrorCode::NullPointer => "Null pointer",
            FFIErrorCode::InvalidKeyFormat => "Invalid key format",
            FFIErrorCode::SignatureVerificationFailed => "Signature verification failed",
        }
    }

    /// The words for the code, as an owned text.
    pub fn to_string(&self) -> (words: String)
        ensures
            words@ == self.text(),
    {
        self.as_str().to_owned()
    }
}

/// What can go wrong with a buffer or an operation at the boundary.
#[derive(Debug, Clone, Copy, PartialEq, Eq, Structural)]
pub enum FFIError {
    InvalidInput,
    AllocationFailed,
    CryptoError,
    BufferTooSmall,
    NullPointer,
    InvalidKeyFormat,
    SignatureVerificationFailed,
}

impl FFIError {
    /// The status code that reports the error.
    pub open spec fn code(self) -> FFIErrorCode {
        match self {
            FFIError::InvalidInput => FFIErrorCode::InvalidInput,
            FFIError::AllocationFailed => FFIErrorCode::AllocationFailed,
            FFIError::CryptoError => FFIErrorCode::CryptoError,
            FFIError::BufferTooSmall => FFIErrorCode::BufferTooSmall,
            FFIError::NullPointer => FFIErrorCode::NullPointer,
            FFIError::InvalidKeyFormat => FFIErrorCode::InvalidKeyFormat,
            FFIError::SignatureVerificationFailed => FFIErrorCode::SignatureVerificationFailed,
        }
    }

    /// The words for the error.
    pub open spec fn text(self) -> Seq<char> {
        match self {
            FFIError::InvalidInput => "Invalid input provided"@,
            FFIError::AllocationFailed => "Memory allocation failed"@,
            FFIError::CryptoError => "Cryptographic operation failed"@,
            FFIError::BufferTooSmall => "Buffer too small for operation"@,
            FFIError::NullPointer => "Null pointer encountered"@,
            FFIError::InvalidKeyFormat => "Invalid key format"@,
            FFIError::SignatureVerificationFailed => "Signature verification failed"@,
        }
    }

    /// The words for the error.
    pub fn as_str(&self) -> (words: &'static str)
        ensures
            words@ == self.text(),
    {
        match self {
            FFIError::InvalidInput => "Invalid input provided",
            FFIError::AllocationFailed => "Memory allocation failed",
            FFIError::CryptoError => "Cryptographic operation failed",
            FFIError::BufferTooSmall => "Buffer too small for operation",
            FFIError::NullPointer => "Null pointer encountered",
            FFIError::InvalidKeyFormat => "Invalid key format",
            FFIError::SignatureVerificationFailed => "Signature verification failed",
        }
    }

    /// The words for the error, as an owned text.
    pub fn to_string(&self) -> (words: String)
        ensures
            words@ == self.text(),
    {
        self.as_str().to_owned()
    }
}

impl From<FFIError> for FFIErrorCode {
    fn from(error: FFIError) -> (code: FFIErrorCode) {
        match error {
            FFIError::InvalidInput => FFIErrorCode::InvalidInput,
            FFIError::AllocationFailed => FFIErrorCode::AllocationFailed,
            FFIError::CryptoError => FFIErrorCode::CryptoError,
            FFIError::BufferTooSmall => FFIErrorCode::BufferTooSmall,
            FFIError::NullPointer => FFIErrorCode::NullPointer,
            FFIError::InvalidKeyFormat => FFIErrorCode::InvalidKeyFormat,
            FFIError::SignatureVerificationFailed => FFIErrorCode::SignatureVerificationFailed,
        }
    }
}

impl vstd::std_specs::convert::FromSpecImpl<FFIError> for FFIErrorCode {
    open spec fn obeys_from_spec() -> bool {
        true
    }

    open spec fn from_spec(error: FFIError) -> FFIErrorCode {
        error.code()
    }
}

/// The slot that holds the message of the last error at the boundary. A
/// message with a zero character cannot cross the boundary: it leaves
/// the slot empty.
pub struct LastError {
    message: Option<String>,
}

/// Whether a text holds the zero character, which is the one character
/// whose encoding holds a zero byte.
pub open spec fn has_nul(text: Seq<char>) -> bool {
    exists|i: int| 0 <= i < text.len() && text[i] == '\0'
}

/// What the slot holds after a message was put into it.
pub open spec fn slot_for(text: Seq<char>) -> Option<Seq<char>> {
    if has_nul(text) {
        None
    } else {
        Some(text)
    }
}

impl LastError {
    /// The message in the slot, if any.
    pub closed spec fn message(&self) -> Option<Seq<char>> {
        match self.message {
            Some(m) => Some(m@),
            None => None,
        }
    }

    /// An empty slot.
    pub fn new() -> (slot: Self)
        ensures
            slot.message() is None,
    {
        LastError { message: None }
    }

    /// Puts a message into the slot, or empties the slot where the message
    /// holds a zero character.
    pub fn set(&mut self, error: &str)
        ensures
            final(self).message() == slot_for(error@),
    {
        let len: usize = error.unicode_len();
        let mut i: usize = 0;
        while i < len
            invariant
                i <= len,
                len == error@.len(),
                forall|j: int| 0 <= j < i ==> error@[j] != '\0',
            decreases len - i,
        {
            if error.get_char(i) == '\0' {
                self.message = None;
                return;
            }
            i += 1;
        }
        self.message = Some(error.to_owned());
    }

    /// The message in the slot, if any.
    pub fn get(&self) -> (message: Option<&str>)
        ensures
            match message {
                Some(m) => self.message() == Some(m@),
                None => self.message() is None,
            },
    {
        match &self.message {
            Some(m) => Some(m.as_str()),
            None => None,
        }
    }

    /// Empties the slot.
    pub fn clear(&mut self)
        ensures
            final(self).message() is None,
    {
        self.message = None;
    }
}

/// Puts a message into the slot for the last error.
pub fn set_last_error(errors: &mut LastError, error: &str)
    ensures
        final(errors).message() == slot_for(error@),
{
    errors.set(error);
}

/// The status code for a buffer given by its address and length, if the
/// buffer cannot be read.
pub open spec fn buffer_params_fault(address: usize, len: usize) -> Option<FFIErrorCode> {
    if address == 0 {
        Some(FFIErrorCode::NullPointer)
    } else if len == 0 {
        Some(FFIErrorCode::InvalidInput)
    } else {
        None
    }
}

/// Checks a buffer that is given by its address and length before it is
/// read: address zero is the null pointer, and a buffer without bytes is no
/// input. A fault leaves its message in the slot for the last error.
pub fn validate_buffer_params(address: usize, len: usize, errors: &mut LastError) -> (result: Result<
    (),
    FFIErrorCode,
>)
    ensures
        match buffer_params_fault(address, len) {
            Some(code) => result == Err::<(), FFIErrorCode>(code),
            None => result is Ok && final(errors).message() == old(errors).message(),
        },
        address == 0 ==> final(errors).message() == Some("Buffer pointer is null"@),
        address != 0 && len == 0 ==> final(errors).message() == Some(
            "Buffer length cannot be zero"@,
        ),
{
    if address == 0 {
        proof {
            lemma_no_nul_in_messages();
        }
        errors.set("Buffer pointer is null");
        return Err(FFIErrorCode::NullPointer);
    }
    if len == 0 {
        proof {
            lemma_no_nul_in_messages();
        }
        errors.set("Buffer length cannot be zero");
        return Err(FFIErrorCode::InvalidInput);
    }
    Ok(())
}

/// The messages of this module hold no zero byte.
pub proof fn lemma_no_nul_in_messages()
    ensures
        !has_nul("Buffer pointer is null"@),
        !has_nul("Buffer length cannot be zero"@),
{
    reveal_strlit("Buffer pointer is null");
    reveal_strlit("Buffer length cannot be zero");
}

/// A secret buffer for the boundary: a fixed number of bytes, of which the
/// first `len` hold data.
pub struct FFIBuffer {
    storage: Vec<u8>,
    len: usize,
}

/// A buffer as plain values: all bytes of its capacity, and the number of
/// them that hold data.
pub struct FFIBufferView {
    pub bytes: Seq<u8>,
    pub len: nat,
}

/// Bytes that are all zero.
pub open spec fn zeros(len: nat) -> Seq<u8> {
    Seq::new(len, |i: int| 0u8)
}

impl View for FFIBuffer {
    type V = FFIBufferView;

    closed spec fn view(&self) -> FFIBufferView {
        FFIBufferView { bytes: self.storage@, len: self.len as nat }
    }
}

impl FFIBufferView {
    /// A buffer has at least one byte, and its data fits its capacity.
    pub open spec fn wf(self) -> bool {
        0 < self.bytes.len() && self.len <= self.bytes.len()
    }

    /// The buffer after `data` was written to its start.
    pub open spec fn written(self, data: Seq<u8>) -> FFIBufferView {
        FFIBufferView {
            bytes: data + self.bytes.skip(data.len() as int),
            len: data.len(),
        }
    }
}

impl FFIBuffer {
    /// Whether the buffer is consistent.
    pub open spec fn wf(&self) -> bool {
        self@.wf()
    }

    /// A buffer of `size` bytes, all zero and none of them data.
    ///
    /// Size zero is refused as invalid input. For any other size the
    /// buffer is made unless the memory cannot be had, which is an
    /// allocation failure. A failure leaves its message in the slot for the
    /// last error.
    pub fn new(size: usize, errors: &mut LastError) -> (result: Result<Self, FFIError>)
        ensures
            size == 0 ==> (result matches Err(e) && e == FFIError::InvalidInput && final(
                errors
            ).message() == slot_for("Buffer size cannot be zero"@)),
            size > 0 ==> match result {
                Ok(buffer) => buffer.wf() && buffer@.bytes == zeros(size as nat) && buffer@.len == 0
                    && final(errors).message() == old(errors).message(),
                Err(e) => e == FFIError::AllocationFailed && final(errors).message() == slot_for(
                    "Memory allocation failed"@,
                ),
            },
    {
        if size == 0 {
            errors.set("Buffer size cannot be zero");
            return Err(FFIError::InvalidInput);
        }
        let mut storage: Vec<u8> = Vec::new();
        if storage.try_reserve(size).is_err() {
            errors.set("Memory allocation failed");
            return Err(FFIError::AllocationFailed);
        }
        let mut i: usize = 0;
        while i < size
            invariant
                i <= size,
                storage@ == zeros(i as nat),
            decreases size - i,
        {
            storage.push(0u8);
            i += 1;
            assert(storage@ =~= zeros(i as nat));
        }
        Ok(FFIBuffer { storage, len: 0 })
    }

    /// All bytes of the buffer, for reading.
    pub fn as_ptr(&self) -> (bytes: &[u8])
        ensures
            bytes@ == self@.bytes,
    {
        self.storage.as_slice()
    }

    /// All bytes of the buffer, for writing in place. The number of bytes
    /// cannot change, and the number of bytes that count as data stays.
    pub fn as_mut_ptr(&mut self) -> (bytes: &mut [u8])
        ensures
            bytes@ == old(self)@.bytes,
            final(self)@.bytes == final(bytes)@,
            final(self)@.len == old(self)@.len,
    {
        self.storage.as_mut_slice()
    }

    /// The number of bytes that hold data.
    pub fn len(&self) -> (len: usize)
        ensures
            len == self@.len,
    {
        self.len
    }

    /// Whether no byte holds data.
    pub fn is_empty(&self) -> (empty: bool)
        ensures
            empty == (self@.len == 0),
    {
        self.len == 0
    }

    /// The number of bytes of the buffer.
    pub fn capacity(&self) -> (capacity: usize)
        ensures
            capacity == self@.bytes.len(),
    {
        self.storage.len()
    }

    /// Writes `data` to the start of the buffer and makes it the data of
    /// the buffer. Data that does not fit is refused and nothing is
    /// written; it is never cut short.
    pub fn write_data(&mut self, data: &[u8], errors: &mut LastError) -> (result: Result<
        (),
        FFIError,
    >)
        requires
            old(self).wf(),
        ensures
            final(self).wf(),
            data@.len() <= old(self)@.bytes.len() ==> {
                &&& result is Ok
                &&& final(self)@ == old(self)@.written(data@)
                &&& final(errors).message() == old(errors).message()
            },
            data@.len() > old(self)@.bytes.len() ==> result == Err::<(), FFIError>(
                FFIError::BufferTooSmall,
            ) && final(self)@ == old(self)@ && final(errors).message() == slot_for(
                "Data size exceeds buffer capacity"@,
            ),
    {
        if data.len() > self.storage.len() {
            errors.set("Data size exceeds buffer capacity");
            return Err(FFIError::BufferTooSmall);
        }
        let ghost before = self.storage@;
        let mut i: usize = 0;
        while i < data.len()
            invariant
                i <= data@.len(),
                data@.len() <= before.len(),
                self.storage@.len() == before.len(),
                self.len == old(self).len,
                self.storage@ == data@.take(i as int) + before.skip(i as int),
            decreases data@.len() - i,
        {
            self.storage[i] = data[i];
            i += 1;
            assert(self.storage@ =~= data@.take(i as int) + before.skip(i as int));
        }
        self.len = data.len();
        assert(data@.take(i as int) =~= data@);
        Ok(())
    }

    /// The bytes that hold data.
    pub fn as_slice(&self) -> (data: Vec<u8>)
        requires
            self.wf(),
        ensures
            data@ == self@.bytes.take(self@.len as int),
    {
        let mut data: Vec<u8> = Vec::with_capacity(self.len);
        let mut i: usize = 0;
        while i < self.len
            invariant
                i <= self.len,
                self.len <= self.storage@.len(),
                data@ == self.storage@.take(i as int),
            decreases self.len - i,
        {
            data.push(self.storage[i]);
            i += 1;
            assert(data@ =~= self.storage@.take(i as int));
        }
        data
    }

    /// Overwrites every byte of the buffer with zero; no byte holds data
    /// afterwards.
    pub fn wipe(&mut self)
        ensures
            final(self)@.bytes == zeros(old(self)@.bytes.len()),
            final(self)@.len == 0,
    {
        zeroize_bytes(&mut self.storage);
        self.len = 0;
        assert(self.storage@ =~= zeros(old(self).storage@.len()));
    }

    /// Hands the memory of the buffer over to the caller, who from now on
    /// answers for wiping and releasing it.
    pub fn into_raw(self) -> (bytes: Vec<u8>)
        ensures
            bytes@ == self@.bytes,
    {
        let mut buffer = self;
        let mut bytes: Vec<u8> = Vec::new();
        std::mem::swap(&mut buffer.storage, &mut bytes);
        bytes
    }

    /// Wipes the buffer and gives its memory back. Returns the number of
    /// bytes that were wiped, which is the capacity.
    pub fn secure_free(self) -> (wiped: usize)
        ensures
            wiped == self@.bytes.len(),
    {
        let mut buffer = self;
        let wiped: usize = buffer.storage.len();
        buffer.wipe();
        wiped
    }
}

impl Drop for FFIBuffer {
    /// A buffer that goes out of scope is wiped before its memory is given back.
    fn drop(&mut self)
        opens_invariants none
        no_unwind
    {
        zeroize_bytes(&mut self.storage);
    }
}

/// Wipes memory that was handed over by [`FFIBuffer::into_raw`] and gives
/// it back. Returns the bytes as they are given back: as many as came, and
/// all of them zero.
pub fn ffi_buffer_free(bytes: Vec<u8>) -> (wiped: Vec<u8>)
    ensures
        wiped@ == zeros(bytes@.len()),
{
    let mut wiped = bytes;
    zeroize_bytes(&mut wiped);
    assert(wiped@ =~= zeros(bytes@.len()));
    wiped
}

/// The bytes of a buffer that the host handed in, where `None` stands for
/// the null pointer.
pub open spec fn input_bytes(input: Option<&[u8]>) -> Option<Seq<u8>> {
    match input {
        Some(bytes) => Some(bytes@),
        None => None,
    }
}

/// The status code for a buffer from the host that cannot be read: the
/// null pointer, or a buffer without bytes.
pub open spec fn input_fault(input: Option<Seq<u8>>) -> Option<FFIErrorCode> {
    match input {
        None => Some(FFIErrorCode::NullPointer),
        Some(bytes) => if bytes.len() == 0 {
            Some(FFIErrorCode::InvalidInput)
        } else {
            None
        },
    }
}

/// The message that a fault of a buffer from the host leaves.
pub open spec fn input_fault_message(code: FFIErrorCode) -> Seq<char> {
    if code == FFIErrorCode::NullPointer {
        "Buffer pointer is null"@
    } else {
        "Buffer length cannot be zero"@
    }
}

/// The bytes of a buffer that the host handed in, once the buffer is
/// checked: the null pointer and a buffer without bytes are turned down and
/// leave their message in the slot for the last error.
pub fn safe_slice_from_raw<'a>(input: Option<&'a [u8]>, errors: &mut LastError) -> (result: Result<
    &'a [u8],
    FFIErrorCode,
>)
    ensures
        match input_fault(input_bytes(input)) {
            Some(code) => result == Err::<&[u8], FFIErrorCode>(code) && final(errors).message()
                == slot_for(input_fault_message(code)),
            None => result matches Ok(bytes) && Some(bytes@) == input_bytes(input) && final(
                errors
            ).message() == old(errors).message(),
        },
{
    match input {
        None => {
            errors.set("Buffer pointer is null");
            Err(FFIErrorCode::NullPointer)
        },
        Some(bytes) => {
            if bytes.len() == 0 {
                errors.set("Buffer length cannot be zero");
                Err(FFIErrorCode::InvalidInput)
            } else {
                Ok(bytes)
            }
        },
    }
}

/// Memory of `size` bytes for the host, all zero. No memory is made for
/// size zero, and none where it cannot be had.
pub fn secure_allocate(size: usize) -> (result: Result<Vec<u8>, FFIErrorCode>)
    ensures
        match result {
            Ok(bytes) => size > 0 && bytes@ == zeros(size as nat),
            Err(code) => if size == 0 {
                code == FFIErrorCode::InvalidInput
            } else {
                code == FFIErrorCode::AllocationFailed
            },
        },
{
    if size == 0 {
        return Err(FFIErrorCode::InvalidInput);
    }
    let mut bytes: Vec<u8> = Vec::new();
    if bytes.try_reserve(size).is_err() {
        return Err(FFIErrorCode::AllocationFailed);
    }
    let mut i: usize = 0;
    while i < size
        invariant
            i <= size,
            bytes@ == zeros(i as nat),
        decreases size - i,
    {
        bytes.push(0u8);
        i += 1;
        assert(bytes@ =~= zeros(i as nat));
    }
    Ok(bytes)
}

/// Memory for the host that holds a copy of `source`.
pub fn secure_copy_out(source: &[u8]) -> (result: Result<Vec<u8>, FFIErrorCode>)
    ensures
        match result {
            Ok(bytes) => source@.len() > 0 && bytes@ == source@,
            Err(code) => if source@.len() == 0 {
                code == FFIErrorCode::InvalidInput
            } else {
                code == FFIErrorCode::AllocationFailed
            },
        },
{
    let mut bytes: Vec<u8> = match secure_allocate(source.len()) {
        Ok(bytes) => bytes,
        Err(code) => {
            return Err(code);
        },
    };
    let mut i: usize = 0;
    while i < source.len()
        invariant
            i <= source@.len(),
            bytes@.len() == source@.len(),
            bytes@.take(i as int) == source@.take(i as int),
        decreases source@.len() - i,
    {
        bytes[i] = source[i];
        i += 1;
        assert(bytes@.take(i as int) =~= source@.take(i as int));
    }
    assert(bytes@ =~= bytes@.take(i as int));
    assert(source@ =~= source@.take(i as int));
    Ok(bytes)
}

/// Wipes memory that the host gave back: the bytes come back with every
/// byte zero, ready to be released.
pub fn secure_deallocate(bytes: Vec<u8>) -> (wiped: Vec<u8>)
    ensures
        wiped@ == zeros(bytes@.len()),
{
    ffi_buffer_free(bytes)
}

/// Puts a message made of two parts into the slot for the last error.
pub fn report(errors: &mut LastError, prefix: &str, detail: &str)
    ensures
        final(errors).message() == slot_for(prefix@ + detail@),
{
    let mut message: String = prefix.to_owned();
    message.append(detail);
    errors.set(message.as_str());
}

/// A secret buffer that holds a copy of `source` as its data and is exactly
/// as large. A failure leaves its message in the slot for the last error.
pub fn buffer_with(source: &[u8], errors: &mut LastError) -> (result: Result<FFIBuffer, FFIError>)
    ensures
        match result {
            Ok(buffer) => source@.len() > 0 && buffer.wf() && buffer@.bytes == source@
                && buffer@.len == source@.len() && final(errors).message() == old(
                errors
            ).message(),
            Err(e) => if source@.len() == 0 {
                e == FFIError::InvalidInput
            } else {
                e == FFIError::AllocationFailed
            },
        },
{
    let mut buffer: FFIBuffer = match FFIBuffer::new(source.len(), errors) {
        Ok(buffer) => buffer,
        Err(e) => {
            return Err(e);
        },
    };
    match buffer.write_data(source, errors) {
        Ok(()) => {
            assert(buffer@.bytes =~= source@);
            Ok(buffer)
        },
        Err(e) => Err(e),
    }
}

} // verus!
