//! Work in batches: how large a batch the hardware suggests, a pool of
//! reusable buffers, and key generation and signature verification for
//! many items at once.
//!
//! The items of a batch are worked off one after another. Nothing here
//! depends on the order, so a caller is free to spread the items over
//! threads and to call the functions for single items itself.

use crate::errors::CryptoError;
use crate::provider::mldsa65_accepts;
use crate::provider::mldsa65_keypair;
use crate::provider::mldsa65_verify_detached;
use crate::provider::mlkem768_keypair;
use crate::provider::secret_bytes;
use crate::provider::SecretBytes;
use crate::provider::MLDSA65_PUBLIC_KEY_BYTES;
use crate::provider::MLDSA65_SECRET_KEY_BYTES;
use crate::provider::MLDSA65_SIGNATURE_BYTES;
use crate::provider::MLKEM768_PUBLIC_KEY_BYTES;
use crate::provider::MLKEM768_SECRET_KEY_BYTES;
use std::collections::VecDeque;
use vstd::prelude::*;

verus! {

/// What the processor offers.
#[derive(Debug, Clone, Copy, PartialEq, Eq)]
pub struct HardwareFeatures {
    pub avx2_available: bool,
    pub aes_ni_available: bool,
    pub sse4_available: bool,
    pub cpu_cores: usize,
}

/// A product of a count and a small factor that stops at the end of the
/// range.
pub open spec fn scaled(count: usize, factor: usize) -> usize {
    if count * factor > usize::MAX {
        usize::MAX
    } else {
        (count * factor) as usize
    }
}

fn scale(count: usize, factor: usize) -> (product: usize)
    requires
        factor > 0,
    ensures
        product == scaled(count, factor),
{
    if count > usize::MAX / factor {
        assert(count * factor > usize::MAX) by (nonlinear_arith)
            requires
                count > usize::MAX / factor,
                factor > 0,
        ;
        usize::MAX
    } else {
        assert(count * factor <= usize::MAX) by (nonlinear_arith)
            requires
                count <= usize::MAX / factor,
                factor > 0,
        ;
        count * factor
    }
}

impl HardwareFeatures {
    /// The batch size that suits the processor: four items for each core
    /// with AVX2, two with SSE4.1 only, one otherwise.
    pub open spec fn batch_size(self) -> usize {
        if self.avx2_available {
            scaled(self.cpu_cores, 4)
        } else if self.sse4_available {
            scaled(self.cpu_cores, 2)
        } else {
            self.cpu_cores
        }
    }

    /// The batch size that suits the processor.
    pub fn optimal_batch_size(&self) -> (size: usize)
        ensures
            size == self.batch_size(),
    {
        if self.avx2_available {
            scale(self.cpu_cores, 4)
        } else if self.sse4_available {
            scale(self.cpu_cores, 2)
        } else {
            self.cpu_cores
        }
    }
}

/// Capacity with which a buffer for an ML-KEM-768 public key is made.
pub const MLKEM_BUFFER_CAPACITY: usize = 1184;

/// Capacity with which a buffer for an ML-DSA-65 public key is made.
pub const MLDSA_BUFFER_CAPACITY: usize = 1952;

/// Two pools of empty buffers, one for each scheme, that hold no more
/// buffers than a limit allows.
pub struct MemoryPool {
    kyber_buffers: VecDeque<Vec<u8>>,
    dilithium_buffers: VecDeque<Vec<u8>>,
    max_pool_size: usize,
}

/// A count with one taken away, unless there is none.
pub open spec fn taken(count: nat) -> nat {
    if count == 0 {
        0
    } else {
        (count - 1) as nat
    }
}

/// A count with one added, unless the limit is reached.
pub open spec fn given_back(count: nat, limit: usize) -> nat {
    if count < limit {
        count + 1
    } else {
        count
    }
}

impl MemoryPool {
    /// The number of buffers pooled for ML-KEM.
    pub closed spec fn mlkem_count(&self) -> nat {
        self.kyber_buffers@.len()
    }

    /// The number of buffers pooled for ML-DSA.
    pub closed spec fn mldsa_count(&self) -> nat {
        self.dilithium_buffers@.len()
    }

    /// The largest number of buffers that each pool takes.
    pub closed spec fn limit(&self) -> usize {
        self.max_pool_size
    }

    /// Every pooled buffer is empty.
    pub closed spec fn wf(&self) -> bool {
        &&& forall|i: int| 0 <= i < self.kyber_buffers@.len() ==> (#[trigger] self.kyber_buffers@[i])@.len() == 0
        &&& forall|i: int|
            0 <= i < self.dilithium_buffers@.len() ==> (#[trigger] self.dilithium_buffers@[i])@.len() == 0
    }

    /// Two empty pools.
    pub fn new(max_pool_size: usize) -> (pool: Self)
        ensures
            pool.wf(),
            pool.mlkem_count() == 0,
            pool.mldsa_count() == 0,
            pool.limit() == max_pool_size,
    {
        MemoryPool { kyber_buffers: VecDeque::new(), dilithium_buffers: VecDeque::new(), max_pool_size }
    }

    /// An empty buffer for ML-KEM: the oldest of the pool, or a new one
    /// where the pool is empty.
    pub fn get_mlkem_buffer(&mut self) -> (buffer: Vec<u8>)
        requires
            old(self).wf(),
        ensures
            final(self).wf(),
            buffer@.len() == 0,
            final(self).mlkem_count() == taken(old(self).mlkem_count()),
            final(self).mldsa_count() == old(self).mldsa_count(),
            final(self).limit() == old(self).limit(),
    {
        match self.kyber_buffers.pop_front() {
            Some(buffer) => buffer,
            None => Vec::with_capacity(MLKEM_BUFFER_CAPACITY),
        }
    }

    /// An empty buffer for ML-DSA: the oldest of the pool, or a new one
    /// where the pool is empty.
    pub fn get_mldsa_buffer(&mut self) -> (buffer: Vec<u8>)
        requires
            old(self).wf(),
        ensures
            final(self).wf(),
            buffer@.len() == 0,
            final(self).mlkem_count() == old(self).mlkem_count(),
            final(self).mldsa_count() == taken(old(self).mldsa_count()),
            final(self).limit() == old(self).limit(),
    {
        match self.dilithium_buffers.pop_front() {
            Some(buffer) => buffer,
            None => Vec::with_capacity(MLDSA_BUFFER_CAPACITY),
        }
    }

    /// Empties a buffer and puts it into the pool for ML-KEM, unless the
    /// pool is full: then the buffer is dropped.
    pub fn return_mlkem_buffer(&mut self, buffer: Vec<u8>)
        requires
            old(self).wf(),
        ensures
            final(self).wf(),
            final(self).mlkem_count() == given_back(old(self).mlkem_count(), old(self).limit()),
            final(self).mldsa_count() == old(self).mldsa_count(),
            final(self).limit() == old(self).limit(),
    {
        let mut buffer = buffer;
        buffer.clear();
        if self.kyber_buffers.len() < self.max_pool_size {
            self.kyber_buffers.push_back(buffer);
        }
    }

    /// Empties a buffer and puts it into the pool for ML-DSA, unless the
    /// pool is full: then the buffer is dropped.
    pub fn return_mldsa_buffer(&mut self, buffer: Vec<u8>)
        requires
            old(self).wf(),
        ensures
            final(self).wf(),
            final(self).mlkem_count() == old(self).mlkem_count(),
            final(self).mldsa_count() == given_back(old(self).mldsa_count(), old(self).limit()),
            final(self).limit() == old(self).limit(),
    {
        let mut buffer = buffer;
        buffer.clear();
        if self.dilithium_buffers.len() < self.max_pool_size {
            self.dilithium_buffers.push_back(buffer);
        }
    }

    /// The numbers of buffers pooled for ML-KEM and for ML-DSA.
    pub fn pool_stats(&self) -> (counts: (usize, usize))
        ensures
            counts.0 == self.mlkem_count(),
            counts.1 == self.mldsa_count(),
    {
        (self.kyber_buffers.len(), self.dilithium_buffers.len())
    }
}

/// An ML-KEM-768 key pair as bytes.
pub struct MLKEMKeyPair {
    pub public_key: Vec<u8>,
    pub secret_key: SecretBytes,
}

impl MLKEMKeyPair {
    /// Whether both keys have the sizes of the scheme.
    pub open spec fn sized(&self) -> bool {
        &&& self.public_key@.len() == MLKEM768_PUBLIC_KEY_BYTES
        &&& secret_bytes(self.secret_key).len() == MLKEM768_SECRET_KEY_BYTES
    }
}

/// An ML-DSA-65 key pair as bytes.
pub struct MLDSAKeyPair {
    pub public_key: Vec<u8>,
    pub secret_key: SecretBytes,
}

impl MLDSAKeyPair {
    /// Whether both keys have the sizes of the scheme.
    pub open spec fn sized(&self) -> bool {
        &&& self.public_key@.len() == MLDSA65_PUBLIC_KEY_BYTES
        &&& secret_bytes(self.secret_key).len() == MLDSA65_SECRET_KEY_BYTES
    }
}

/// A message, a detached signature and a public key, in this order.
pub type SignedItem = (Vec<u8>, Vec<u8>, Vec<u8>);

/// Whether the signature and the key of an item have sizes that the
/// scheme can read: a key of the scheme's size, a signature no longer than
/// the scheme's.
pub open spec fn readable(item: SignedItem) -> bool {
    &&& item.2@.len() == MLDSA65_PUBLIC_KEY_BYTES
    &&& item.1@.len() <= MLDSA65_SIGNATURE_BYTES
}

/// Whether every item can be read.
pub open spec fn all_readable(items: Seq<SignedItem>) -> bool {
    forall|i: int| 0 <= i < items.len() ==> readable(#[trigger] items[i])
}

/// Whether the scheme accepts the signature of an item for its message
/// under its key.
pub open spec fn accepted(item: SignedItem) -> bool {
    mldsa65_accepts(item.2@, item.0@, item.1@)
}

/// The answers for a batch of items, in order.
pub open spec fn answers(items: Seq<SignedItem>) -> Seq<bool> {
    Seq::new(items.len(), |i: int| accepted(items[i]))
}

/// Whether an error says that an item of a batch could not be read.
pub open spec fn is_unreadable_item(error: CryptoError) -> bool {
    error matches CryptoError::InvalidKeyFormat { algorithm, details } && algorithm@ == "ML-DSA-65"@
        && details@ == "Public key or signature of the wrong size"@
}

/// Checks the signature of one item.
///
/// An item that cannot be read is refused; for every other item the answer
/// is the scheme's.
pub fn verify_item(item: &SignedItem) -> (result: Result<bool, CryptoError>)
    ensures
        readable(*item) ==> result == Ok::<bool, CryptoError>(accepted(*item)),
        !readable(*item) ==> result is Err && is_unreadable_item(result.unwrap_err()),
{
    if item.2.len() != MLDSA65_PUBLIC_KEY_BYTES || item.1.len() > MLDSA65_SIGNATURE_BYTES {
        return Err(
            CryptoError::InvalidKeyFormat {
                algorithm: "ML-DSA-65".to_owned(),
                details: "Public key or signature of the wrong size".to_owned(),
            },
        );
    }
    Ok(mldsa65_verify_detached(item.2.as_slice(), item.0.as_slice(), item.1.as_slice()))
}

/// Batched operations, tuned to the hardware.
pub struct OptimizedCrypto {
    hardware_features: HardwareFeatures,
    memory_pool: MemoryPool,
    use_batch_operations: bool,
}

impl OptimizedCrypto {
    /// What is known of the hardware.
    pub closed spec fn features(&self) -> HardwareFeatures {
        self.hardware_features
    }

    /// The pool of buffers.
    pub closed spec fn pool(&self) -> MemoryPool {
        self.memory_pool
    }

    /// Whether work is done in batches.
    pub closed spec fn batches(&self) -> bool {
        self.use_batch_operations
    }

    /// Batched operations for the given hardware, with empty pools that
    /// take twice the optimal batch size.
    pub fn new(hardware_features: HardwareFeatures) -> (crypto: Self)
        ensures
            crypto.features() == hardware_features,
            crypto.batches(),
            crypto.pool().wf(),
            crypto.pool().mlkem_count() == 0,
            crypto.pool().mldsa_count() == 0,
            crypto.pool().limit() == scaled(hardware_features.batch_size(), 2),
    {
        let pool_size: usize = scale(hardware_features.optimal_batch_size(), 2);
        OptimizedCrypto {
            hardware_features,
            memory_pool: MemoryPool::new(pool_size),
            use_batch_operations: true,
        }
    }

    /// The same with batching switched on or off.
    pub fn with_batch_operations(self, enabled: bool) -> (crypto: Self)
        ensures
            crypto.batches() == enabled,
            crypto.features() == self.features(),
            crypto.pool() == self.pool(),
    {
        let mut crypto = self;
        crypto.use_batch_operations = enabled;
        crypto
    }

    /// Generates `count` ML-KEM-768 key pairs. The call does not fail.
    pub fn batch_mlkem_key_generation(&self, count: usize) -> (result: Result<Vec<MLKEMKeyPair>, CryptoError>)
        ensures
            result is Ok,
            result.unwrap()@.len() == count,
            forall|i: int| 0 <= i < count ==> (#[trigger] result.unwrap()@[i]).sized(),
    {
        let mut keypairs: Vec<MLKEMKeyPair> = Vec::with_capacity(count);
        let mut i: usize = 0;
        while i < count
            invariant
                i <= count,
                keypairs@.len() == i,
                forall|j: int| 0 <= j < i ==> (#[trigger] keypairs@[j]).sized(),
            decreases count - i,
        {
            let (public_key, secret_key) = mlkem768_keypair();
            keypairs.push(MLKEMKeyPair { public_key, secret_key });
            i += 1;
        }
        Ok(keypairs)
    }

    /// Generates `count` ML-DSA-65 key pairs. The call does not fail.
    pub fn batch_mldsa_key_generation(&self, count: usize) -> (result: Result<Vec<MLDSAKeyPair>, CryptoError>)
        ensures
            result is Ok,
            result.unwrap()@.len() == count,
            forall|i: int| 0 <= i < count ==> (#[trigger] result.unwrap()@[i]).sized(),
    {
        let mut keypairs: Vec<MLDSAKeyPair> = Vec::with_capacity(count);
        let mut i: usize = 0;
        while i < count
            invariant
                i <= count,
                keypairs@.len() == i,
                forall|j: int| 0 <= j < i ==> (#[trigger] keypairs@[j]).sized(),
            decreases count - i,
        {
            let (public_key, secret_key) = mldsa65_keypair();
            keypairs.push(MLDSAKeyPair { public_key, secret_key });
            i += 1;
        }
        Ok(keypairs)
    }

    /// Checks the signature of every item.
    ///
    /// Where every item can be read there is one answer for each, in
    /// order, and it is the scheme's. Where some item cannot be read the
    /// batch is refused.
    pub fn parallel_signature_verification(&self, signatures: &[SignedItem]) -> (result: Result<
        Vec<bool>,
        CryptoError,
    >)
        ensures
            all_readable(signatures@) ==> result is Ok && result.unwrap()@ == answers(signatures@),
            !all_readable(signatures@) ==> result is Err && is_unreadable_item(result.unwrap_err()),
    {
        let mut results: Vec<bool> = Vec::with_capacity(signatures.len());
        let mut i: usize = 0;
        while i < signatures.len()
            invariant
                i <= signatures@.len(),
                results@.len() == i,
                all_readable(signatures@.subrange(0, i as int)),
                results@ == answers(signatures@.subrange(0, i as int)),
            decreases signatures@.len() - i,
        {
            match verify_item(&signatures[i]) {
                Ok(valid) => {
                    results.push(valid);
                },
                Err(e) => {
                    return Err(e);
                },
            }
            i += 1;
            assert(all_readable(signatures@.subrange(0, i as int))) by {
                assert forall|k: int| 0 <= k < i implies readable(
                    #[trigger] signatures@.subrange(0, i as int)[k],
                ) by {
                    if k < i - 1 {
                        assert(readable(signatures@.subrange(0, i - 1)[k]));
                    }
                }
            }
            assert(results@ =~= answers(signatures@.subrange(0, i as int))) by {
                assert forall|k: int| 0 <= k < i implies results@[k] == answers(
                    signatures@.subrange(0, i as int),
                )[k] by {
                    if k < i - 1 {
                        assert(answers(signatures@.subrange(0, i - 1))[k] == accepted(
                            signatures@.subrange(0, i - 1)[k],
                        ));
                    }
                }
            }
        }
        assert(signatures@.subrange(0, i as int) =~= signatures@);
        Ok(results)
    }

    /// What is known of the hardware.
    pub fn get_hardware_info(&self) -> (features: &HardwareFeatures)
        ensures
            *features == self.features(),
    {
        &self.hardware_features
    }

    /// The numbers of buffers pooled for ML-KEM and for ML-DSA.
    pub fn get_memory_pool_stats(&self) -> (counts: (usize, usize))
        ensures
            counts.0 == self.pool().mlkem_count(),
            counts.1 == self.pool().mldsa_count(),
    {
        self.memory_pool.pool_stats()
    }
}

} // verus!
