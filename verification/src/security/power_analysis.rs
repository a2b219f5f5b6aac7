//! Padding around sensitive operations: work of random length before and
//! after, so that the operation itself stands out less. The padding has no
//! effect on what the operation returns.

use crate::provider::random_u32;
use crate::provider::sha256;
use crate::provider::sha256_digest;
use vstd::prelude::*;

verus! {

/// The rounds of arithmetic in one padding stay below this number.
pub const PADDING_ROUNDS: u32 = 20;

/// The cycles of one delay stay below this number.
pub const DELAY_CYCLES: u32 = 1000;

/// The number that `rounds` rounds of the padding's arithmetic leave: each
/// round adds its own number, counted from zero, and triples the sum, and
/// what does not fit into 64 bits is cut off.
pub open spec fn padding_sum(rounds: nat) -> u64
    decreases rounds,
{
    if rounds == 0 {
        0
    } else {
        padding_sum((rounds - 1) as nat).wrapping_add((rounds - 1) as u64).wrapping_mul(3)
    }
}

/// Whether a number is what some number of rounds of the padding's
/// arithmetic leaves.
pub open spec fn is_padding_sum(sum: u64) -> bool {
    exists|rounds: nat| rounds < PADDING_ROUNDS && sum == #[trigger] padding_sum(rounds)
}

/// Which padding is switched on.
pub struct PowerAnalysisProtection {
    dummy_operations: bool,
    operation_masking: bool,
}

impl PowerAnalysisProtection {
    /// Whether operations are padded with unneeded work.
    pub closed spec fn pads(&self) -> bool {
        self.dummy_operations
    }

    /// Whether operations are masked.
    pub closed spec fn masks(&self) -> bool {
        self.operation_masking
    }

    /// Protection with everything switched on.
    pub fn new() -> (protection: Self)
        ensures
            protection.pads(),
            protection.masks(),
    {
        PowerAnalysisProtection { dummy_operations: true, operation_masking: true }
    }

    /// Protection with the given switches.
    pub fn with_settings(dummy_operations: bool, operation_masking: bool) -> (protection: Self)
        ensures
            protection.pads() == dummy_operations,
            protection.masks() == operation_masking,
    {
        PowerAnalysisProtection { dummy_operations, operation_masking }
    }

    /// Runs an operation between two rounds of padding, if padding is
    /// switched on, and hands back what the operation returned.
    pub fn protected_operation<F, R>(&self, operation: F) -> (result: R) where F: FnOnce() -> R
        requires
            operation.requires(()),
        ensures
            operation.ensures((), result),
    {
        if self.dummy_operations {
            self.perform_dummy_operations();
        }
        let result = operation();
        if self.dummy_operations {
            self.perform_dummy_operations();
        }
        result
    }

    /// Hashes up to nine times and then adds and triples for up to
    /// nineteen rounds, both a random number of times. What comes out is
    /// the number that the rounds of arithmetic leave; nothing depends on
    /// it.
    fn perform_dummy_operations(&self) -> (dummy_result: u64)
        ensures
            is_padding_sum(dummy_result),
    {
        let dummy_data: [u8; 32] = [0u8; 32];
        let hashes: u32 = random_u32() % 10;
        let mut done: u32 = 0;
        while done < hashes
            invariant
                done <= hashes,
            decreases hashes - done,
        {
            let _ = self.dummy_hash(dummy_data.as_slice());
            done += 1;
        }
        let rounds: u32 = random_u32() % PADDING_ROUNDS;
        let mut dummy_result: u64 = 0;
        let mut i: u32 = 0;
        while i < rounds
            invariant
                i <= rounds,
                rounds < PADDING_ROUNDS,
                dummy_result == padding_sum(i as nat),
            decreases rounds - i,
        {
            dummy_result = dummy_result.wrapping_add(i as u64);
            dummy_result = dummy_result.wrapping_mul(3);
            i += 1;
        }
        assert(dummy_result == padding_sum(rounds as nat));
        dummy_result
    }

    /// The SHA-256 digest of `data`: the work that the padding is made of.
    pub fn dummy_hash(&self, data: &[u8]) -> (digest: [u8; 32])
        ensures
            digest@ == sha256_digest(data@),
    {
        sha256(data)
    }

    /// Generates a key between two rounds of padding and after a delay of
    /// random length, and hands back what the generator returned.
    pub fn protected_key_generation<F, K>(&self, key_gen_fn: F) -> (key: K) where F: FnOnce() -> K
        requires
            key_gen_fn.requires(()),
        ensures
            key_gen_fn.ensures((), key),
    {
        if self.dummy_operations {
            self.perform_dummy_operations();
        }
        self.random_delay();
        let key = key_gen_fn();
        if self.dummy_operations {
            self.perform_dummy_operations();
        }
        key
    }

    /// Signs between two rounds of padding and after a few unneeded
    /// hashes, and hands back what the signer returned.
    pub fn protected_signature<F, S>(&self, sign_fn: F) -> (signature: S) where F: FnOnce() -> S
        requires
            sign_fn.requires(()),
        ensures
            sign_fn.ensures((), signature),
    {
        if self.dummy_operations {
            self.perform_dummy_operations();
        }
        self.dummy_signature_operations();
        let signature = sign_fn();
        if self.dummy_operations {
            self.perform_dummy_operations();
        }
        signature
    }

    /// Counts to a random number below a thousand and hands back the
    /// number it counted to.
    fn random_delay(&self) -> (spent: u32)
        ensures
            spent < DELAY_CYCLES,
    {
        let delay_cycles: u32 = random_u32() % DELAY_CYCLES;
        let mut spent: u32 = 0;
        while spent < delay_cycles
            invariant
                spent <= delay_cycles,
            decreases delay_cycles - spent,
        {
            spent += 1;
        }
        spent
    }

    /// Hashes a fixed message and a fixed key three times over.
    fn dummy_signature_operations(&self) {
        let dummy_message: &[u8] = "dummy_message_for_power_masking".as_bytes();
        let dummy_key: [u8; 32] = [0u8; 32];
        let mut round: u8 = 0;
        while round < 3
            invariant
                round <= 3,
            decreases 3 - round,
        {
            let _ = self.dummy_hash(dummy_message);
            let _ = self.dummy_hash(dummy_key.as_slice());
            round += 1;
        }
    }
}

impl Default for PowerAnalysisProtection {
    fn default() -> (protection: Self)
        ensures
            protection.pads(),
            protection.masks(),
    {
        PowerAnalysisProtection::new()
    }
}

} // verus!
