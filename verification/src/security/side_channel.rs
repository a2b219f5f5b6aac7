//! Comparing, selecting, copying and looking up bytes in a number of steps
//! that depends on lengths only, never on the bytes.

use crate::provider::select_byte;
use vstd::prelude::*;
use vstd::utf8::encode_utf8_decode_utf8;

verus! {

/// The operations, gathered under one name.
pub struct ConstantTimeOps;

/// Folding the difference of two bytes into an accumulator leaves it zero
/// exactly where it was zero and the bytes are the same.
pub proof fn lemma_fold_difference(accumulator: u8, x: u8, y: u8)
    ensures
        ((accumulator | (x ^ y)) == 0u8) <==> (accumulator == 0u8 && x == y),
{
    assert(((accumulator | (x ^ y)) == 0u8) <==> (accumulator == 0u8 && x == y)) by (bit_vector);
}

/// Folding a masked byte into an accumulator: a full mask on an empty
/// accumulator gives the byte, an empty mask leaves the accumulator.
pub proof fn lemma_fold_masked(accumulator: u8, value: u8)
    ensures
        (0u8 | (value & 0xFFu8)) == value,
        (accumulator | (value & 0x00u8)) == accumulator,
{
    assert((0u8 | (value & 0xFFu8)) == value) by (bit_vector);
    assert((accumulator | (value & 0x00u8)) == accumulator) by (bit_vector);
}

/// The byte at `index`, or zero where the table has no such place.
pub open spec fn entry_or_zero(table: Seq<u8>, index: int) -> u8 {
    if 0 <= index < table.len() {
        table[index]
    } else {
        0u8
    }
}

/// One of two byte strings of the same length.
pub open spec fn selected(condition: bool, a: Seq<u8>, b: Seq<u8>) -> Seq<u8> {
    if condition {
        a
    } else {
        b
    }
}

impl ConstantTimeOps {
    /// Whether two byte strings are the same. Strings of the same length
    /// are read to their end whatever they hold.
    pub fn constant_time_compare(a: &[u8], b: &[u8]) -> (equal: bool)
        ensures
            equal == (a@ == b@),
    {
        if a.len() != b.len() {
            return false;
        }
        let mut result: u8 = 0;
        let mut i: usize = 0;
        assert(a@.subrange(0, 0) =~= b@.subrange(0, 0));
        while i < a.len()
            invariant
                i <= a@.len(),
                a@.len() == b@.len(),
                (result == 0) <==> (a@.subrange(0, i as int) == b@.subrange(0, i as int)),
            decreases a@.len() - i,
        {
            proof {
                lemma_fold_difference(result, a@[i as int], b@[i as int]);
                let next = i + 1;
                assert(a@.subrange(0, next) =~= a@.subrange(0, i as int).push(a@[i as int]));
                assert(b@.subrange(0, next) =~= b@.subrange(0, i as int).push(b@[i as int]));
                assert(a@.subrange(0, next) == b@.subrange(0, next) ==> a@.subrange(0, i as int)
                    =~= b@.subrange(0, i as int) && a@[i as int] == b@[i as int]) by {
                    if a@.subrange(0, next) == b@.subrange(0, next) {
                        assert(a@.subrange(0, next)[i as int] == b@.subrange(0, next)[i as int]);
                        assert forall|k: int| 0 <= k < i implies a@.subrange(0, i as int)[k] == b@.subrange(
                            0,
                            i as int,
                        )[k] by {
                            assert(a@.subrange(0, next)[k] == b@.subrange(0, next)[k]);
                        }
                    }
                }
            }
            result = result | (a[i] ^ b[i]);
            i += 1;
        }
        assert(a@ =~= a@.subrange(0, i as int));
        assert(b@ =~= b@.subrange(0, i as int));
        result == 0
    }

    /// The first byte string where the condition holds, the second where
    /// it does not, chosen byte by byte without a branch on the condition.
    pub fn conditional_select(condition: bool, a: &[u8], b: &[u8]) -> (chosen: Vec<u8>)
        requires
            a@.len() == b@.len(),
        ensures
            chosen@ == selected(condition, a@, b@),
    {
        let mut chosen: Vec<u8> = Vec::with_capacity(a.len());
        let mut i: usize = 0;
        while i < a.len()
            invariant
                i <= a@.len(),
                a@.len() == b@.len(),
                chosen@ == selected(condition, a@, b@).subrange(0, i as int),
            decreases a@.len() - i,
        {
            chosen.push(select_byte(condition, a[i], b[i]));
            i += 1;
            assert(chosen@ =~= selected(condition, a@, b@).subrange(0, i as int));
        }
        assert(chosen@ =~= selected(condition, a@, b@));
        chosen
    }

    /// Copies `src` over `dest`, which has the same length.
    pub fn secure_copy(dest: &mut [u8], src: &[u8])
        requires
            old(dest)@.len() == src@.len(),
        ensures
            final(dest)@ == src@,
    {
        let mut i: usize = 0;
        while i < src.len()
            invariant
                i <= src@.len(),
                dest@.len() == src@.len(),
                dest@.subrange(0, i as int) == src@.subrange(0, i as int),
            decreases src@.len() - i,
        {
            dest[i] = src[i];
            i += 1;
            assert(dest@.subrange(0, i as int) =~= src@.subrange(0, i as int));
        }
        assert(dest@ =~= dest@.subrange(0, i as int));
        assert(src@ =~= src@.subrange(0, i as int));
    }

    /// The byte at `index`, or zero where the array has no such place.
    /// Every byte of the array is read whatever the index.
    pub fn constant_time_lookup(array: &[u8], index: usize) -> (value: u8)
        ensures
            value == entry_or_zero(array@, index as int),
    {
        let mut result: u8 = 0;
        let mut i: usize = 0;
        while i < array.len()
            invariant
                i <= array@.len(),
                result == if index < i {
                    array@[index as int]
                } else {
                    0u8
                },
            decreases array@.len() - i,
        {
            let mask: u8 = if i == index {
                0xFF
            } else {
                0x00
            };
            proof {
                lemma_fold_masked(result, array@[i as int]);
            }
            result = result | (array[i] & mask);
            i += 1;
        }
        result
    }

    /// Whether two texts are the same, decided on their bytes.
    pub fn constant_time_str_eq(a: &str, b: &str) -> (equal: bool)
        ensures
            equal == (a@ == b@),
    {
        proof {
            encode_utf8_decode_utf8(a@);
            encode_utf8_decode_utf8(b@);
        }
        ConstantTimeOps::constant_time_compare(a.as_bytes(), b.as_bytes())
    }
}

} // verus!
