//! Operations whose pattern of memory accesses does not depend on secret
//! values: every place of a table is read whichever one is wanted.

use crate::security::side_channel::entry_or_zero;
use crate::security::side_channel::ConstantTimeOps;
use vstd::prelude::*;
use vstd::string::StringSliceAdditionalSpecFns;

verus! {

/// The operations, gathered under one name.
pub struct CacheProtection;

/// Whether `needle` stands in `haystack` at offset `at`.
pub open spec fn occurs_at(haystack: Seq<u8>, needle: Seq<u8>, at: int) -> bool {
    &&& 0 <= at
    &&& at + needle.len() <= haystack.len()
    &&& haystack.subrange(at, at + needle.len()) == needle
}

/// Whether `needle` stands somewhere in `haystack`.
pub open spec fn occurs_in(haystack: Seq<u8>, needle: Seq<u8>) -> bool {
    exists|at: int| occurs_at(haystack, needle, at)
}

/// Whether `needle` stands in `haystack` at an offset below `bound`.
pub open spec fn occurs_before(haystack: Seq<u8>, needle: Seq<u8>, bound: int) -> bool {
    exists|at: int| at < bound && occurs_at(haystack, needle, at)
}

/// `len` bytes that are all `value`.
pub open spec fn filled(len: nat, value: u8) -> Seq<u8> {
    Seq::new(len, |i: int| value)
}

impl CacheProtection {
    /// The byte at `index`, or zero where the table has no such place.
    /// Every byte of the table is read whatever the index.
    pub fn cache_safe_lookup(table: &[u8], index: usize) -> (value: u8)
        ensures
            value == entry_or_zero(table@, index as int),
    {
        ConstantTimeOps::constant_time_lookup(table, index)
    }

    /// The byte at `index`, or nothing where the table has no such place.
    pub fn safe_table_lookup(table: &[u8], index: usize) -> (value: Option<u8>)
        ensures
            index < table@.len() ==> value == Some(table@[index as int]),
            index >= table@.len() ==> value is None,
    {
        if index >= table.len() {
            return None;
        }
        Some(CacheProtection::cache_safe_lookup(table, index))
    }

    /// Asks that the cache lines holding `data` be written back and
    /// dropped. This is a hint to the processor; no value changes, and
    /// where the processor takes no such hint nothing is done.
    pub fn flush_cache_lines(_data: &[u8]) {
    }

    /// Asks that the cache lines holding `data` be loaded. This is a hint
    /// to the processor; no value changes, and where the processor takes no
    /// such hint nothing is done.
    pub fn normalize_cache_state(_data: &[u8]) {
    }

    /// Whether two byte strings are the same. Strings of the same length
    /// are read to their end whatever they hold.
    pub fn cache_safe_compare(a: &[u8], b: &[u8]) -> (equal: bool)
        ensures
            equal == (a@ == b@),
    {
        ConstantTimeOps::constant_time_compare(a, b)
    }

    /// Whether the bytes of `needle` stand somewhere in the bytes of
    /// `haystack`. Every offset is tried and every byte compared, whether
    /// or not the needle was found already.
    pub fn cache_safe_string_search(haystack: &str, needle: &str) -> (found: bool)
        ensures
            found == occurs_in(haystack.spec_bytes(), needle.spec_bytes()),
    {
        let haystack_bytes: &[u8] = haystack.as_bytes();
        let needle_bytes: &[u8] = needle.as_bytes();
        if needle_bytes.len() == 0 {
            assert(haystack_bytes@.subrange(0, 0) =~= needle_bytes@);
            assert(occurs_at(haystack_bytes@, needle_bytes@, 0));
            return true;
        }
        if needle_bytes.len() > haystack_bytes.len() {
            return false;
        }
        let total: usize = haystack_bytes.len();
        let last: usize = total - needle_bytes.len();
        let mut found: bool = false;
        let mut i: usize = 0;
        while i <= last
            invariant
                i <= last + 1,
                last < usize::MAX,
                total == haystack_bytes@.len(),
                last == haystack_bytes@.len() - needle_bytes@.len(),
                found == occurs_before(haystack_bytes@, needle_bytes@, i as int),
            decreases last + 1 - i,
        {
            let mut matches: bool = true;
            let mut j: usize = 0;
            assert(haystack_bytes@.subrange(i as int, i + 0) =~= needle_bytes@.subrange(0, 0));
            while j < needle_bytes.len()
                invariant
                    j <= needle_bytes@.len(),
                    i <= last,
                    last < usize::MAX,
                total == haystack_bytes@.len(),
                    last == haystack_bytes@.len() - needle_bytes@.len(),
                    matches == (haystack_bytes@.subrange(i as int, i + j) == needle_bytes@.subrange(
                        0,
                        j as int,
                    )),
                decreases needle_bytes@.len() - j,
            {
                let ghost window = haystack_bytes@.subrange(i as int, i + j + 1);
                let ghost prefix = needle_bytes@.subrange(0, j + 1);
                assert(window =~= haystack_bytes@.subrange(i as int, i + j).push(haystack_bytes@[i + j]));
                assert(prefix =~= needle_bytes@.subrange(0, j as int).push(needle_bytes@[j as int]));
                assert(window == prefix ==> haystack_bytes@.subrange(i as int, i + j)
                    =~= needle_bytes@.subrange(0, j as int) && haystack_bytes@[i + j]
                    == needle_bytes@[j as int]) by {
                    if window == prefix {
                        assert(window[j as int] == prefix[j as int]);
                        assert forall|k: int| 0 <= k < j implies haystack_bytes@.subrange(i as int, i + j)[k]
                            == needle_bytes@.subrange(0, j as int)[k] by {
                            assert(window[k] == prefix[k]);
                        }
                    }
                }
                if haystack_bytes[i + j] != needle_bytes[j] {
                    matches = false;
                }
                j += 1;
            }
            assert(needle_bytes@.subrange(0, j as int) =~= needle_bytes@);
            assert(matches == occurs_at(haystack_bytes@, needle_bytes@, i as int));
            if matches {
                found = true;
            }
            i += 1;
            assert(found == occurs_before(haystack_bytes@, needle_bytes@, i as int)) by {
                if occurs_before(haystack_bytes@, needle_bytes@, i as int) {
                    let at = choose|at: int| at < i && occurs_at(haystack_bytes@, needle_bytes@, at);
                    if at < i - 1 {
                        assert(occurs_before(haystack_bytes@, needle_bytes@, i - 1));
                    }
                }
            }
        }
        assert(found == occurs_in(haystack_bytes@, needle_bytes@)) by {
            if occurs_in(haystack_bytes@, needle_bytes@) {
                let at = choose|at: int| occurs_at(haystack_bytes@, needle_bytes@, at);
                assert(at < i && occurs_at(haystack_bytes@, needle_bytes@, at));
            }
        }
        found
    }

    /// `size` bytes that are all `value`.
    pub fn cache_safe_init(size: usize, value: u8) -> (bytes: Vec<u8>)
        ensures
            bytes@ == filled(size as nat, value),
    {
        let mut bytes: Vec<u8> = Vec::with_capacity(size);
        let mut i: usize = 0;
        while i < size
            invariant
                i <= size,
                bytes@ == filled(i as nat, value),
            decreases size - i,
        {
            bytes.push(value);
            i += 1;
            assert(bytes@ =~= filled(i as nat, value));
        }
        CacheProtection::flush_cache_lines(bytes.as_slice());
        bytes
    }

    /// Overwrites every byte with zero.
    pub fn cache_safe_zero(data: &mut [u8])
        ensures
            final(data)@ == filled(old(data)@.len(), 0u8),
    {
        let mut i: usize = 0;
        while i < data.len()
            invariant
                i <= data@.len(),
                data@.len() == old(data)@.len(),
                data@.subrange(0, i as int) == filled(i as nat, 0u8),
            decreases data@.len() - i,
        {
            let ghost before = data@;
            data[i] = 0;
            i += 1;
            assert forall|k: int| 0 <= k < i implies data@.subrange(0, i as int)[k] == 0u8 by {
                if k < i - 1 {
                    assert(before.subrange(0, i - 1)[k] == 0u8);
                }
            }
            assert(data@.subrange(0, i as int) =~= filled(i as nat, 0u8));
        }
        assert(data@ =~= data@.subrange(0, i as int));
        CacheProtection::flush_cache_lines(data);
    }
}

} // verus!
