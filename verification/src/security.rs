//! Defence in depth around secret data: operations whose steps and memory
//! accesses do not depend on the data, and padding around sensitive work.

pub mod cache_protection;
pub mod power_analysis;
pub mod side_channel;

pub use crate::security::cache_protection::CacheProtection;
pub use crate::security::power_analysis::PowerAnalysisProtection;
pub use crate::security::side_channel::ConstantTimeOps;

use crate::security::side_channel::entry_or_zero;
use vstd::prelude::*;

verus! {

/// The three protections together.
pub struct SideChannelProtection {
    constant_time: ConstantTimeOps,
    power_analysis: PowerAnalysisProtection,
    cache_protection: CacheProtection,
}

impl SideChannelProtection {
    /// The padding that this protection wraps around operations.
    pub closed spec fn padding(&self) -> PowerAnalysisProtection {
        self.power_analysis
    }

    /// Protection with all padding switched on.
    pub fn new() -> (protection: Self)
        ensures
            protection.padding().pads(),
            protection.padding().masks(),
    {
        SideChannelProtection {
            constant_time: ConstantTimeOps,
            power_analysis: PowerAnalysisProtection::new(),
            cache_protection: CacheProtection,
        }
    }

    /// The constant-time operations.
    pub fn constant_time(&self) -> &ConstantTimeOps {
        &self.constant_time
    }

    /// The padding.
    pub fn power_analysis(&self) -> (padding: &PowerAnalysisProtection)
        ensures
            *padding == self.padding(),
    {
        &self.power_analysis
    }

    /// The cache-safe operations.
    pub fn cache_protection(&self) -> &CacheProtection {
        &self.cache_protection
    }

    /// Runs an operation inside the padding and hands back what it
    /// returned.
    pub fn protected_crypto_operation<F, R>(&self, operation: F) -> (result: R) where F: FnOnce() -> R
        requires
            operation.requires(()),
        ensures
            operation.ensures((), result),
    {
        self.power_analysis.protected_operation(operation)
    }

    /// Whether two byte strings are the same, decided in constant time
    /// inside the padding.
    pub fn secure_compare(&self, a: &[u8], b: &[u8]) -> (equal: bool)
        ensures
            equal == (a@ == b@),
    {
        let compare = || -> (equal: bool)
            ensures
                equal == (a@ == b@),
            {
                ConstantTimeOps::constant_time_compare(a, b)
            };
        self.power_analysis.protected_operation(compare)
    }

    /// The byte at `index`, or zero where the table has no such place,
    /// looked up without a trace in the cache and inside the padding.
    pub fn secure_lookup(&self, table: &[u8], index: usize) -> (value: u8)
        ensures
            value == entry_or_zero(table@, index as int),
    {
        let lookup = || -> (value: u8)
            ensures
                value == entry_or_zero(table@, index as int),
            {
                CacheProtection::cache_safe_lookup(table, index)
            };
        self.power_analysis.protected_operation(lookup)
    }
}

impl Default for SideChannelProtection {
    fn default() -> (protection: Self)
        ensures
            protection.padding().pads(),
            protection.padding().masks(),
    {
        SideChannelProtection::new()
    }
}

} // verus!
