//! Counters about the operations at the native call boundary: how often
//! each operation ran, how long it took in all, and a few gauges.
//!
//! Times are nanoseconds. Counters wrap around at the end of their range.

use crate::provider::str_eq;
use vstd::prelude::*;

verus! {

/// The sum of two counters, wrapped around at the end of the range.
pub open spec fn wrapped_sum(a: u64, b: u64) -> u64 {
    if a + b > u64::MAX {
        (a + b - u64::MAX - 1) as u64
    } else {
        (a + b) as u64
    }
}

/// The mean of `count` times that sum up to `total`; zero where nothing
/// was counted.
pub open spec fn mean(total: u64, count: u64) -> u64 {
    if count == 0 {
        0
    } else {
        total / count
    }
}

/// Adds to a counter, wrapping around at the end of the range.
pub fn wrapping_sum(a: u64, b: u64) -> (sum: u64)
    ensures
        sum == wrapped_sum(a, b),
{
    if a > u64::MAX - b {
        a - (u64::MAX - b) - 1
    } else {
        a + b
    }
}

/// The mean of `count` times that sum up to `total`; zero where nothing
/// was counted.
pub fn mean_time(total: u64, count: u64) -> (average: u64)
    ensures
        average == mean(total, count),
{
    if count == 0 {
        0
    } else {
        total / count
    }
}

/// The counters of the boundary.
#[derive(Debug, Clone, Copy, PartialEq, Eq, Structural)]
pub struct FFIMetrics {
    pub kyber_keygen_count: u64,
    pub kyber_keygen_total_time: u64,
    pub kyber_encap_count: u64,
    pub kyber_encap_total_time: u64,
    pub kyber_decap_count: u64,
    pub kyber_decap_total_time: u64,
    pub dilithium_keygen_count: u64,
    pub dilithium_keygen_total_time: u64,
    pub dilithium_sign_count: u64,
    pub dilithium_sign_total_time: u64,
    pub dilithium_verify_count: u64,
    pub dilithium_verify_total_time: u64,
    pub memory_usage_bytes: u64,
    pub error_count: u64,
    pub throughput_ops_per_sec: u64,
    pub baseline_violations: u64,
}

/// The counters as the host reads them: the mean time and the count of
/// each operation, and the gauges.
#[derive(Debug, Clone, Copy, PartialEq, Eq, Structural)]
pub struct FFIPerformanceReport {
    pub kyber_keygen_avg_nanos: u64,
    pub kyber_keygen_count: u64,
    pub kyber_encap_avg_nanos: u64,
    pub kyber_encap_count: u64,
    pub kyber_decap_avg_nanos: u64,
    pub kyber_decap_count: u64,
    pub dilithium_keygen_avg_nanos: u64,
    pub dilithium_keygen_count: u64,
    pub dilithium_sign_avg_nanos: u64,
    pub dilithium_sign_count: u64,
    pub dilithium_verify_avg_nanos: u64,
    pub dilithium_verify_count: u64,
    pub memory_usage_bytes: u64,
    pub error_count: u64,
    pub throughput_ops_per_sec: u64,
    pub baseline_violations: u64,
}

impl FFIMetrics {
    /// Counters that have counted nothing.
    pub open spec fn zero() -> FFIMetrics {
        FFIMetrics {
            kyber_keygen_count: 0,
            kyber_keygen_total_time: 0,
            kyber_encap_count: 0,
            kyber_encap_total_time: 0,
            kyber_decap_count: 0,
            kyber_decap_total_time: 0,
            dilithium_keygen_count: 0,
            dilithium_keygen_total_time: 0,
            dilithium_sign_count: 0,
            dilithium_sign_total_time: 0,
            dilithium_verify_count: 0,
            dilithium_verify_total_time: 0,
            memory_usage_bytes: 0,
            error_count: 0,
            throughput_ops_per_sec: 0,
            baseline_violations: 0,
        }
    }

    /// What the host reads from the counters.
    pub open spec fn report(self) -> FFIPerformanceReport {
        FFIPerformanceReport {
            kyber_keygen_avg_nanos: mean(self.kyber_keygen_total_time, self.kyber_keygen_count),
            kyber_keygen_count: self.kyber_keygen_count,
            kyber_encap_avg_nanos: mean(self.kyber_encap_total_time, self.kyber_encap_count),
            kyber_encap_count: self.kyber_encap_count,
            kyber_decap_avg_nanos: mean(self.kyber_decap_total_time, self.kyber_decap_count),
            kyber_decap_count: self.kyber_decap_count,
            dilithium_keygen_avg_nanos: mean(
                self.dilithium_keygen_total_time,
                self.dilithium_keygen_count,
            ),
            dilithium_keygen_count: self.dilithium_keygen_count,
            dilithium_sign_avg_nanos: mean(
                self.dilithium_sign_total_time,
                self.dilithium_sign_count,
            ),
            dilithium_sign_count: self.dilithium_sign_count,
            dilithium_verify_avg_nanos: mean(
                self.dilithium_verify_total_time,
                self.dilithium_verify_count,
            ),
            dilithium_verify_count: self.dilithium_verify_count,
            memory_usage_bytes: self.memory_usage_bytes,
            error_count: self.error_count,
            throughput_ops_per_sec: self.throughput_ops_per_sec,
            baseline_violations: self.baseline_violations,
        }
    }

    /// Counters that have counted nothing.
    pub fn new() -> (metrics: Self)
        ensures
            metrics == FFIMetrics::zero(),
    {
        FFIMetrics {
            kyber_keygen_count: 0,
            kyber_keygen_total_time: 0,
            kyber_encap_count: 0,
            kyber_encap_total_time: 0,
            kyber_decap_count: 0,
            kyber_decap_total_time: 0,
            dilithium_keygen_count: 0,
            dilithium_keygen_total_time: 0,
            dilithium_sign_count: 0,
            dilithium_sign_total_time: 0,
            dilithium_verify_count: 0,
            dilithium_verify_total_time: 0,
            memory_usage_bytes: 0,
            error_count: 0,
            throughput_ops_per_sec: 0,
            baseline_violations: 0,
        }
    }

    /// Counts one key generation of the encapsulation scheme.
    pub fn record_kyber_keygen(&mut self, nanos: u64)
        ensures
            *final(self) == (FFIMetrics {
                kyber_keygen_count: wrapped_sum(old(self).kyber_keygen_count, 1),
                kyber_keygen_total_time: wrapped_sum(old(self).kyber_keygen_total_time, nanos),
                ..*old(self)
            }),
    {
        self.kyber_keygen_count = wrapping_sum(self.kyber_keygen_count, 1);
        self.kyber_keygen_total_time = wrapping_sum(self.kyber_keygen_total_time, nanos);
    }

    /// The mean time of a key generation of the encapsulation scheme.
    pub fn get_kyber_keygen_avg_time(&self) -> (average: u64)
        ensures
            average == mean(self.kyber_keygen_total_time, self.kyber_keygen_count),
    {
        mean_time(self.kyber_keygen_total_time, self.kyber_keygen_count)
    }

    /// Counts one encapsulation.
    pub fn record_kyber_encap(&mut self, nanos: u64)
        ensures
            *final(self) == (FFIMetrics {
                kyber_encap_count: wrapped_sum(old(self).kyber_encap_count, 1),
                kyber_encap_total_time: wrapped_sum(old(self).kyber_encap_total_time, nanos),
                ..*old(self)
            }),
    {
        self.kyber_encap_count = wrapping_sum(self.kyber_encap_count, 1);
        self.kyber_encap_total_time = wrapping_sum(self.kyber_encap_total_time, nanos);
    }

    /// The mean time of an encapsulation.
    pub fn get_kyber_encap_avg_time(&self) -> (average: u64)
        ensures
            average == mean(self.kyber_encap_total_time, self.kyber_encap_count),
    {
        mean_time(self.kyber_encap_total_time, self.kyber_encap_count)
    }

    /// Counts one decapsulation.
    pub fn record_kyber_decap(&mut self, nanos: u64)
        ensures
            *final(self) == (FFIMetrics {
                kyber_decap_count: wrapped_sum(old(self).kyber_decap_count, 1),
                kyber_decap_total_time: wrapped_sum(old(self).kyber_decap_total_time, nanos),
                ..*old(self)
            }),
    {
        self.kyber_decap_count = wrapping_sum(self.kyber_decap_count, 1);
        self.kyber_decap_total_time = wrapping_sum(self.kyber_decap_total_time, nanos);
    }

    /// The mean time of a decapsulation.
    pub fn get_kyber_decap_avg_time(&self) -> (average: u64)
        ensures
            average == mean(self.kyber_decap_total_time, self.kyber_decap_count),
    {
        mean_time(self.kyber_decap_total_time, self.kyber_decap_count)
    }

    /// Counts one signing operation.
    pub fn record_dilithium_sign(&mut self, nanos: u64)
        ensures
            *final(self) == (FFIMetrics {
                dilithium_sign_count: wrapped_sum(old(self).dilithium_sign_count, 1),
                dilithium_sign_total_time: wrapped_sum(old(self).dilithium_sign_total_time, nanos),
                ..*old(self)
            }),
    {
        self.dilithium_sign_count = wrapping_sum(self.dilithium_sign_count, 1);
        self.dilithium_sign_total_time = wrapping_sum(self.dilithium_sign_total_time, nanos);
    }

    /// The mean time of a signing operation.
    pub fn get_dilithium_sign_avg_time(&self) -> (average: u64)
        ensures
            average == mean(self.dilithium_sign_total_time, self.dilithium_sign_count),
    {
        mean_time(self.dilithium_sign_total_time, self.dilithium_sign_count)
    }

    /// Counts one key generation of the signature scheme.
    pub fn record_dilithium_keygen(&mut self, nanos: u64)
        ensures
            *final(self) == (FFIMetrics {
                dilithium_keygen_count: wrapped_sum(old(self).dilithium_keygen_count, 1),
                dilithium_keygen_total_time: wrapped_sum(
                    old(self).dilithium_keygen_total_time,
                    nanos,
                ),
                ..*old(self)
            }),
    {
        self.dilithium_keygen_count = wrapping_sum(self.dilithium_keygen_count, 1);
        self.dilithium_keygen_total_time = wrapping_sum(self.dilithium_keygen_total_time, nanos);
    }

    /// The mean time of a key generation of the signature scheme.
    pub fn get_dilithium_keygen_avg_time(&self) -> (average: u64)
        ensures
            average == mean(self.dilithium_keygen_total_time, self.dilithium_keygen_count),
    {
        mean_time(self.dilithium_keygen_total_time, self.dilithium_keygen_count)
    }

    /// Counts one verification.
    pub fn record_dilithium_verify(&mut self, nanos: u64)
        ensures
            *final(self) == (FFIMetrics {
                dilithium_verify_count: wrapped_sum(old(self).dilithium_verify_count, 1),
                dilithium_verify_total_time: wrapped_sum(
                    old(self).dilithium_verify_total_time,
                    nanos,
                ),
                ..*old(self)
            }),
    {
        self.dilithium_verify_count = wrapping_sum(self.dilithium_verify_count, 1);
        self.dilithium_verify_total_time = wrapping_sum(self.dilithium_verify_total_time, nanos);
    }

    /// The mean time of a verification.
    pub fn get_dilithium_verify_avg_time(&self) -> (average: u64)
        ensures
            average == mean(self.dilithium_verify_total_time, self.dilithium_verify_count),
    {
        mean_time(self.dilithium_verify_total_time, self.dilithium_verify_count)
    }

    /// Sets every counter and gauge back to zero.
    pub fn reset_metrics(&mut self)
        ensures
            *final(self) == FFIMetrics::zero(),
    {
        *self = FFIMetrics::new();
    }

    /// Sets the gauge of memory in use.
    pub fn record_memory_usage(&mut self, bytes: u64)
        ensures
            *final(self) == (FFIMetrics { memory_usage_bytes: bytes, ..*old(self) }),
    {
        self.memory_usage_bytes = bytes;
    }

    /// Counts one error.
    pub fn record_error(&mut self)
        ensures
            *final(self) == (FFIMetrics {
                error_count: wrapped_sum(old(self).error_count, 1),
                ..*old(self)
            }),
    {
        self.error_count = wrapping_sum(self.error_count, 1);
    }

    /// Sets the gauge of operations per second.
    pub fn record_throughput(&mut self, ops_per_sec: u64)
        ensures
            *final(self) == (FFIMetrics { throughput_ops_per_sec: ops_per_sec, ..*old(self) }),
    {
        self.throughput_ops_per_sec = ops_per_sec;
    }

    /// Counts one operation that was slower than its baseline allows.
    pub fn record_baseline_violation(&mut self)
        ensures
            *final(self) == (FFIMetrics {
                baseline_violations: wrapped_sum(old(self).baseline_violations, 1),
                ..*old(self)
            }),
    {
        self.baseline_violations = wrapping_sum(self.baseline_violations, 1);
    }

    /// The gauge of memory in use.
    pub fn get_memory_usage(&self) -> (bytes: u64)
        ensures
            bytes == self.memory_usage_bytes,
    {
        self.memory_usage_bytes
    }

    /// The number of errors counted.
    pub fn get_error_count(&self) -> (count: u64)
        ensures
            count == self.error_count,
    {
        self.error_count
    }

    /// The gauge of operations per second.
    pub fn get_throughput(&self) -> (ops_per_sec: u64)
        ensures
            ops_per_sec == self.throughput_ops_per_sec,
    {
        self.throughput_ops_per_sec
    }

    /// The number of baseline violations counted.
    pub fn get_baseline_violations(&self) -> (count: u64)
        ensures
            count == self.baseline_violations,
    {
        self.baseline_violations
    }
}

impl Default for FFIMetrics {
    fn default() -> (metrics: Self)
        ensures
            metrics == FFIMetrics::zero(),
    {
        FFIMetrics::new()
    }
}

/// The counters after an operation that took `nanos` was recorded under
/// its name; a name that stands for no operation changes nothing.
pub open spec fn recorded(metrics: FFIMetrics, operation: Seq<char>, nanos: u64) -> FFIMetrics {
    if operation == "mlkem_keygen"@ {
        FFIMetrics {
            kyber_keygen_count: wrapped_sum(metrics.kyber_keygen_count, 1),
            kyber_keygen_total_time: wrapped_sum(metrics.kyber_keygen_total_time, nanos),
            ..metrics
        }
    } else if operation == "mlkem_encap"@ {
        FFIMetrics {
            kyber_encap_count: wrapped_sum(metrics.kyber_encap_count, 1),
            kyber_encap_total_time: wrapped_sum(metrics.kyber_encap_total_time, nanos),
            ..metrics
        }
    } else if operation == "mlkem_decap"@ {
        FFIMetrics {
            kyber_decap_count: wrapped_sum(metrics.kyber_decap_count, 1),
            kyber_decap_total_time: wrapped_sum(metrics.kyber_decap_total_time, nanos),
            ..metrics
        }
    } else if operation == "mldsa_keygen"@ {
        FFIMetrics {
            dilithium_keygen_count: wrapped_sum(metrics.dilithium_keygen_count, 1),
            dilithium_keygen_total_time: wrapped_sum(metrics.dilithium_keygen_total_time, nanos),
            ..metrics
        }
    } else if operation == "mldsa_sign"@ {
        FFIMetrics {
            dilithium_sign_count: wrapped_sum(metrics.dilithium_sign_count, 1),
            dilithium_sign_total_time: wrapped_sum(metrics.dilithium_sign_total_time, nanos),
            ..metrics
        }
    } else if operation == "mldsa_verify"@ {
        FFIMetrics {
            dilithium_verify_count: wrapped_sum(metrics.dilithium_verify_count, 1),
            dilithium_verify_total_time: wrapped_sum(metrics.dilithium_verify_total_time, nanos),
            ..metrics
        }
    } else {
        metrics
    }
}

/// Records the time that an operation took under the name of the
/// operation. A name that stands for no operation is passed over.
pub fn record_operation_time(metrics: &mut FFIMetrics, operation: &str, nanos: u64)
    ensures
        *final(metrics) == recorded(*old(metrics), operation@, nanos),
{
    if str_eq(operation, "mlkem_keygen") {
        metrics.record_kyber_keygen(nanos);
    } else if str_eq(operation, "mlkem_encap") {
        metrics.record_kyber_encap(nanos);
    } else if str_eq(operation, "mlkem_decap") {
        metrics.record_kyber_decap(nanos);
    } else if str_eq(operation, "mldsa_keygen") {
        metrics.record_dilithium_keygen(nanos);
    } else if str_eq(operation, "mldsa_sign") {
        metrics.record_dilithium_sign(nanos);
    } else if str_eq(operation, "mldsa_verify") {
        metrics.record_dilithium_verify(nanos);
    }
}

/// Asks for optimizations to be switched on. There are none to switch;
/// every request is answered with success.
pub fn ffi_enable_optimizations(_flags: u32) -> (status: i32)
    ensures
        status == 0,
{
    0
}

/// What the host reads from the counters.
pub fn ffi_get_performance_metrics(metrics: &FFIMetrics) -> (report: FFIPerformanceReport)
    ensures
        report == metrics.report(),
{
    FFIPerformanceReport {
        kyber_keygen_avg_nanos: metrics.get_kyber_keygen_avg_time(),
        kyber_keygen_count: metrics.kyber_keygen_count,
        kyber_encap_avg_nanos: metrics.get_kyber_encap_avg_time(),
        kyber_encap_count: metrics.kyber_encap_count,
        kyber_decap_avg_nanos: metrics.get_kyber_decap_avg_time(),
        kyber_decap_count: metrics.kyber_decap_count,
        dilithium_keygen_avg_nanos: metrics.get_dilithium_keygen_avg_time(),
        dilithium_keygen_count: metrics.dilithium_keygen_count,
        dilithium_sign_avg_nanos: metrics.get_dilithium_sign_avg_time(),
        dilithium_sign_count: metrics.dilithium_sign_count,
        dilithium_verify_avg_nanos: metrics.get_dilithium_verify_avg_time(),
        dilithium_verify_count: metrics.dilithium_verify_count,
        memory_usage_bytes: metrics.get_memory_usage(),
        error_count: metrics.get_error_count(),
        throughput_ops_per_sec: metrics.get_throughput(),
        baseline_violations: metrics.get_baseline_violations(),
    }
}

/// Sets every counter back to zero and answers with success.
pub fn ffi_reset_metrics(metrics: &mut FFIMetrics) -> (status: i32)
    ensures
        status == 0,
        *final(metrics) == FFIMetrics::zero(),
{
    metrics.reset_metrics();
    0
}

/// Sets the gauge of memory in use and answers with success.
pub fn ffi_record_memory_usage(metrics: &mut FFIMetrics, bytes: u64) -> (status: i32)
    ensures
        status == 0,
        *final(metrics) == (FFIMetrics { memory_usage_bytes: bytes, ..*old(metrics) }),
{
    metrics.record_memory_usage(bytes);
    0
}

/// Counts one error and answers with success.
pub fn ffi_record_error(metrics: &mut FFIMetrics) -> (status: i32)
    ensures
        status == 0,
        *final(metrics) == (FFIMetrics {
            error_count: wrapped_sum(old(metrics).error_count, 1),
            ..*old(metrics)
        }),
{
    metrics.record_error();
    0
}

/// Sets the gauge of operations per second and answers with success.
pub fn ffi_record_throughput(metrics: &mut FFIMetrics, ops_per_sec: u64) -> (status: i32)
    ensures
        status == 0,
        *final(metrics) == (FFIMetrics { throughput_ops_per_sec: ops_per_sec, ..*old(metrics) }),
{
    metrics.record_throughput(ops_per_sec);
    0
}

/// Counts one baseline violation and answers with success.
pub fn ffi_record_baseline_violation(metrics: &mut FFIMetrics) -> (status: i32)
    ensures
        status == 0,
        *final(metrics) == (FFIMetrics {
            baseline_violations: wrapped_sum(old(metrics).baseline_violations, 1),
            ..*old(metrics)
        }),
{
    metrics.record_baseline_violation();
    0
}

} // verus!
