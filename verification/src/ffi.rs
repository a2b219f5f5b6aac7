//! The native call boundary: secret buffers that cross it, the status codes
//! it answers with, the entry points of both schemes as functions on plain
//! values, and the counters kept about them.

pub mod memory;
pub mod kyber_ffi;
pub mod dilithium_ffi;
pub mod mldsa_ffi;
pub mod mlkem_ffi;
pub mod monitoring;

pub use crate::ffi::memory::ffi_buffer_free;
pub use crate::ffi::memory::validate_buffer_params;
pub use crate::ffi::memory::FFIBuffer;
pub use crate::ffi::memory::FFIErrorCode;
pub use crate::ffi::mldsa_ffi::mldsa_keypair_free;
pub use crate::ffi::mldsa_ffi::mldsa_keypair_generate;
pub use crate::ffi::mldsa_ffi::mldsa_sign;
pub use crate::ffi::mldsa_ffi::mldsa_verify;
pub use crate::ffi::mldsa_ffi::CMLDSAKeyPair;
pub use crate::ffi::mlkem_ffi::mlkem_decapsulate;
pub use crate::ffi::mlkem_ffi::mlkem_encapsulate;
pub use crate::ffi::mlkem_ffi::mlkem_keypair_free;
pub use crate::ffi::mlkem_ffi::mlkem_keypair_generate;
pub use crate::ffi::mlkem_ffi::CMLKEMKeyPair;
pub use crate::ffi::monitoring::ffi_enable_optimizations;
pub use crate::ffi::monitoring::record_operation_time;
pub use crate::ffi::monitoring::FFIMetrics;
