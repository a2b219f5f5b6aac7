//! The taxonomy of errors and security events: every kind of error has a
//! stable code, a severity and a mark that says whether the caller can
//! recover, and a critical error raises a security event.
//!
//! Nothing is written to a log here. What would be logged is returned as a
//! [`LogRecord`] for the caller to emit.

use crate::key_management::current_time;
use crate::text::decimal;
use crate::text::decimal_string;
use crate::text::optional_text;
use vstd::prelude::*;

verus! {

/// What can go wrong in the service.
#[derive(Debug, Clone, PartialEq)]
pub enum CryptoError {
    KeyGenerationFailed { reason: String },
    InvalidKeyFormat { algorithm: String, details: String },
    SignatureVerificationFailed { key_id: String },
    EncapsulationFailed { reason: String },
    DecapsulationFailed { reason: String },
    KeyNotFound { key_id: String },
    KeyExpired { key_id: String, expiry_time: String },
    KeyRevoked { key_id: String, revocation_time: String },
    UnsupportedAlgorithm { algorithm: String },
    MemoryAllocationFailed { size: usize },
    HardwareFeatureUnavailable { feature: String },
    FFIOperationFailed { operation: String, details: String },
    SerializationError { details: String },
    DeserializationError { details: String },
    ConfigurationError { parameter: String, details: String },
    SecurityPolicyViolation { policy: String, details: String },
    RateLimitExceeded { operation: String, limit: u32, window: String },
    ConcurrentOperationConflict { operation: String, resource: String },
    InternalError { details: String },
}

pub type CryptoResult<T> = Result<T, CryptoError>;

/// How grave an error or an event is.
#[derive(Debug, Clone, Copy, PartialEq, Eq, Structural)]
pub enum ErrorSeverity {
    Low,
    Medium,
    High,
    Critical,
}

impl ErrorSeverity {
    /// The name of the severity in capitals.
    pub open spec fn text(self) -> Seq<char> {
        match self {
            ErrorSeverity::Low => "LOW"@,
            ErrorSeverity::Medium => "MEDIUM"@,
            ErrorSeverity::High => "HIGH"@,
            ErrorSeverity::Critical => "CRITICAL"@,
        }
    }

    /// The name of the severity in capitals.
    pub fn as_str(&self) -> (name: &'static str)
        ensures
            name@ == self.text(),
    {
        match self {
            ErrorSeverity::Low => "LOW",
            ErrorSeverity::Medium => "MEDIUM",
            ErrorSeverity::High => "HIGH",
            ErrorSeverity::Critical => "CRITICAL",
        }
    }

    /// The name of the severity in capitals, as an owned text.
    pub fn to_string(&self) -> (name: String)
        ensures
            name@ == self.text(),
    {
        self.as_str().to_owned()
    }
}

impl CryptoError {
    /// The severity of each kind of error.
    pub open spec fn severity_spec(&self) -> ErrorSeverity {
        match self {
            CryptoError::SecurityPolicyViolation { .. } => ErrorSeverity::Critical,
            CryptoError::KeyRevoked { .. } => ErrorSeverity::Critical,
            CryptoError::SignatureVerificationFailed { .. } => ErrorSeverity::High,
            CryptoError::KeyExpired { .. } => ErrorSeverity::High,
            CryptoError::EncapsulationFailed { .. } => ErrorSeverity::High,
            CryptoError::DecapsulationFailed { .. } => ErrorSeverity::High,
            CryptoError::KeyGenerationFailed { .. } => ErrorSeverity::Medium,
            CryptoError::InvalidKeyFormat { .. } => ErrorSeverity::Medium,
            CryptoError::KeyNotFound { .. } => ErrorSeverity::Medium,
            CryptoError::UnsupportedAlgorithm { .. } => ErrorSeverity::Medium,
            CryptoError::FFIOperationFailed { .. } => ErrorSeverity::Medium,
            CryptoError::RateLimitExceeded { .. } => ErrorSeverity::Medium,
            CryptoError::InternalError { .. } => ErrorSeverity::Medium,
            CryptoError::ConcurrentOperationConflict { .. } => ErrorSeverity::Low,
            CryptoError::MemoryAllocationFailed { .. } => ErrorSeverity::Low,
            CryptoError::HardwareFeatureUnavailable { .. } => ErrorSeverity::Low,
            CryptoError::SerializationError { .. } => ErrorSeverity::Low,
            CryptoError::DeserializationError { .. } => ErrorSeverity::Low,
            CryptoError::ConfigurationError { .. } => ErrorSeverity::Low,
        }
    }

    /// The severity of the error.
    pub fn severity(&self) -> (severity: ErrorSeverity)
        ensures
            severity == self.severity_spec(),
    {
        match self {
            CryptoError::SecurityPolicyViolation { .. } => ErrorSeverity::Critical,
            CryptoError::KeyRevoked { .. } => ErrorSeverity::Critical,
            CryptoError::SignatureVerificationFailed { .. } => ErrorSeverity::High,
            CryptoError::KeyExpired { .. } => ErrorSeverity::High,
            CryptoError::EncapsulationFailed { .. } => ErrorSeverity::High,
            CryptoError::DecapsulationFailed { .. } => ErrorSeverity::High,
            CryptoError::KeyGenerationFailed { .. } => ErrorSeverity::Medium,
            CryptoError::InvalidKeyFormat { .. } => ErrorSeverity::Medium,
            CryptoError::KeyNotFound { .. } => ErrorSeverity::Medium,
            CryptoError::UnsupportedAlgorithm { .. } => ErrorSeverity::Medium,
            CryptoError::FFIOperationFailed { .. } => ErrorSeverity::Medium,
            CryptoError::RateLimitExceeded { .. } => ErrorSeverity::Medium,
            CryptoError::ConcurrentOperationConflict { .. } => ErrorSeverity::Low,
            CryptoError::MemoryAllocationFailed { .. } => ErrorSeverity::Low,
            CryptoError::HardwareFeatureUnavailable { .. } => ErrorSeverity::Low,
            CryptoError::SerializationError { .. } => ErrorSeverity::Low,
            CryptoError::DeserializationError { .. } => ErrorSeverity::Low,
            CryptoError::ConfigurationError { .. } => ErrorSeverity::Low,
            CryptoError::InternalError { .. } => ErrorSeverity::Medium,
        }
    }

    /// The stable code of each kind of error.
    pub open spec fn error_code_spec(&self) -> Seq<char> {
        match self {
            CryptoError::KeyGenerationFailed { .. } => "CRYPTO_001"@,
            CryptoError::InvalidKeyFormat { .. } => "CRYPTO_002"@,
            CryptoError::SignatureVerificationFailed { .. } => "CRYPTO_003"@,
            CryptoError::EncapsulationFailed { .. } => "CRYPTO_004"@,
            CryptoError::DecapsulationFailed { .. } => "CRYPTO_005"@,
            CryptoError::KeyNotFound { .. } => "CRYPTO_006"@,
            CryptoError::KeyExpired { .. } => "CRYPTO_007"@,
            CryptoError::KeyRevoked { .. } => "CRYPTO_008"@,
            CryptoError::UnsupportedAlgorithm { .. } => "CRYPTO_009"@,
            CryptoError::MemoryAllocationFailed { .. } => "CRYPTO_010"@,
            CryptoError::HardwareFeatureUnavailable { .. } => "CRYPTO_011"@,
            CryptoError::FFIOperationFailed { .. } => "CRYPTO_012"@,
            CryptoError::SerializationError { .. } => "CRYPTO_013"@,
            CryptoError::DeserializationError { .. } => "CRYPTO_014"@,
            CryptoError::ConfigurationError { .. } => "CRYPTO_015"@,
            CryptoError::SecurityPolicyViolation { .. } => "CRYPTO_016"@,
            CryptoError::RateLimitExceeded { .. } => "CRYPTO_017"@,
            CryptoError::ConcurrentOperationConflict { .. } => "CRYPTO_018"@,
            CryptoError::InternalError { .. } => "CRYPTO_999"@,
        }
    }

    /// The stable code of the error.
    pub fn error_code(&self) -> (code: &'static str)
        ensures
            code@ == self.error_code_spec(),
    {
        match self {
            CryptoError::KeyGenerationFailed { .. } => "CRYPTO_001",
            CryptoError::InvalidKeyFormat { .. } => "CRYPTO_002",
            CryptoError::SignatureVerificationFailed { .. } => "CRYPTO_003",
            CryptoError::EncapsulationFailed { .. } => "CRYPTO_004",
            CryptoError::DecapsulationFailed { .. } => "CRYPTO_005",
            CryptoError::KeyNotFound { .. } => "CRYPTO_006",
            CryptoError::KeyExpired { .. } => "CRYPTO_007",
            CryptoError::KeyRevoked { .. } => "CRYPTO_008",
            CryptoError::UnsupportedAlgorithm { .. } => "CRYPTO_009",
            CryptoError::MemoryAllocationFailed { .. } => "CRYPTO_010",
            CryptoError::HardwareFeatureUnavailable { .. } => "CRYPTO_011",
            CryptoError::FFIOperationFailed { .. } => "CRYPTO_012",
            CryptoError::SerializationError { .. } => "CRYPTO_013",
            CryptoError::DeserializationError { .. } => "CRYPTO_014",
            CryptoError::ConfigurationError { .. } => "CRYPTO_015",
            CryptoError::SecurityPolicyViolation { .. } => "CRYPTO_016",
            CryptoError::RateLimitExceeded { .. } => "CRYPTO_017",
            CryptoError::ConcurrentOperationConflict { .. } => "CRYPTO_018",
            CryptoError::InternalError { .. } => "CRYPTO_999",
        }
    }

    /// Whether the caller can recover from a kind of error: from every
    /// kind but a revoked key, a violated security policy, an unsupported
    /// algorithm and a missing hardware feature.
    pub open spec fn is_recoverable_spec(&self) -> bool {
        !(self is KeyRevoked || self is SecurityPolicyViolation || self is UnsupportedAlgorithm
            || self is HardwareFeatureUnavailable)
    }

    /// Whether the caller can recover from the error.
    pub fn is_recoverable(&self) -> (recoverable: bool)
        ensures
            recoverable == self.is_recoverable_spec(),
    {
        match self {
            CryptoError::KeyRevoked { .. } => false,
            CryptoError::SecurityPolicyViolation { .. } => false,
            CryptoError::UnsupportedAlgorithm { .. } => false,
            CryptoError::HardwareFeatureUnavailable { .. } => false,
            CryptoError::RateLimitExceeded { .. } => true,
            CryptoError::ConcurrentOperationConflict { .. } => true,
            CryptoError::MemoryAllocationFailed { .. } => true,
            CryptoError::KeyExpired { .. } => true,
            _ => true,
        }
    }

    /// The message of the error in five parts: fixed words, a value, fixed
    /// words, a value, fixed words. Parts that a kind does not have are empty.
    pub open spec fn parts(&self) -> (Seq<char>, Seq<char>, Seq<char>, Seq<char>, Seq<char>) {
        match self {
            CryptoError::KeyGenerationFailed { reason } => (
                "Key generation failed: "@,
                reason@,
                ""@,
                ""@,
                ""@,
            ),
            CryptoError::InvalidKeyFormat { algorithm, details } => (
                "Invalid key format for "@,
                algorithm@,
                ": "@,
                details@,
                ""@,
            ),
            CryptoError::SignatureVerificationFailed { key_id } => (
                "Signature verification failed for key ID: "@,
                key_id@,
                ""@,
                ""@,
                ""@,
            ),
            CryptoError::EncapsulationFailed { reason } => (
                "Encapsulation failed: "@,
                reason@,
                ""@,
                ""@,
                ""@,
            ),
            CryptoError::DecapsulationFailed { reason } => (
                "Decapsulation failed: "@,
                reason@,
                ""@,
                ""@,
                ""@,
            ),
            CryptoError::KeyNotFound { key_id } => ("Key not found: "@, key_id@, ""@, ""@, ""@),
            CryptoError::KeyExpired { key_id, expiry_time } => (
                "Key expired: "@,
                key_id@,
                ", expired at "@,
                expiry_time@,
                ""@,
            ),
            CryptoError::KeyRevoked { key_id, revocation_time } => (
                "Key revoked: "@,
                key_id@,
                ", revoked at "@,
                revocation_time@,
                ""@,
            ),
            CryptoError::UnsupportedAlgorithm { algorithm } => (
                "Unsupported algorithm: "@,
                algorithm@,
                ""@,
                ""@,
                ""@,
            ),
            CryptoError::MemoryAllocationFailed { size } => (
                "Memory allocation failed: "@,
                decimal(*size as nat),
                " bytes"@,
                ""@,
                ""@,
            ),
            CryptoError::HardwareFeatureUnavailable { feature } => (
                "Hardware feature not available: "@,
                feature@,
                ""@,
                ""@,
                ""@,
            ),
            CryptoError::FFIOperationFailed { operation, details } => (
                "FFI operation failed: "@,
                operation@,
                " - "@,
                details@,
                ""@,
            ),
            CryptoError::SerializationError { details } => (
                "Serialization error: "@,
                details@,
                ""@,
                ""@,
                ""@,
            ),
            CryptoError::DeserializationError { details } => (
                "Deserialization error: "@,
                details@,
                ""@,
                ""@,
                ""@,
            ),
            CryptoError::ConfigurationError { parameter, details } => (
                "Configuration error: "@,
                parameter@,
                " - "@,
                details@,
                ""@,
            ),
            CryptoError::SecurityPolicyViolation { policy, details } => (
                "Security policy violation: "@,
                policy@,
                " - "@,
                details@,
                ""@,
            ),
            CryptoError::RateLimitExceeded { operation, limit, window } => (
                "Rate limit exceeded: "@ + operation@ + " - "@,
                decimal(*limit as nat),
                " operations per "@,
                window@,
                ""@,
            ),
            CryptoError::ConcurrentOperationConflict { operation, resource } => (
                "Concurrent operation conflict: "@,
                operation@,
                " on "@,
                resource@,
                ""@,
            ),
            CryptoError::InternalError { details } => ("Internal error: "@, details@, ""@, ""@, ""@),
        }
    }

    /// The message of the error as a reader sees it.
    pub open spec fn text(&self) -> Seq<char> {
        self.parts().0 + self.parts().1 + self.parts().2 + self.parts().3 + self.parts().4
    }

    /// The message of the error.
    pub fn to_string(&self) -> (message: String)
        ensures
            message@ == self.text(),
    {
        let mut message: String = String::new();
        match self {
            CryptoError::KeyGenerationFailed { reason } => {
                message.append("Key generation failed: ");
                message.append(reason.as_str());
                message.append("");
                message.append("");
                message.append("");
            },
            CryptoError::InvalidKeyFormat { algorithm, details } => {
                message.append("Invalid key format for ");
                message.append(algorithm.as_str());
                message.append(": ");
                message.append(details.as_str());
                message.append("");
            },
            CryptoError::SignatureVerificationFailed { key_id } => {
                message.append("Signature verification failed for key ID: ");
                message.append(key_id.as_str());
                message.append("");
                message.append("");
                message.append("");
            },
            CryptoError::EncapsulationFailed { reason } => {
                message.append("Encapsulation failed: ");
                message.append(reason.as_str());
                message.append("");
                message.append("");
                message.append("");
            },
            CryptoError::DecapsulationFailed { reason } => {
                message.append("Decapsulation failed: ");
                message.append(reason.as_str());
                message.append("");
                message.append("");
                message.append("");
            },
            CryptoError::KeyNotFound { key_id } => {
                message.append("Key not found: ");
                message.append(key_id.as_str());
                message.append("");
                message.append("");
                message.append("");
            },
            CryptoError::KeyExpired { key_id, expiry_time } => {
                message.append("Key expired: ");
                message.append(key_id.as_str());
                message.append(", expired at ");
                message.append(expiry_time.as_str());
                message.append("");
            },
            CryptoError::KeyRevoked { key_id, revocation_time } => {
                message.append("Key revoked: ");
                message.append(key_id.as_str());
                message.append(", revoked at ");
                message.append(revocation_time.as_str());
                message.append("");
            },
            CryptoError::UnsupportedAlgorithm { algorithm } => {
                message.append("Unsupported algorithm: ");
                message.append(algorithm.as_str());
                message.append("");
                message.append("");
                message.append("");
            },
            CryptoError::MemoryAllocationFailed { size } => {
                let numeral: String = decimal_string(*size as u64);
                message.append("Memory allocation failed: ");
                message.append(numeral.as_str());
                message.append(" bytes");
                message.append("");
                message.append("");
            },
            CryptoError::HardwareFeatureUnavailable { feature } => {
                message.append("Hardware feature not available: ");
                message.append(feature.as_str());
                message.append("");
                message.append("");
                message.append("");
            },
            CryptoError::FFIOperationFailed { operation, details } => {
                message.append("FFI operation failed: ");
                message.append(operation.as_str());
                message.append(" - ");
                message.append(details.as_str());
                message.append("");
            },
            CryptoError::SerializationError { details } => {
                message.append("Serialization error: ");
                message.append(details.as_str());
                message.append("");
                message.append("");
                message.append("");
            },
            CryptoError::DeserializationError { details } => {
                message.append("Deserialization error: ");
                message.append(details.as_str());
                message.append("");
                message.append("");
                message.append("");
            },
            CryptoError::ConfigurationError { parameter, details } => {
                message.append("Configuration error: ");
                message.append(parameter.as_str());
                message.append(" - ");
                message.append(details.as_str());
                message.append("");
            },
            CryptoError::SecurityPolicyViolation { policy, details } => {
                message.append("Security policy violation: ");
                message.append(policy.as_str());
                message.append(" - ");
                message.append(details.as_str());
                message.append("");
            },
            CryptoError::RateLimitExceeded { operation, limit, window } => {
                let numeral: String = decimal_string(*limit as u64);
                message.append("Rate limit exceeded: ");
                message.append(operation.as_str());
                message.append(" - ");
                message.append(numeral.as_str());
                message.append(" operations per ");
                message.append(window.as_str());
                message.append("");
            },
            CryptoError::ConcurrentOperationConflict { operation, resource } => {
                message.append("Concurrent operation conflict: ");
                message.append(operation.as_str());
                message.append(" on ");
                message.append(resource.as_str());
                message.append("");
            },
            CryptoError::InternalError { details } => {
                message.append("Internal error: ");
                message.append(details.as_str());
                message.append("");
                message.append("");
                message.append("");
            },
        }
        assert(message@ =~= self.text());
        message
    }
}

/// Passes where `condition` holds and fails with `error` where it does not.
pub fn crypto_ensure(condition: bool, error: CryptoError) -> (result: CryptoResult<()>)
    ensures
        condition ==> result is Ok,
        !condition ==> result == Err::<(), CryptoError>(error),
{
    if condition {
        Ok(())
    } else {
        Err(error)
    }
}

/// Fails with `error`.
pub fn crypto_bail<T>(error: CryptoError) -> (result: CryptoResult<T>)
    ensures
        result == Err::<T, CryptoError>(error),
{
    Err(error)
}

/// The kinds of security events.
#[derive(Debug, Clone, Copy, PartialEq, Eq, Structural)]
pub enum SecurityEventType {
    KeyCompromise,
    UnauthorizedAccess,
    SignatureVerificationFailure,
    RateLimitViolation,
    PolicyViolation,
    SuspiciousActivity,
    SystemAnomaly,
}

/// Something that happened and bears on security.
#[derive(Debug, Clone)]
pub struct SecurityEvent {
    pub event_type: SecurityEventType,
    pub severity: ErrorSeverity,
    pub timestamp: u64,
    pub details: String,
    pub user_id: Option<String>,
    pub key_id: Option<String>,
    pub operation: Option<String>,
    pub source_ip: Option<String>,
}

/// A security event as plain values.
pub struct SecurityEventView {
    pub event_type: SecurityEventType,
    pub severity: ErrorSeverity,
    pub timestamp: u64,
    pub details: Seq<char>,
    pub user_id: Option<Seq<char>>,
    pub key_id: Option<Seq<char>>,
    pub operation: Option<Seq<char>>,
    pub source_ip: Option<Seq<char>>,
}

impl View for SecurityEvent {
    type V = SecurityEventView;

    open spec fn view(&self) -> SecurityEventView {
        SecurityEventView {
            event_type: self.event_type,
            severity: self.severity,
            timestamp: self.timestamp,
            details: self.details@,
            user_id: optional_text(self.user_id),
            key_id: optional_text(self.key_id),
            operation: optional_text(self.operation),
            source_ip: optional_text(self.source_ip),
        }
    }
}

impl SecurityEventView {
    /// An event at `timestamp` about which nothing more is known.
    pub open spec fn bare(
        event_type: SecurityEventType,
        severity: ErrorSeverity,
        details: Seq<char>,
        timestamp: u64,
    ) -> SecurityEventView {
        SecurityEventView {
            event_type,
            severity,
            timestamp,
            details,
            user_id: None,
            key_id: None,
            operation: None,
            source_ip: None,
        }
    }
}

impl SecurityEvent {
    /// An event that happened at `timestamp`.
    pub fn at(event_type: SecurityEventType, severity: ErrorSeverity, details: String, timestamp: u64) -> (event: Self)
        ensures
            event@ == SecurityEventView::bare(event_type, severity, details@, timestamp),
    {
        SecurityEvent {
            event_type,
            severity,
            timestamp,
            details,
            user_id: None,
            key_id: None,
            operation: None,
            source_ip: None,
        }
    }

    /// An event that happens now. A clock that cannot be read counts as
    /// the epoch.
    pub fn new(event_type: SecurityEventType, severity: ErrorSeverity, details: String) -> (event: Self)
        ensures
            event@ == SecurityEventView::bare(event_type, severity, details@, event@.timestamp),
    {
        let now: u64 = current_time();
        SecurityEvent::at(event_type, severity, details, now)
    }

    /// The event with the user it concerns.
    pub fn with_user_id(self, user_id: String) -> (event: Self)
        ensures
            event@ == (SecurityEventView { user_id: Some(user_id@), ..self@ }),
    {
        let mut event = self;
        event.user_id = Some(user_id);
        event
    }

    /// The event with the key it concerns.
    pub fn with_key_id(self, key_id: String) -> (event: Self)
        ensures
            event@ == (SecurityEventView { key_id: Some(key_id@), ..self@ }),
    {
        let mut event = self;
        event.key_id = Some(key_id);
        event
    }

    /// The event with the operation it concerns.
    pub fn with_operation(self, operation: String) -> (event: Self)
        ensures
            event@ == (SecurityEventView { operation: Some(operation@), ..self@ }),
    {
        let mut event = self;
        event.operation = Some(operation);
        event
    }

    /// The event with the address it came from.
    pub fn with_source_ip(self, source_ip: String) -> (event: Self)
        ensures
            event@ == (SecurityEventView { source_ip: Some(source_ip@), ..self@ }),
    {
        let mut event = self;
        event.source_ip = Some(source_ip);
        event
    }
}

/// How loud a log record is.
#[derive(Debug, Clone, Copy, PartialEq, Eq, Structural)]
pub enum LogLevel {
    Error,
    Warn,
    Info,
    Debug,
}

/// What is to be logged: how loud, and the words.
#[derive(Debug, Clone, Copy, PartialEq, Eq)]
pub struct LogRecord {
    pub level: LogLevel,
    pub message: &'static str,
}

/// The record of a cryptographic operation: an operation that succeeded is
/// information, one that failed is a warning.
pub fn log_crypto_operation(_operation: &str, _key_id: &str, _duration_ms: u64, success: bool) -> (record: LogRecord)
    ensures
        success ==> record.level == LogLevel::Info && record.message@
            == "Crypto operation completed successfully"@,
        !success ==> record.level == LogLevel::Warn && record.message@ == "Crypto operation failed"@,
{
    if success {
        LogRecord { level: LogLevel::Info, message: "Crypto operation completed successfully" }
    } else {
        LogRecord { level: LogLevel::Warn, message: "Crypto operation failed" }
    }
}

/// The level at which an event of a severity is logged: critical and high
/// events are errors, medium events warnings, low events information.
pub open spec fn event_level(severity: ErrorSeverity) -> LogLevel {
    match severity {
        ErrorSeverity::Critical => LogLevel::Error,
        ErrorSeverity::High => LogLevel::Error,
        ErrorSeverity::Medium => LogLevel::Warn,
        ErrorSeverity::Low => LogLevel::Info,
    }
}

/// The words with which an event of a severity is logged.
pub open spec fn event_words(severity: ErrorSeverity) -> Seq<char> {
    match severity {
        ErrorSeverity::Critical => "CRITICAL security event detected"@,
        ErrorSeverity::High => "HIGH severity security event"@,
        ErrorSeverity::Medium => "MEDIUM severity security event"@,
        ErrorSeverity::Low => "LOW severity security event"@,
    }
}

/// The record of a security event, as loud as the event is grave.
pub fn log_security_event(event: &SecurityEvent) -> (record: LogRecord)
    ensures
        record.level == event_level(event.severity),
        record.message@ == event_words(event.severity),
{
    match event.severity {
        ErrorSeverity::Critical => LogRecord {
            level: LogLevel::Error,
            message: "CRITICAL security event detected",
        },
        ErrorSeverity::High => LogRecord {
            level: LogLevel::Error,
            message: "HIGH severity security event",
        },
        ErrorSeverity::Medium => LogRecord {
            level: LogLevel::Warn,
            message: "MEDIUM severity security event",
        },
        ErrorSeverity::Low => LogRecord {
            level: LogLevel::Info,
            message: "LOW severity security event",
        },
    }
}

/// The record of a measured operation: information where the throughput
/// is known, a note for debugging where only the time is.
pub fn log_performance_metrics(_operation: &str, _duration_ms: u64, throughput_known: bool) -> (record: LogRecord)
    ensures
        throughput_known ==> record.level == LogLevel::Info && record.message@
            == "Performance metrics recorded"@,
        !throughput_known ==> record.level == LogLevel::Debug && record.message@
            == "Operation timing recorded"@,
{
    if throughput_known {
        LogRecord { level: LogLevel::Info, message: "Performance metrics recorded" }
    } else {
        LogRecord { level: LogLevel::Debug, message: "Operation timing recorded" }
    }
}

/// The record of a hardware feature: information where it is switched
/// on, a warning where it is not to be had.
pub fn log_hardware_optimization(_feature: &str, enabled: bool) -> (record: LogRecord)
    ensures
        enabled ==> record.level == LogLevel::Info && record.message@ == "Hardware optimization enabled"@,
        !enabled ==> record.level == LogLevel::Warn && record.message@
            == "Hardware optimization not available"@,
{
    if enabled {
        LogRecord { level: LogLevel::Info, message: "Hardware optimization enabled" }
    } else {
        LogRecord { level: LogLevel::Warn, message: "Hardware optimization not available" }
    }
}

/// The record of an error in its context: always an error.
pub fn log_error_with_context(_error: &CryptoError, _context: &str) -> (record: LogRecord)
    ensures
        record.level == LogLevel::Error,
        record.message@ == "Cryptographic error occurred"@,
{
    LogRecord { level: LogLevel::Error, message: "Cryptographic error occurred" }
}

/// The record of a step in the life of a key: always information.
pub fn log_key_lifecycle_event(_key_id: &str, _event: &str, _algorithm: &str) -> (record: LogRecord)
    ensures
        record.level == LogLevel::Info,
        record.message@ == "Key lifecycle event"@,
{
    LogRecord { level: LogLevel::Info, message: "Key lifecycle event" }
}

/// The bytes that stay allocated after `bytes_freed` of `bytes_allocated`
/// were freed; negative where more was freed than allocated.
pub fn net_allocation(bytes_allocated: usize, bytes_freed: usize) -> (net: i128)
    ensures
        net == bytes_allocated - bytes_freed,
{
    bytes_allocated as i128 - bytes_freed as i128
}

/// The record of memory use: always for debugging.
pub fn log_memory_usage(_operation: &str, _bytes_allocated: usize, _bytes_freed: usize) -> (record: LogRecord)
    ensures
        record.level == LogLevel::Debug,
        record.message@ == "Memory usage tracking"@,
{
    LogRecord { level: LogLevel::Debug, message: "Memory usage tracking" }
}

/// Counts the errors that were reported and keeps the time of the last.
#[derive(Debug)]
pub struct ErrorReporter {
    error_count: u64,
    last_error_time: Option<u64>,
}

impl ErrorReporter {
    /// The number of errors reported so far, wrapped around at the end of
    /// the range.
    pub closed spec fn count(&self) -> u64 {
        self.error_count
    }

    /// The time of the last report, if there was one.
    pub closed spec fn last_time(&self) -> Option<u64> {
        self.last_error_time
    }

    /// A reporter that has seen no error.
    pub fn new() -> (reporter: Self)
        ensures
            reporter.count() == 0,
            reporter.last_time() is None,
    {
        ErrorReporter { error_count: 0, last_error_time: None }
    }

    /// Reports an error at `now`: the error is counted, the time is kept,
    /// and a critical error raises a system anomaly event that carries the
    /// message of the error. Other errors raise no event.
    pub fn report_error_at(&mut self, error: &CryptoError, _context: &str, now: u64) -> (raised: Option<
        SecurityEvent,
    >)
        ensures
            final(self).count() == if old(self).count() == u64::MAX {
                0
            } else {
                (old(self).count() + 1) as u64
            },
            final(self).last_time() == Some(now),
            error.severity_spec() == ErrorSeverity::Critical ==> (raised matches Some(event)
                && event@ == SecurityEventView::bare(
                SecurityEventType::SystemAnomaly,
                ErrorSeverity::Critical,
                "Critical crypto error: "@ + error.text(),
                now,
            )),
            error.severity_spec() != ErrorSeverity::Critical ==> raised is None,
    {
        self.error_count = if self.error_count == u64::MAX {
            0
        } else {
            self.error_count + 1
        };
        self.last_error_time = Some(now);
        if error.severity() == ErrorSeverity::Critical {
            let text: String = error.to_string();
            let mut details: String = "Critical crypto error: ".to_owned();
            details.append(text.as_str());
            Some(SecurityEvent::at(SecurityEventType::SystemAnomaly, ErrorSeverity::Critical, details, now))
        } else {
            None
        }
    }

    /// Reports an error now: the error is counted, the time is kept, and a
    /// critical error, and no other, raises a system anomaly event.
    pub fn report_error(&mut self, error: &CryptoError, context: &str) -> (raised: Option<SecurityEvent>)
        ensures
            final(self).count() == if old(self).count() == u64::MAX {
                0
            } else {
                (old(self).count() + 1) as u64
            },
            final(self).last_time() is Some,
            error.severity_spec() == ErrorSeverity::Critical ==> (raised matches Some(event)
                && event@ == SecurityEventView::bare(
                SecurityEventType::SystemAnomaly,
                ErrorSeverity::Critical,
                "Critical crypto error: "@ + error.text(),
                event@.timestamp,
            )),
            error.severity_spec() != ErrorSeverity::Critical ==> raised is None,
    {
        let now: u64 = current_time();
        self.report_error_at(error, context, now)
    }

    /// The number of errors reported so far.
    pub fn get_error_count(&self) -> (count: u64)
        ensures
            count == self.count(),
    {
        self.error_count
    }

    /// The time of the last report in seconds since the epoch, if there
    /// was a report.
    pub fn get_last_error_time(&self) -> (time: Option<u64>)
        ensures
            time == self.last_time(),
    {
        self.last_error_time
    }
}

impl Default for ErrorReporter {
    fn default() -> (reporter: Self)
        ensures
            reporter.count() == 0,
            reporter.last_time() is None,
    {
        ErrorReporter::new()
    }
}

} // verus!
