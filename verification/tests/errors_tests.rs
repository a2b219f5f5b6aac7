use qynauth_pqc::errors::crypto_bail;
use qynauth_pqc::errors::crypto_ensure;
use qynauth_pqc::errors::log_crypto_operation;
use qynauth_pqc::errors::log_error_with_context;
use qynauth_pqc::errors::log_hardware_optimization;
use qynauth_pqc::errors::log_key_lifecycle_event;
use qynauth_pqc::errors::log_memory_usage;
use qynauth_pqc::errors::log_performance_metrics;
use qynauth_pqc::errors::log_security_event;
use qynauth_pqc::errors::net_allocation;
use qynauth_pqc::errors::CryptoError;
use qynauth_pqc::errors::CryptoResult;
use qynauth_pqc::errors::ErrorReporter;
use qynauth_pqc::errors::ErrorSeverity;
use qynauth_pqc::errors::LogLevel;
use qynauth_pqc::errors::SecurityEvent;
use qynauth_pqc::errors::SecurityEventType;

#[test]
fn test_error_severity() {
    let error = CryptoError::SecurityPolicyViolation {
        policy: "key_rotation".to_string(),
        details: "Key rotation overdue".to_string(),
    };
    assert_eq!(error.severity(), ErrorSeverity::Critical);
    assert_eq!(error.error_code(), "CRYPTO_016");
    assert!(!error.is_recoverable());
}

#[test]
fn test_security_event_creation() {
    let event = SecurityEvent::new(
        SecurityEventType::UnauthorizedAccess,
        ErrorSeverity::High,
        "Failed login attempt".to_string(),
    )
    .with_user_id("test_user".to_string())
    .with_source_ip("192.168.1.1".to_string());

    assert_eq!(event.severity, ErrorSeverity::High);
    assert_eq!(event.user_id, Some("test_user".to_string()));
    assert_eq!(event.source_ip, Some("192.168.1.1".to_string()));
}

#[test]
fn test_error_reporter() {
    let mut reporter = ErrorReporter::new();
    assert_eq!(reporter.get_error_count(), 0);

    let error = CryptoError::KeyNotFound {
        key_id: "test_key".to_string(),
    };
    reporter.report_error(&error, "test context");

    assert_eq!(reporter.get_error_count(), 1);
    assert!(reporter.get_last_error_time().is_some());
}

fn ensure_passes() -> CryptoResult<()> {
    crypto_ensure(
        true,
        CryptoError::InternalError {
            details: "Should not fail".to_string(),
        },
    )?;
    Ok(())
}

fn ensure_fails() -> CryptoResult<()> {
    crypto_ensure(
        false,
        CryptoError::InternalError {
            details: "Should fail".to_string(),
        },
    )?;
    Ok(())
}

#[test]
fn test_crypto_macros() {
    assert!(ensure_passes().is_ok());

    assert!(ensure_fails().is_err());
}

#[test]
fn test_error_display() {
    let error = CryptoError::KeyGenerationFailed {
        reason: "Random number generator failed".to_string(),
    };
    let error_string = error.to_string();
    assert!(error_string.contains("Key generation failed"));
    assert!(error_string.contains("Random number generator failed"));
}

fn every_kind() -> Vec<CryptoError> {
    let s = |text: &str| text.to_string();
    vec![
        CryptoError::KeyGenerationFailed { reason: s("r") },
        CryptoError::InvalidKeyFormat { algorithm: s("a"), details: s("d") },
        CryptoError::SignatureVerificationFailed { key_id: s("k") },
        CryptoError::EncapsulationFailed { reason: s("r") },
        CryptoError::DecapsulationFailed { reason: s("r") },
        CryptoError::KeyNotFound { key_id: s("k") },
        CryptoError::KeyExpired { key_id: s("k"), expiry_time: s("t") },
        CryptoError::KeyRevoked { key_id: s("k"), revocation_time: s("t") },
        CryptoError::UnsupportedAlgorithm { algorithm: s("a") },
        CryptoError::MemoryAllocationFailed { size: 4096 },
        CryptoError::HardwareFeatureUnavailable { feature: s("f") },
        CryptoError::FFIOperationFailed { operation: s("o"), details: s("d") },
        CryptoError::SerializationError { details: s("d") },
        CryptoError::DeserializationError { details: s("d") },
        CryptoError::ConfigurationError { parameter: s("p"), details: s("d") },
        CryptoError::SecurityPolicyViolation { policy: s("p"), details: s("d") },
        CryptoError::RateLimitExceeded { operation: s("o"), limit: 250, window: s("w") },
        CryptoError::ConcurrentOperationConflict { operation: s("o"), resource: s("r") },
        CryptoError::InternalError { details: s("d") },
    ]
}

#[test]
fn every_kind_has_its_code() {
    let codes: Vec<&str> = every_kind().iter().map(|e| e.error_code()).collect();
    assert_eq!(
        codes,
        vec![
            "CRYPTO_001", "CRYPTO_002", "CRYPTO_003", "CRYPTO_004", "CRYPTO_005", "CRYPTO_006",
            "CRYPTO_007", "CRYPTO_008", "CRYPTO_009", "CRYPTO_010", "CRYPTO_011", "CRYPTO_012",
            "CRYPTO_013", "CRYPTO_014", "CRYPTO_015", "CRYPTO_016", "CRYPTO_017", "CRYPTO_018",
            "CRYPTO_999",
        ]
    );
}

#[test]
fn every_kind_has_its_severity() {
    let severities: Vec<ErrorSeverity> = every_kind().iter().map(|e| e.severity()).collect();
    assert_eq!(
        severities,
        vec![
            ErrorSeverity::Medium,
            ErrorSeverity::Medium,
            ErrorSeverity::High,
            ErrorSeverity::High,
            ErrorSeverity::High,
            ErrorSeverity::Medium,
            ErrorSeverity::High,
            ErrorSeverity::Critical,
            ErrorSeverity::Medium,
            ErrorSeverity::Low,
            ErrorSeverity::Low,
            ErrorSeverity::Medium,
            ErrorSeverity::Low,
            ErrorSeverity::Low,
            ErrorSeverity::Low,
            ErrorSeverity::Critical,
            ErrorSeverity::Medium,
            ErrorSeverity::Low,
            ErrorSeverity::Medium,
        ]
    );
}

#[test]
fn four_kinds_cannot_be_recovered_from() {
    let recoverable: Vec<bool> = every_kind().iter().map(|e| e.is_recoverable()).collect();
    assert_eq!(
        recoverable,
        vec![
            true, true, true, true, true, true, true, false, false, true, false, true, true, true,
            true, false, true, true, true,
        ]
    );
}

#[test]
fn every_kind_has_its_message() {
    let messages: Vec<String> = every_kind().iter().map(|e| e.to_string()).collect();
    assert_eq!(
        messages,
        vec![
            "Key generation failed: r",
            "Invalid key format for a: d",
            "Signature verification failed for key ID: k",
            "Encapsulation failed: r",
            "Decapsulation failed: r",
            "Key not found: k",
            "Key expired: k, expired at t",
            "Key revoked: k, revoked at t",
            "Unsupported algorithm: a",
            "Memory allocation failed: 4096 bytes",
            "Hardware feature not available: f",
            "FFI operation failed: o - d",
            "Serialization error: d",
            "Deserialization error: d",
            "Configuration error: p - d",
            "Security policy violation: p - d",
            "Rate limit exceeded: o - 250 operations per w",
            "Concurrent operation conflict: o on r",
            "Internal error: d",
        ]
    );
}

#[test]
fn severities_are_named_in_capitals() {
    assert_eq!(ErrorSeverity::Low.as_str(), "LOW");
    assert_eq!(ErrorSeverity::Medium.as_str(), "MEDIUM");
    assert_eq!(ErrorSeverity::High.as_str(), "HIGH");
    assert_eq!(ErrorSeverity::Critical.to_string(), "CRITICAL");
}

#[test]
fn ensure_hands_back_the_error_it_was_given() {
    let error = CryptoError::KeyNotFound { key_id: "k".to_string() };
    assert_eq!(crypto_ensure(false, error.clone()), Err(error.clone()));
    assert_eq!(crypto_ensure(true, error.clone()), Ok(()));
    let bailed: CryptoResult<u8> = crypto_bail(error.clone());
    assert_eq!(bailed, Err(error));
}

#[test]
fn event_builders_fill_one_field_each() {
    let event = SecurityEvent::at(
        SecurityEventType::KeyCompromise,
        ErrorSeverity::Critical,
        "details".to_string(),
        1234,
    );
    assert_eq!(event.event_type, SecurityEventType::KeyCompromise);
    assert_eq!(event.timestamp, 1234);
    assert_eq!(event.details, "details");
    assert_eq!(event.user_id, None);
    assert_eq!(event.key_id, None);
    assert_eq!(event.operation, None);
    assert_eq!(event.source_ip, None);
    let event = event
        .with_key_id("key".to_string())
        .with_operation("sign".to_string());
    assert_eq!(event.key_id, Some("key".to_string()));
    assert_eq!(event.operation, Some("sign".to_string()));
    assert_eq!(event.user_id, None);
    assert_eq!(event.source_ip, None);
    assert_eq!(event.timestamp, 1234);
}

#[test]
fn critical_error_raises_a_system_anomaly() {
    let mut reporter = ErrorReporter::new();
    assert_eq!(reporter.get_last_error_time(), None);
    let critical = CryptoError::KeyRevoked {
        key_id: "k1".to_string(),
        revocation_time: "noon".to_string(),
    };
    let raised = reporter.report_error_at(&critical, "context", 77).unwrap();
    assert_eq!(raised.event_type, SecurityEventType::SystemAnomaly);
    assert_eq!(raised.severity, ErrorSeverity::Critical);
    assert_eq!(raised.details, "Critical crypto error: Key revoked: k1, revoked at noon");
    assert_eq!(raised.timestamp, 77);
    assert_eq!(reporter.get_error_count(), 1);
    assert_eq!(reporter.get_last_error_time(), Some(77));

    let high = CryptoError::KeyExpired { key_id: "k".to_string(), expiry_time: "t".to_string() };
    assert!(reporter.report_error_at(&high, "context", 78).is_none());
    assert_eq!(reporter.get_error_count(), 2);
    assert_eq!(reporter.get_last_error_time(), Some(78));

    let fresh = ErrorReporter::default();
    assert_eq!(fresh.get_error_count(), 0);
}

#[test]
fn records_are_as_loud_as_what_they_report() {
    let done = log_crypto_operation("sign", "k", 3, true);
    assert_eq!(done.level, LogLevel::Info);
    assert_eq!(done.message, "Crypto operation completed successfully");
    let failed = log_crypto_operation("sign", "k", 3, false);
    assert_eq!(failed.level, LogLevel::Warn);
    assert_eq!(failed.message, "Crypto operation failed");

    let event = |severity| {
        SecurityEvent::at(SecurityEventType::PolicyViolation, severity, "d".to_string(), 1)
    };
    let critical = log_security_event(&event(ErrorSeverity::Critical));
    assert_eq!(critical.level, LogLevel::Error);
    assert_eq!(critical.message, "CRITICAL security event detected");
    let high = log_security_event(&event(ErrorSeverity::High));
    assert_eq!(high.level, LogLevel::Error);
    assert_eq!(high.message, "HIGH severity security event");
    let medium = log_security_event(&event(ErrorSeverity::Medium));
    assert_eq!(medium.level, LogLevel::Warn);
    assert_eq!(medium.message, "MEDIUM severity security event");
    let low = log_security_event(&event(ErrorSeverity::Low));
    assert_eq!(low.level, LogLevel::Info);
    assert_eq!(low.message, "LOW severity security event");

    let timed = log_performance_metrics("op", 5, false);
    assert_eq!(timed.level, LogLevel::Debug);
    assert_eq!(timed.message, "Operation timing recorded");
    let measured = log_performance_metrics("op", 5, true);
    assert_eq!(measured.level, LogLevel::Info);
    assert_eq!(measured.message, "Performance metrics recorded");

    let on = log_hardware_optimization("avx2", true);
    assert_eq!(on.level, LogLevel::Info);
    assert_eq!(on.message, "Hardware optimization enabled");
    let off = log_hardware_optimization("avx2", false);
    assert_eq!(off.level, LogLevel::Warn);
    assert_eq!(off.message, "Hardware optimization not available");

    let error = CryptoError::InternalError { details: "d".to_string() };
    let record = log_error_with_context(&error, "context");
    assert_eq!(record.level, LogLevel::Error);
    assert_eq!(record.message, "Cryptographic error occurred");
    let record = log_key_lifecycle_event("k", "rotated", "ML-KEM-768");
    assert_eq!(record.level, LogLevel::Info);
    assert_eq!(record.message, "Key lifecycle event");
    let record = log_memory_usage("op", 10, 4);
    assert_eq!(record.level, LogLevel::Debug);
    assert_eq!(record.message, "Memory usage tracking");
}

#[test]
fn net_allocation_may_be_negative() {
    assert_eq!(net_allocation(10, 4), 6);
    assert_eq!(net_allocation(4, 10), -6);
    assert_eq!(net_allocation(0, 0), 0);
    assert_eq!(net_allocation(usize::MAX, 0), usize::MAX as i128);
}
