use qynauth_pqc::dilithium::create_default_dilithium_engine;
use qynauth_pqc::dilithium::DilithiumConfig;
use qynauth_pqc::dilithium::DilithiumEngine;
use qynauth_pqc::kyber::create_default_kyber_engine;
use qynauth_pqc::kyber::KyberConfig;
use qynauth_pqc::kyber::KyberEngine;
use qynauth_pqc::kyber::KyberMetrics;
use qynauth_pqc::PQCError;

#[test]
fn dilithium_test_dilithium_keypair_generation() {
    let mut engine = DilithiumEngine::new(DilithiumConfig::default());
    let keypair = engine.generate_keypair().unwrap();

    assert_eq!(keypair.public_key.len(), 1952);
    assert_eq!(keypair.private_key.expose_secret().len(), 4032);
    assert_eq!(keypair.algorithm, "Dilithium-3");
}

#[test]
fn test_dilithium_sign_verify() {
    let mut engine = DilithiumEngine::new(DilithiumConfig::default());
    let keypair = engine.generate_keypair().unwrap();
    let message = b"Test message for Dilithium-3 signature";

    let signature_result = engine.sign(keypair.private_key.expose_secret(), message).unwrap();
    assert_eq!(signature_result.signature.expose_secret().len(), 3309);

    let is_valid = engine
        .verify(&keypair.public_key, message, signature_result.signature.expose_secret())
        .unwrap();
    assert!(is_valid);
}

#[test]
fn test_dilithium_batch_signing() {
    let mut engine = DilithiumEngine::new(DilithiumConfig::default());
    let keypair = engine.generate_keypair().unwrap();

    let messages = vec![
        b"Message 1".as_slice(),
        b"Message 2".as_slice(),
        b"Message 3".as_slice(),
    ];

    let signatures = engine.batch_sign(keypair.private_key.expose_secret(), &messages).unwrap();
    assert_eq!(signatures.len(), 3);

    for (i, signature) in signatures.iter().enumerate() {
        let is_valid = engine
            .verify(&keypair.public_key, messages[i], signature.signature.expose_secret())
            .unwrap();
        assert!(is_valid);
    }
}

#[test]
fn test_dilithium_invalid_key_sizes() {
    let mut engine = DilithiumEngine::new(DilithiumConfig::default());

    let invalid_private_key = vec![0u8; 100];
    let message = b"test message";
    let result = engine.sign(&invalid_private_key, message);
    assert!(result.is_err());

    let invalid_public_key = vec![0u8; 100];
    let valid_signature = vec![0u8; 3309];
    let result = engine.verify(&invalid_public_key, message, &valid_signature);
    assert!(result.is_err());

    let valid_public_key = vec![0u8; 1952];
    let invalid_signature = vec![0u8; 100];
    let result = engine.verify(&valid_public_key, message, &invalid_signature);
    assert!(result.is_err());
}

#[test]
fn dilithium_refusals_name_the_size_they_got() {
    let mut engine = create_default_dilithium_engine();
    match engine.sign(&[0u8; 100], b"m") {
        Err(PQCError::InvalidPrivateKey(text)) => {
            assert_eq!(text, "Invalid Dilithium-3 private key size: expected 4032, got 100")
        }
        _ => panic!("a key of 100 bytes must be refused"),
    }
    match engine.verify(&[0u8; 7], b"m", &[0u8; 3309]) {
        Err(PQCError::InvalidPublicKey(text)) => {
            assert_eq!(text, "Invalid Dilithium-3 public key size: expected 1952, got 7")
        }
        _ => panic!("a key of 7 bytes must be refused"),
    }
    match engine.verify(&[0u8; 1952], b"m", &[0u8; 3310]) {
        Err(PQCError::InvalidSignature(text)) => {
            assert_eq!(text, "Invalid Dilithium-3 signature size: expected 3309, got 3310")
        }
        _ => panic!("a signature of 3310 bytes must be refused"),
    }
    assert_eq!(engine.get_operations_count(), 0);
}

#[test]
fn dilithium_counts_what_it_carried_out() {
    let mut engine = create_default_dilithium_engine();
    assert_eq!(engine.get_operations_count(), 0);
    let keypair = engine.generate_keypair().unwrap();
    assert_eq!(engine.get_operations_count(), 1);
    assert_eq!(keypair.key_size, 5984);
    assert_eq!(keypair.security_level, 3);
    let signature = engine.sign(keypair.private_key.expose_secret(), b"m").unwrap();
    assert_eq!(engine.get_operations_count(), 2);
    assert_eq!(signature.algorithm, "Dilithium-3");
    assert_eq!(signature.signature_size, 3309);
    let wrong = engine
        .verify(&keypair.public_key, b"n", signature.signature.expose_secret())
        .unwrap();
    assert!(!wrong);
    assert_eq!(engine.get_operations_count(), 3);
    engine.reset_metrics();
    assert_eq!(engine.get_operations_count(), 0);
}

#[test]
fn dilithium_clock_that_cannot_be_read_stops_the_work() {
    let mut engine = create_default_dilithium_engine();
    match engine.generate_keypair_at(None) {
        Err(PQCError::KeyGenerationFailed(text)) => {
            assert_eq!(text, "Time error: second time provided was later than self")
        }
        _ => panic!("no key without a clock"),
    }
    assert_eq!(engine.get_operations_count(), 0);
    let keypair = engine.generate_keypair_at(Some(42)).unwrap();
    assert_eq!(keypair.created_at, 42);
    match engine.sign_at(keypair.private_key.expose_secret(), b"m", None) {
        Err(PQCError::KeyGenerationFailed(_)) => {}
        _ => panic!("no signature without a clock"),
    }
    assert_eq!(engine.get_operations_count(), 1);
    let signature = engine.sign_at(keypair.private_key.expose_secret(), b"m", Some(43)).unwrap();
    assert_eq!(signature.created_at, 43);
    assert_eq!(engine.get_operations_count(), 2);
}

#[test]
fn dilithium_batch_of_nothing_and_batch_with_a_bad_key() {
    let mut engine = create_default_dilithium_engine();
    let none: Vec<&[u8]> = Vec::new();
    assert_eq!(engine.batch_sign(&[0u8; 5], &none).unwrap().len(), 0);
    let messages = vec![b"a".as_slice()];
    assert!(engine.batch_sign(&[0u8; 5], &messages).is_err());
    assert_eq!(engine.get_operations_count(), 0);
}

#[test]
fn dilithium_validates_pairs_that_belong_together() {
    let mut engine = create_default_dilithium_engine();
    let first = engine.generate_keypair().unwrap();
    let second = engine.generate_keypair().unwrap();
    assert!(engine
        .validate_keypair(&first.public_key, first.private_key.expose_secret())
        .unwrap());
    assert!(!engine
        .validate_keypair(&second.public_key, first.private_key.expose_secret())
        .unwrap());
    assert!(!engine.validate_keypair(&[0u8; 10], first.private_key.expose_secret()).unwrap());
    assert!(!engine.validate_keypair(&first.public_key, &[0u8; 4000]).unwrap());
}

#[test]
fn dilithium_describes_itself() {
    let engine = create_default_dilithium_engine();
    assert_eq!(
        engine.get_algorithm_info(),
        "Dilithium-3 (ML-DSA-65) - NIST PQC Standard\nPublic Key Size: 1952 bytes\nPrivate Key Size: 4032 bytes\nSignature Size: 3309 bytes\nSecurity Level: NIST Level 3"
    );
    let config = DilithiumConfig::default();
    assert!(config.timing_resistance);
    assert!(config.memory_protection);
    assert!(config.performance_monitoring);
}

#[test]
fn kyber_test_kyber_keypair_generation() {
    let mut engine = create_default_kyber_engine();
    let keypair = engine.generate_keypair().unwrap();

    assert_eq!(keypair.algorithm, "ML-KEM-768");
    assert_eq!(keypair.security_level, 3);
    assert_eq!(keypair.public_key.len(), 1184);
    assert_eq!(keypair.private_key.expose_secret().len(), 2400);
}

#[test]
fn kyber_test_kyber_encapsulation_decapsulation() {
    let mut engine = create_default_kyber_engine();
    let keypair = engine.generate_keypair().unwrap();

    let encryption_result = engine.encapsulate(&keypair.public_key).unwrap();
    let decrypted_secret = engine
        .decapsulate(keypair.private_key.expose_secret(), &encryption_result.ciphertext)
        .unwrap();

    assert_eq!(
        encryption_result.shared_secret.expose_secret(),
        decrypted_secret.expose_secret()
    );
}

#[test]
fn test_kyber_batch_generation() {
    let mut engine = create_default_kyber_engine();
    let keypairs = engine.batch_generate_keypairs(5).unwrap();

    assert_eq!(keypairs.len(), 5);
    for keypair in &keypairs {
        assert!(engine.validate_keypair(keypair).unwrap());
    }
}

#[test]
fn test_kyber_invalid_key_sizes() {
    let mut engine = create_default_kyber_engine();

    let invalid_public_key = vec![0u8; 10];
    let result = engine.encapsulate(&invalid_public_key);
    assert!(result.is_err());

    let invalid_private_key = vec![0u8; 10];
    let invalid_ciphertext = vec![0u8; 10];
    let result = engine.decapsulate(&invalid_private_key, &invalid_ciphertext);
    assert!(result.is_err());
}

#[test]
fn kyber_refusals_name_the_size_they_got() {
    let mut engine = create_default_kyber_engine();
    match engine.encapsulate(&[0u8; 10]) {
        Err(PQCError::InvalidPublicKey(text)) => assert_eq!(text, "Expected 1184 bytes, got 10"),
        _ => panic!("a key of 10 bytes must be refused"),
    }
    match engine.decapsulate(&[0u8; 10], &[0u8; 1088]) {
        Err(PQCError::InvalidPrivateKey(text)) => assert_eq!(text, "Expected 2400 bytes, got 10"),
        _ => panic!("a key of 10 bytes must be refused"),
    }
    match engine.decapsulate(&[0u8; 2400], &[0u8; 0]) {
        Err(PQCError::InvalidCiphertext(text)) => assert_eq!(text, "Expected 1088 bytes, got 0"),
        _ => panic!("an empty ciphertext must be refused"),
    }
    assert_eq!(engine.get_metrics().operations_count, 0);
}

#[test]
fn kyber_keeps_a_record_of_its_work() {
    let mut engine = create_default_kyber_engine();
    let blank = KyberMetrics {
        key_generation_time_ns: 0,
        encapsulation_time_ns: 0,
        decapsulation_time_ns: 0,
        public_key_size: 1184,
        private_key_size: 2400,
        ciphertext_size: 1088,
        shared_secret_size: 32,
        operations_count: 0,
    };
    assert_eq!(*engine.get_metrics(), blank);
    let keypair = engine.generate_keypair().unwrap();
    assert_eq!(engine.get_metrics().operations_count, 1);
    assert!(engine.get_metrics().key_generation_time_ns > 0);
    let encapsulated = engine.encapsulate(&keypair.public_key).unwrap();
    assert_eq!(encapsulated.ciphertext_size, 1088);
    assert_eq!(engine.get_metrics().operations_count, 2);
    engine
        .decapsulate(keypair.private_key.expose_secret(), &encapsulated.ciphertext)
        .unwrap();
    assert_eq!(engine.get_metrics().operations_count, 3);
    assert_eq!(engine.get_metrics().public_key_size, 1184);
    engine.reset_metrics();
    assert_eq!(*engine.get_metrics(), blank);
}

#[test]
fn kyber_stops_generating_beyond_its_limit() {
    let config = KyberConfig {
        enable_timing_resistance: true,
        enable_memory_protection: true,
        enable_metrics_collection: true,
        max_operations_per_second: Some(2),
    };
    let mut engine = KyberEngine::new(config);
    assert!(engine.generate_keypair().is_ok());
    assert!(engine.generate_keypair().is_ok());
    assert!(engine.generate_keypair().is_ok());
    match engine.generate_keypair() {
        Err(PQCError::SecurityValidationFailed(text)) => assert_eq!(text, "Rate limit exceeded"),
        _ => panic!("the fourth key is beyond the limit"),
    }
    assert_eq!(engine.get_metrics().operations_count, 3);
    engine.reset_metrics();
    assert!(engine.generate_keypair().is_err());

    let unlimited = KyberConfig { max_operations_per_second: None, ..config };
    let mut engine = KyberEngine::new(unlimited);
    for _ in 0..5 {
        assert!(engine.generate_keypair().is_ok());
    }
}

#[test]
fn kyber_batches_stop_at_a_thousand() {
    let mut engine = create_default_kyber_engine();
    match engine.batch_generate_keypairs(1001) {
        Err(PQCError::SecurityValidationFailed(text)) => assert_eq!(text, "Batch size too large"),
        _ => panic!("a batch of 1001 must be refused"),
    }
    assert_eq!(engine.get_metrics().operations_count, 0);
    assert_eq!(engine.batch_generate_keypairs(0).unwrap().len(), 0);
}

#[test]
fn kyber_clock_that_cannot_be_read_drops_the_result() {
    let mut engine = create_default_kyber_engine();
    match engine.generate_keypair_at(None) {
        Err(PQCError::KeyGenerationFailed(text)) => assert_eq!(text, "System time error"),
        _ => panic!("no key without a clock"),
    }
    assert_eq!(engine.get_metrics().operations_count, 1);
    let keypair = engine.generate_keypair_at(Some(5)).unwrap();
    assert_eq!(keypair.created_at, 5);
    assert_eq!(keypair.key_size, 3584);
    match engine.encapsulate_at(&keypair.public_key, None) {
        Err(PQCError::EncapsulationFailed(text)) => assert_eq!(text, "System time error"),
        _ => panic!("no result without a clock"),
    }
    let encapsulated = engine.encapsulate_at(&keypair.public_key, Some(6)).unwrap();
    assert_eq!(encapsulated.created_at, 6);
    assert_eq!(engine.get_metrics().operations_count, 4);
}

#[test]
fn kyber_names_the_first_fault_of_a_pair() {
    let mut engine = create_default_kyber_engine();
    let good = engine.generate_keypair().unwrap();
    let mut renamed = good.clone();
    renamed.algorithm = "ML-DSA-65".to_string();
    match engine.validate_keypair(&renamed) {
        Err(PQCError::SecurityValidationFailed(text)) => {
            assert_eq!(text, "Expected ML-KEM-768, got ML-DSA-65")
        }
        _ => panic!("another scheme must be refused"),
    }
    let mut short = good.clone();
    short.public_key.pop();
    match engine.validate_keypair(&short) {
        Err(PQCError::SecurityValidationFailed(text)) => assert_eq!(text, "Invalid public key size"),
        _ => panic!("a short public key must be refused"),
    }
    let mut weak = good.clone();
    weak.security_level = 1;
    match engine.validate_keypair(&weak) {
        Err(PQCError::SecurityValidationFailed(text)) => assert_eq!(text, "Invalid security level"),
        _ => panic!("another level must be refused"),
    }
    let mut engine2 = create_default_dilithium_engine();
    let other = engine2.generate_keypair().unwrap();
    let mut mixed = good.clone();
    mixed.private_key = other.private_key;
    match engine.validate_keypair(&mixed) {
        Err(PQCError::SecurityValidationFailed(text)) => {
            assert_eq!(text, "Invalid private key size")
        }
        _ => panic!("a private key of another size must be refused"),
    }
}

#[test]
fn kyber_describes_itself() {
    assert_eq!(KyberEngine::get_algorithm_info(), ("ML-KEM-768", 3, 1184, 2400, 1088, 32));
    let config = KyberConfig::default();
    assert!(config.enable_timing_resistance);
    assert!(config.enable_memory_protection);
    assert!(config.enable_metrics_collection);
    assert_eq!(config.max_operations_per_second, Some(1000));
}
