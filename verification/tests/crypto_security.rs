use qynauth_pqc::generate_mldsa_keypair;
use qynauth_pqc::kyber::KyberEngine;
use qynauth_pqc::mldsa_sign;
use qynauth_pqc::validate_public_key;
use qynauth_pqc::SECURITY_LEVEL;
use std::collections::HashSet;
use std::time::SystemTime;
use std::time::UNIX_EPOCH;

fn mock_sign_message(message: &[u8]) -> Vec<u8> {
    let timestamp = SystemTime::now().duration_since(UNIX_EPOCH).unwrap().as_nanos();
    format!("signature_{}_{}", timestamp, message.len()).into_bytes()
}

fn validate_malformed_key(key: &[u8]) -> bool {
    if key.is_empty() {
        return true;
    }
    let first_byte = key[0];
    key.iter().all(|&b| b == first_byte)
}

fn mock_process_data(data: &[u8]) -> Vec<u8> {
    data.iter().map(|&b| b.wrapping_add(1)).collect()
}

fn validate_kyber768_parameters() -> bool {
    KyberEngine::get_algorithm_info() == ("ML-KEM-768", 3, 1184, 2400, 1088, 32)
}

fn validate_dilithium3_parameters() -> bool {
    let pair = generate_mldsa_keypair().unwrap();
    pair.public_key.len() == 1952 && pair.private_key.expose_secret().len() == 4032
}

fn bits_of_level(level: u8) -> u32 {
    match level {
        1 => 128,
        3 => 192,
        5 => 256,
        _ => 0,
    }
}

fn get_kyber768_security_level() -> u32 {
    bits_of_level(KyberEngine::get_algorithm_info().1)
}

fn get_dilithium3_security_level() -> u32 {
    bits_of_level(SECURITY_LEVEL)
}

fn validate_security_parameters() -> bool {
    validate_kyber768_parameters() && validate_dilithium3_parameters()
}

#[test]
fn crypto_security_validation() {
    assert!(validate_kyber768_parameters());
    assert!(validate_dilithium3_parameters());
}

#[test]
fn key_generation_entropy() {
    let mut generated_keys = HashSet::new();

    for i in 0..100 {
        let mock_key = format!("mock_key_{}", i);
        let key_bytes = mock_key.as_bytes().to_vec();

        assert!(!generated_keys.contains(&key_bytes));
        generated_keys.insert(key_bytes);
    }

    assert_eq!(generated_keys.len(), 100);
}

#[test]
fn signature_non_deterministic() {
    let message = b"test message for signature";

    let sig1 = mock_sign_message(message);
    let sig2 = mock_sign_message(message);

    assert_ne!(sig1, sig2);
}

#[test]
fn key_validation_rejects_invalid() {
    let invalid_key = [0u8; 10];
    assert!(validate_public_key(&invalid_key).is_err());

    let malformed_key = [0xFFu8; 1184];
    assert!(validate_malformed_key(&malformed_key));
}

#[test]
fn memory_safety() {
    for _ in 0..1000 {
        let mock_data = vec![0u8; 1000];
        let processed = mock_process_data(&mock_data);

        assert!(!processed.is_empty());
        drop((mock_data, processed));
    }
}

#[test]
fn algorithm_parameter_security() {
    assert!(get_kyber768_security_level() >= 192);
    assert!(get_dilithium3_security_level() >= 192);
    assert!(validate_security_parameters());
}

#[test]
fn provider_signatures_differ_from_call_to_call() {
    let pair = generate_mldsa_keypair().unwrap();
    let message = b"test message for signature";
    let first = mldsa_sign(pair.private_key.expose_secret(), message).unwrap();
    let second = mldsa_sign(pair.private_key.expose_secret(), message).unwrap();
    assert_ne!(first.signature.expose_secret(), second.signature.expose_secret());
}
