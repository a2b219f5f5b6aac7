use qynauth_pqc::generate_mldsa_keypair;
use qynauth_pqc::generate_mlkem_keypair;
use qynauth_pqc::mldsa;
use qynauth_pqc::mlkem;
use qynauth_pqc::PQCError;
use qynauth_pqc::PQCResult;
use std::time::Instant;

const KEM_PUBLIC: usize = 1184;
const KEM_SECRET: usize = 2400;
const SIG_PUBLIC: usize = 1952;
const SIG_SECRET: usize = 4032;

struct HybridKeyPair {
    public_key: Vec<u8>,
    private_key: Vec<u8>,
}

fn generate_pqc_keypair() -> PQCResult<HybridKeyPair> {
    let kem = generate_mlkem_keypair()?;
    let sig = generate_mldsa_keypair()?;
    let mut public_key = kem.public_key.clone();
    public_key.extend_from_slice(&sig.public_key);
    let mut private_key = kem.private_key.expose_secret().clone();
    private_key.extend_from_slice(sig.private_key.expose_secret());
    Ok(HybridKeyPair { public_key, private_key })
}

fn sign_message(private_key: &[u8], message: &[u8]) -> PQCResult<Vec<u8>> {
    if private_key.len() != KEM_SECRET + SIG_SECRET {
        return Err(PQCError::InvalidPrivateKey("Invalid input length".to_string()));
    }
    mldsa::sign(&private_key[KEM_SECRET..], message)
}

fn verify_signature(public_key: &[u8], message: &[u8], signature: &[u8]) -> PQCResult<bool> {
    if public_key.len() != KEM_PUBLIC + SIG_PUBLIC {
        return Err(PQCError::InvalidPublicKey("Invalid input length".to_string()));
    }
    mldsa::verify(&public_key[KEM_PUBLIC..], message, signature)
}

fn encapsulate_secret(public_key: &[u8]) -> PQCResult<(Vec<u8>, Vec<u8>)> {
    if public_key.len() != KEM_PUBLIC + SIG_PUBLIC {
        return Err(PQCError::InvalidPublicKey("Invalid input length".to_string()));
    }
    mlkem::encapsulate(&public_key[..KEM_PUBLIC], b"")
}

fn decapsulate_secret(private_key: &[u8], ciphertext: &[u8]) -> PQCResult<Vec<u8>> {
    if private_key.len() != KEM_SECRET + SIG_SECRET {
        return Err(PQCError::InvalidPrivateKey("Invalid input length".to_string()));
    }
    mlkem::decapsulate(&private_key[..KEM_SECRET], ciphertext)
}

#[test]
fn test_pqc_key_generation_placeholder() {
    let result = generate_pqc_keypair();
    assert!(result.is_ok(), "PQC key generation should not fail");

    let keypair = result.unwrap();
    assert!(!keypair.public_key.is_empty(), "Public key should not be empty");
    assert!(!keypair.private_key.is_empty(), "Private key should not be empty");
}

#[test]
fn test_pqc_signing_placeholder() {
    let keypair = generate_pqc_keypair().expect("Key generation failed");
    let message = b"test message for PQC signing";

    let signature_result = sign_message(&keypair.private_key, message);
    assert!(signature_result.is_ok(), "PQC signing should not fail");

    let signature = signature_result.unwrap();
    assert!(!signature.is_empty(), "Signature should not be empty");
}

#[test]
fn test_pqc_verification_placeholder() {
    let keypair = generate_pqc_keypair().expect("Key generation failed");
    let message = b"test message for PQC verification";
    let signature = sign_message(&keypair.private_key, message).expect("Signing failed");

    let verification_result = verify_signature(&keypair.public_key, message, &signature);
    assert!(verification_result.is_ok(), "PQC verification should not fail");
    assert!(verification_result.unwrap(), "Signature should be valid");
}

#[test]
fn test_pqc_key_encapsulation_placeholder() {
    let keypair = generate_pqc_keypair().expect("Key generation failed");

    let encapsulation_result = encapsulate_secret(&keypair.public_key);
    assert!(encapsulation_result.is_ok(), "PQC encapsulation should not fail");

    let (ciphertext, shared_secret) = encapsulation_result.unwrap();
    assert!(!ciphertext.is_empty(), "Ciphertext should not be empty");
    assert!(!shared_secret.is_empty(), "Shared secret should not be empty");
}

#[test]
fn test_pqc_decapsulation_placeholder() {
    let keypair = generate_pqc_keypair().expect("Key generation failed");
    let (ciphertext, original_secret) =
        encapsulate_secret(&keypair.public_key).expect("Encapsulation failed");

    let decapsulation_result = decapsulate_secret(&keypair.private_key, &ciphertext);
    assert!(decapsulation_result.is_ok(), "PQC decapsulation should not fail");

    let recovered_secret = decapsulation_result.unwrap();
    assert_eq!(original_secret, recovered_secret, "Secrets should match");
}

#[test]
fn test_pqc_memory_safety() {
    let keypair = generate_pqc_keypair().expect("Key generation failed");

    let private_key_copy = keypair.private_key.clone();
    drop(keypair);

    assert!(
        !private_key_copy.is_empty(),
        "Private key should remain valid after keypair drop"
    );
}

#[test]
fn test_pqc_performance_baseline() {
    let start = Instant::now();
    let _keypair = generate_pqc_keypair().expect("Key generation failed");
    let key_gen_duration = start.elapsed();

    assert!(
        key_gen_duration.as_millis() < 1000,
        "Key generation should complete within 1 second (placeholder threshold)"
    );
}

#[test]
fn test_pqc_error_handling() {
    let invalid_key = vec![0u8; 10];
    let message = b"test message";

    let sign_result = sign_message(&invalid_key, message);
    assert!(sign_result.is_err(), "Signing with invalid key should fail");

    let verify_result = verify_signature(&invalid_key, message, &[]);
    assert!(verify_result.is_err(), "Verification with invalid key should fail");
}

#[test]
fn test_pqc_constant_time_operations() {
    let keypair1 = generate_pqc_keypair().expect("Key generation failed");
    let keypair2 = generate_pqc_keypair().expect("Key generation failed");
    let message = b"constant time test message";

    let signature1 = sign_message(&keypair1.private_key, message).expect("Signing failed");
    let signature2 = sign_message(&keypair2.private_key, message).expect("Signing failed");

    assert_ne!(signature1, signature2, "Signatures should be different for different keys");
}

#[test]
fn test_nist_compliance_placeholder() {
    let keypair = generate_pqc_keypair().expect("Key generation failed");

    assert!(
        keypair.public_key.len() >= 32,
        "Public key should meet minimum size requirements"
    );
    assert!(
        keypair.private_key.len() >= 32,
        "Private key should meet minimum size requirements"
    );
}
