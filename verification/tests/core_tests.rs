use qynauth_pqc::bytes_equal;
use qynauth_pqc::copy_bytes;
use qynauth_pqc::generate_mldsa_keypair;
use qynauth_pqc::generate_mlkem_keypair;
use qynauth_pqc::mldsa;
use qynauth_pqc::mldsa_sign;
use qynauth_pqc::mldsa_verify;
use qynauth_pqc::mlkem;
use qynauth_pqc::mlkem_decapsulate;
use qynauth_pqc::mlkem_encapsulate;
use qynauth_pqc::pqc_ml_dsa_65_verify;
use qynauth_pqc::pqc_sign_with_key;
use qynauth_pqc::provider::SecretBytes;
use qynauth_pqc::validate_public_key;
use qynauth_pqc::PQCError;
use zeroize::Zeroize;

#[test]
fn memory_zeroization() {
    let mut secret_data = [0x42u8; 32];
    let original = secret_data.clone();

    assert_eq!(secret_data, original);

    secret_data.zeroize();

    assert_eq!(secret_data, [0u8; 32]);
    assert_ne!(secret_data, original);
}

#[test]
fn input_validation() {
    assert!(validate_public_key(&[]).is_err());

    assert!(validate_public_key(&[0u8; 10]).is_err());

    let valid_key = [0u8; 1184];
    assert!(validate_public_key(&valid_key).is_ok());
}

#[test]
fn error_handling_security() {
    let invalid_key = [0u8; 10];
    let result = pqc_sign_with_key(&invalid_key, b"message");

    let error_msg = format!("{:?}", result.unwrap_err());
    assert!(!error_msg.contains("key"));
    assert!(!error_msg.contains("secret"));

    assert!(error_msg.contains("Invalid") || error_msg.contains("Error"));
}

#[test]
fn validate_public_key_names_the_fault() {
    match validate_public_key(&[]) {
        Err(PQCError::InvalidPublicKey(text)) => assert_eq!(text, "Empty key data"),
        _ => panic!("an empty key must be refused"),
    }
    match validate_public_key(&[7u8; 1183]) {
        Err(PQCError::InvalidPublicKey(text)) => assert_eq!(text, "Key too short"),
        _ => panic!("a short key must be refused"),
    }
    assert!(validate_public_key(&[7u8; 2000]).is_ok());
}

#[test]
fn placeholder_signature_is_sixty_four_zero_bytes() {
    let signature = pqc_sign_with_key(&[1u8; 32], b"message").unwrap();
    assert_eq!(signature, vec![0u8; 64]);
    match pqc_sign_with_key(&[1u8; 31], b"message") {
        Err(PQCError::InvalidPrivateKey(text)) => assert_eq!(text, "Invalid input length"),
        _ => panic!("a key of 31 bytes must be refused"),
    }
}

#[test]
fn error_messages_start_with_their_kind() {
    assert_eq!(
        PQCError::InvalidPublicKey("x".to_string()).to_string(),
        "Invalid public key format: x"
    );
    assert_eq!(
        PQCError::InvalidPrivateKey("x".to_string()).to_string(),
        "Invalid private key format: x"
    );
    assert_eq!(
        PQCError::InvalidCiphertext("x".to_string()).to_string(),
        "Invalid ciphertext format: x"
    );
    assert_eq!(
        PQCError::InvalidSignature("x".to_string()).to_string(),
        "Invalid signature format: x"
    );
    assert_eq!(
        PQCError::KeyGenerationFailed("x".to_string()).to_string(),
        "Key generation failed: x"
    );
    assert_eq!(
        PQCError::EncapsulationFailed("x".to_string()).to_string(),
        "Encapsulation failed: x"
    );
    assert_eq!(
        PQCError::DecapsulationFailed("x".to_string()).to_string(),
        "Decapsulation failed: x"
    );
    assert_eq!(PQCError::SigningFailed("x".to_string()).to_string(), "Signing failed: x");
    assert_eq!(
        PQCError::VerificationFailed("x".to_string()).to_string(),
        "Verification failed: x"
    );
    assert_eq!(PQCError::KeyNotFound("x".to_string()).to_string(), "Key not found: x");
    assert_eq!(
        PQCError::InvalidKeyState("x".to_string()).to_string(),
        "Invalid key state: x"
    );
    assert_eq!(
        PQCError::UnsupportedAlgorithm("x".to_string()).to_string(),
        "Unsupported algorithm: x"
    );
    assert_eq!(PQCError::HSMError("x".to_string()).to_string(), "HSM error: x");
    assert_eq!(PQCError::MemoryAllocationFailed.to_string(), "Memory allocation failed");
    assert_eq!(
        PQCError::SecurityValidationFailed("x".to_string()).to_string(),
        "Security validation failed: x"
    );
}

#[test]
fn copies_and_comparisons_of_bytes() {
    let bytes = [1u8, 2, 3, 4];
    let copy = copy_bytes(&bytes);
    assert_eq!(copy, vec![1u8, 2, 3, 4]);
    assert!(bytes_equal(&bytes, &copy));
    assert!(!bytes_equal(&bytes, &[1u8, 2, 3]));
    assert!(!bytes_equal(&bytes, &[1u8, 2, 3, 5]));
    assert!(bytes_equal(&[], &[]));
}

#[test]
fn secret_holds_what_it_was_given() {
    let secret = SecretBytes::new(vec![9u8, 8, 7]);
    assert_eq!(secret.expose_secret(), &vec![9u8, 8, 7]);
}

#[test]
fn generated_mlkem_keys_have_the_fixed_sizes() {
    let pair = generate_mlkem_keypair().unwrap();
    assert_eq!(pair.public_key.len(), 1184);
    assert_eq!(pair.private_key.expose_secret().len(), 2400);
    assert_eq!(pair.algorithm, "ML-KEM-768");
    assert_eq!(pair.key_size, 3584);
    assert_eq!(pair.security_level, 3);
    assert!(pair.created_at > 0);
}

#[test]
fn generated_mldsa_keys_have_the_fixed_sizes() {
    let pair = generate_mldsa_keypair().unwrap();
    assert_eq!(pair.public_key.len(), 1952);
    assert_eq!(pair.private_key.expose_secret().len(), 4032);
    assert_eq!(pair.algorithm, "ML-DSA-65");
    assert_eq!(pair.key_size, 5984);
    assert_eq!(pair.security_level, 3);
}

#[test]
fn key_pair_clone_keeps_every_field() {
    let pair = generate_mlkem_keypair().unwrap();
    let copy = pair.clone();
    assert_eq!(copy.public_key, pair.public_key);
    assert_eq!(copy.private_key.expose_secret(), pair.private_key.expose_secret());
    assert_eq!(copy.algorithm, pair.algorithm);
    assert_eq!(copy.key_size, pair.key_size);
    assert_eq!(copy.security_level, pair.security_level);
    assert_eq!(copy.created_at, pair.created_at);
}

#[test]
fn decapsulation_recovers_the_encapsulated_secret() {
    let pair = generate_mlkem_keypair().unwrap();
    let encapsulated = mlkem_encapsulate(&pair.public_key, b"").unwrap();
    assert_eq!(encapsulated.ciphertext.len(), 1088);
    assert_eq!(encapsulated.ciphertext_size, 1088);
    assert_eq!(encapsulated.shared_secret.expose_secret().len(), 32);
    assert_eq!(encapsulated.algorithm, "ML-KEM-768");
    let recovered =
        mlkem_decapsulate(pair.private_key.expose_secret(), &encapsulated.ciphertext).unwrap();
    assert_eq!(recovered.expose_secret(), encapsulated.shared_secret.expose_secret());

    let copy = encapsulated.clone();
    assert_eq!(copy.ciphertext, encapsulated.ciphertext);
    assert_eq!(copy.shared_secret.expose_secret(), encapsulated.shared_secret.expose_secret());
}

#[test]
fn decapsulation_depends_on_key_and_ciphertext_alone() {
    let pair = generate_mlkem_keypair().unwrap();
    let encapsulated = mlkem_encapsulate(&pair.public_key, b"").unwrap();
    let first =
        mlkem_decapsulate(pair.private_key.expose_secret(), &encapsulated.ciphertext).unwrap();
    let second =
        mlkem_decapsulate(pair.private_key.expose_secret(), &encapsulated.ciphertext).unwrap();
    assert_eq!(first.expose_secret(), second.expose_secret());
}

#[test]
fn encapsulation_refuses_a_key_of_the_wrong_size() {
    match mlkem_encapsulate(&[0u8; 1183], b"") {
        Err(PQCError::InvalidPublicKey(text)) => {
            assert_eq!(text, "Failed to parse ML-KEM public key")
        }
        _ => panic!("a key of 1183 bytes must be refused"),
    }
}

#[test]
fn decapsulation_refuses_wrong_sizes_in_order() {
    match mlkem_decapsulate(&[0u8; 10], &[0u8; 10]) {
        Err(PQCError::InvalidPrivateKey(text)) => {
            assert_eq!(text, "Failed to parse ML-KEM private key")
        }
        _ => panic!("a key of 10 bytes must be refused"),
    }
    match mlkem_decapsulate(&[0u8; 2400], &[0u8; 10]) {
        Err(PQCError::InvalidCiphertext(text)) => {
            assert_eq!(text, "Failed to parse ML-KEM ciphertext")
        }
        _ => panic!("a ciphertext of 10 bytes must be refused"),
    }
    assert!(mlkem_decapsulate(&[0u8; 2400], &[0u8; 1088]).is_ok());
}

#[test]
fn signature_verifies_for_its_message_and_no_other() {
    let pair = generate_mldsa_keypair().unwrap();
    let message = b"a message to be signed";
    let signature = mldsa_sign(pair.private_key.expose_secret(), message).unwrap();
    assert_eq!(signature.algorithm, "ML-DSA-65");
    assert_eq!(signature.signature_size, signature.signature.expose_secret().len());
    assert!(mldsa_verify(&pair.public_key, message, signature.signature.expose_secret()).unwrap());
    assert!(!mldsa_verify(
        &pair.public_key,
        b"another message",
        signature.signature.expose_secret()
    )
    .unwrap());
    assert!(!mldsa_verify(&pair.public_key, b"", signature.signature.expose_secret()).unwrap());

    let copy = signature.clone();
    assert_eq!(copy.signature.expose_secret(), signature.signature.expose_secret());
    assert_eq!(copy.signature_size, signature.signature_size);
}

#[test]
fn signed_message_is_signature_then_message() {
    let pair = generate_mldsa_keypair().unwrap();
    let message = b"layout";
    let signature = mldsa_sign(pair.private_key.expose_secret(), message).unwrap();
    let signed = signature.signature.expose_secret();
    assert_eq!(signed.len(), 3309 + message.len());
    assert_eq!(&signed[3309..], message);
}

#[test]
fn signature_of_another_key_is_rejected() {
    let signer = generate_mldsa_keypair().unwrap();
    let other = generate_mldsa_keypair().unwrap();
    let message = b"whose signature";
    let signature = mldsa_sign(signer.private_key.expose_secret(), message).unwrap();
    assert!(!mldsa_verify(&other.public_key, message, signature.signature.expose_secret()).unwrap());
}

#[test]
fn verification_answers_no_for_what_is_no_signed_message() {
    let pair = generate_mldsa_keypair().unwrap();
    assert!(!mldsa_verify(&pair.public_key, b"m", &[]).unwrap());
    assert!(!mldsa_verify(&pair.public_key, b"m", &[0u8; 100]).unwrap());
    assert!(!mldsa_verify(&pair.public_key, b"m", &[0u8; 3310]).unwrap());
}

#[test]
fn signing_and_verifying_refuse_keys_of_the_wrong_size() {
    match mldsa_sign(&[0u8; 4000], b"m") {
        Err(PQCError::InvalidPrivateKey(text)) => {
            assert_eq!(text, "Failed to parse ML-DSA private key")
        }
        _ => panic!("a key of 4000 bytes must be refused"),
    }
    match mldsa_verify(&[0u8; 1951], b"m", &[0u8; 3310]) {
        Err(PQCError::InvalidPublicKey(text)) => {
            assert_eq!(text, "Failed to parse ML-DSA public key")
        }
        _ => panic!("a key of 1951 bytes must be refused"),
    }
}

#[test]
fn host_verification_answers_no_for_missing_parts() {
    let pair = generate_mldsa_keypair().unwrap();
    let message = b"from the host";
    let signed = mldsa::sign(pair.private_key.expose_secret(), message).unwrap();
    assert!(pqc_ml_dsa_65_verify(Some(&signed), Some(message), Some(&pair.public_key)));
    assert!(!pqc_ml_dsa_65_verify(None, Some(message), Some(&pair.public_key)));
    assert!(!pqc_ml_dsa_65_verify(Some(&signed), None, Some(&pair.public_key)));
    assert!(!pqc_ml_dsa_65_verify(Some(&signed), Some(message), None));
    assert!(!pqc_ml_dsa_65_verify(Some(&signed), Some(message), Some(&[0u8; 10])));
    assert!(!pqc_ml_dsa_65_verify(Some(&signed), Some(b"something else"), Some(&pair.public_key)));
}

#[test]
fn plain_vector_kem_round_trip() {
    let pair = mlkem::generate_keypair().unwrap();
    let (ciphertext, shared_secret) = mlkem::encapsulate(&pair.public_key, b"unused").unwrap();
    assert_eq!(ciphertext.len(), 1088);
    assert_eq!(shared_secret.len(), 32);
    let recovered = mlkem::decapsulate(pair.private_key.expose_secret(), &ciphertext).unwrap();
    assert_eq!(recovered, shared_secret);
    assert!(mlkem::encapsulate(&[0u8; 5], b"").is_err());
    assert!(mlkem::decapsulate(&[0u8; 5], &ciphertext).is_err());
}

#[test]
fn plain_vector_signature_round_trip() {
    let pair = mldsa::generate_keypair().unwrap();
    let message = b"plain vectors";
    let signed = mldsa::sign(pair.private_key.expose_secret(), message).unwrap();
    assert!(mldsa::verify(&pair.public_key, message, &signed).unwrap());
    assert!(!mldsa::verify(&pair.public_key, b"plain vector", &signed).unwrap());
    assert!(mldsa::sign(&[0u8; 5], message).is_err());
    assert!(mldsa::verify(&[0u8; 5], message, &signed).is_err());
}
