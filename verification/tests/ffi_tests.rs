use qynauth_pqc::ffi::dilithium_ffi::dilithium_buffer_free;
use qynauth_pqc::ffi::dilithium_ffi::dilithium_get_last_error;
use qynauth_pqc::ffi::dilithium_ffi::dilithium_keypair_free;
use qynauth_pqc::ffi::dilithium_ffi::dilithium_keypair_generate;
use qynauth_pqc::ffi::dilithium_ffi::dilithium_sign;
use qynauth_pqc::ffi::dilithium_ffi::dilithium_signature_free;
use qynauth_pqc::ffi::dilithium_ffi::dilithium_verify;
use qynauth_pqc::ffi::dilithium_ffi::CDilithiumSignature;
use qynauth_pqc::ffi::kyber_ffi::kyber_buffer_free;
use qynauth_pqc::ffi::kyber_ffi::kyber_clear_last_error;
use qynauth_pqc::ffi::kyber_ffi::kyber_decapsulate;
use qynauth_pqc::ffi::kyber_ffi::kyber_encapsulate;
use qynauth_pqc::ffi::kyber_ffi::kyber_get_last_error;
use qynauth_pqc::ffi::kyber_ffi::kyber_keypair_free;
use qynauth_pqc::ffi::kyber_ffi::kyber_keypair_generate;
use qynauth_pqc::ffi::memory::buffer_with;
use qynauth_pqc::ffi::memory::ffi_buffer_free;
use qynauth_pqc::ffi::memory::report;
use qynauth_pqc::ffi::memory::safe_slice_from_raw;
use qynauth_pqc::ffi::memory::secure_allocate;
use qynauth_pqc::ffi::memory::secure_copy_out;
use qynauth_pqc::ffi::memory::secure_deallocate;
use qynauth_pqc::ffi::memory::set_last_error;
use qynauth_pqc::ffi::memory::validate_buffer_params;
use qynauth_pqc::ffi::memory::FFIBuffer;
use qynauth_pqc::ffi::memory::FFIError;
use qynauth_pqc::ffi::memory::FFIErrorCode;
use qynauth_pqc::ffi::memory::LastError;
use qynauth_pqc::ffi::mldsa_ffi::mldsa_keypair_free;
use qynauth_pqc::ffi::mldsa_ffi::mldsa_keypair_generate;
use qynauth_pqc::ffi::mldsa_ffi::mldsa_sign;
use qynauth_pqc::ffi::mldsa_ffi::mldsa_verify;
use qynauth_pqc::ffi::mlkem_ffi::mlkem_decapsulate;
use qynauth_pqc::ffi::mlkem_ffi::mlkem_encapsulate;
use qynauth_pqc::ffi::mlkem_ffi::mlkem_keypair_free;
use qynauth_pqc::ffi::mlkem_ffi::mlkem_keypair_generate;

#[test]
fn ffi_tests_test_kyber_keypair_generation() {
    let mut errors = LastError::new();
    let keypair = kyber_keypair_generate(&mut errors);
    assert!(keypair.is_some(), "Keypair generation should not return null");

    let keypair_ref = keypair.as_ref().unwrap();
    assert!(!keypair_ref.public_key.is_empty(), "Public key should not be empty");
    assert!(!keypair_ref.secret_key.is_empty(), "Secret key should not be empty");
    assert_eq!(keypair_ref.public_key.len(), 1184, "ML-KEM-768 public key should be 1184 bytes");
    assert_eq!(keypair_ref.secret_key.len(), 2400, "ML-KEM-768 secret key should be 2400 bytes");

    kyber_keypair_free(keypair);
}

#[test]
fn ffi_tests_test_kyber_encapsulation_decapsulation() {
    let mut errors = LastError::new();
    let keypair = kyber_keypair_generate(&mut errors);
    assert!(keypair.is_some(), "Keypair generation should not return null");
    let keypair_ref = keypair.as_ref().unwrap();

    let (encap_result, outputs) =
        kyber_encapsulate(Some(&keypair_ref.public_key), true, &mut errors);

    assert_eq!(encap_result.code(), FFIErrorCode::Success.code(), "Encapsulation should succeed");
    let outputs = outputs.unwrap();
    assert_eq!(outputs.shared_secret.len(), 32, "Shared secret should be 32 bytes");
    assert_eq!(outputs.ciphertext.len(), 1088, "ML-KEM-768 ciphertext should be 1088 bytes");

    let (decap_result, recovered) = kyber_decapsulate(
        Some(&keypair_ref.secret_key),
        Some(&outputs.ciphertext),
        true,
        &mut errors,
    );

    assert_eq!(decap_result.code(), FFIErrorCode::Success.code(), "Decapsulation should succeed");
    let recovered = recovered.unwrap();
    assert_eq!(recovered.len(), 32, "Recovered secret should be 32 bytes");

    assert_eq!(outputs.shared_secret, recovered, "Shared secrets should match");

    kyber_buffer_free(Some(outputs.shared_secret));
    kyber_buffer_free(Some(outputs.ciphertext));
    kyber_buffer_free(Some(recovered));
    kyber_keypair_free(keypair);
}

#[test]
fn ffi_tests_test_dilithium_keypair_generation() {
    let mut errors = LastError::new();
    let keypair = dilithium_keypair_generate(&mut errors);
    assert!(keypair.is_some(), "Keypair generation should not return null");

    let keypair_ref = keypair.as_ref().unwrap();
    assert!(!keypair_ref.public_key.is_empty(), "Public key should not be empty");
    assert!(!keypair_ref.secret_key.is_empty(), "Secret key should not be empty");
    assert_eq!(keypair_ref.public_key.len(), 1952, "ML-DSA-65 public key should be 1952 bytes");
    assert_eq!(keypair_ref.secret_key.len(), 4032, "ML-DSA-65 secret key should be 4032 bytes");

    dilithium_keypair_free(keypair);
}

#[test]
fn test_dilithium_signing_verification() {
    let mut errors = LastError::new();
    let keypair = dilithium_keypair_generate(&mut errors);
    assert!(keypair.is_some(), "Keypair generation should not return null");
    let keypair_ref = keypair.as_ref().unwrap();
    let message = b"Hello, Quantum-Safe World!";

    let (sign_result, signature) =
        dilithium_sign(Some(&keypair_ref.secret_key), Some(message), true, &mut errors);

    assert_eq!(sign_result.code(), FFIErrorCode::Success.code(), "Signing should succeed");
    let signature = signature.unwrap();
    assert!(signature.len() > 0, "Signature length should be positive");
    assert!(signature.len() <= 4595, "ML-DSA-65 signature should be at most 4595 bytes");

    let verify_result = dilithium_verify(
        Some(&keypair_ref.public_key),
        Some(message),
        Some(&signature),
        &mut errors,
    );

    assert_eq!(verify_result.code(), FFIErrorCode::Success.code(), "Verification should succeed");

    let wrong_message = b"Different message";
    let verify_wrong_result = dilithium_verify(
        Some(&keypair_ref.public_key),
        Some(wrong_message),
        Some(&signature),
        &mut errors,
    );

    assert_eq!(
        verify_wrong_result.code(),
        FFIErrorCode::SignatureVerificationFailed.code(),
        "Verification with wrong message should fail"
    );

    dilithium_buffer_free(Some(signature));
    dilithium_keypair_free(keypair);
}

#[test]
fn test_memory_safety() {
    let mut errors = LastError::new();
    let keypair = kyber_keypair_generate(&mut errors);
    assert!(keypair.is_some(), "Keypair generation should not return null");
    let keypair_ref = keypair.as_ref().unwrap();

    let (encap_result, outputs) =
        kyber_encapsulate(Some(&keypair_ref.public_key), true, &mut errors);

    assert_eq!(encap_result.code(), FFIErrorCode::Success.code(), "Encapsulation should succeed");
    let outputs = outputs.unwrap();

    kyber_buffer_free(Some(outputs.shared_secret));
    kyber_buffer_free(Some(outputs.ciphertext));
    kyber_keypair_free(keypair);

    let dilithium_keypair = dilithium_keypair_generate(&mut errors);
    assert!(dilithium_keypair.is_some(), "Dilithium keypair generation should not return null");

    dilithium_keypair_free(dilithium_keypair);
}

#[test]
fn test_null_pointer_handling() {
    let mut errors = LastError::new();
    let (encap_result, outputs) = kyber_encapsulate(None, true, &mut errors);

    assert_eq!(
        encap_result.code(),
        FFIErrorCode::NullPointer.code(),
        "Encapsulation with null pointer should fail"
    );
    assert!(outputs.is_none());

    let (sign_result, signature) = dilithium_sign(None, None, true, &mut errors);

    assert_eq!(
        sign_result.code(),
        FFIErrorCode::NullPointer.code(),
        "Signing with null pointer should fail"
    );
    assert!(signature.is_none());
}

#[test]
fn test_invalid_key_format() {
    let mut errors = LastError::new();
    let invalid_key = [0u8; 100];
    let message = b"Test message";

    let (sign_result, signature) =
        dilithium_sign(Some(&invalid_key), Some(message), true, &mut errors);

    assert_eq!(
        sign_result.code(),
        FFIErrorCode::InvalidKeyFormat.code(),
        "Signing with invalid key format should fail"
    );
    assert!(signature.is_none());
}

#[test]
fn test_error_message_retrieval() {
    let mut errors = LastError::new();
    kyber_encapsulate(None, true, &mut errors);

    let error_str = kyber_get_last_error(&errors);
    assert!(error_str.is_some(), "Error message should be available");

    let error_str = error_str.unwrap();
    assert!(!error_str.is_empty(), "Error message should not be empty");
}

#[test]
fn status_codes_are_stable() {
    assert_eq!(FFIErrorCode::Success.code(), 0);
    assert_eq!(FFIErrorCode::InvalidInput.code(), -1);
    assert_eq!(FFIErrorCode::AllocationFailed.code(), -2);
    assert_eq!(FFIErrorCode::CryptoError.code(), -3);
    assert_eq!(FFIErrorCode::BufferTooSmall.code(), -4);
    assert_eq!(FFIErrorCode::NullPointer.code(), -5);
    assert_eq!(FFIErrorCode::InvalidKeyFormat.code(), -6);
    assert_eq!(FFIErrorCode::SignatureVerificationFailed.code(), -7);
}

#[test]
fn buffer_of_no_bytes_is_invalid_input() {
    let mut errors = LastError::new();
    match FFIBuffer::new(0, &mut errors) {
        Err(error) => assert_eq!(error, FFIError::InvalidInput),
        Ok(_) => panic!("a buffer of no bytes must be refused"),
    }
    assert_eq!(FFIErrorCode::from(FFIError::InvalidInput), FFIErrorCode::InvalidInput);
    assert_eq!(secure_allocate(0), Err(FFIErrorCode::InvalidInput));
    assert_eq!(secure_copy_out(&[]), Err(FFIErrorCode::InvalidInput));
}

#[test]
fn released_buffer_is_zero_over_its_whole_capacity() {
    let mut errors = LastError::new();
    let mut buffer = FFIBuffer::new(64, &mut errors).unwrap();
    assert_eq!(buffer.capacity(), 64);
    assert_eq!(buffer.len(), 0);
    assert!(buffer.is_empty());
    assert_eq!(buffer.as_ptr(), &[0u8; 64]);
    buffer.write_data(&[0xAAu8; 40], &mut errors).unwrap();
    assert_eq!(buffer.len(), 40);
    assert!(!buffer.is_empty());
    assert_eq!(buffer.as_slice(), vec![0xAAu8; 40]);
    assert_eq!(&buffer.as_ptr()[40..], &[0u8; 24]);
    buffer.wipe();
    assert_eq!(buffer.as_ptr(), &[0u8; 64]);
    assert_eq!(buffer.capacity(), 64);
    assert_eq!(buffer.secure_free(), 64);

    let mut errors = LastError::new();
    let mut handed_out = FFIBuffer::new(16, &mut errors).unwrap();
    handed_out.write_data(&[7u8; 16], &mut errors).unwrap();
    let raw = handed_out.into_raw();
    assert_eq!(raw, vec![7u8; 16]);
    let wiped = ffi_buffer_free(raw);
    assert_eq!(wiped, vec![0u8; 16]);
    assert_eq!(secure_deallocate(vec![1u8, 2, 3]), vec![0u8; 3]);
}

#[test]
fn writing_past_the_capacity_is_refused() {
    let mut errors = LastError::new();
    let mut buffer = FFIBuffer::new(4, &mut errors).unwrap();
    buffer.write_data(&[1u8, 2, 3, 4], &mut errors).unwrap();
    match buffer.write_data(&[1u8, 2, 3, 4, 5], &mut errors) {
        Err(error) => assert_eq!(error, FFIError::BufferTooSmall),
        Ok(_) => panic!("five bytes do not fit into four"),
    }
    assert_eq!(buffer.as_slice(), vec![1u8, 2, 3, 4]);
    assert!(errors.get().is_some());
    buffer.write_data(&[9u8], &mut errors).unwrap();
    assert_eq!(buffer.len(), 1);
    assert_eq!(buffer.as_slice(), vec![9u8]);
    buffer.as_mut_ptr()[3] = 5;
    assert_eq!(buffer.as_ptr()[3], 5);
    assert_eq!(buffer.len(), 1);

    let copied = buffer_with(&[3u8, 4], &mut errors).unwrap();
    assert_eq!(copied.as_slice(), vec![3u8, 4]);
    assert_eq!(copied.capacity(), 2);
    assert!(buffer_with(&[], &mut errors).is_err());
}

#[test]
fn last_error_keeps_the_latest_message() {
    let mut errors = LastError::new();
    assert_eq!(errors.get(), None);
    set_last_error(&mut errors, "first");
    set_last_error(&mut errors, "second");
    assert_eq!(errors.get(), Some("second"));
    assert_eq!(dilithium_get_last_error(&errors), Some("second"));
    set_last_error(&mut errors, "with\0nul");
    assert_eq!(errors.get(), None);
    report(&mut errors, "Failed: ", "reason");
    assert_eq!(kyber_get_last_error(&errors), Some("Failed: reason"));
    kyber_clear_last_error(&mut errors);
    assert_eq!(kyber_get_last_error(&errors), None);
    errors.set("again");
    errors.clear();
    assert_eq!(errors.get(), None);
}

#[test]
fn buffers_from_the_host_are_checked_before_they_are_read() {
    let mut errors = LastError::new();
    assert_eq!(validate_buffer_params(0, 10, &mut errors), Err(FFIErrorCode::NullPointer));
    assert_eq!(errors.get(), Some("Buffer pointer is null"));
    assert_eq!(validate_buffer_params(4096, 0, &mut errors), Err(FFIErrorCode::InvalidInput));
    assert_eq!(errors.get(), Some("Buffer length cannot be zero"));
    errors.clear();
    assert_eq!(validate_buffer_params(4096, 1, &mut errors), Ok(()));
    assert_eq!(errors.get(), None);

    assert_eq!(safe_slice_from_raw(None, &mut errors), Err(FFIErrorCode::NullPointer));
    assert_eq!(errors.get(), Some("Buffer pointer is null"));
    assert_eq!(safe_slice_from_raw(Some(&[]), &mut errors), Err(FFIErrorCode::InvalidInput));
    assert_eq!(errors.get(), Some("Buffer length cannot be zero"));
    let bytes = [1u8, 2];
    assert_eq!(safe_slice_from_raw(Some(&bytes), &mut errors), Ok(&bytes[..]));
}

#[test]
fn kyber_faults_come_in_order() {
    let mut errors = LastError::new();
    let key = [0u8; 1184];
    let (code, out) = kyber_encapsulate(Some(&key), false, &mut errors);
    assert_eq!(code, FFIErrorCode::NullPointer);
    assert!(out.is_none());
    assert_eq!(errors.get(), Some("Output parameters cannot be null"));
    let (code, _) = kyber_encapsulate(Some(&[]), true, &mut errors);
    assert_eq!(code, FFIErrorCode::InvalidInput);
    assert_eq!(errors.get(), Some("Invalid public key parameters"));
    let (code, _) = kyber_encapsulate(Some(&[0u8; 10]), true, &mut errors);
    assert_eq!(code, FFIErrorCode::InvalidKeyFormat);
    assert_eq!(errors.get(), Some("Invalid public key format"));

    let (code, _) = kyber_decapsulate(None, Some(&[0u8; 1088]), true, &mut errors);
    assert_eq!(code, FFIErrorCode::NullPointer);
    assert_eq!(errors.get(), Some("Invalid secret key parameters"));
    let (code, _) = kyber_decapsulate(Some(&[0u8; 2400]), None, true, &mut errors);
    assert_eq!(code, FFIErrorCode::NullPointer);
    assert_eq!(errors.get(), Some("Invalid ciphertext parameters"));
    let (code, _) = kyber_decapsulate(Some(&[0u8; 10]), Some(&[0u8; 1088]), true, &mut errors);
    assert_eq!(code, FFIErrorCode::InvalidKeyFormat);
    assert_eq!(errors.get(), Some("Invalid secret key format"));
    let (code, _) = kyber_decapsulate(Some(&[0u8; 2400]), Some(&[0u8; 10]), true, &mut errors);
    assert_eq!(code, FFIErrorCode::InvalidKeyFormat);
    assert_eq!(errors.get(), Some("Invalid ciphertext format"));
    let (code, _) = kyber_decapsulate(Some(&[0u8; 2400]), Some(&[0u8; 1088]), false, &mut errors);
    assert_eq!(code, FFIErrorCode::NullPointer);
    assert_eq!(errors.get(), Some("Output parameters cannot be null"));
}

#[test]
fn dilithium_faults_come_in_order() {
    let mut errors = LastError::new();
    let key = [0u8; 4032];
    let (code, _) = dilithium_sign(Some(&key), Some(b"m"), false, &mut errors);
    assert_eq!(code, FFIErrorCode::NullPointer);
    assert_eq!(errors.get(), Some("Output pointers cannot be null"));
    let (code, _) = dilithium_sign(Some(&key), Some(b""), true, &mut errors);
    assert_eq!(code, FFIErrorCode::InvalidInput);
    assert_eq!(errors.get(), Some("Invalid message parameters"));
    let (code, _) = dilithium_sign(Some(&[]), Some(b"m"), true, &mut errors);
    assert_eq!(code, FFIErrorCode::InvalidInput);
    assert_eq!(errors.get(), Some("Invalid secret key parameters"));

    let public_key = [0u8; 1952];
    let code = dilithium_verify(None, Some(b"m"), Some(&[1u8; 10]), &mut errors);
    assert_eq!(code, FFIErrorCode::NullPointer);
    assert_eq!(errors.get(), Some("Invalid public key parameters"));
    let code = dilithium_verify(Some(&public_key), None, Some(&[1u8; 10]), &mut errors);
    assert_eq!(code, FFIErrorCode::NullPointer);
    assert_eq!(errors.get(), Some("Invalid message parameters"));
    let code = dilithium_verify(Some(&public_key), Some(b"m"), Some(&[]), &mut errors);
    assert_eq!(code, FFIErrorCode::InvalidInput);
    assert_eq!(errors.get(), Some("Invalid signature parameters"));
    let code = dilithium_verify(Some(&[0u8; 9]), Some(b"m"), Some(&[1u8; 10]), &mut errors);
    assert_eq!(code, FFIErrorCode::InvalidKeyFormat);
    assert_eq!(errors.get(), Some("Invalid public key format"));
    let code = dilithium_verify(Some(&public_key), Some(b"m"), Some(&[1u8; 10]), &mut errors);
    assert_eq!(code, FFIErrorCode::SignatureVerificationFailed);
    assert_eq!(errors.get(), Some("Signature verification failed"));
}

#[test]
fn freeing_wipes_what_the_host_hands_back() {
    let mut errors = LastError::new();
    let keypair = kyber_keypair_generate(&mut errors).unwrap();
    let wiped = kyber_keypair_free(Some(keypair)).unwrap();
    assert_eq!(wiped.public_key, vec![0u8; 1184]);
    assert_eq!(wiped.secret_key, vec![0u8; 2400]);
    assert!(kyber_keypair_free(None).is_none());
    assert_eq!(kyber_buffer_free(Some(vec![5u8; 8])), Some(vec![0u8; 8]));
    assert_eq!(kyber_buffer_free(None), None);

    let keypair = dilithium_keypair_generate(&mut errors).unwrap();
    let wiped = dilithium_keypair_free(Some(keypair)).unwrap();
    assert_eq!(wiped.public_key, vec![0u8; 1952]);
    assert_eq!(wiped.secret_key, vec![0u8; 4032]);
    assert!(dilithium_keypair_free(None).is_none());
    assert_eq!(dilithium_buffer_free(Some(vec![5u8; 8])), Some(vec![0u8; 8]));
    let signature = CDilithiumSignature { signature: vec![3u8; 12] };
    let wiped = dilithium_signature_free(Some(signature)).unwrap();
    assert_eq!(wiped.signature, vec![0u8; 12]);
    assert!(dilithium_signature_free(None).is_none());
}

#[test]
fn mlkem_entry_points_round_trip() {
    let mut errors = LastError::new();
    let keypair = mlkem_keypair_generate(&mut errors).unwrap();
    assert_eq!(keypair.public_key.len(), 1184);
    assert_eq!(keypair.secret_key.len(), 2400);
    let (code, out) = mlkem_encapsulate(Some(&keypair.public_key), true, &mut errors);
    assert_eq!(code, FFIErrorCode::Success);
    let out = out.unwrap();
    assert_eq!(out.ciphertext.len(), 1088);
    assert_eq!(out.shared_secret.len(), 32);
    let (code, shared) =
        mlkem_decapsulate(Some(&keypair.secret_key), Some(&out.ciphertext), true, &mut errors);
    assert_eq!(code, FFIErrorCode::Success);
    assert_eq!(shared.unwrap(), out.shared_secret);

    let (code, _) = mlkem_encapsulate(None, true, &mut errors);
    assert_eq!(code, FFIErrorCode::InvalidInput);
    let (code, _) = mlkem_encapsulate(Some(&keypair.public_key), false, &mut errors);
    assert_eq!(code, FFIErrorCode::InvalidInput);
    let (code, _) = mlkem_encapsulate(Some(&[0u8; 10]), true, &mut errors);
    assert_eq!(code, FFIErrorCode::CryptoError);
    let (code, _) = mlkem_decapsulate(Some(&[0u8; 10]), Some(&out.ciphertext), true, &mut errors);
    assert_eq!(code, FFIErrorCode::CryptoError);
    assert!(errors.get().is_some());

    let wiped = mlkem_keypair_free(Some(keypair)).unwrap();
    assert_eq!(wiped.public_key, vec![0u8; 1184]);
    assert_eq!(wiped.secret_key, vec![0u8; 2400]);
}

#[test]
fn mldsa_entry_points_round_trip() {
    let mut errors = LastError::new();
    let keypair = mldsa_keypair_generate(&mut errors).unwrap();
    assert_eq!(keypair.public_key.len(), 1952);
    assert_eq!(keypair.secret_key.len(), 4032);
    let message = b"across the boundary";
    let (code, signature) = mldsa_sign(Some(&keypair.secret_key), Some(message), true, &mut errors);
    assert_eq!(code, FFIErrorCode::Success);
    let signature = signature.unwrap();
    assert_eq!(signature.len(), 3309 + message.len());
    assert_eq!(
        mldsa_verify(Some(&keypair.public_key), Some(message), Some(&signature), &mut errors),
        FFIErrorCode::Success
    );
    assert_eq!(
        mldsa_verify(Some(&keypair.public_key), Some(b"other"), Some(&signature), &mut errors),
        FFIErrorCode::SignatureVerificationFailed
    );
    assert_eq!(
        mldsa_verify(None, Some(message), Some(&signature), &mut errors),
        FFIErrorCode::InvalidInput
    );
    assert_eq!(
        mldsa_verify(Some(&[0u8; 10]), Some(message), Some(&signature), &mut errors),
        FFIErrorCode::CryptoError
    );
    let (code, _) = mldsa_sign(Some(&[0u8; 10]), Some(message), true, &mut errors);
    assert_eq!(code, FFIErrorCode::CryptoError);
    let (code, _) = mldsa_sign(Some(&keypair.secret_key), None, true, &mut errors);
    assert_eq!(code, FFIErrorCode::InvalidInput);

    let wiped = mldsa_keypair_free(Some(keypair)).unwrap();
    assert_eq!(wiped.public_key, vec![0u8; 1952]);
    assert_eq!(wiped.secret_key, vec![0u8; 4032]);
}

#[test]
fn status_codes_and_errors_have_their_words() {
    assert_eq!(FFIErrorCode::Success.as_str(), FFIErrorCode::Success.to_string());
    assert_eq!(FFIError::InvalidInput.as_str(), FFIError::InvalidInput.to_string());
    assert_ne!(FFIError::InvalidInput.as_str(), FFIError::BufferTooSmall.as_str());
    assert_ne!(FFIErrorCode::NullPointer.as_str(), FFIErrorCode::InvalidInput.as_str());
}
