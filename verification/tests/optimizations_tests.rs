use qynauth_pqc::dilithium::create_default_dilithium_engine;
use qynauth_pqc::errors::CryptoError;
use qynauth_pqc::optimizations::verify_item;
use qynauth_pqc::optimizations::HardwareFeatures;
use qynauth_pqc::optimizations::MemoryPool;
use qynauth_pqc::optimizations::OptimizedCrypto;

fn four_cores() -> HardwareFeatures {
    HardwareFeatures {
        avx2_available: true,
        aes_ni_available: true,
        sse4_available: true,
        cpu_cores: 4,
    }
}

#[test]
fn test_memory_pool() {
    let mut pool = MemoryPool::new(5);

    let buffer1 = pool.get_mlkem_buffer();
    let buffer2 = pool.get_mldsa_buffer();

    assert!(buffer1.capacity() >= 1184);
    assert!(buffer2.capacity() >= 1952);

    pool.return_mlkem_buffer(buffer1);
    pool.return_mldsa_buffer(buffer2);

    let (mlkem_count, mldsa_count) = pool.pool_stats();
    assert_eq!(mlkem_count, 1);
    assert_eq!(mldsa_count, 1);
}

#[test]
fn test_optimized_crypto_creation() {
    let crypto = OptimizedCrypto::new(four_cores());
    let features = crypto.get_hardware_info();
    assert!(features.cpu_cores > 0);
}

#[test]
fn test_batch_key_generation() {
    let crypto = OptimizedCrypto::new(four_cores());

    let mlkem_keys = crypto.batch_mlkem_key_generation(5).unwrap();
    assert_eq!(mlkem_keys.len(), 5);

    let mldsa_keys = crypto.batch_mldsa_key_generation(3).unwrap();
    assert_eq!(mldsa_keys.len(), 3);
}

#[test]
fn test_parallel_verification() {
    let crypto = OptimizedCrypto::new(four_cores());
    let mldsa_keys = crypto.batch_mldsa_key_generation(3).unwrap();
    let mut engine = create_default_dilithium_engine();

    let test_message = b"test message for verification";
    let verification_data: Vec<_> = mldsa_keys
        .iter()
        .map(|keypair| {
            let signature = engine.sign(keypair.secret_key.expose_secret(), test_message).unwrap();
            (
                test_message.to_vec(),
                signature.signature.expose_secret().clone(),
                keypair.public_key.clone(),
            )
        })
        .collect();

    let results = crypto.parallel_signature_verification(&verification_data).unwrap();
    assert_eq!(results.len(), 3);
    assert!(results.iter().all(|&result| result));
}

#[test]
fn batch_size_follows_the_processor() {
    let mut features = four_cores();
    assert_eq!(features.optimal_batch_size(), 16);
    features.avx2_available = false;
    assert_eq!(features.optimal_batch_size(), 8);
    features.sse4_available = false;
    assert_eq!(features.optimal_batch_size(), 4);
    features.cpu_cores = 0;
    assert_eq!(features.optimal_batch_size(), 0);
    let huge = HardwareFeatures { cpu_cores: usize::MAX / 2, ..four_cores() };
    assert_eq!(huge.optimal_batch_size(), usize::MAX);
    let edge = HardwareFeatures { cpu_cores: usize::MAX / 4, ..four_cores() };
    assert_eq!(edge.optimal_batch_size(), (usize::MAX / 4) * 4);
}

#[test]
fn pool_takes_no_more_than_its_limit() {
    let mut pool = MemoryPool::new(2);
    assert_eq!(pool.pool_stats(), (0, 0));
    pool.return_mlkem_buffer(vec![1u8, 2, 3]);
    pool.return_mlkem_buffer(vec![4u8]);
    pool.return_mlkem_buffer(vec![5u8]);
    assert_eq!(pool.pool_stats(), (2, 0));
    let first = pool.get_mlkem_buffer();
    assert!(first.is_empty());
    assert_eq!(pool.pool_stats(), (1, 0));
    let _second = pool.get_mlkem_buffer();
    let third = pool.get_mlkem_buffer();
    assert!(third.is_empty());
    assert_eq!(pool.pool_stats(), (0, 0));
    pool.return_mldsa_buffer(vec![9u8; 10]);
    assert_eq!(pool.pool_stats(), (0, 1));
    assert!(pool.get_mldsa_buffer().is_empty());

    let mut closed = MemoryPool::new(0);
    closed.return_mlkem_buffer(vec![1u8]);
    assert_eq!(closed.pool_stats(), (0, 0));
}

#[test]
fn batches_have_keys_of_the_fixed_sizes() {
    let crypto = OptimizedCrypto::new(four_cores()).with_batch_operations(false);
    assert_eq!(crypto.get_memory_pool_stats(), (0, 0));
    assert_eq!(crypto.get_hardware_info(), &four_cores());
    let mlkem_keys = crypto.batch_mlkem_key_generation(2).unwrap();
    for pair in &mlkem_keys {
        assert_eq!(pair.public_key.len(), 1184);
        assert_eq!(pair.secret_key.expose_secret().len(), 2400);
    }
    assert_ne!(mlkem_keys[0].public_key, mlkem_keys[1].public_key);
    let mldsa_keys = crypto.batch_mldsa_key_generation(1).unwrap();
    assert_eq!(mldsa_keys[0].public_key.len(), 1952);
    assert_eq!(mldsa_keys[0].secret_key.expose_secret().len(), 4032);
    assert!(crypto.batch_mlkem_key_generation(0).unwrap().is_empty());
}

#[test]
fn verification_answers_for_each_item_in_order() {
    let crypto = OptimizedCrypto::new(four_cores());
    let keys = crypto.batch_mldsa_key_generation(2).unwrap();
    let mut engine = create_default_dilithium_engine();
    let signature = engine.sign(keys[0].secret_key.expose_secret(), b"one").unwrap();
    let signature = signature.signature.expose_secret().clone();
    let items = vec![
        (b"one".to_vec(), signature.clone(), keys[0].public_key.clone()),
        (b"two".to_vec(), signature.clone(), keys[0].public_key.clone()),
        (b"one".to_vec(), signature.clone(), keys[1].public_key.clone()),
        (b"one".to_vec(), vec![0u8; 12], keys[0].public_key.clone()),
    ];
    assert_eq!(
        crypto.parallel_signature_verification(&items).unwrap(),
        vec![true, false, false, false]
    );
    assert_eq!(verify_item(&items[0]), Ok(true));
    assert_eq!(verify_item(&items[1]), Ok(false));
    assert!(crypto.parallel_signature_verification(&[]).unwrap().is_empty());

    let unreadable = CryptoError::InvalidKeyFormat {
        algorithm: "ML-DSA-65".to_string(),
        details: "Public key or signature of the wrong size".to_string(),
    };
    let short_key = (b"one".to_vec(), signature.clone(), vec![0u8; 10]);
    assert_eq!(verify_item(&short_key), Err(unreadable.clone()));
    let long_signature = (b"one".to_vec(), vec![0u8; 3310], keys[0].public_key.clone());
    assert_eq!(verify_item(&long_signature), Err(unreadable.clone()));
    let mixed = vec![items[0].clone(), short_key];
    assert_eq!(crypto.parallel_signature_verification(&mixed), Err(unreadable));
}
