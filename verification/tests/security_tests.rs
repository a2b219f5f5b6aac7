use qynauth_pqc::security::cache_protection::CacheProtection;
use qynauth_pqc::security::power_analysis::PowerAnalysisProtection;
use qynauth_pqc::security::side_channel::ConstantTimeOps;
use qynauth_pqc::security::SideChannelProtection;

#[test]
fn test_side_channel_protection() {
    let protection = SideChannelProtection::new();

    let a = b"test_data";
    let b = b"test_data";
    let c = b"different";

    assert!(protection.secure_compare(a, b));
    assert!(!protection.secure_compare(a, c));
}

#[test]
fn test_secure_lookup() {
    let protection = SideChannelProtection::new();
    let table = &[10, 20, 30, 40, 50];

    assert_eq!(protection.secure_lookup(table, 2), 30);
}

#[test]
fn test_protected_crypto_operation() {
    let protection = SideChannelProtection::new();

    let result = protection.protected_crypto_operation(|| "crypto_result".to_string());

    assert_eq!(result, "crypto_result");
}

#[test]
fn test_protected_operation() {
    let protection = PowerAnalysisProtection::new();

    let result = protection.protected_operation(|| 42u32);

    assert_eq!(result, 42);
}

#[test]
fn test_protected_key_generation() {
    let protection = PowerAnalysisProtection::new();

    let key = protection.protected_key_generation(|| [1u8; 32]);

    assert_eq!(key, [1u8; 32]);
}

#[test]
fn test_protected_signature() {
    let protection = PowerAnalysisProtection::new();

    let signature = protection.protected_signature(|| "dummy_signature".to_string());

    assert_eq!(signature, "dummy_signature");
}

#[test]
fn test_custom_settings() {
    let protection = PowerAnalysisProtection::with_settings(false, true);

    let result = protection.protected_operation(|| "test".to_string());

    assert_eq!(result, "test");
}

#[test]
fn test_constant_time_compare() {
    let a = b"hello";
    let b = b"hello";
    let c = b"world";

    assert!(ConstantTimeOps::constant_time_compare(a, b));
    assert!(!ConstantTimeOps::constant_time_compare(a, c));
    assert!(!ConstantTimeOps::constant_time_compare(a, b"hell"));
}

#[test]
fn test_conditional_select() {
    let a = b"option_a";
    let b = b"option_b";

    let result_true = ConstantTimeOps::conditional_select(true, a, b);
    let result_false = ConstantTimeOps::conditional_select(false, a, b);

    assert_eq!(result_true, a);
    assert_eq!(result_false, b);
}

#[test]
fn test_secure_copy() {
    let src = b"test_data";
    let mut dest = vec![0u8; src.len()];

    ConstantTimeOps::secure_copy(&mut dest, src);
    assert_eq!(dest, src);
}

#[test]
fn test_constant_time_lookup() {
    let array = &[10, 20, 30, 40, 50];

    assert_eq!(ConstantTimeOps::constant_time_lookup(array, 0), 10);
    assert_eq!(ConstantTimeOps::constant_time_lookup(array, 2), 30);
    assert_eq!(ConstantTimeOps::constant_time_lookup(array, 4), 50);
}

#[test]
fn test_cache_safe_lookup() {
    let table = &[10, 20, 30, 40, 50];

    assert_eq!(CacheProtection::cache_safe_lookup(table, 0), 10);
    assert_eq!(CacheProtection::cache_safe_lookup(table, 2), 30);
    assert_eq!(CacheProtection::cache_safe_lookup(table, 4), 50);
}

#[test]
fn test_safe_table_lookup() {
    let table = &[10, 20, 30];

    assert_eq!(CacheProtection::safe_table_lookup(table, 1), Some(20));
    assert_eq!(CacheProtection::safe_table_lookup(table, 5), None);
}

#[test]
fn test_cache_safe_compare() {
    let a = b"hello";
    let b = b"hello";
    let c = b"world";

    assert!(CacheProtection::cache_safe_compare(a, b));
    assert!(!CacheProtection::cache_safe_compare(a, c));
}

#[test]
fn test_cache_safe_string_search() {
    assert!(CacheProtection::cache_safe_string_search(
        "hello world",
        "world"
    ));
    assert!(CacheProtection::cache_safe_string_search(
        "hello world",
        "hello"
    ));
    assert!(!CacheProtection::cache_safe_string_search(
        "hello world",
        "xyz"
    ));
    assert!(CacheProtection::cache_safe_string_search("test", ""));
}

#[test]
fn test_cache_safe_init() {
    let data = CacheProtection::cache_safe_init(10, 42);
    assert_eq!(data.len(), 10);
    assert!(data.iter().all(|&x| x == 42));
}

#[test]
fn test_cache_safe_zero() {
    let mut data = vec![1, 2, 3, 4, 5];
    CacheProtection::cache_safe_zero(&mut data);
    assert!(data.iter().all(|&x| x == 0));
}

#[test]
fn lookups_beyond_the_table_give_zero() {
    let table = &[10u8, 20, 30];
    assert_eq!(ConstantTimeOps::constant_time_lookup(table, 3), 0);
    assert_eq!(ConstantTimeOps::constant_time_lookup(table, usize::MAX), 0);
    assert_eq!(ConstantTimeOps::constant_time_lookup(&[], 0), 0);
    assert_eq!(CacheProtection::cache_safe_lookup(table, 3), 0);
    assert_eq!(CacheProtection::safe_table_lookup(table, 3), None);
    assert_eq!(CacheProtection::safe_table_lookup(table, 2), Some(30));
    assert_eq!(CacheProtection::safe_table_lookup(&[], 0), None);
    assert_eq!(SideChannelProtection::default().secure_lookup(table, 9), 0);
}

#[test]
fn comparisons_tell_apart_what_differs_in_one_bit() {
    assert!(ConstantTimeOps::constant_time_compare(&[], &[]));
    assert!(!ConstantTimeOps::constant_time_compare(&[0u8], &[1u8]));
    assert!(!ConstantTimeOps::constant_time_compare(&[1u8, 2, 3], &[1u8, 2, 2]));
    assert!(!ConstantTimeOps::constant_time_compare(&[9u8, 2, 3], &[1u8, 2, 3]));
    assert!(!ConstantTimeOps::constant_time_compare(&[0x80u8], &[0x00u8]));
    assert!(!CacheProtection::cache_safe_compare(&[1u8, 2], &[1u8, 2, 3]));
    assert!(ConstantTimeOps::constant_time_str_eq("same", "same"));
    assert!(!ConstantTimeOps::constant_time_str_eq("same", "sane"));
    assert!(!ConstantTimeOps::constant_time_str_eq("same", "sam"));
    assert!(ConstantTimeOps::constant_time_str_eq("", ""));
}

#[test]
fn selection_takes_every_byte_from_one_side() {
    let a = [1u8, 2, 3];
    let b = [9u8, 2, 7];
    assert_eq!(ConstantTimeOps::conditional_select(true, &a, &b), vec![1u8, 2, 3]);
    assert_eq!(ConstantTimeOps::conditional_select(false, &a, &b), vec![9u8, 2, 7]);
    assert_eq!(ConstantTimeOps::conditional_select(true, &[], &[]), Vec::<u8>::new());
}

#[test]
fn search_finds_needles_at_both_ends_and_nowhere_else() {
    assert!(CacheProtection::cache_safe_string_search("abc", "abc"));
    assert!(CacheProtection::cache_safe_string_search("abc", "c"));
    assert!(CacheProtection::cache_safe_string_search("abc", "a"));
    assert!(CacheProtection::cache_safe_string_search("aab", "ab"));
    assert!(!CacheProtection::cache_safe_string_search("abc", "abcd"));
    assert!(!CacheProtection::cache_safe_string_search("abc", "ac"));
    assert!(!CacheProtection::cache_safe_string_search("", "a"));
    assert!(CacheProtection::cache_safe_string_search("", ""));
}

#[test]
fn init_and_zero_at_the_edges() {
    assert_eq!(CacheProtection::cache_safe_init(0, 7), Vec::<u8>::new());
    assert_eq!(CacheProtection::cache_safe_init(3, 7), vec![7u8, 7, 7]);
    let mut nothing: Vec<u8> = Vec::new();
    CacheProtection::cache_safe_zero(&mut nothing);
    assert!(nothing.is_empty());
    let mut data = vec![0xFFu8; 4];
    CacheProtection::cache_safe_zero(&mut data);
    assert_eq!(data, vec![0u8; 4]);
    CacheProtection::flush_cache_lines(&data);
    CacheProtection::normalize_cache_state(&data);
    assert_eq!(data, vec![0u8; 4]);
}

#[test]
fn protection_hands_out_its_parts() {
    let protection = SideChannelProtection::new();
    let _constant_time: &ConstantTimeOps = protection.constant_time();
    let _cache: &CacheProtection = protection.cache_protection();
    let result = protection.power_analysis().protected_operation(|| 5u8);
    assert_eq!(result, 5);
    let plain = PowerAnalysisProtection::default();
    assert_eq!(plain.protected_signature(|| 6u8), 6);
}

#[test]
fn padding_hashes_with_sha_256() {
    let protection = PowerAnalysisProtection::new();
    let empty = protection.dummy_hash(&[]);
    assert_eq!(
        empty,
        [
            0xe3, 0xb0, 0xc4, 0x42, 0x98, 0xfc, 0x1c, 0x14, 0x9a, 0xfb, 0xf4, 0xc8, 0x99, 0x6f,
            0xb9, 0x24, 0x27, 0xae, 0x41, 0xe4, 0x64, 0x9b, 0x93, 0x4c, 0xa4, 0x95, 0x99, 0x1b,
            0x78, 0x52, 0xb8, 0x55,
        ]
    );
    let abc = protection.dummy_hash(b"abc");
    assert_eq!(
        abc,
        [
            0xba, 0x78, 0x16, 0xbf, 0x8f, 0x01, 0xcf, 0xea, 0x41, 0x41, 0x40, 0xde, 0x5d, 0xae,
            0x22, 0x23, 0xb0, 0x03, 0x61, 0xa3, 0x96, 0x17, 0x7a, 0x9c, 0xb4, 0x10, 0xff, 0x61,
            0xf2, 0x00, 0x15, 0xad,
        ]
    );
    assert_eq!(protection.dummy_hash(b"abc"), abc);
}
