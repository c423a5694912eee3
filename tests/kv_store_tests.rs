use eule::{Crypto, EuleError, KvStore};

fn create_encrypted_store() -> KvStore {
    let mut store = KvStore::open_temporary().unwrap();
    store.initialize_encryption("test_password").unwrap();
    store
}

#[test]
fn test_kv_store_set_and_get() {
    let kv_store = KvStore::open_temporary().unwrap();
    let key = "test_key";
    let value = "test_value";
    kv_store.set(key, value).unwrap();
    let result = kv_store.get(key).unwrap();
    assert_eq!(result, Some(value.to_string()));
}

#[test]
fn test_kv_store_delete() {
    let kv_store = KvStore::open_temporary().unwrap();
    let key = "test_key";
    let value = "test_value";
    kv_store.set(key, value).unwrap();
    kv_store.delete(key).unwrap();
    let result = kv_store.get(key).unwrap();
    assert_eq!(result, None);
}

#[test]
fn test_kv_store_concurrent_operations() {
    let kv_store = KvStore::open_temporary().unwrap();
    let mut successful = 0;
    for i in 0..100 {
        let key = format!("key_{}", i);
        let value = format!("value_{}", i);
        kv_store.set(&key, &value).unwrap();
        assert_eq!(kv_store.get(&key).unwrap(), Some(value));
        kv_store.delete(&key).unwrap();
        assert_eq!(kv_store.get(&key).unwrap(), None);
        successful += 1;
    }
    assert_eq!(successful, 100);
}

#[test]
fn test_encryption_initialization() {
    let store = create_encrypted_store();
    let sensitive_key = "discord_token";
    let sensitive_value = "test_token";
    store.set(sensitive_key, sensitive_value).unwrap();
    let retrieved = store.get(sensitive_key).unwrap();
    assert_eq!(retrieved, Some(sensitive_value.to_string()));
}

#[test]
fn test_sensitive_data_encryption() {
    let store = create_encrypted_store();
    let sensitive_key = "discord_token";
    let sensitive_value = "super_secret_token";
    store.set(sensitive_key, sensitive_value).unwrap();
    let retrieved = store.get(sensitive_key).unwrap().unwrap();
    assert_eq!(retrieved, sensitive_value);

    let test_keys = ["api_key", "auth_token", "encryption_key"];
    for key in test_keys.iter() {
        store.set(key, "secret_value").unwrap();
        let retrieved = store.get(key).unwrap().unwrap();
        assert_eq!(retrieved, "secret_value");
    }
}

#[test]
fn test_non_sensitive_data_storage() {
    let store = create_encrypted_store();
    let regular_key = "regular_key";
    let regular_value = "normal_data";
    store.set(regular_key, regular_value).unwrap();
    let retrieved = store.get(regular_key).unwrap().unwrap();
    assert_eq!(retrieved, regular_value);
}

#[test]
fn test_sensitive_keys() {
    let mut store = KvStore::open_temporary().unwrap();
    store.initialize_encryption("test_password").unwrap();

    let sensitive_keys = ["discord_token", "api_key", "auth_token", "encryption_key"];
    for key in sensitive_keys.iter() {
        store.set(key, "secret_value").unwrap();
        let value = store.get(key).unwrap().unwrap();
        assert_eq!(value, "secret_value");
    }

    let non_sensitive_keys = ["regular_key", "non_sensitive_data", "public_data"];
    for key in non_sensitive_keys.iter() {
        store.set(key, "normal_value").unwrap();
        let value = store.get(key).unwrap().unwrap();
        assert_eq!(value, "normal_value");
    }
}

#[test]
fn test_unencrypted_sensitive_data() {
    let store = KvStore::open_temporary().unwrap();
    let result = store.set("discord_token", "secret");
    assert!(result.is_ok());
    let retrieved = store.get("discord_token").unwrap().unwrap();
    assert_eq!(retrieved, "secret");
}

#[test]
fn sensitive_key_set_is_fixed() {
    assert!(KvStore::is_sensitive_key("discord_token"));
    assert!(KvStore::is_sensitive_key("encryption_key"));
    assert!(KvStore::is_sensitive_key("api_key"));
    assert!(KvStore::is_sensitive_key("auth_token"));
    assert!(!KvStore::is_sensitive_key("regular_key"));
    assert!(!KvStore::is_sensitive_key("Discord_Token"));
    assert!(!KvStore::is_sensitive_key(""));
}

#[test]
fn stored_sensitive_bytes_differ_from_plaintext() {
    let store = create_encrypted_store();
    let encoded = store.encode_value("discord_token", "super_secret_token").unwrap();
    assert_ne!(encoded, b"super_secret_token".to_vec());
    assert_eq!(encoded.len(), 12 + "super_secret_token".len() + 16);
    let plain = store.encode_value("regular_key", "normal_data").unwrap();
    assert_eq!(plain, b"normal_data".to_vec());
    assert_eq!(store.decode_value("discord_token", &encoded).unwrap(), "super_secret_token");
}

#[test]
fn tampered_ciphertext_is_a_decryption_error() {
    let store = create_encrypted_store();
    let mut encoded = store.encode_value("api_key", "secret_value").unwrap();
    encoded[15] ^= 0x01;
    match store.decode_value("api_key", &encoded) {
        Err(EuleError::DecryptionError(_)) => {}
        other => panic!("unexpected: {:?}", other),
    }
    match store.decode_value("api_key", &[1u8, 2, 3]) {
        Err(EuleError::DecryptionError(_)) => {}
        other => panic!("unexpected: {:?}", other),
    }
}

#[test]
fn plain_values_read_back_lossily() {
    let store = KvStore::open_temporary().unwrap();
    assert_eq!(store.decode_value("regular_key", b"abc").unwrap(), "abc");
    assert_eq!(store.decode_value("regular_key", &[0x61, 0xff]).unwrap(), "a\u{fffd}");
}

#[test]
fn encryption_is_initialised_once() {
    let mut store = KvStore::open_temporary().unwrap();
    store.initialize_encryption("pw").unwrap();
    store.set("auth_token", "kept").unwrap();
    match store.initialize_encryption("other") {
        Err(EuleError::KeyDerivationError(_)) => {}
        other => panic!("unexpected: {:?}", other),
    }
    assert_eq!(store.get("auth_token").unwrap().unwrap(), "kept");
}

#[test]
fn salt_entry_cases() {
    let stored = vec![3u8; 16];
    let fresh = [9u8; 16];
    // A stored salt is used, and nothing is to be written.
    let (key, to_write) = KvStore::key_from_salt_entry(Some(stored.clone()), fresh, "pw").unwrap();
    assert!(to_write.is_none());
    let expected = Crypto::derive_key("pw", &stored).unwrap();
    let blob = Crypto::encrypt("x", &expected).unwrap();
    assert_eq!(Crypto::decrypt(&blob, &key).unwrap(), "x");
    // With none stored, the fresh salt is used and is to be written.
    let (key2, to_write2) = KvStore::key_from_salt_entry(None, fresh, "pw").unwrap();
    assert_eq!(to_write2, Some(fresh.to_vec()));
    let expected2 = Crypto::derive_key("pw", &fresh).unwrap();
    let blob2 = Crypto::encrypt("y", &expected2).unwrap();
    assert_eq!(Crypto::decrypt(&blob2, &key2).unwrap(), "y");
    // A stored salt of another length is refused.
    assert!(matches!(
        KvStore::key_from_salt_entry(Some(vec![3u8; 15]), fresh, "pw"),
        Err(EuleError::KeyDerivationError(_))
    ));
}
