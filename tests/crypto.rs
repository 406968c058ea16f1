use account_switch::crypto::{decrypt_password, encrypt_password, encrypt_with_nonce, generate_random_key};

#[test]
fn test_encrypt_decrypt() {
    let password = "TestPassword123!";
    let key = generate_random_key();

    let encrypted = encrypt_password(password, &key).unwrap();
    let decrypted = decrypt_password(&encrypted, &key).unwrap();

    assert_eq!(password, decrypted);
}

#[test]
fn test_different_nonces() {
    let password = "TestPassword123!";
    let key = generate_random_key();

    let encrypted1 = encrypt_password(password, &key).unwrap();
    let encrypted2 = encrypt_password(password, &key).unwrap();

    assert_ne!(encrypted1, encrypted2);

    let decrypted1 = decrypt_password(&encrypted1, &key).unwrap();
    let decrypted2 = decrypt_password(&encrypted2, &key).unwrap();

    assert_eq!(decrypted1, decrypted2);
    assert_eq!(password, decrypted1);
}

#[test]
fn key_must_be_32_bytes() {
    assert_eq!(encrypt_password("pw", &[0u8; 16]), Err("Encryption key must be 32 bytes".to_string()));
    assert_eq!(decrypt_password(&[0u8; 40], &[0u8; 31]), Err("Encryption key must be 32 bytes".to_string()));
}

#[test]
fn short_or_tampered_data_is_rejected() {
    let key = [7u8; 32];
    assert_eq!(decrypt_password(&[1u8; 11], &key), Err("Invalid encrypted data".to_string()));
    let mut enc = encrypt_password("secret", &key).unwrap();
    let last = enc.len() - 1;
    enc[last] ^= 1;
    assert_eq!(decrypt_password(&enc, &key), Err("Decryption failed".to_string()));
    assert_eq!(decrypt_password(&encrypt_password("secret", &key).unwrap(), &[8u8; 32]), Err("Decryption failed".to_string()));
}

#[test]
fn fixed_nonce_is_stored_in_front_and_deterministic() {
    let key = [3u8; 32];
    let nonce = [9u8; 12];
    let a = encrypt_with_nonce(b"hello", &key, &nonce).unwrap();
    let b = encrypt_with_nonce(b"hello", &key, &nonce).unwrap();
    assert_eq!(a, b);
    assert_eq!(&a[..12], &nonce);
    assert_eq!(a.len(), 12 + 5 + 16);
    assert_eq!(decrypt_password(&a, &key), Ok("hello".to_string()));
    assert_eq!(encrypt_with_nonce(b"x", &key, &[0u8; 8]), Err("Nonce must be 12 bytes".to_string()));
}

#[test]
fn non_utf8_plaintext_is_reported() {
    let key = [5u8; 32];
    let enc = encrypt_with_nonce(&[0xff, 0xfe], &key, &[1u8; 12]).unwrap();
    assert_eq!(decrypt_password(&enc, &key), Err("UTF-8 conversion error".to_string()));
}

#[test]
fn ciphertext_is_nonce_plaintext_and_tag() {
    let key = generate_random_key();
    assert_eq!(key.len(), 32);
    let enc = encrypt_password("TestPassword123!", &key).unwrap();
    assert_eq!(enc.len(), 12 + 16 + 16);
}
