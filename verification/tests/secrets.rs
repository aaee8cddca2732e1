use atom_core::secrets::{decrypt_value, encrypt_value, CryptoError, KEY_LEN};

const KEY: &[u8; KEY_LEN] = b"a_default_32_byte_encryption_key";

#[test]
fn sealed_values_open_back_to_the_plaintext() {
    let sealed = encrypt_value(KEY, b"hello wake word").unwrap();
    assert_eq!(decrypt_value(KEY, &sealed).unwrap(), b"hello wake word");
}

#[test]
fn empty_plaintext_round_trips() {
    let sealed = encrypt_value(KEY, b"").unwrap();
    assert_eq!(decrypt_value(KEY, &sealed), Ok(Vec::new()));
}

#[test]
fn sealed_form_is_hex_nonce_colon_hex_ciphertext() {
    let sealed = encrypt_value(KEY, b"abc").unwrap();
    let (nonce_hex, cipher_hex) = sealed.split_once(':').unwrap();
    assert_eq!(nonce_hex.len(), 24);
    // ciphertext is the plaintext plus the 16-byte tag
    assert_eq!(cipher_hex.len(), 2 * (3 + 16));
    assert!(sealed
        .chars()
        .all(|c| c == ':' || c.is_ascii_hexdigit()));
    assert!(!nonce_hex.chars().any(|c| c.is_ascii_uppercase()));
}

#[test]
fn each_sealing_draws_a_fresh_nonce() {
    let a = encrypt_value(KEY, b"same plaintext").unwrap();
    let b = encrypt_value(KEY, b"same plaintext").unwrap();
    assert_ne!(a, b);
}

#[test]
fn missing_or_doubled_separator_is_a_format_error() {
    assert_eq!(decrypt_value(KEY, "deadbeef"), Err(CryptoError::Format));
    assert_eq!(decrypt_value(KEY, ""), Err(CryptoError::Format));
    assert_eq!(decrypt_value(KEY, "aa:bb:cc"), Err(CryptoError::Format));
}

#[test]
fn non_hex_parts_are_rejected() {
    assert_eq!(decrypt_value(KEY, "zz:00"), Err(CryptoError::MalformedHex));
    assert_eq!(decrypt_value(KEY, "00:0"), Err(CryptoError::MalformedHex));
    assert_eq!(decrypt_value(KEY, ":00"), Err(CryptoError::BadNonce));
}

#[test]
fn wrong_sized_nonce_is_rejected() {
    assert_eq!(decrypt_value(KEY, "00:00"), Err(CryptoError::BadNonce));
}

#[test]
fn tampering_fails_authentication() {
    let sealed = encrypt_value(KEY, b"payload").unwrap();
    let mut tampered: Vec<char> = sealed.chars().collect();
    let last = *tampered.last().unwrap();
    *tampered.last_mut().unwrap() = if last == '0' { '1' } else { '0' };
    let tampered: String = tampered.into_iter().collect();
    assert_eq!(decrypt_value(KEY, &tampered), Err(CryptoError::AuthFailed));
}

#[test]
fn the_wrong_key_fails_authentication() {
    let sealed = encrypt_value(KEY, b"payload").unwrap();
    let other = b"another_32_byte_encryption_key__";
    assert_eq!(decrypt_value(other, &sealed), Err(CryptoError::AuthFailed));
}
