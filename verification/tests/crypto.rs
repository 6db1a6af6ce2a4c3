use bridge::auth0::cache::crypto::{decrypt, encrypt};
use bridge::auth0::errors::Auth0Error;

use block_modes::BlockMode;

fn reference_cipher(
    key: &str,
) -> block_modes::Cbc<aes::Aes256, block_modes::block_padding::Pkcs7> {
    block_modes::Cbc::new_from_slices(key.as_bytes(), "301a9e39735f4646".as_bytes()).unwrap()
}

#[test]
fn round_trip_returns_the_original_text() {
    let key = "0123456789abcdef0123456789abcdef";
    let json = "{\"access_token\":\"abc\",\"expires_in\":3600}";
    let ciphertext = encrypt(json, key).unwrap();
    let recovered = decrypt(key, ciphertext.as_slice()).unwrap();
    assert_eq!(recovered, json);
}

#[test]
fn encryption_is_deterministic() {
    let key = "0123456789abcdef0123456789abcdef";
    let json = "{\"access_token\":\"abc\"}";
    let first = encrypt(json, key).unwrap();
    let second = encrypt(json, key).unwrap();
    assert_eq!(first, second);
}

#[test]
fn encryption_matches_the_cipher_crate() {
    let key = "0123456789abcdef0123456789abcdef";
    let json = "{\"access_token\":\"abc\"}";
    let ciphertext = encrypt(json, key).unwrap();
    let expected = reference_cipher(key).encrypt_vec(json.as_bytes());
    assert_eq!(ciphertext, expected);
}

#[test]
fn a_wrong_key_never_recovers_the_text() {
    let key = "0123456789abcdef0123456789abcdef";
    let other_key = "fedcba9876543210fedcba9876543210";
    let json = "{\"access_token\":\"abc\"}";
    let ciphertext = encrypt(json, key).unwrap();
    assert_eq!(
        decrypt(other_key, ciphertext.as_slice()),
        Err(Auth0Error::DecryptionFailure)
    );
}

#[test]
fn a_key_of_the_wrong_length_is_a_crypto_failure() {
    let short_key = "too-short";
    let long_key = "0123456789abcdef0123456789abcdef0";
    assert_eq!(encrypt("{}", short_key), Err(Auth0Error::CryptoFailure));
    assert_eq!(encrypt("{}", long_key), Err(Auth0Error::CryptoFailure));
    assert_eq!(decrypt(short_key, &[0u8; 16][..]), Err(Auth0Error::CryptoFailure));
    assert_eq!(decrypt(long_key, &[0u8; 16][..]), Err(Auth0Error::CryptoFailure));
}

#[test]
fn bytes_that_are_no_ciphertext_are_a_decryption_failure() {
    let key = "0123456789abcdef0123456789abcdef";
    assert_eq!(
        decrypt(key, &[1u8, 2, 3][..]),
        Err(Auth0Error::DecryptionFailure)
    );
    assert_eq!(decrypt(key, &[0u8; 0][..]), Err(Auth0Error::DecryptionFailure));
}

#[test]
fn tampered_ciphertext_is_a_decryption_failure() {
    let key = "0123456789abcdef0123456789abcdef";
    let json = "{\"access_token\":\"abc\"}";
    let mut ciphertext = encrypt(json, key).unwrap();
    let last = ciphertext.len() - 1;
    ciphertext[last] ^= 0xff;
    assert_eq!(
        decrypt(key, ciphertext.as_slice()),
        Err(Auth0Error::DecryptionFailure)
    );
}

#[test]
fn a_non_utf8_plaintext_is_a_deserialization_failure() {
    let key = "0123456789abcdef0123456789abcdef";
    let ciphertext = reference_cipher(key).encrypt_vec(&[0xffu8, 0xfe, 0x90, 0x80]);
    assert_eq!(
        decrypt(key, ciphertext.as_slice()),
        Err(Auth0Error::DeserializationFailure)
    );
}

#[test]
fn decrypted_text_feeds_the_serde_layer() {
    let key = "0123456789abcdef0123456789abcdef";
    let json = serde_json::to_string(&vec![1, 2, 3]).unwrap();
    let ciphertext = encrypt(&json, key).unwrap();
    let recovered = decrypt(key, ciphertext.as_slice()).unwrap();
    let values: Vec<i32> = serde_json::from_str(&recovered).unwrap();
    assert_eq!(values, vec![1, 2, 3]);
}

#[test]
fn an_incompatible_target_type_fails_to_parse() {
    let key = "0123456789abcdef0123456789abcdef";
    let ciphertext = encrypt("\"a token\"", key).unwrap();
    let recovered = decrypt(key, ciphertext.as_slice()).unwrap();
    assert!(serde_json::from_str::<u64>(&recovered).is_err());
}
