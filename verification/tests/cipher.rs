use chacha20poly1305::aead::Aead;
use chacha20poly1305::{KeyInit, XChaCha20Poly1305};
use xelis::cipher::{is_overrun_len, Cipher, CipherError, SALT_SIZE};

fn key() -> Vec<u8> {
    (0u8..32).collect()
}

fn salt() -> [u8; SALT_SIZE] {
    [7u8; SALT_SIZE]
}

#[test]
fn new_rejects_keys_that_are_not_32_bytes() {
    assert!(matches!(Cipher::new(&[1u8; 31], None), Err(CipherError::InvalidKeyLength)));
    assert!(matches!(Cipher::new(&[1u8; 33], Some(salt())), Err(CipherError::InvalidKeyLength)));
    assert!(matches!(Cipher::new(&[], None), Err(CipherError::InvalidKeyLength)));
    assert!(Cipher::new(&key(), None).is_ok());
}

#[test]
fn encrypted_value_is_nonce_then_ciphertext() {
    let cipher = Cipher::new(&key(), Some(salt())).unwrap();
    let nonce = [9u8; 24];
    let value = b"hello wallet";
    let encrypted = cipher.encrypt_value_with_nonce(value, &nonce).unwrap();
    assert_eq!(encrypted.len(), 24 + SALT_SIZE + value.len() + 16);
    assert_eq!(&encrypted[..24], &nonce[..]);

    // the ciphertext is XChaCha20Poly1305 of the salt followed by the value
    let mut plaintext = salt().to_vec();
    plaintext.extend_from_slice(value);
    let aead = XChaCha20Poly1305::new_from_slice(&key()).unwrap();
    let expected = aead.encrypt((&nonce).into(), plaintext.as_slice()).unwrap();
    assert_eq!(&encrypted[24..], expected.as_slice());
    assert_ne!(&encrypted[24..24 + plaintext.len()], plaintext.as_slice());
}

#[test]
fn encryption_without_salt_has_no_salt_bytes() {
    let cipher = Cipher::new(&key(), None).unwrap();
    let encrypted = cipher.encrypt_value_with_nonce(b"abc", &[1u8; 24]).unwrap();
    assert_eq!(encrypted.len(), 24 + 3 + 16);
}

#[test]
fn encryption_with_a_nonce_is_deterministic() {
    let cipher = Cipher::new(&key(), Some(salt())).unwrap();
    let a = cipher.encrypt_value_with_nonce(b"value", &[3u8; 24]).unwrap();
    let b = cipher.encrypt_value_with_nonce(b"value", &[3u8; 24]).unwrap();
    let c = cipher.encrypt_value_with_nonce(b"value", &[4u8; 24]).unwrap();
    assert_eq!(a, b);
    assert_ne!(a, c);
}

#[test]
fn decrypt_gives_back_what_was_encrypted() {
    for salt in [None, Some(salt())] {
        let cipher = Cipher::new(&key(), salt).unwrap();
        for value in [&b""[..], &b"x"[..], &b"a longer value to store on disk"[..]] {
            let encrypted = cipher.encrypt_value_with_nonce(value, &[5u8; 24]).unwrap();
            assert_eq!(cipher.decrypt_value(&encrypted).unwrap(), value.to_vec());
            let random = cipher.encrypt_value(value).unwrap();
            assert_eq!(cipher.decrypt_value(&random).unwrap(), value.to_vec());
        }
    }
}

#[test]
fn random_nonces_differ() {
    let cipher = Cipher::new(&key(), None).unwrap();
    let a = cipher.encrypt_value(b"same").unwrap();
    let b = cipher.encrypt_value(b"same").unwrap();
    assert_ne!(&a[..24], &b[..24]);
}

#[test]
fn decrypt_rejects_short_values() {
    let cipher = Cipher::new(&key(), None).unwrap();
    assert!(matches!(cipher.decrypt_value(&[]), Err(CipherError::InvalidEncryptedValue)));
    assert!(matches!(cipher.decrypt_value(&[0u8; 24]), Err(CipherError::InvalidEncryptedValue)));
    // 25 bytes: a nonce and one byte, too short for a tag
    assert!(matches!(cipher.decrypt_value(&[0u8; 25]), Err(CipherError::CryptoError)));
}

#[test]
fn decrypt_rejects_tampered_values_and_wrong_keys() {
    let cipher = Cipher::new(&key(), Some(salt())).unwrap();
    let mut encrypted = cipher.encrypt_value_with_nonce(b"secret", &[2u8; 24]).unwrap();
    let other = Cipher::new(&[42u8; 32], Some(salt())).unwrap();
    assert!(matches!(other.decrypt_value(&encrypted), Err(CipherError::CryptoError)));
    let last = encrypted.len() - 1;
    encrypted[last] ^= 1;
    assert!(matches!(cipher.decrypt_value(&encrypted), Err(CipherError::CryptoError)));
}

#[test]
fn decrypt_rejects_plaintext_shorter_than_the_salt() {
    let plain = Cipher::new(&key(), None).unwrap();
    let salted = Cipher::new(&key(), Some(salt())).unwrap();
    let encrypted = plain.encrypt_value_with_nonce(b"short", &[8u8; 24]).unwrap();
    assert!(matches!(salted.decrypt_value(&encrypted), Err(CipherError::InvalidEncryptedValue)));
}

#[test]
fn decrypt_removes_exactly_the_salt_length() {
    let plain = Cipher::new(&key(), None).unwrap();
    let salted = Cipher::new(&key(), Some(salt())).unwrap();
    let mut long = vec![1u8; SALT_SIZE];
    long.extend_from_slice(b"tail");
    let encrypted = plain.encrypt_value_with_nonce(&long, &[8u8; 24]).unwrap();
    assert_eq!(salted.decrypt_value(&encrypted).unwrap(), b"tail".to_vec());
}

#[test]
fn hash_key_is_blake3_of_salt_and_key() {
    let plain = Cipher::new(&key(), None).unwrap();
    let empty = plain.hash_key(b"");
    assert_eq!(
        empty.to_vec(),
        vec![
            0xaf, 0x13, 0x49, 0xb9, 0xf5, 0xf9, 0xa1, 0xa6, 0xa0, 0x40, 0x4d, 0xea, 0x36, 0xdc,
            0xc9, 0x49, 0x9b, 0xcb, 0x25, 0xc9, 0xad, 0xc1, 0x12, 0xb7, 0xcc, 0x9a, 0x93, 0xca,
            0xe4, 0x1f, 0x32, 0x62
        ]
    );
    let salted = Cipher::new(&key(), Some(salt())).unwrap();
    let mut data = salt().to_vec();
    data.extend_from_slice(b"account");
    assert_eq!(salted.hash_key(b"account"), *blake3::hash(&data).as_bytes());
    assert_ne!(salted.hash_key(b"account"), plain.hash_key(b"account"));
    assert_eq!(plain.hash_key(b"account"), plain.hash_key(b"account"));
}

#[test]
fn keystream_overrun_lengths() {
    // 24-byte nonce, 16-byte tag, and a message of (2^32 - 2) blocks of 64 bytes plus a part block
    let band_start: u64 = 24 + 16 + 64 * (u32::MAX as u64 - 1) + 1;
    assert!(!is_overrun_len(0));
    assert!(!is_overrun_len(100));
    if usize::BITS >= 64 {
        assert!(is_overrun_len(band_start as usize));
        assert!(is_overrun_len((band_start + 62) as usize));
        assert!(!is_overrun_len((band_start - 1) as usize));
        assert!(!is_overrun_len((band_start + 63) as usize));
    }
}

#[test]
fn checked_decrypt_decrypts_ordinary_values() {
    let cipher = Cipher::new(&key(), Some(salt())).unwrap();
    let encrypted = cipher.encrypt_value(b"value").unwrap();
    assert_eq!(cipher.decrypt_value_checked(&encrypted), Some(Ok(b"value".to_vec())));
    assert_eq!(cipher.decrypt_value_checked(&[0u8; 3]), Some(Err(CipherError::InvalidEncryptedValue)));
}
