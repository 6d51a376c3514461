use xelis::cipher::{Cipher, SALT_SIZE};
use xelis::contract::random::{Wallet, WalletError};

fn key() -> [u8; 32] {
    [0x11u8; 32]
}

#[test]
fn wallet_decrypts_what_a_cipher_encrypted() {
    let salt = [3u8; SALT_SIZE];
    let cipher = Cipher::new(&key(), Some(salt)).unwrap();
    let wallet = Wallet::new(key(), Some(salt));
    let encrypted = cipher.encrypt_value_with_nonce(b"balance", &[6u8; 24]).unwrap();
    assert_eq!(wallet.decrypt_value(&encrypted).unwrap(), b"balance".to_vec());
    assert_eq!(wallet.decrypt_value_checked(&encrypted).unwrap().unwrap(), b"balance".to_vec());

    let unsalted = Wallet::new(key(), None);
    let plain = Cipher::new(&key(), None).unwrap();
    let encrypted = plain.encrypt_value(b"").unwrap();
    assert_eq!(unsalted.decrypt_value(&encrypted).unwrap(), Vec::<u8>::new());
}

#[test]
fn wallet_rejects_values_too_short_for_a_nonce() {
    let wallet = Wallet::new(key(), None);
    assert_eq!(wallet.decrypt_value(&[0u8; 24]), Err(WalletError::InvalidEncryptedValue));
    assert_eq!(wallet.decrypt_value(&[]), Err(WalletError::InvalidEncryptedValue));
    assert_eq!(wallet.decrypt_value_checked(&[0u8; 3]), Some(Err(WalletError::InvalidEncryptedValue)));
}

#[test]
fn wallet_rejects_values_that_do_not_authenticate() {
    let wallet = Wallet::new(key(), None);
    assert_eq!(wallet.decrypt_value(&[0u8; 60]), Err(WalletError::CryptoError));
    let other = Cipher::new(&[0x22u8; 32], None).unwrap();
    let encrypted = other.encrypt_value(b"not yours").unwrap();
    assert_eq!(wallet.decrypt_value(&encrypted), Err(WalletError::CryptoError));
    assert_eq!(wallet.decrypt_value_checked(&encrypted), Some(Err(WalletError::CryptoError)));
}

#[test]
fn wallet_rejects_plaintext_shorter_than_the_salt() {
    let plain = Cipher::new(&key(), None).unwrap();
    let wallet = Wallet::new(key(), Some([1u8; SALT_SIZE]));
    let encrypted = plain.encrypt_value_with_nonce(b"tiny", &[0u8; 24]).unwrap();
    assert_eq!(wallet.decrypt_value(&encrypted), Err(WalletError::InvalidEncryptedValue));
    assert_eq!(wallet.decrypt_value_checked(&encrypted), Some(Err(WalletError::InvalidEncryptedValue)));
    // the cipher with the same key and salt agrees
    let salted = Cipher::new(&key(), Some([1u8; SALT_SIZE])).unwrap();
    assert!(salted.decrypt_value(&encrypted).is_err());
}
