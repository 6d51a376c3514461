//! Wallet-side decryption of stored values, and the daemon's socket messages.
use crate::cipher::{
    bytes_result, is_overrun_len, open_overruns, opened_value, overrun_len, salt_prefix, CipherError,
    SALT_SIZE,
};
use crate::crypto::{xchacha20poly1305_open, xchacha_open, KEY_SIZE, NONCE_SIZE, TAG_SIZE};
use crate::miner::messages::GetMinerWorkResult;
use vstd::prelude::*;
use vstd::slice::{slice_subrange, slice_to_vec};

verus! {

/// Messages the daemon sends over the WebSocket.
#[derive(Debug, Clone, PartialEq, Eq)]
pub enum SocketMessage {
    /// A new job to mine.
    NewJob(GetMinerWorkResult),
    /// A block the miner found was accepted.
    BlockAccepted,
    /// A block the miner found was rejected, with the reason.
    BlockRejected(String),
}

/// Why a wallet could not decrypt a value.
#[derive(Debug, Clone, Copy, PartialEq, Eq, Structural)]
pub enum WalletError {
    /// The value is too short to hold a nonce and a ciphertext, or its
    /// plaintext is too short to hold the salt.
    InvalidEncryptedValue,
    /// The ciphertext did not authenticate.
    CryptoError,
}

/// What a wallet makes of `encrypted` (nonce, then ciphertext): the plaintext
/// with the salt's length removed from its front.
pub open spec fn wallet_opened_value(key: Seq<u8>, salt: Seq<u8>, encrypted: Seq<u8>) -> Result<Seq<u8>, WalletError> {
    if encrypted.len() <= NONCE_SIZE {
        Err(WalletError::InvalidEncryptedValue)
    } else {
        match xchacha20poly1305_open(key, encrypted.take(NONCE_SIZE as int), encrypted.skip(NONCE_SIZE as int)) {
            None => Err(WalletError::CryptoError),
            Some(p) => if p.len() < salt.len() {
                Err(WalletError::InvalidEncryptedValue)
            } else {
                Ok(p.skip(salt.len() as int))
            },
        }
    }
}

/// The part of a wallet that decrypts the values it stores.
pub struct Wallet {
    key: [u8; KEY_SIZE],
    salt: Option<[u8; SALT_SIZE]>,
}

impl Wallet {
    /// The storage key, as bytes.
    pub closed spec fn key_view(&self) -> Seq<u8> {
        self.key@
    }

    /// The salt, as the bytes in front of every stored plaintext.
    pub closed spec fn salt_view(&self) -> Seq<u8> {
        salt_prefix(self.salt)
    }

    /// A wallet that decrypts with `key`, removing `salt` (when given) from
    /// the front of every plaintext.
    pub fn new(key: [u8; KEY_SIZE], salt: Option<[u8; SALT_SIZE]>) -> (res: Wallet)
        ensures
            res.key_view() == key@,
            res.salt_view() == salt_prefix(salt),
    {
        Wallet { key, salt }
    }

    /// Decrypts a value loaded from disk: a 24-byte nonce, then the
    /// ciphertext; the salt is removed from the front of the plaintext.
    pub fn decrypt_value(&self, encrypted: &[u8]) -> (res: Result<Vec<u8>, WalletError>)
        requires
            !open_overruns(self.key_view(), encrypted@),
        ensures
            bytes_result(res) == wallet_opened_value(self.key_view(), self.salt_view(), encrypted@),
            res matches Ok(v) ==> v@.len() + NONCE_SIZE + TAG_SIZE + self.salt_view().len()
                == encrypted@.len(),
    {
        if encrypted.len() < NONCE_SIZE + 1 {
            return Err(WalletError::InvalidEncryptedValue);
        }
        let nonce = slice_subrange(encrypted, 0, NONCE_SIZE);
        let ciphertext = slice_subrange(encrypted, NONCE_SIZE, encrypted.len());
        let decrypted = match xchacha_open(&self.key, nonce, ciphertext) {
            Ok(d) => d,
            Err(_) => return Err(WalletError::CryptoError),
        };
        match &self.salt {
            Some(salt) => {
                if decrypted.len() < SALT_SIZE {
                    return Err(WalletError::InvalidEncryptedValue);
                }
                let rest = slice_to_vec(slice_subrange(decrypted.as_slice(), SALT_SIZE, decrypted.len()));
                Ok(rest)
            },
            None => {
                assert(decrypted@.skip(0) =~= decrypted@);
                Ok(decrypted)
            },
        }
    }

    /// Decrypts like [`Wallet::decrypt_value`], except for an encrypted value
    /// of a length on which decryption could overrun the keystream: `None`
    /// for those, without decrypting.
    pub fn decrypt_value_checked(&self, encrypted: &[u8]) -> (res: Option<Result<Vec<u8>, WalletError>>)
        ensures
            res is None <==> overrun_len(encrypted@.len()),
            res matches Some(r) ==> bytes_result(r) == wallet_opened_value(
                self.key_view(),
                self.salt_view(),
                encrypted@,
            ),
            res matches Some(Ok(v)) ==> v@.len() + NONCE_SIZE + TAG_SIZE + self.salt_view().len()
                == encrypted@.len(),
    {
        if is_overrun_len(encrypted.len()) {
            None
        } else {
            Some(self.decrypt_value(encrypted))
        }
    }
}

/// The wallet error that stands for a cipher error.
pub open spec fn wallet_error_of(e: CipherError) -> WalletError {
    match e {
        CipherError::CryptoError => WalletError::CryptoError,
        _ => WalletError::InvalidEncryptedValue,
    }
}

/// A wallet and a cipher with the same key and salt agree on every encrypted
/// value: the same plaintext, or the same kind of error.
pub proof fn law_wallet_matches_cipher(key: Seq<u8>, salt: Seq<u8>, encrypted: Seq<u8>)
    ensures
        wallet_opened_value(key, salt, encrypted) == match opened_value(key, salt, encrypted) {
            Ok(v) => Ok::<Seq<u8>, WalletError>(v),
            Err(e) => Err::<Seq<u8>, WalletError>(wallet_error_of(e)),
        },
{
}

} // verus!
