//! Encryption of wallet values: XChaCha20Poly1305 with an optional salt put in
//! front of every plaintext, and the nonce put in front of every ciphertext.
use crate::crypto::{
    blake3_digest, blake3_hash, keystream_overrun, random_nonce, seal_accepts_len, xchacha20poly1305_open,
    xchacha20poly1305_seal, xchacha_open, xchacha_seal, HASH_SIZE, KEY_SIZE, NONCE_SIZE,
    TAG_SIZE,
};
use vstd::prelude::*;
use vstd::slice::{slice_subrange, slice_to_vec};

verus! {

/// Size in bytes of the salt that may be put in front of every plaintext.
pub const SALT_SIZE: usize = 32;

/// Why an operation of [`Cipher`] failed.
#[derive(Debug, Clone, Copy, PartialEq, Eq, Structural)]
pub enum CipherError {
    /// The key given to [`Cipher::new`] is not 32 bytes long.
    InvalidKeyLength,
    /// XChaCha20Poly1305 refused to encrypt, or the ciphertext did not authenticate.
    CryptoError,
    /// The encrypted value is too short to hold a nonce and a ciphertext, or
    /// its plaintext is shorter than the salt.
    InvalidEncryptedValue,
}

/// The bytes put in front of every plaintext: the salt, or nothing.
pub open spec fn salt_prefix(salt: Option<[u8; SALT_SIZE]>) -> Seq<u8> {
    match salt {
        Some(s) => s@,
        None => Seq::empty(),
    }
}

/// A byte result taken by its view.
pub open spec fn bytes_result<E>(res: Result<Vec<u8>, E>) -> Result<Seq<u8>, E> {
    match res {
        Ok(v) => Ok(v@),
        Err(e) => Err(e),
    }
}

/// What encrypting `value` under `key` with `nonce` gives, `salt` put in front
/// of the plaintext: the nonce followed by the ciphertext.
pub open spec fn sealed_value(key: Seq<u8>, salt: Seq<u8>, nonce: Seq<u8>, value: Seq<u8>) -> Result<Seq<u8>, CipherError> {
    if seal_accepts_len(salt.len() + value.len()) {
        Ok(nonce + xchacha20poly1305_seal(key, nonce, salt + value))
    } else {
        Err(CipherError::CryptoError)
    }
}

/// What decrypting `encrypted` (nonce, then ciphertext) under `key` gives,
/// the first `salt.len()` bytes of the plaintext removed.
pub open spec fn opened_value(key: Seq<u8>, salt: Seq<u8>, encrypted: Seq<u8>) -> Result<Seq<u8>, CipherError> {
    if encrypted.len() <= NONCE_SIZE {
        Err(CipherError::InvalidEncryptedValue)
    } else {
        match xchacha20poly1305_open(key, encrypted.take(NONCE_SIZE as int), encrypted.skip(NONCE_SIZE as int)) {
            None => Err(CipherError::CryptoError),
            Some(p) => if p.len() < salt.len() {
                Err(CipherError::InvalidEncryptedValue)
            } else {
                Ok(p.skip(salt.len() as int))
            },
        }
    }
}

/// Whether an encrypted value of `len` bytes holds a message (what follows
/// the nonce, without the tag) whose length `chacha20poly1305` cannot run the
/// keystream over (see [`keystream_overrun`]).
pub open spec fn overrun_len(len: nat) -> bool {
    len >= NONCE_SIZE + TAG_SIZE && keystream_overrun((len - NONCE_SIZE - TAG_SIZE) as nat)
}

/// Whether decrypting `encrypted` under `key` makes `chacha20poly1305` panic:
/// the message has such a length and authenticates.
pub open spec fn open_overruns(key: Seq<u8>, encrypted: Seq<u8>) -> bool {
    overrun_len(encrypted.len()) && xchacha20poly1305_open(
        key,
        encrypted.take(NONCE_SIZE as int),
        encrypted.skip(NONCE_SIZE as int),
    ) is Some
}

/// Whether an encrypted value of `len` bytes is one of those lengths.
pub fn is_overrun_len(len: usize) -> (res: bool)
    ensures
        res == overrun_len(len as nat),
{
    if len < NONCE_SIZE + TAG_SIZE {
        return false;
    }
    let message = (len - NONCE_SIZE - TAG_SIZE) as u64;
    message / 64 == 0xffff_fffe && message % 64 != 0
}

/// Encrypts and decrypts values with XChaCha20Poly1305 under one key, an
/// optional salt put in front of every plaintext.
pub struct Cipher {
    key: [u8; KEY_SIZE],
    salt: Option<[u8; SALT_SIZE]>,
}

/// Copies a 32-byte slice into an array.
fn key_array(key: &[u8]) -> (res: [u8; KEY_SIZE])
    requires
        key@.len() == KEY_SIZE,
    ensures
        res@ == key@,
{
    let mut res = [0u8; KEY_SIZE];
    let mut i: usize = 0;
    while i < KEY_SIZE
        invariant
            i <= KEY_SIZE,
            key@.len() == KEY_SIZE,
            forall|j: int| 0 <= j < i ==> res@[j] == key@[j],
        decreases KEY_SIZE - i,
    {
        res[i] = key[i];
        i = i + 1;
    }
    assert(res@ =~= key@);
    res
}

impl Cipher {
    /// The key, as bytes.
    pub closed spec fn key_view(&self) -> Seq<u8> {
        self.key@
    }

    /// The salt, as the bytes put in front of every plaintext.
    pub closed spec fn salt_view(&self) -> Seq<u8> {
        salt_prefix(self.salt)
    }

    /// Makes a cipher from a 32-byte key and an optional salt.
    pub fn new(key: &[u8], salt: Option<[u8; SALT_SIZE]>) -> (res: Result<Cipher, CipherError>)
        ensures
            res is Ok <==> key@.len() == KEY_SIZE,
            res matches Ok(c) ==> c.key_view() == key@ && c.salt_view() == salt_prefix(salt),
            res matches Err(e) ==> e == CipherError::InvalidKeyLength,
    {
        if key.len() != KEY_SIZE {
            return Err(CipherError::InvalidKeyLength);
        }
        Ok(Cipher { key: key_array(key), salt })
    }

    /// Encrypts `value` under a fresh random nonce; the result is the nonce
    /// followed by the ciphertext.
    pub fn encrypt_value(&self, value: &[u8]) -> (res: Result<Vec<u8>, CipherError>)
        requires
            !keystream_overrun(self.salt_view().len() + value@.len()),
        ensures
            res is Ok <==> seal_accepts_len(self.salt_view().len() + value@.len()),
            res is Err ==> res == Err::<Vec<u8>, CipherError>(CipherError::CryptoError),
            res matches Ok(e) ==> {
                &&& e@.len() == NONCE_SIZE + self.salt_view().len() + value@.len() + TAG_SIZE
                &&& sealed_value(self.key_view(), self.salt_view(), e@.take(NONCE_SIZE as int), value@) == Ok::<Seq<u8>, CipherError>(e@)
                &&& opened_value(self.key_view(), self.salt_view(), e@) == Ok::<Seq<u8>, CipherError>(value@)
            },
    {
        let nonce = random_nonce();
        let res = self.encrypt_value_with_nonce(value, &nonce);
        proof {
            if res is Ok {
                assert(res->Ok_0@.take(NONCE_SIZE as int) =~= nonce@);
            }
        }
        res
    }

    /// Encrypts `value` under `nonce`; the result is the nonce followed by the
    /// ciphertext.
    pub fn encrypt_value_with_nonce(&self, value: &[u8], nonce: &[u8; NONCE_SIZE]) -> (res: Result<Vec<u8>, CipherError>)
        requires
            !keystream_overrun(self.salt_view().len() + value@.len()),
        ensures
            bytes_result(res) == sealed_value(self.key_view(), self.salt_view(), nonce@, value@),
            res matches Ok(e) ==> e@.len() == NONCE_SIZE + self.salt_view().len() + value@.len() + TAG_SIZE,
            res matches Ok(e) ==> opened_value(self.key_view(), self.salt_view(), e@) == Ok::<Seq<u8>, CipherError>(value@),
    {
        let mut plaintext: Vec<u8> = Vec::new();
        if let Some(salt) = &self.salt {
            plaintext.extend_from_slice(salt.as_slice());
        }
        plaintext.extend_from_slice(value);
        assert(plaintext@ =~= self.salt_view() + value@);
        let data = match xchacha_seal(&self.key, nonce, plaintext.as_slice()) {
            Ok(d) => d,
            Err(_) => return Err(CipherError::CryptoError),
        };
        let mut encrypted: Vec<u8> = Vec::new();
        encrypted.extend_from_slice(nonce.as_slice());
        encrypted.extend_from_slice(data.as_slice());
        proof {
            let e = encrypted@;
            assert(e =~= nonce@ + data@);
            assert(e.take(NONCE_SIZE as int) =~= nonce@);
            assert(e.skip(NONCE_SIZE as int) =~= data@);
            assert(plaintext@.skip(self.salt_view().len() as int) =~= value@);
        }
        Ok(encrypted)
    }

    /// Decrypts a value made by [`Cipher::encrypt_value`]: the first 24 bytes
    /// are the nonce, the rest the ciphertext; the salt is removed from the
    /// front of the plaintext.
    pub fn decrypt_value(&self, encrypted: &[u8]) -> (res: Result<Vec<u8>, CipherError>)
        requires
            !open_overruns(self.key_view(), encrypted@),
        ensures
            bytes_result(res) == opened_value(self.key_view(), self.salt_view(), encrypted@),
            res matches Ok(v) ==> v@.len() + NONCE_SIZE + TAG_SIZE + self.salt_view().len()
                == encrypted@.len(),
    {
        if encrypted.len() <= NONCE_SIZE {
            return Err(CipherError::InvalidEncryptedValue);
        }
        let nonce = slice_subrange(encrypted, 0, NONCE_SIZE);
        let ciphertext = slice_subrange(encrypted, NONCE_SIZE, encrypted.len());
        let decrypted = match xchacha_open(&self.key, nonce, ciphertext) {
            Ok(d) => d,
            Err(_) => return Err(CipherError::CryptoError),
        };
        match &self.salt {
            Some(salt) => {
                if decrypted.len() < SALT_SIZE {
                    return Err(CipherError::InvalidEncryptedValue);
                }
                let rest = slice_to_vec(slice_subrange(decrypted.as_slice(), SALT_SIZE, decrypted.len()));
                Ok(rest)
            },
            None => {
                assert(decrypted@.skip(0) =~= decrypted@);
                Ok(decrypted)
            },
        }
    }

    /// Decrypts like [`Cipher::decrypt_value`], except for an encrypted value
    /// of a length on which decryption could overrun the keystream: `None`
    /// for those, without decrypting.
    pub fn decrypt_value_checked(&self, encrypted: &[u8]) -> (res: Option<Result<Vec<u8>, CipherError>>)
        ensures
            res is None <==> overrun_len(encrypted@.len()),
            res matches Some(r) ==> bytes_result(r) == opened_value(self.key_view(), self.salt_view(), encrypted@),
            res matches Some(Ok(v)) ==> v@.len() + NONCE_SIZE + TAG_SIZE + self.salt_view().len()
                == encrypted@.len(),
    {
        if is_overrun_len(encrypted.len()) {
            None
        } else {
            Some(self.decrypt_value(encrypted))
        }
    }

    /// The BLAKE3 digest of the salt followed by `key`.
    pub fn hash_key(&self, key: &[u8]) -> (res: [u8; HASH_SIZE])
        ensures
            res@ == blake3_digest(self.salt_view() + key@),
    {
        let mut data: Vec<u8> = Vec::new();
        if let Some(salt) = &self.salt {
            data.extend_from_slice(salt.as_slice());
        }
        data.extend_from_slice(key);
        assert(data@ =~= self.salt_view() + key@);
        blake3_hash(data.as_slice())
    }
}

} // verus!
