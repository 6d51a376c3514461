//! The cryptographic primitives this library rests on: XChaCha20Poly1305
//! (crate `chacha20poly1305`) and BLAKE3 (crate `blake3`).
//!
//! Everything here is trusted: each item below states what the outside crate
//! does, and nothing in it is proved.
use chacha20poly1305::aead::Aead;
use chacha20poly1305::{AeadCore, KeyInit, XChaCha20Poly1305, XNonce};
use vstd::prelude::*;

verus! {

/// Size in bytes of an XChaCha20Poly1305 key.
pub const KEY_SIZE: usize = 32;

/// Size in bytes of an XChaCha20Poly1305 nonce.
pub const NONCE_SIZE: usize = 24;

/// Size in bytes of the Poly1305 tag appended to every ciphertext.
pub const TAG_SIZE: usize = 16;

/// Size in bytes of a BLAKE3 digest.
pub const HASH_SIZE: usize = 32;

/// A 32-byte hash (a BLAKE3 digest), identifying a block, a contract or an
/// asset.
#[derive(Debug, Clone, Copy, PartialEq, Eq)]
pub struct Hash(pub [u8; HASH_SIZE]);

/// A 32-byte compressed public key identifying an account.
#[derive(Debug, Clone, Copy, PartialEq, Eq)]
pub struct PublicKey(pub [u8; 32]);

/// The AEAD error of `chacha20poly1305` (a unit struct that carries no detail).
#[verifier::external_type_specification]
#[verifier::external_body]
pub struct ExAeadError(chacha20poly1305::Error);

/// The ciphertext (with its tag appended) that XChaCha20Poly1305 produces for
/// `plaintext` under `key` and `nonce`, with empty associated data.
pub uninterp spec fn xchacha20poly1305_seal(key: Seq<u8>, nonce: Seq<u8>, plaintext: Seq<u8>) -> Seq<u8>;

/// The plaintext that XChaCha20Poly1305 recovers from `ciphertext` (tag
/// appended) under `key` and `nonce`, or `None` when authentication fails.
pub uninterp spec fn xchacha20poly1305_open(key: Seq<u8>, nonce: Seq<u8>, ciphertext: Seq<u8>) -> Option<Seq<u8>>;

/// The BLAKE3 digest of `input`.
pub uninterp spec fn blake3_digest(input: Seq<u8>) -> Seq<u8>;

/// Whether `chacha20poly1305`'s length check accepts a message of `len`
/// bytes: it refuses `u32::MAX` whole ChaCha blocks (64 bytes each) or more.
pub open spec fn seal_accepts_len(len: nat) -> bool {
    len / 64 < u32::MAX as nat
}

/// Whether a message of `len` bytes passes that length check but needs more
/// keystream than is left once the first block has gone to the Poly1305 key
/// (`u32::MAX - 1` blocks): `chacha20poly1305` panics on such a message.
pub open spec fn keystream_overrun(len: nat) -> bool {
    len / 64 == (u32::MAX - 1) as nat && len % 64 != 0
}

/// `<XChaCha20Poly1305 as Aead>::encrypt` with empty associated data, on a
/// cipher made by `KeyInit::new` from `key` (the cipher holds the key and
/// nothing else). The source fails when the plaintext reaches `u32::MAX`
/// blocks of 64 bytes, and panics when it needs more keystream than the
/// `u32::MAX - 1` blocks left after the Poly1305 key (those lengths are left
/// out); otherwise it returns the plaintext run through the keystream
/// followed by the 16-byte tag. Stated here: success exactly where the length
/// check passes, the result's length, the result as the named ciphertext,
/// and that opening it under the same key and nonce gives the plaintext back.
#[verifier::external_body]
pub(crate) fn xchacha_seal(key: &[u8; KEY_SIZE], nonce: &[u8; NONCE_SIZE], plaintext: &[u8]) -> (res: Result<Vec<u8>, chacha20poly1305::Error>)
    requires
        !keystream_overrun(plaintext@.len()),
    ensures
        res is Ok <==> seal_accepts_len(plaintext@.len()),
        res matches Ok(c) ==> {
            &&& c@ == xchacha20poly1305_seal(key@, nonce@, plaintext@)
            &&& c@.len() == plaintext@.len() + TAG_SIZE
            &&& xchacha20poly1305_open(key@, nonce@, c@) == Some(plaintext@)
        },
{
    XChaCha20Poly1305::new(key.into()).encrypt(nonce.into(), plaintext)
}

/// `<XChaCha20Poly1305 as Aead>::decrypt` with empty associated data, on a
/// cipher made by `KeyInit::new` from `key`, the nonce read by
/// `XNonce::from_slice` (which panics unless it is 24 bytes long). It fails
/// on input shorter than the tag, on a message (the input without its tag)
/// of `u32::MAX` blocks of 64 bytes or more, and on a tag that does not
/// authenticate; otherwise the plaintext is the message run through the
/// keystream. An authentic message that needs more keystream than is left
/// after the Poly1305 key makes it panic: such inputs are left out.
#[verifier::external_body]
pub(crate) fn xchacha_open(key: &[u8; KEY_SIZE], nonce: &[u8], ciphertext: &[u8]) -> (res: Result<Vec<u8>, chacha20poly1305::Error>)
    requires
        nonce@.len() == NONCE_SIZE,
        !(ciphertext@.len() >= TAG_SIZE && keystream_overrun((ciphertext@.len() - TAG_SIZE) as nat)
            && xchacha20poly1305_open(key@, nonce@, ciphertext@) is Some),
    ensures
        res matches Ok(p) ==> xchacha20poly1305_open(key@, nonce@, ciphertext@) == Some(p@),
        res is Err ==> xchacha20poly1305_open(key@, nonce@, ciphertext@) is None,
        ciphertext@.len() < TAG_SIZE ==> res is Err,
        res matches Ok(p) ==> p@.len() + TAG_SIZE == ciphertext@.len(),
{
    XChaCha20Poly1305::new(key.into()).decrypt(XNonce::from_slice(nonce), ciphertext)
}

/// `XChaCha20Poly1305::generate_nonce` fed by `OsRng`: 24 bytes from the
/// operating system's random source. Nothing is promised of their value.
#[verifier::external_body]
pub(crate) fn random_nonce() -> (nonce: [u8; NONCE_SIZE]) {
    XChaCha20Poly1305::generate_nonce(&mut chacha20poly1305::aead::OsRng).into()
}

/// `blake3::hash`: the 32-byte BLAKE3 digest of `input`.
#[verifier::external_body]
pub(crate) fn blake3_hash(input: &[u8]) -> (digest: [u8; HASH_SIZE])
    ensures
        digest@ == blake3_digest(input@),
{
    blake3::hash(input).into()
}

} // verus!
