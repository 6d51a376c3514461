//! Mining jobs: the proof-of-work algorithm, the difficulty, and the block
//! work that miners hash, with its byte and hexadecimal forms.
use crate::encoding::{from_hex, hex_decode, hex_encode, lemma_hex_roundtrip, to_hex};
use vstd::prelude::*;

verus! {

broadcast use vstd::array::group_array_axioms;

/// The proof-of-work hash algorithm a job is mined with.
#[derive(Debug, Clone, Copy, PartialEq, Eq, Structural)]
pub enum Algorithm {
    V1,
    V2,
    V3,
}

/// A block difficulty.
pub type Difficulty = u64;

/// Size in bytes of the extra nonce of a block work.
pub const EXTRA_NONCE_SIZE: usize = 32;

/// Size in bytes of a serialized block work.
pub const BLOCK_WORK_SIZE: usize = 112;

/// The part of a block header that miners hash: the header's work hash, its
/// timestamp, the nonce, an extra nonce and the miner's public key.
#[derive(Debug, Clone, Copy, PartialEq, Eq)]
pub struct MinerWork {
    pub header_work_hash: [u8; 32],
    pub timestamp: u64,
    pub nonce: u64,
    pub extra_nonce: [u8; EXTRA_NONCE_SIZE],
    pub miner: [u8; 32],
}

/// The eight bytes of `v`, most significant first.
pub open spec fn u64_to_be(v: u64) -> Seq<u8> {
    seq![
        (v >> 56u64) as u8,
        (v >> 48u64) as u8,
        (v >> 40u64) as u8,
        (v >> 32u64) as u8,
        (v >> 24u64) as u8,
        (v >> 16u64) as u8,
        (v >> 8u64) as u8,
        v as u8,
    ]
}

/// The integer whose eight bytes, most significant first, are `b0`..`b7`.
pub open spec fn be_combine(b0: u8, b1: u8, b2: u8, b3: u8, b4: u8, b5: u8, b6: u8, b7: u8) -> u64 {
    ((b0 as u64) << 56u64) | ((b1 as u64) << 48u64) | ((b2 as u64) << 40u64) | ((b3 as u64)
        << 32u64) | ((b4 as u64) << 24u64) | ((b5 as u64) << 16u64) | ((b6 as u64) << 8u64) | (b7 as u64)
}

/// The big-endian integer of the eight bytes of `b` from `at`.
pub open spec fn be_to_u64(b: Seq<u8>, at: int) -> u64 {
    be_combine(b[at], b[at + 1], b[at + 2], b[at + 3], b[at + 4], b[at + 5], b[at + 6], b[at + 7])
}

/// The serialized form of a block work: the header work hash, the timestamp
/// and the nonce (both big-endian), the extra nonce, the miner key.
pub open spec fn work_bytes(w: MinerWork) -> Seq<u8> {
    w.header_work_hash@ + u64_to_be(w.timestamp) + u64_to_be(w.nonce) + w.extra_nonce@ + w.miner@
}

/// The block work that `bytes` serialize, if any.
pub open spec fn work_from_bytes(bytes: Seq<u8>) -> Option<MinerWork> {
    if exists|w: MinerWork| work_bytes(w) == bytes {
        Some(choose|w: MinerWork| work_bytes(w) == bytes)
    } else {
        None
    }
}

/// The block work that hexadecimal `text` stands for, if any.
pub open spec fn work_from_hex(text: Seq<char>) -> Option<MinerWork> {
    match hex_decode(text) {
        Some(bytes) => work_from_bytes(bytes),
        None => None,
    }
}

/// Reading back the eight bytes of an integer gives the integer.
proof fn lemma_be_roundtrip(v: u64)
    ensures
        be_combine(
            (v >> 56u64) as u8,
            (v >> 48u64) as u8,
            (v >> 40u64) as u8,
            (v >> 32u64) as u8,
            (v >> 24u64) as u8,
            (v >> 16u64) as u8,
            (v >> 8u64) as u8,
            v as u8,
        ) == v,
{
    assert(((((v >> 56u64) as u8) as u64) << 56u64) | ((((v >> 48u64) as u8) as u64) << 48u64) | ((((
    v >> 40u64) as u8) as u64) << 40u64) | ((((v >> 32u64) as u8) as u64) << 32u64) | ((((v >> 24u64)
        as u8) as u64) << 24u64) | ((((v >> 16u64) as u8) as u64) << 16u64) | ((((v >> 8u64) as u8)
        as u64) << 8u64) | ((v as u8) as u64) == v) by (bit_vector);
}

/// Splitting an integer made of eight bytes gives the bytes back.
proof fn lemma_be_split(b0: u8, b1: u8, b2: u8, b3: u8, b4: u8, b5: u8, b6: u8, b7: u8)
    by (bit_vector)
    ensures
        (be_combine(b0, b1, b2, b3, b4, b5, b6, b7) >> 56u64) as u8 == b0,
        (be_combine(b0, b1, b2, b3, b4, b5, b6, b7) >> 48u64) as u8 == b1,
        (be_combine(b0, b1, b2, b3, b4, b5, b6, b7) >> 40u64) as u8 == b2,
        (be_combine(b0, b1, b2, b3, b4, b5, b6, b7) >> 32u64) as u8 == b3,
        (be_combine(b0, b1, b2, b3, b4, b5, b6, b7) >> 24u64) as u8 == b4,
        (be_combine(b0, b1, b2, b3, b4, b5, b6, b7) >> 16u64) as u8 == b5,
        (be_combine(b0, b1, b2, b3, b4, b5, b6, b7) >> 8u64) as u8 == b6,
        be_combine(b0, b1, b2, b3, b4, b5, b6, b7) as u8 == b7,
{
}

/// Each block work has one serialized form of 112 bytes, and no two block
/// works share it.
pub proof fn lemma_work_bytes_injective(w1: MinerWork, w2: MinerWork)
    requires
        work_bytes(w1) == work_bytes(w2),
    ensures
        w1 == w2,
        work_bytes(w1).len() == BLOCK_WORK_SIZE,
{
    let b = work_bytes(w1);
    assert(b.subrange(0, 32) =~= w1.header_work_hash@);
    assert(work_bytes(w2).subrange(0, 32) =~= w2.header_work_hash@);
    assert(b.subrange(48, 80) =~= w1.extra_nonce@);
    assert(work_bytes(w2).subrange(48, 80) =~= w2.extra_nonce@);
    assert(b.subrange(80, 112) =~= w1.miner@);
    assert(work_bytes(w2).subrange(80, 112) =~= w2.miner@);
    assert(w1.header_work_hash =~= w2.header_work_hash);
    assert(w1.extra_nonce =~= w2.extra_nonce);
    assert(w1.miner =~= w2.miner);
    lemma_be_roundtrip(w1.timestamp);
    lemma_be_roundtrip(w2.timestamp);
    lemma_be_roundtrip(w1.nonce);
    lemma_be_roundtrip(w2.nonce);
    assert(be_to_u64(b, 32) == w1.timestamp);
    assert(be_to_u64(work_bytes(w2), 32) == w2.timestamp);
    assert(be_to_u64(b, 40) == w1.nonce);
    assert(be_to_u64(work_bytes(w2), 40) == w2.nonce);
}

/// Reading a block work back from its serialized form gives it back.
pub proof fn lemma_work_bytes_roundtrip(w: MinerWork)
    ensures
        work_from_bytes(work_bytes(w)) == Some(w),
{
    let b = work_bytes(w);
    assert(exists|x: MinerWork| work_bytes(x) == b);
    let c = choose|x: MinerWork| work_bytes(x) == b;
    lemma_work_bytes_injective(c, w);
}

/// Reading a block work back from its hexadecimal form gives it back.
pub proof fn lemma_work_hex_roundtrip(w: MinerWork)
    ensures
        work_from_hex(hex_encode(work_bytes(w))) == Some(w),
{
    lemma_hex_roundtrip(work_bytes(w));
    lemma_work_bytes_roundtrip(w);
}

/// Appends the eight bytes of `v`, most significant first.
fn push_u64_be(out: &mut Vec<u8>, v: u64)
    ensures
        final(out)@ == old(out)@ + u64_to_be(v),
{
    out.push((v >> 56u64) as u8);
    out.push((v >> 48u64) as u8);
    out.push((v >> 40u64) as u8);
    out.push((v >> 32u64) as u8);
    out.push((v >> 24u64) as u8);
    out.push((v >> 16u64) as u8);
    out.push((v >> 8u64) as u8);
    out.push(v as u8);
    assert(final(out)@ =~= old(out)@ + u64_to_be(v));
}

/// Reads the big-endian integer of the eight bytes of `b` from `at`.
fn read_u64_be(b: &[u8], at: usize) -> (v: u64)
    requires
        at + 8 <= b@.len(),
    ensures
        v == be_to_u64(b@, at as int),
{
    ((b[at] as u64) << 56u64) | ((b[at + 1] as u64) << 48u64) | ((b[at + 2] as u64) << 40u64) | ((b[at
        + 3] as u64) << 32u64) | ((b[at + 4] as u64) << 24u64) | ((b[at + 5] as u64) << 16u64) | ((b[at
        + 6] as u64) << 8u64) | (b[at + 7] as u64)
}

/// Copies the 32 bytes of `b` from `at` into an array.
fn read_array32(b: &[u8], at: usize) -> (res: [u8; 32])
    requires
        at + 32 <= b@.len(),
    ensures
        res@ == b@.subrange(at as int, at + 32),
{
    let len = b.len();
    let mut res = [0u8; 32];
    let mut i: usize = 0;
    while i < 32
        invariant
            i <= 32,
            at + 32 <= b@.len(),
            len == b@.len(),
            forall|j: int| 0 <= j < i ==> res@[j] == b@[at + j],
        decreases 32 - i,
    {
        res[i] = b[at + i];
        i = i + 1;
    }
    assert(res@ =~= b@.subrange(at as int, at + 32));
    res
}

impl MinerWork {
    /// The serialized form: 112 bytes.
    pub fn to_bytes(&self) -> (res: Vec<u8>)
        ensures
            res@ == work_bytes(*self),
            res@.len() == BLOCK_WORK_SIZE,
    {
        let mut out: Vec<u8> = Vec::new();
        out.extend_from_slice(self.header_work_hash.as_slice());
        push_u64_be(&mut out, self.timestamp);
        push_u64_be(&mut out, self.nonce);
        out.extend_from_slice(self.extra_nonce.as_slice());
        out.extend_from_slice(self.miner.as_slice());
        assert(out@ =~= work_bytes(*self));
        out
    }

    /// Reads a block work from its serialized form: `None` unless `bytes`
    /// is exactly 112 bytes long.
    pub fn from_bytes(bytes: &[u8]) -> (res: Option<MinerWork>)
        ensures
            res == work_from_bytes(bytes@),
            res is Some <==> bytes@.len() == BLOCK_WORK_SIZE,
    {
        if bytes.len() != BLOCK_WORK_SIZE {
            proof {
                if exists|x: MinerWork| work_bytes(x) == bytes@ {
                    let x = choose|x: MinerWork| work_bytes(x) == bytes@;
                    lemma_work_bytes_injective(x, x);
                }
            }
            return None;
        }
        let w = MinerWork {
            header_work_hash: read_array32(bytes, 0),
            timestamp: read_u64_be(bytes, 32),
            nonce: read_u64_be(bytes, 40),
            extra_nonce: read_array32(bytes, 48),
            miner: read_array32(bytes, 80),
        };
        proof {
            let b = bytes@;
            lemma_be_split(b[32], b[33], b[34], b[35], b[36], b[37], b[38], b[39]);
            lemma_be_split(b[40], b[41], b[42], b[43], b[44], b[45], b[46], b[47]);
            assert(u64_to_be(w.timestamp) =~= b.subrange(32, 40));
            assert(u64_to_be(w.nonce) =~= b.subrange(40, 48));
            assert(work_bytes(w) =~= b);
            let c = choose|x: MinerWork| work_bytes(x) == b;
            lemma_work_bytes_injective(c, w);
        }
        Some(w)
    }

    /// The serialized form as lowercase hexadecimal.
    pub fn to_hex(&self) -> (res: String)
        ensures
            res@ == hex_encode(work_bytes(*self)),
    {
        let bytes = self.to_bytes();
        to_hex(bytes.as_slice())
    }

    /// Reads a block work from hexadecimal text (either case): `None` unless
    /// the text decodes to exactly 112 bytes.
    pub fn from_hex(text: &str) -> (res: Option<MinerWork>)
        ensures
            res == work_from_hex(text@),
    {
        match from_hex(text) {
            Some(bytes) => MinerWork::from_bytes(bytes.as_slice()),
            None => None,
        }
    }

    /// Writes a mining thread's id, big-endian, into the last two bytes of
    /// the extra nonce, so that threads search apart.
    pub fn set_thread_id_u16(&mut self, id: u16)
        ensures
            final(self).extra_nonce@ == old(self).extra_nonce@.update(30, (id >> 8u16) as u8).update(
                31,
                id as u8,
            ),
            final(self).header_work_hash == old(self).header_work_hash,
            final(self).timestamp == old(self).timestamp,
            final(self).nonce == old(self).nonce,
            final(self).miner == old(self).miner,
    {
        self.extra_nonce[30] = (id >> 8u16) as u8;
        self.extra_nonce[31] = id as u8;
    }

    /// The timestamp of the block work, in milliseconds.
    pub fn get_timestamp(&self) -> (res: u64)
        ensures
            res == self.timestamp,
    {
        self.timestamp
    }

    /// Sets the timestamp of the block work, in milliseconds.
    pub fn set_timestamp(&mut self, timestamp: u64)
        ensures
            *final(self) == (MinerWork { timestamp, ..*old(self) }),
    {
        self.timestamp = timestamp;
    }
}

} // verus!
