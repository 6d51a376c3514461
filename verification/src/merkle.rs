//! Merkle roots of lists of hashes, built bottom-up: each level hashes
//! pairs of the level below (an odd last hash is paired with itself) until
//! one hash is left.
use crate::crypto::{blake3_digest, blake3_hash, HASH_SIZE};
use vstd::prelude::*;

verus! {

/// The level above `level`: the BLAKE3 digest of each pair of neighbours,
/// the last hash of an odd level paired with itself.
pub open spec fn merkle_level(level: Seq<Seq<u8>>) -> Seq<Seq<u8>> {
    Seq::new(
        ((level.len() + 1) / 2) as nat,
        |i: int|
            blake3_digest(
                level[2 * i] + if 2 * i + 1 < level.len() {
                    level[2 * i + 1]
                } else {
                    level[2 * i]
                },
            ),
    )
}

/// The Merkle root of a non-empty list of hashes.
pub open spec fn merkle_root(level: Seq<Seq<u8>>) -> Seq<u8>
    decreases level.len(),
{
    if level.len() <= 1 {
        level[0]
    } else {
        merkle_root(merkle_level(level))
    }
}

/// The root of a single hash is that hash.
pub proof fn law_merkle_root_of_one(h: Seq<u8>)
    ensures
        merkle_root(seq![h]) == h,
{
}

/// The root of two hashes is the digest of the first followed by the second.
pub proof fn law_merkle_root_of_two(a: Seq<u8>, b: Seq<u8>)
    ensures
        merkle_root(seq![a, b]) == blake3_digest(a + b),
{
    let up = merkle_level(seq![a, b]);
    assert(up.len() == 1);
    assert(up[0] == blake3_digest(a + b));
    assert(merkle_root(up) == up[0]);
}

/// Each level above holds one hash per pair of neighbours, in order: the
/// digest of the left hash followed by the right one; an odd last hash is
/// paired with itself.
pub proof fn law_merkle_level_pairs(level: Seq<Seq<u8>>)
    ensures
        merkle_level(level).len() == (level.len() + 1) / 2,
        forall|i: int|
            0 <= i && 2 * i + 1 < level.len() ==> #[trigger] merkle_level(level)[i] == blake3_digest(
                level[2 * i] + level[2 * i + 1],
            ),
        level.len() % 2 == 1 ==> merkle_level(level)[(level.len() / 2) as int] == blake3_digest(
            level[level.len() - 1] + level[level.len() - 1],
        ),
{
}

/// The root of a level of two or more hashes is the root of the level above
/// it; the root of one hash is that hash.
pub proof fn law_merkle_root_climbs(level: Seq<Seq<u8>>)
    requires
        level.len() > 0,
    ensures
        level.len() == 1 ==> merkle_root(level) == level[0],
        level.len() > 1 ==> merkle_root(level) == merkle_root(merkle_level(level)),
{
}

/// The root of four hashes is the digest of the digests of the two pairs,
/// each pair hashed left then right.
pub proof fn law_merkle_root_of_four(a: Seq<u8>, b: Seq<u8>, c: Seq<u8>, d: Seq<u8>)
    ensures
        merkle_root(seq![a, b, c, d]) == blake3_digest(blake3_digest(a + b) + blake3_digest(c + d)),
{
    let l0 = seq![a, b, c, d];
    let l1 = merkle_level(l0);
    assert(l1.len() == 2);
    assert(l1[0] == blake3_digest(a + b));
    assert(l1[1] == blake3_digest(c + d));
    let l2 = merkle_level(l1);
    assert(l2.len() == 1);
    assert(l2[0] == blake3_digest(l1[0] + l1[1]));
    assert(merkle_root(l1) == merkle_root(l2));
    assert(merkle_root(l2) == l2[0]);
}

/// The root of three hashes pairs the third with itself.
pub proof fn law_merkle_root_of_three(a: Seq<u8>, b: Seq<u8>, c: Seq<u8>)
    ensures
        merkle_root(seq![a, b, c]) == blake3_digest(blake3_digest(a + b) + blake3_digest(c + c)),
{
    let l0 = seq![a, b, c];
    let l1 = merkle_level(l0);
    assert(l1.len() == 2);
    assert(l1[0] == blake3_digest(a + b));
    assert(l1[1] == blake3_digest(c + c));
    let l2 = merkle_level(l1);
    assert(l2.len() == 1);
    assert(l2[0] == blake3_digest(l1[0] + l1[1]));
    assert(merkle_root(l1) == merkle_root(l2));
    assert(merkle_root(l2) == l2[0]);
}

/// Builds a Merkle root from a list of hashes.
pub struct MerkleBuilder {
    hashes: Vec<crate::crypto::Hash>,
}

/// Whether two hashes hold the same bytes.
fn same_hash(a: &crate::crypto::Hash, b: &crate::crypto::Hash) -> (res: bool)
    ensures
        res == (a.0@ == b.0@),
{
    let mut i: usize = 0;
    while i < HASH_SIZE
        invariant
            i <= HASH_SIZE,
            forall|j: int| 0 <= j < i ==> a.0@[j] == b.0@[j],
        decreases HASH_SIZE - i,
    {
        if a.0[i] != b.0[i] {
            return false;
        }
        i = i + 1;
    }
    assert(a.0@ =~= b.0@);
    true
}

/// The digest of two hashes, one after the other.
fn hash_pair(left: &crate::crypto::Hash, right: &crate::crypto::Hash) -> (res: crate::crypto::Hash)
    ensures
        res.0@ == blake3_digest(left.0@ + right.0@),
{
    let mut data: Vec<u8> = Vec::new();
    data.extend_from_slice(left.0.as_slice());
    data.extend_from_slice(right.0.as_slice());
    assert(data@ =~= left.0@ + right.0@);
    crate::crypto::Hash(blake3_hash(data.as_slice()))
}

impl MerkleBuilder {
    /// The hashes added so far, as bytes, in order.
    pub closed spec fn level(&self) -> Seq<Seq<u8>> {
        self.hashes@.map_values(|h: crate::crypto::Hash| h.0@)
    }

    /// An empty builder.
    pub fn new() -> (res: MerkleBuilder)
        ensures
            res.level() == Seq::<Seq<u8>>::empty(),
    {
        let res = MerkleBuilder { hashes: Vec::new() };
        assert(res.level() =~= Seq::<Seq<u8>>::empty());
        res
    }

    /// An empty builder with room for `capacity` hashes.
    pub fn with_capacity(capacity: usize) -> (res: MerkleBuilder)
        ensures
            res.level() == Seq::<Seq<u8>>::empty(),
    {
        let res = MerkleBuilder { hashes: Vec::with_capacity(capacity) };
        assert(res.level() =~= Seq::<Seq<u8>>::empty());
        res
    }

    /// A builder holding `hashes`, in order.
    pub fn from_hashes(hashes: &[crate::crypto::Hash]) -> (res: MerkleBuilder)
        ensures
            res.level() == hashes@.map_values(|h: crate::crypto::Hash| h.0@),
    {
        let mut all: Vec<crate::crypto::Hash> = Vec::new();
        let mut i: usize = 0;
        while i < hashes.len()
            invariant
                i <= hashes@.len(),
                all@ == hashes@.take(i as int),
            decreases hashes@.len() - i,
        {
            all.push(hashes[i]);
            i = i + 1;
            assert(all@ =~= hashes@.take(i as int));
        }
        assert(hashes@.take(hashes@.len() as int) =~= hashes@);
        let res = MerkleBuilder { hashes: all };
        assert(res.level() =~= hashes@.map_values(|h: crate::crypto::Hash| h.0@));
        res
    }

    /// Appends a hash.
    pub fn add_hash(&mut self, hash: crate::crypto::Hash)
        ensures
            final(self).level() == old(self).level().push(hash.0@),
    {
        self.hashes.push(hash);
        assert(self.level() =~= old(self).level().push(hash.0@));
    }

    /// Appends the BLAKE3 digest of `data`.
    pub fn add_raw_bytes(&mut self, data: &[u8])
        ensures
            final(self).level() == old(self).level().push(blake3_digest(data@)),
    {
        let hashed = crate::crypto::Hash(blake3_hash(data));
        self.add_hash(hashed);
    }

    /// Appends 32 bytes as a hash.
    pub fn add_raw_hash(&mut self, bytes: [u8; HASH_SIZE])
        ensures
            final(self).level() == old(self).level().push(bytes@),
    {
        self.add_hash(crate::crypto::Hash(bytes));
    }

    /// Builds the Merkle root of the hashes added, which leaves the builder
    /// empty.
    pub fn build(&mut self) -> (root: crate::crypto::Hash)
        requires
            old(self).level().len() > 0,
        ensures
            root.0@ == merkle_root(old(self).level()),
            final(self).level().len() == 0,
    {
        while self.hashes.len() > 1
            invariant
                self.hashes@.len() >= 1,
                merkle_root(self.level()) == merkle_root(old(self).level()),
            decreases self.hashes@.len(),
        {
            let len = self.hashes.len();
            let pairs = len / 2 + len % 2;
            let ghost below = self.level();
            let mut above: Vec<crate::crypto::Hash> = Vec::new();
            let mut k: usize = 0;
            while k < pairs
                invariant
                    len == self.hashes@.len(),
                    len > 1,
                    pairs == (len + 1) / 2,
                    below == self.level(),
                    k <= pairs,
                    above@.len() == k,
                    forall|j: int| 0 <= j < k ==> (#[trigger] above@[j]).0@ == merkle_level(below)[j],
                decreases pairs - k,
            {
                let i = 2 * k;
                let left = &self.hashes[i];
                let right = if i + 1 < len {
                    &self.hashes[i + 1]
                } else {
                    &self.hashes[i]
                };
                let up = hash_pair(left, right);
                above.push(up);
                k = k + 1;
            }
            self.hashes = above;
            assert(self.level() =~= merkle_level(below));
        }
        let root = self.hashes.remove(0);
        assert(self.level().len() == 0);
        root
    }

    /// Whether `root` is the Merkle root of the hashes added (which leaves
    /// the builder empty).
    pub fn verify(&mut self, root: &crate::crypto::Hash) -> (res: bool)
        requires
            old(self).level().len() > 0,
        ensures
            res == (root.0@ == merkle_root(old(self).level())),
            final(self).level().len() == 0,
    {
        let built = self.build();
        same_hash(&built, root)
    }
}

} // verus!
