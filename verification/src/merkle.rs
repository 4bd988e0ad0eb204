//! Membership proofs against a committed Merkle root.
//!
//! A leaf is the SHA-256 digest of its input bytes. A parent is the digest
//! of its two children, the smaller child (as a byte string) first, so a
//! proof is the list of siblings from the leaf up, with no left/right flags.

use crate::bytes::{bytes_le, lex_le};
use sha2::Digest;
use vstd::prelude::*;

verus! {

/// The SHA-256 digest of a byte string.
pub uninterp spec fn sha256_of(data: Seq<u8>) -> [u8; 32];

/// Calls `sha2::Sha256::digest`: the result is the SHA-256 digest of `data`.
#[verifier::external_body]
pub(crate) fn sha256(data: &[u8]) -> (digest: [u8; 32])
    ensures
        digest@ == sha256_of(data@)@,
{
    sha2::Sha256::digest(data).into()
}

/// Two byte strings joined, the smaller one first.
pub open spec fn sorted_pair(a: Seq<u8>, b: Seq<u8>) -> Seq<u8> {
    if lex_le(a, b) {
        a + b
    } else {
        b + a
    }
}

/// The digest of a leaf input.
pub open spec fn leaf_hash(input: Seq<u8>) -> Seq<u8> {
    sha256_of(input)@
}

/// The digest of the parent of two nodes.
pub open spec fn parent_hash(a: Seq<u8>, b: Seq<u8>) -> Seq<u8> {
    sha256_of(sorted_pair(a, b))@
}

/// The node reached from `acc` by climbing past the siblings in `proof`,
/// first sibling first.
pub open spec fn fold_proof(acc: Seq<u8>, proof: Seq<Seq<u8>>) -> Seq<u8>
    decreases proof.len(),
{
    if proof.len() == 0 {
        acc
    } else {
        fold_proof(parent_hash(acc, proof[0]), proof.drop_first())
    }
}

/// Whether `proof` leads from the leaf with input `leaf_input` to `root`.
pub open spec fn proof_verifies(root: Seq<u8>, leaf_input: Seq<u8>, proof: Seq<Seq<u8>>) -> bool {
    fold_proof(leaf_hash(leaf_input), proof) == root
}

/// The siblings of a proof as byte strings.
pub open spec fn siblings(proof: Seq<[u8; 32]>) -> Seq<Seq<u8>> {
    proof.map_values(|d: [u8; 32]| d@)
}

/// Climbing past one more sibling at the end of a proof.
pub proof fn lemma_fold_proof_push(acc: Seq<u8>, proof: Seq<Seq<u8>>, last: Seq<u8>)
    ensures
        fold_proof(acc, proof.push(last)) == parent_hash(fold_proof(acc, proof), last),
    decreases proof.len(),
{
    let longer = proof.push(last);
    if proof.len() == 0 {
        assert(longer.drop_first() =~= proof);
        assert(fold_proof(acc, longer) == fold_proof(parent_hash(acc, longer[0]), proof));
    } else {
        assert(longer.drop_first() =~= proof.drop_first().push(last));
        lemma_fold_proof_push(parent_hash(acc, proof[0]), proof.drop_first(), last);
        assert(fold_proof(acc, longer) == fold_proof(
            parent_hash(acc, longer[0]),
            longer.drop_first(),
        ));
    }
}

/// Whether two digests are the same.
pub fn digest_eq(a: &[u8; 32], b: &[u8; 32]) -> (r: bool)
    ensures
        r == (a@ == b@),
{
    let mut i: usize = 0;
    while i < 32
        invariant
            i <= 32,
            forall|j: int| 0 <= j < i ==> a@[j] == b@[j],
        decreases 32 - i,
    {
        if a[i] != b[i] {
            return false;
        }
        i += 1;
    }
    assert(a@ =~= b@);
    true
}

/// The digest of the parent of two nodes.
pub fn hash_pair(a: &[u8; 32], b: &[u8; 32]) -> (parent: [u8; 32])
    ensures
        parent@ == parent_hash(a@, b@),
{
    let mut joined: Vec<u8> = Vec::new();
    let a_first = bytes_le(a.as_slice(), b.as_slice());
    let (lo, hi) = if a_first {
        (a, b)
    } else {
        (b, a)
    };
    let mut i: usize = 0;
    while i < 32
        invariant
            i <= 32,
            joined@ == lo@.take(i as int),
        decreases 32 - i,
    {
        joined.push(lo[i]);
        assert(lo@.take(i + 1) =~= lo@.take(i as int).push(lo@[i as int]));
        i += 1;
    }
    assert(lo@.take(32) =~= lo@);
    i = 0;
    while i < 32
        invariant
            i <= 32,
            joined@ == lo@ + hi@.take(i as int),
        decreases 32 - i,
    {
        joined.push(hi[i]);
        assert(lo@ + hi@.take(i + 1) =~= (lo@ + hi@.take(i as int)).push(hi@[i as int]));
        i += 1;
    }
    assert(hi@.take(32) =~= hi@);
    sha256(joined.as_slice())
}

/// The root that `proof` leads to from the leaf with input `leaf_input`.
pub fn compute_root(leaf_input: &[u8], proof: &Vec<[u8; 32]>) -> (root: [u8; 32])
    ensures
        root@ == fold_proof(leaf_hash(leaf_input@), siblings(proof@)),
{
    let mut acc = sha256(leaf_input);
    let mut i: usize = 0;
    let ghost all = siblings(proof@);
    assert(all.skip(0) =~= all);
    while i < proof.len()
        invariant
            i <= proof.len(),
            all == siblings(proof@),
            fold_proof(acc@, all.skip(i as int)) == fold_proof(leaf_hash(leaf_input@), all),
        decreases proof.len() - i,
    {
        proof {
            assert(all.skip(i as int)[0] == proof@[i as int]@);
            assert(all.skip(i as int).drop_first() =~= all.skip(i + 1));
        }
        acc = hash_pair(&acc, &proof[i]);
        i += 1;
    }
    acc
}

/// Checks a membership proof: whether climbing from the leaf with input
/// `leaf_input` past the siblings in `proof` ends at `root`.
pub fn verify_proof(root: &[u8; 32], leaf_input: &[u8], proof: &Vec<[u8; 32]>) -> (ok: bool)
    ensures
        ok == proof_verifies(root@, leaf_input@, siblings(proof@)),
{
    let computed = compute_root(leaf_input, proof);
    digest_eq(&computed, root)
}

} // verus!
