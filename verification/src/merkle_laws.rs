//! What the proof scheme guarantees, stated against a model of the tree
//! that a root commits to.

use crate::bytes::{lemma_lex_le_antisym, lemma_lex_le_total, lex_le};
use crate::merkle::{fold_proof, leaf_hash, lemma_fold_proof_push, parent_hash, proof_verifies, sha256_of, sorted_pair};
use vstd::prelude::*;

verus! {

/// A hash tree over leaf inputs.
pub enum MerkleTree {
    Leaf { input: Seq<u8> },
    Node { left: Box<MerkleTree>, right: Box<MerkleTree> },
}

impl MerkleTree {
    /// The bytes whose digest is this node: the input of a leaf, the sorted
    /// pair of the children's digests for an inner node.
    pub open spec fn preimage(self) -> Seq<u8>
        decreases self,
    {
        match self {
            MerkleTree::Leaf { input } => input,
            MerkleTree::Node { left, right } => sorted_pair(left.root(), right.root()),
        }
    }

    /// The digest of this node; for the whole tree, the committed root.
    pub open spec fn root(self) -> Seq<u8>
        decreases self,
    {
        match self {
            MerkleTree::Leaf { input } => leaf_hash(input),
            MerkleTree::Node { left, right } => parent_hash(left.root(), right.root()),
        }
    }

    /// Whether `input` is the input of one of the leaves.
    pub open spec fn contains(self, input: Seq<u8>) -> bool
        decreases self,
    {
        match self {
            MerkleTree::Leaf { input: own } => own == input,
            MerkleTree::Node { left, right } => left.contains(input) || right.contains(input),
        }
    }

    /// Whether `bytes` is the preimage of some node, leaf or inner.
    pub open spec fn has_preimage(self, bytes: Seq<u8>) -> bool
        decreases self,
    {
        match self {
            MerkleTree::Leaf { input } => input == bytes,
            MerkleTree::Node { left, right } => self.preimage() == bytes || left.has_preimage(bytes)
                || right.has_preimage(bytes),
        }
    }

    /// Whether no leaf input is as long as a pair of digests.
    pub open spec fn leaves_differ_from_pairs(self) -> bool
        decreases self,
    {
        match self {
            MerkleTree::Leaf { input } => input.len() != 64,
            MerkleTree::Node { left, right } => left.leaves_differ_from_pairs()
                && right.leaves_differ_from_pairs(),
        }
    }

    /// The siblings on the way from a leaf with input `input` up to the
    /// root, nearest sibling first. Of several such leaves the leftmost is
    /// taken.
    pub open spec fn proof_for(self, input: Seq<u8>) -> Seq<Seq<u8>>
        decreases self,
    {
        match self {
            MerkleTree::Leaf { .. } => Seq::empty(),
            MerkleTree::Node { left, right } => if left.contains(input) {
                left.proof_for(input).push(right.root())
            } else {
                right.proof_for(input).push(left.root())
            },
        }
    }
}

/// Whether two different byte strings with the same SHA-256 digest exist.
pub open spec fn sha256_collision_exists() -> bool {
    exists|a: Seq<u8>, b: Seq<u8>|
        #![trigger sha256_of(a), sha256_of(b)]
        a != b && sha256_of(a)@ == sha256_of(b)@
}

/// Sibling-order invariance: the parent of two nodes does not depend on
/// which of them is named first.
pub proof fn lemma_parent_hash_symmetric(a: Seq<u8>, b: Seq<u8>)
    ensures
        sorted_pair(a, b) == sorted_pair(b, a),
        parent_hash(a, b) == parent_hash(b, a),
{
    lemma_lex_le_total(a, b);
    if lex_le(a, b) && lex_le(b, a) {
        lemma_lex_le_antisym(a, b);
    }
}

/// Every node digest is 32 bytes long.
pub proof fn lemma_root_len(tree: MerkleTree)
    ensures
        tree.root().len() == 32,
{
    match tree {
        MerkleTree::Leaf { input } => {},
        MerkleTree::Node { left, right } => {},
    }
}

/// Every sibling of a generated proof is a digest of 32 bytes.
pub proof fn lemma_proof_for_siblings_len(tree: MerkleTree, input: Seq<u8>)
    ensures
        forall|i: int|
            0 <= i < tree.proof_for(input).len() ==> (#[trigger] tree.proof_for(input)[i]).len()
                == 32,
    decreases tree,
{
    match tree {
        MerkleTree::Leaf { .. } => {},
        MerkleTree::Node { left, right } => {
            lemma_proof_for_siblings_len(*left, input);
            lemma_proof_for_siblings_len(*right, input);
            lemma_root_len(*left);
            lemma_root_len(*right);
            let (below, last) = if left.contains(input) {
                (left.proof_for(input), right.root())
            } else {
                (right.proof_for(input), left.root())
            };
            assert(tree.proof_for(input) == below.push(last));
            assert forall|i: int| 0 <= i < below.push(last).len() implies (#[trigger] below.push(
                last,
            )[i]).len() == 32 by {
                if i < below.len() {
                    assert(below.push(last)[i] == below[i]);
                }
            }
        },
    }
}

/// Proof completeness: for a leaf that is in the tree, the siblings on its
/// way up verify against the root. A tree of a single leaf has the empty
/// proof.
pub proof fn lemma_generated_proof_verifies(tree: MerkleTree, input: Seq<u8>)
    requires
        tree.contains(input),
    ensures
        proof_verifies(tree.root(), input, tree.proof_for(input)),
        tree is Leaf ==> tree.proof_for(input).len() == 0,
    decreases tree,
{
    match tree {
        MerkleTree::Leaf { .. } => {},
        MerkleTree::Node { left, right } => {
            if left.contains(input) {
                lemma_generated_proof_verifies(*left, input);
                lemma_fold_proof_push(leaf_hash(input), left.proof_for(input), right.root());
            } else {
                lemma_generated_proof_verifies(*right, input);
                lemma_fold_proof_push(leaf_hash(input), right.proof_for(input), left.root());
                lemma_parent_hash_symmetric(right.root(), left.root());
            }
        },
    }
}

/// Two sorted pairs of digests that are equal are made of the same two
/// digests.
proof fn lemma_sorted_pair_halves(a: Seq<u8>, b: Seq<u8>, c: Seq<u8>, d: Seq<u8>)
    requires
        a.len() == 32,
        b.len() == 32,
        c.len() == 32,
        d.len() == 32,
        sorted_pair(a, b) == sorted_pair(c, d),
    ensures
        a == c || a == d,
{
    let left = sorted_pair(a, b);
    let right = sorted_pair(c, d);
    assert(left.subrange(0, 32) == right.subrange(0, 32));
    assert(left.subrange(32, 64) == right.subrange(32, 64));
    assert((a + b).subrange(0, 32) =~= a);
    assert((a + b).subrange(32, 64) =~= b);
    assert((b + a).subrange(0, 32) =~= b);
    assert((b + a).subrange(32, 64) =~= a);
    assert((c + d).subrange(0, 32) =~= c);
    assert((c + d).subrange(32, 64) =~= d);
    assert((d + c).subrange(0, 32) =~= d);
    assert((d + c).subrange(32, 64) =~= c);
}

/// A byte string with the digest of a node is that node's preimage, unless
/// SHA-256 collides.
proof fn lemma_same_digest_as_node(tree: MerkleTree, bytes: Seq<u8>)
    requires
        sha256_of(bytes)@ == tree.root(),
    ensures
        tree.has_preimage(bytes) || sha256_collision_exists(),
{
    let pre = tree.preimage();
    assert(tree.root() == sha256_of(pre)@) by {
        match tree {
            MerkleTree::Leaf { input } => {},
            MerkleTree::Node { left, right } => {},
        }
    }
    if bytes != pre {
        assert(bytes != pre && sha256_of(bytes)@ == sha256_of(pre)@);
    } else {
        match tree {
            MerkleTree::Leaf { input } => {},
            MerkleTree::Node { left, right } => {},
        }
    }
}

/// One step down: if the parent that `bytes` forms with a sibling is the
/// preimage of a node, then `bytes` is one too, unless SHA-256 collides.
proof fn lemma_preimage_of_child(tree: MerkleTree, bytes: Seq<u8>, sibling: Seq<u8>)
    requires
        sibling.len() == 32,
        tree.leaves_differ_from_pairs(),
        tree.has_preimage(sorted_pair(sha256_of(bytes)@, sibling)),
    ensures
        tree.has_preimage(bytes) || sha256_collision_exists(),
    decreases tree,
{
    let own = sha256_of(bytes)@;
    let joined = sorted_pair(own, sibling);
    assert(joined.len() == 64);
    match tree {
        MerkleTree::Leaf { input } => {},
        MerkleTree::Node { left, right } => {
            if left.has_preimage(joined) {
                lemma_preimage_of_child(*left, bytes, sibling);
            } else if right.has_preimage(joined) {
                lemma_preimage_of_child(*right, bytes, sibling);
            } else {
                lemma_root_len(*left);
                lemma_root_len(*right);
                lemma_sorted_pair_halves(own, sibling, left.root(), right.root());
                if own == left.root() {
                    lemma_same_digest_as_node(*left, bytes);
                } else {
                    lemma_same_digest_as_node(*right, bytes);
                }
            }
        },
    }
}

/// A byte string from whose digest a proof climbs to the root is the
/// preimage of some node of the tree, unless SHA-256 collides.
proof fn lemma_climb_starts_at_node(tree: MerkleTree, bytes: Seq<u8>, proof: Seq<Seq<u8>>)
    requires
        tree.leaves_differ_from_pairs(),
        forall|i: int| 0 <= i < proof.len() ==> (#[trigger] proof[i]).len() == 32,
        fold_proof(sha256_of(bytes)@, proof) == tree.root(),
    ensures
        tree.has_preimage(bytes) || sha256_collision_exists(),
    decreases proof.len(),
{
    if proof.len() == 0 {
        lemma_same_digest_as_node(tree, bytes);
    } else {
        let joined = sorted_pair(sha256_of(bytes)@, proof[0]);
        let rest = proof.drop_first();
        assert forall|i: int| 0 <= i < rest.len() implies (#[trigger] rest[i]).len() == 32 by {
            assert(rest[i] == proof[i + 1]);
        }
        lemma_climb_starts_at_node(tree, joined, rest);
        if tree.has_preimage(joined) {
            lemma_preimage_of_child(tree, bytes, proof[0]);
        }
    }
}

/// A node preimage that is not as long as a pair of digests is a leaf input.
proof fn lemma_short_preimage_is_leaf(tree: MerkleTree, bytes: Seq<u8>)
    requires
        tree.has_preimage(bytes),
        bytes.len() != 64,
    ensures
        tree.contains(bytes),
    decreases tree,
{
    match tree {
        MerkleTree::Leaf { input } => {},
        MerkleTree::Node { left, right } => {
            lemma_root_len(*left);
            lemma_root_len(*right);
            if left.has_preimage(bytes) {
                lemma_short_preimage_is_leaf(*left, bytes);
            } else if right.has_preimage(bytes) {
                lemma_short_preimage_is_leaf(*right, bytes);
            }
        },
    }
}

/// Proof soundness: a proof that verifies for `input` against the root of a
/// tree shows that `input` is one of the leaves, or else exhibits a SHA-256
/// collision. The scheme hashes leaves and inner nodes alike, so the
/// statement is for inputs and leaves that cannot be mistaken for a pair of
/// digests, that is, that are not 64 bytes long.
pub proof fn lemma_verified_input_is_leaf(tree: MerkleTree, input: Seq<u8>, proof: Seq<Seq<u8>>)
    requires
        tree.leaves_differ_from_pairs(),
        input.len() != 64,
        forall|i: int| 0 <= i < proof.len() ==> (#[trigger] proof[i]).len() == 32,
        proof_verifies(tree.root(), input, proof),
    ensures
        tree.contains(input) || sha256_collision_exists(),
{
    lemma_climb_starts_at_node(tree, input, proof);
    if tree.has_preimage(input) {
        lemma_short_preimage_is_leaf(tree, input);
    }
}

} // verus!
