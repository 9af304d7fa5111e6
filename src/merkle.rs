//! Merkle-proof verification with a commutative pairwise hash.
use vstd::prelude::*;

use crate::state::bytes32_eq;

verus! {

/// The Keccak-256 digest of a byte string.
pub uninterp spec fn keccak256(data: Seq<u8>) -> Seq<u8>;

/// Relies on `solana_program::keccak::hashv`: the Keccak-256 digest of the
/// given slices fed to one hasher in order, that is, of their concatenation.
#[verifier::external_body]
fn keccak_concat(a: &[u8; 32], b: &[u8; 32]) -> (r: [u8; 32])
    ensures
        r@ == keccak256(a@ + b@),
{
    anchor_lang::solana_program::keccak::hashv(&[&a[..], &b[..]]).to_bytes()
}

/// Lexicographic order on byte strings, a proper prefix coming first
/// (the order of Rust's `Ord` on byte arrays and slices).
pub open spec fn bytes_lt(a: Seq<u8>, b: Seq<u8>) -> bool
    decreases a.len(),
{
    if a.len() == 0 {
        b.len() > 0
    } else if b.len() == 0 {
        false
    } else if a[0] != b[0] {
        a[0] < b[0]
    } else {
        bytes_lt(a.drop_first(), b.drop_first())
    }
}

/// The commutative pairwise hash: the smaller operand goes first.
pub open spec fn hash_pair(a: Seq<u8>, b: Seq<u8>) -> Seq<u8> {
    if bytes_lt(a, b) {
        keccak256(a + b)
    } else {
        keccak256(b + a)
    }
}

/// The hash obtained by folding the proof elements, in order, into the leaf.
pub open spec fn proof_root(proof: Seq<Seq<u8>>, leaf: Seq<u8>) -> Seq<u8>
    decreases proof.len(),
{
    if proof.len() == 0 {
        leaf
    } else {
        hash_pair(proof_root(proof.drop_last(), leaf), proof.last())
    }
}

/// The proof elements as byte strings.
pub open spec fn proof_views(proof: Seq<[u8; 32]>) -> Seq<Seq<u8>> {
    proof.map_values(|p: [u8; 32]| p@)
}

/// Whether `proof` takes `leaf` to `root`.
pub open spec fn merkle_verifies(proof: Seq<Seq<u8>>, leaf: Seq<u8>, root: Seq<u8>) -> bool {
    proof_root(proof, leaf) == root
}

/// Lexicographic `a < b` on two 32-byte values.
pub fn bytes32_lt(a: &[u8; 32], b: &[u8; 32]) -> (r: bool)
    ensures
        r == bytes_lt(a@, b@),
{
    let mut i: usize = 0;
    assert(a@.skip(0) =~= a@);
    assert(b@.skip(0) =~= b@);
    while i < 32
        invariant
            0 <= i <= 32,
            a@.len() == 32,
            b@.len() == 32,
            bytes_lt(a@, b@) == bytes_lt(a@.skip(i as int), b@.skip(i as int)),
        decreases 32 - i,
    {
        let ghost sa = a@.skip(i as int);
        let ghost sb = b@.skip(i as int);
        assert(sa[0] == a@[i as int]);
        assert(sb[0] == b@[i as int]);
        if a[i] != b[i] {
            return a[i] < b[i];
        }
        assert(sa.drop_first() =~= a@.skip(i + 1));
        assert(sb.drop_first() =~= b@.skip(i + 1));
        i = i + 1;
    }
    assert(a@.skip(32).len() == 0);
    false
}

/// Checks that `proof` takes `leaf` to `root` under the commutative pairwise
/// hash. A mismatch is an ordinary `false`.
pub fn verify_merkle_proof(proof: &[[u8; 32]], leaf: &[u8; 32], root: &[u8; 32]) -> (r: bool)
    ensures
        r == merkle_verifies(proof_views(proof@), leaf@, root@),
{
    let mut computed: [u8; 32] = *leaf;
    let mut i: usize = 0;
    while i < proof.len()
        invariant
            i <= proof@.len(),
            computed@ == proof_root(proof_views(proof@).take(i as int), leaf@),
        decreases proof@.len() - i,
    {
        let element: [u8; 32] = proof[i];
        let ghost done = proof_views(proof@).take(i as int);
        if bytes32_lt(&computed, &element) {
            computed = keccak_concat(&computed, &element);
        } else {
            computed = keccak_concat(&element, &computed);
        }
        assert(proof_views(proof@).take(i + 1).drop_last() =~= done);
        i = i + 1;
    }
    assert(proof_views(proof@).take(proof@.len() as int) =~= proof_views(proof@));
    bytes32_eq(&computed, root)
}

/// A binary Merkle tree, as a value of specification: leaves hold their
/// hashes, and each inner node hashes its children's roots with `hash_pair`.
pub enum MerkleTree {
    Leaf(Seq<u8>),
    Node(Box<MerkleTree>, Box<MerkleTree>),
}

/// The root hash of a tree.
pub open spec fn tree_root(t: MerkleTree) -> Seq<u8>
    decreases t,
{
    match t {
        MerkleTree::Leaf(h) => h,
        MerkleTree::Node(l, r) => hash_pair(tree_root(*l), tree_root(*r)),
    }
}

/// Whether `path` (from the root down, `false` for left) ends at a leaf.
pub open spec fn is_leaf_path(t: MerkleTree, path: Seq<bool>) -> bool
    decreases t,
{
    match t {
        MerkleTree::Leaf(_) => path.len() == 0,
        MerkleTree::Node(l, r) => path.len() > 0 && if path[0] {
            is_leaf_path(*r, path.drop_first())
        } else {
            is_leaf_path(*l, path.drop_first())
        },
    }
}

/// The hash of the leaf that `path` leads to.
pub open spec fn leaf_at(t: MerkleTree, path: Seq<bool>) -> Seq<u8>
    decreases t,
{
    match t {
        MerkleTree::Leaf(h) => h,
        MerkleTree::Node(l, r) => if path.len() > 0 && path[0] {
            leaf_at(*r, path.drop_first())
        } else {
            leaf_at(*l, path.drop_first())
        },
    }
}

/// The proof for the leaf that `path` leads to: the roots of the siblings
/// along the path, from the leaf up.
pub open spec fn sibling_path(t: MerkleTree, path: Seq<bool>) -> Seq<Seq<u8>>
    decreases t,
{
    match t {
        MerkleTree::Leaf(_) => Seq::empty(),
        MerkleTree::Node(l, r) => if path.len() > 0 && path[0] {
            sibling_path(*r, path.drop_first()).push(tree_root(*l))
        } else {
            sibling_path(*l, path.drop_first()).push(tree_root(*r))
        },
    }
}

proof fn lemma_bytes_lt_asymmetric(a: Seq<u8>, b: Seq<u8>)
    ensures
        bytes_lt(a, b) ==> !bytes_lt(b, a),
    decreases a.len(),
{
    if a.len() > 0 && b.len() > 0 && a[0] == b[0] {
        lemma_bytes_lt_asymmetric(a.drop_first(), b.drop_first());
    }
}

proof fn lemma_bytes_lt_total(a: Seq<u8>, b: Seq<u8>)
    ensures
        a != b ==> bytes_lt(a, b) || bytes_lt(b, a),
    decreases a.len(),
{
    if a.len() == 0 && b.len() == 0 {
        assert(a =~= b);
    } else if a.len() > 0 && b.len() > 0 && a[0] == b[0] {
        let (ra, rb) = (a.drop_first(), b.drop_first());
        lemma_bytes_lt_total(ra, rb);
        assert(bytes_lt(a, b) == bytes_lt(ra, rb));
        assert(bytes_lt(b, a) == bytes_lt(rb, ra));
        if ra == rb {
            assert(a =~= seq![a[0]] + ra);
            assert(b =~= seq![b[0]] + rb);
        }
    }
}

/// The pairwise hash does not depend on the order of its operands.
pub proof fn lemma_hash_pair_commutative(a: Seq<u8>, b: Seq<u8>)
    ensures
        hash_pair(a, b) == hash_pair(b, a),
{
    lemma_bytes_lt_asymmetric(a, b);
    lemma_bytes_lt_asymmetric(b, a);
    lemma_bytes_lt_total(a, b);
}

/// Every leaf of a Merkle tree is accepted against the tree's root with the
/// sibling roots along its path as the proof.
pub proof fn lemma_tree_leaf_verifies(t: MerkleTree, path: Seq<bool>)
    requires
        is_leaf_path(t, path),
    ensures
        merkle_verifies(sibling_path(t, path), leaf_at(t, path), tree_root(t)),
    decreases t,
{
    match t {
        MerkleTree::Leaf(_) => {},
        MerkleTree::Node(l, r) => {
            let rest = path.drop_first();
            if path[0] {
                lemma_tree_leaf_verifies(*r, rest);
                let s = sibling_path(*r, rest);
                assert(s.push(tree_root(*l)).drop_last() =~= s);
                lemma_hash_pair_commutative(tree_root(*r), tree_root(*l));
            } else {
                lemma_tree_leaf_verifies(*l, rest);
                let s = sibling_path(*l, rest);
                assert(s.push(tree_root(*r)).drop_last() =~= s);
            }
        },
    }
}

/// A proof is accepted against one root only: any other root, such as the
/// true root with a bit flipped, is rejected.
pub proof fn lemma_other_root_rejected(proof: Seq<Seq<u8>>, leaf: Seq<u8>, root: Seq<u8>, other: Seq<u8>)
    requires
        merkle_verifies(proof, leaf, root),
        other != root,
    ensures
        !merkle_verifies(proof, leaf, other),
{
}

/// Keccak-256 yields 32-byte digests.
pub open spec fn keccak_digest_len() -> bool {
    forall|d: Seq<u8>| (#[trigger] keccak256(d)).len() == 32
}

/// `x` and `y` are two different 64-byte inputs with the same digest.
pub open spec fn is_pair_collision(x: Seq<u8>, y: Seq<u8>) -> bool {
    x.len() == 64 && y.len() == 64 && x != y && keccak256(x) == keccak256(y)
}

/// No two different 64-byte inputs share a digest.
spec fn no_pair_collision() -> bool {
    forall|x: Seq<u8>, y: Seq<u8>|
        #[trigger] keccak256(x) == #[trigger] keccak256(y) && x.len() == 64 && y.len() == 64 ==> x
            == y
}

proof fn lemma_no_pair_collision()
    requires
        !exists|x: Seq<u8>, y: Seq<u8>| is_pair_collision(x, y),
    ensures
        no_pair_collision(),
{
    assert forall|x: Seq<u8>, y: Seq<u8>|
        #[trigger] keccak256(x) == #[trigger] keccak256(y) && x.len() == 64 && y.len()
            == 64 implies x == y by {
        if x != y {
            assert(is_pair_collision(x, y));
        }
    }
}

/// Every element of `proof` is 32 bytes long.
pub open spec fn all_32(proof: Seq<Seq<u8>>) -> bool {
    forall|j: int| 0 <= j < proof.len() ==> (#[trigger] proof[j]).len() == 32
}

proof fn lemma_proof_root_len(proof: Seq<Seq<u8>>, leaf: Seq<u8>)
    requires
        keccak_digest_len(),
        leaf.len() == 32,
    ensures
        proof_root(proof, leaf).len() == 32,
{
    if proof.len() > 0 {
        let c = proof_root(proof.drop_last(), leaf);
        let x = proof.last();
        assert(keccak256(c + x).len() == 32);
        assert(keccak256(x + c).len() == 32);
    }
}

/// With one operand fixed, the pairwise hash determines the other.
proof fn lemma_hash_pair_cancel(a: Seq<u8>, b: Seq<u8>, p: Seq<u8>)
    requires
        keccak_digest_len(),
        no_pair_collision(),
        a.len() == 32,
        b.len() == 32,
        p.len() == 32,
        hash_pair(a, p) == hash_pair(b, p),
    ensures
        a == b,
{
    let x = if bytes_lt(a, p) { a + p } else { p + a };
    let y = if bytes_lt(b, p) { b + p } else { p + b };
    assert(keccak256(x) == keccak256(y));
    assert(x.len() == 64 && y.len() == 64);
    assert(x == y);
    assert((a + p).subrange(0, 32) =~= a);
    assert((a + p).subrange(32, 64) =~= p);
    assert((p + a).subrange(0, 32) =~= p);
    assert((p + a).subrange(32, 64) =~= a);
    assert((b + p).subrange(0, 32) =~= b);
    assert((b + p).subrange(32, 64) =~= p);
    assert((p + b).subrange(0, 32) =~= p);
    assert((p + b).subrange(32, 64) =~= b);
}

proof fn lemma_leaf_determined(proof: Seq<Seq<u8>>, l1: Seq<u8>, l2: Seq<u8>)
    requires
        keccak_digest_len(),
        no_pair_collision(),
        all_32(proof),
        l1.len() == 32,
        l2.len() == 32,
        proof_root(proof, l1) == proof_root(proof, l2),
    ensures
        l1 == l2,
    decreases proof.len(),
{
    if proof.len() > 0 {
        let rest = proof.drop_last();
        lemma_proof_root_len(rest, l1);
        lemma_proof_root_len(rest, l2);
        lemma_hash_pair_cancel(proof_root(rest, l1), proof_root(rest, l2), proof.last());
        lemma_leaf_determined(rest, l1, l2);
    }
}

/// Two proofs of one length that agree from index `i` on and reach the same
/// root from `leaf` already agree on the hash after their first `i` steps.
proof fn lemma_agreeing_suffix(p1: Seq<Seq<u8>>, p2: Seq<Seq<u8>>, leaf: Seq<u8>, i: int)
    requires
        keccak_digest_len(),
        no_pair_collision(),
        all_32(p1),
        all_32(p2),
        leaf.len() == 32,
        p1.len() == p2.len(),
        0 <= i <= p1.len(),
        forall|j: int| i <= j < p1.len() ==> p1[j] == p2[j],
        proof_root(p1, leaf) == proof_root(p2, leaf),
    ensures
        proof_root(p1.take(i), leaf) == proof_root(p2.take(i), leaf),
    decreases p1.len(),
{
    if i == p1.len() {
        assert(p1.take(i) =~= p1);
        assert(p2.take(i) =~= p2);
    } else {
        let (r1, r2) = (p1.drop_last(), p2.drop_last());
        lemma_proof_root_len(r1, leaf);
        lemma_proof_root_len(r2, leaf);
        lemma_hash_pair_cancel(proof_root(r1, leaf), proof_root(r2, leaf), p1.last());
        lemma_agreeing_suffix(r1, r2, leaf, i);
        assert(r1.take(i) =~= p1.take(i));
        assert(r2.take(i) =~= p2.take(i));
    }
}

proof fn lemma_views_32(proof: Seq<[u8; 32]>)
    ensures
        all_32(proof_views(proof)),
        proof_views(proof).len() == proof.len(),
{
    assert forall|j: int| 0 <= j < proof_views(proof).len() implies (#[trigger] proof_views(
        proof,
    )[j]).len() == 32 by {
        assert(proof_views(proof)[j] == proof[j]@);
    }
}

/// A proof that takes `leaf` to `root` takes no other leaf there, such as
/// `leaf` with a bit flipped, unless Keccak-256 has a collision on 64-byte
/// inputs: accepting the other leaf would exhibit one.
pub proof fn lemma_other_leaf_rejected(proof: Seq<[u8; 32]>, leaf: [u8; 32], root: [u8; 32], other: [u8; 32])
    requires
        keccak_digest_len(),
        merkle_verifies(proof_views(proof), leaf@, root@),
        other@ != leaf@,
    ensures
        merkle_verifies(proof_views(proof), other@, root@) ==> exists|x: Seq<u8>, y: Seq<u8>|
            is_pair_collision(x, y),
{
    lemma_views_32(proof);
    if merkle_verifies(proof_views(proof), other@, root@) && !exists|x: Seq<u8>, y: Seq<u8>|
        is_pair_collision(x, y) {
        lemma_no_pair_collision();
        lemma_leaf_determined(proof_views(proof), leaf@, other@);
    }
}

/// Changing one element of a valid proof, for instance by flipping a bit,
/// makes it rejected, unless Keccak-256 has a collision on 64-byte inputs:
/// accepting the changed proof would exhibit one.
pub proof fn lemma_changed_element_rejected(
    proof: Seq<[u8; 32]>,
    k: int,
    element: [u8; 32],
    leaf: [u8; 32],
    root: [u8; 32],
)
    requires
        keccak_digest_len(),
        merkle_verifies(proof_views(proof), leaf@, root@),
        0 <= k < proof.len(),
        element@ != proof[k]@,
    ensures
        merkle_verifies(proof_views(proof.update(k, element)), leaf@, root@) ==> exists|
            x: Seq<u8>,
            y: Seq<u8>,
        | is_pair_collision(x, y),
{
    let changed = proof.update(k, element);
    let (v1, v2) = (proof_views(proof), proof_views(changed));
    lemma_views_32(proof);
    lemma_views_32(changed);
    if merkle_verifies(v2, leaf@, root@) && !exists|x: Seq<u8>, y: Seq<u8>| is_pair_collision(x, y) {
        lemma_no_pair_collision();
        assert forall|j: int| k + 1 <= j < v1.len() implies v1[j] == v2[j] by {
            assert(v1[j] == proof[j]@);
            assert(v2[j] == changed[j]@);
        }
        lemma_agreeing_suffix(v1, v2, leaf@, k + 1);
        let (t1, t2) = (v1.take(k + 1), v2.take(k + 1));
        assert(t1.drop_last() =~= t2.drop_last()) by {
            assert forall|j: int| 0 <= j < k implies t1.drop_last()[j] == t2.drop_last()[j] by {
                assert(v1[j] == proof[j]@);
                assert(v2[j] == changed[j]@);
            }
        }
        let c = proof_root(t1.drop_last(), leaf@);
        lemma_proof_root_len(t1.drop_last(), leaf@);
        assert(t1.last() == proof[k]@);
        assert(t2.last() == element@);
        lemma_hash_pair_commutative(c, proof[k]@);
        lemma_hash_pair_commutative(c, element@);
        lemma_hash_pair_cancel(proof[k]@, element@, c);
    }
}

} // verus!
