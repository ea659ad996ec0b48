//! Merkle inclusion proofs over Keccak-256.
//!
//! The allow-list of a collection is committed to as a Merkle root.  A
//! leaf is included exactly when hashing it pairwise with the supplied
//! sibling path — the lexicographically smaller node of each pair hashed
//! first — reaches the committed root.

use crate::hash::{bytes32_eq, bytes32_le, hash_bytes32_pair, keccak256, lex_le};
use vstd::prelude::*;

verus! {

/// The root reached by climbing from `leaf` along `path`: at each step
/// the running hash is paired with the next sibling, the
/// lexicographically smaller of the two hashed first.
pub open spec fn merkle_climb(leaf: Seq<u8>, path: Seq<Seq<u8>>) -> Seq<u8>
    decreases path.len(),
{
    if path.len() == 0 {
        leaf
    } else {
        let sibling = path[0];
        let parent = if lex_le(leaf, sibling) {
            keccak256(leaf + sibling)
        } else {
            keccak256(sibling + leaf)
        };
        merkle_climb(parent, path.skip(1))
    }
}

/// Accepts `leaf` exactly when recomputing the path along
/// `proof_nodes`, ordering each sibling pair by byte comparison,
/// reaches `root`.
pub fn verify_proof(proof_nodes: Vec<[u8; 32]>, root: [u8; 32], leaf: [u8; 32]) -> (r: bool)
    ensures
        r == (merkle_climb(leaf@, proof_nodes@.map_values(|e: [u8; 32]| e@)) == root@),
{
    let ghost path = proof_nodes@.map_values(|e: [u8; 32]| e@);
    let mut computed: [u8; 32] = leaf;
    let mut i: usize = 0;
    proof {
        assert(path.skip(0) =~= path);
    }
    while i < proof_nodes.len()
        invariant
            i <= proof_nodes.len(),
            path == proof_nodes@.map_values(|e: [u8; 32]| e@),
            merkle_climb(leaf@, path) == merkle_climb(computed@, path.skip(i as int)),
        decreases proof_nodes.len() - i,
    {
        let sibling = proof_nodes[i];
        assert(path.skip(i as int)[0] == sibling@);
        let next = if bytes32_le(&computed, &sibling) {
            hash_bytes32_pair(&computed, &sibling)
        } else {
            hash_bytes32_pair(&sibling, &computed)
        };
        proof {
            assert(path.skip(i as int).skip(1) =~= path.skip(i as int + 1));
        }
        computed = next;
        i += 1;
    }
    proof {
        assert(path.skip(i as int) =~= Seq::<Seq<u8>>::empty());
    }
    bytes32_eq(&computed, &root)
}

} // verus!
