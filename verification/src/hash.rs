//! Keccak-256 digests and lexicographic byte-order comparison.

use vstd::prelude::*;

verus! {

broadcast use vstd::array::group_array_axioms;

/// The Keccak-256 digest of a byte string.  The digest is named but not
/// defined: everything proved about it holds for whatever function the
/// hasher computes on the given bytes, and nothing more.
pub uninterp spec fn keccak256(data: Seq<u8>) -> Seq<u8>;

/// Relies on `solana_program::keccak::hash`: returns the Keccak-256
/// digest of the input, a function of the input bytes alone.
#[verifier::external_body]
fn keccak_hash(data: &Vec<u8>) -> (r: [u8; 32])
    ensures
        r@ == keccak256(data@),
{
    solana_program::keccak::hash(data.as_slice()).0
}

/// Digest of a single 32-byte string.
pub fn hash_bytes32(data: &[u8; 32]) -> (r: [u8; 32])
    ensures
        r@ == keccak256(data@),
{
    let mut v: Vec<u8> = Vec::new();
    let mut i: usize = 0;
    while i < 32
        invariant
            i <= 32,
            v@ == data@.subrange(0, i as int),
        decreases 32 - i,
    {
        v.push(data[i]);
        i += 1;
    }
    proof {
        assert(v@ =~= data@);
    }
    keccak_hash(&v)
}

/// Digest of the concatenation of two 32-byte strings.
pub fn hash_bytes32_pair(a: &[u8; 32], b: &[u8; 32]) -> (r: [u8; 32])
    ensures
        r@ == keccak256(a@ + b@),
{
    let mut v: Vec<u8> = Vec::new();
    let mut i: usize = 0;
    while i < 32
        invariant
            i <= 32,
            v@ == a@.subrange(0, i as int),
        decreases 32 - i,
    {
        v.push(a[i]);
        i += 1;
    }
    let mut j: usize = 0;
    while j < 32
        invariant
            j <= 32,
            v@ == a@.subrange(0, 32) + b@.subrange(0, j as int),
        decreases 32 - j,
    {
        v.push(b[j]);
        j += 1;
    }
    proof {
        assert(v@ =~= a@ + b@);
    }
    keccak_hash(&v)
}

/// Lexicographic byte order: `a` is less than or equal to `b` when, at
/// the first position where they differ, `a` holds the smaller byte (a
/// prefix counts as smaller than any extension of it).
pub open spec fn lex_le(a: Seq<u8>, b: Seq<u8>) -> bool
    decreases a.len(),
{
    if a.len() == 0 {
        true
    } else if b.len() == 0 {
        false
    } else if a[0] < b[0] {
        true
    } else if a[0] > b[0] {
        false
    } else {
        lex_le(a.skip(1), b.skip(1))
    }
}

proof fn lemma_lex_le_first_difference(a: Seq<u8>, b: Seq<u8>, i: int)
    requires
        a.len() == b.len(),
        0 <= i < a.len(),
        forall|j: int| 0 <= j < i ==> a[j] == b[j],
        a[i] != b[i],
    ensures
        lex_le(a, b) == (a[i] < b[i]),
    decreases i,
{
    if i == 0 {
    } else {
        assert(a[0] == b[0]);
        lemma_lex_le_first_difference(a.skip(1), b.skip(1), i - 1);
        assert(a.skip(1)[i - 1] == a[i]);
        assert(b.skip(1)[i - 1] == b[i]);
    }
}

proof fn lemma_lex_le_all_equal(a: Seq<u8>, b: Seq<u8>)
    requires
        a.len() == b.len(),
        forall|j: int| 0 <= j < a.len() ==> a[j] == b[j],
    ensures
        lex_le(a, b),
    decreases a.len(),
{
    if a.len() > 0 {
        lemma_lex_le_all_equal(a.skip(1), b.skip(1));
    }
}

/// Compares two 32-byte strings in lexicographic byte order.
pub fn bytes32_le(a: &[u8; 32], b: &[u8; 32]) -> (r: bool)
    ensures
        r == lex_le(a@, b@),
{
    let mut i: usize = 0;
    while i < 32
        invariant
            i <= 32,
            forall|j: int| 0 <= j < i ==> a@[j] == b@[j],
        decreases 32 - i,
    {
        if a[i] < b[i] {
            proof {
                lemma_lex_le_first_difference(a@, b@, i as int);
            }
            return true;
        }
        if a[i] > b[i] {
            proof {
                lemma_lex_le_first_difference(a@, b@, i as int);
            }
            return false;
        }
        i += 1;
    }
    proof {
        lemma_lex_le_all_equal(a@, b@);
    }
    true
}

/// Tests two 32-byte strings for equality.
pub fn bytes32_eq(a: &[u8; 32], b: &[u8; 32]) -> (r: bool)
    ensures
        r == (a@ == b@),
{
    let mut i: usize = 0;
    while i < 32
        invariant
            i <= 32,
            forall|j: int| 0 <= j < i ==> a@[j] == b@[j],
        decreases 32 - i,
    {
        if a[i] != b[i] {
            return false;
        }
        i += 1;
    }
    proof {
        assert(a@ =~= b@);
    }
    true
}

} // verus!
