//! Collection membership: what makes an NFT acceptable to a bucket.

use crate::errors::SolventError;
use crate::hash::{hash_bytes32, keccak256};
use crate::keys::Pubkey;
use crate::merkle::{merkle_climb, verify_proof};
use vstd::prelude::*;

verus! {

/// How a bucket recognises members of its collection.
#[derive(Clone, PartialEq, Eq, Debug)]
pub enum CollectionInfo {
    /// Symbol and verified creators of the collection, plus a Merkle
    /// root committing to the allow-list of member mints.
    V1 { symbol: Vec<u8>, verified_creators: Vec<Pubkey>, whitelist_root: [u8; 32] },
    /// The mint of the collection NFT that members point at.
    V2 { collection_mint: Pubkey },
}

/// One creator entry of an NFT's metadata.
#[derive(Clone, Copy, PartialEq, Eq, Debug)]
pub struct Creator {
    pub address: Pubkey,
    pub verified: bool,
}

/// The collection pointer of an NFT's metadata.
#[derive(Clone, Copy, PartialEq, Eq, Debug)]
pub struct NftCollection {
    pub verified: bool,
    pub key: Pubkey,
}

/// The fields of an NFT's metadata that membership checks read,
/// as plain values.
#[derive(Clone, PartialEq, Eq, Debug)]
pub struct NftMetadata {
    /// The NFT's own mint.
    pub mint: Pubkey,
    /// Symbol bytes as stored, possibly padded with NUL bytes.
    pub symbol: Vec<u8>,
    /// Creator entries, absent when the metadata lists none.
    pub creators: Option<Vec<Creator>>,
    /// Collection pointer, absent when the metadata has none.
    pub collection: Option<NftCollection>,
}

/// `s` with every trailing NUL byte removed.
pub open spec fn strip_trailing_nuls(s: Seq<u8>) -> Seq<u8>
    decreases s.len(),
{
    if s.len() > 0 && s[s.len() - 1] == 0 {
        strip_trailing_nuls(s.drop_last())
    } else {
        s
    }
}

/// `s` with every leading NUL byte removed.
pub open spec fn strip_leading_nuls(s: Seq<u8>) -> Seq<u8>
    decreases s.len(),
{
    if s.len() > 0 && s[0] == 0 {
        strip_leading_nuls(s.skip(1))
    } else {
        s
    }
}

/// `s` with NUL padding removed from both ends.
pub open spec fn trim_nuls(s: Seq<u8>) -> Seq<u8> {
    strip_leading_nuls(strip_trailing_nuls(s))
}

/// Some creator entry is marked verified and names one of the allowed
/// addresses.
pub open spec fn creator_matches(creators: Seq<Creator>, allowed: Seq<Pubkey>) -> bool {
    exists|i: int, j: int|
        0 <= i < creators.len() && 0 <= j < allowed.len() && creators[i].verified
            && creators[i].address == allowed[j]
}

/// The membership rule, over the modelled metadata.
///
/// Under [`CollectionInfo::V1`] all three checks must hold: the
/// NUL-trimmed symbol equals the configured one, a verified creator
/// entry names a configured creator, and the supplied proof places the
/// digest of the NFT's mint under the allow-list root.  A missing proof
/// or missing creator list is a failure, never an implicit pass.
/// Under [`CollectionInfo::V2`] the metadata's collection pointer must
/// exist, be marked verified, and name the configured collection mint.
pub open spec fn collection_verified(
    metadata: NftMetadata,
    collection_info: CollectionInfo,
    whitelist_proof: Option<Vec<[u8; 32]>>,
) -> bool {
    match collection_info {
        CollectionInfo::V1 { symbol, verified_creators, whitelist_root } => {
            &&& trim_nuls(metadata.symbol@) == symbol@
            &&& (metadata.creators matches Some(creators) && creator_matches(
                creators@,
                verified_creators@,
            ))
            &&& (whitelist_proof matches Some(path) && merkle_climb(
                keccak256(metadata.mint.0@),
                path@.map_values(|e: [u8; 32]| e@),
            ) == whitelist_root@)
        },
        CollectionInfo::V2 { collection_mint } => {
            metadata.collection matches Some(c) && c.verified && c.key == collection_mint
        },
    }
}

/// Compares the NUL-trimmed metadata symbol against a configured one.
fn trimmed_symbol_eq(metadata_symbol: &Vec<u8>, symbol: &Vec<u8>) -> (r: bool)
    ensures
        r == (trim_nuls(metadata_symbol@) == symbol@),
{
    let mut hi: usize = metadata_symbol.len();
    proof {
        assert(metadata_symbol@.subrange(0, metadata_symbol@.len() as int) =~= metadata_symbol@);
    }
    while hi > 0 && metadata_symbol[hi - 1] == 0
        invariant
            hi <= metadata_symbol.len(),
            strip_trailing_nuls(metadata_symbol@) == strip_trailing_nuls(metadata_symbol@.subrange(0, hi as int)),
        decreases hi,
    {
        proof {
            assert(metadata_symbol@.subrange(0, hi as int).drop_last() =~= metadata_symbol@.subrange(0, hi as int - 1));
        }
        hi -= 1;
    }
    proof {
        assert(strip_trailing_nuls(metadata_symbol@) == metadata_symbol@.subrange(0, hi as int));
    }
    let mut lo: usize = 0;
    while lo < hi && metadata_symbol[lo] == 0
        invariant
            lo <= hi,
            hi <= metadata_symbol.len(),
            strip_trailing_nuls(metadata_symbol@) == metadata_symbol@.subrange(0, hi as int),
            strip_leading_nuls(metadata_symbol@.subrange(0, hi as int)) == strip_leading_nuls(
                metadata_symbol@.subrange(lo as int, hi as int),
            ),
        decreases hi - lo,
    {
        proof {
            assert(metadata_symbol@.subrange(lo as int, hi as int).skip(1) =~= metadata_symbol@.subrange(
                lo as int + 1,
                hi as int,
            ));
        }
        lo += 1;
    }
    proof {
        assert(trim_nuls(metadata_symbol@) == metadata_symbol@.subrange(lo as int, hi as int));
    }
    if hi - lo != symbol.len() {
        proof {
            assert(trim_nuls(metadata_symbol@).len() == hi - lo);
        }
        return false;
    }
    let mut k: usize = 0;
    while k < symbol.len()
        invariant
            k <= symbol.len(),
            lo <= hi <= metadata_symbol.len(),
            hi - lo == symbol.len(),
            trim_nuls(metadata_symbol@) == metadata_symbol@.subrange(lo as int, hi as int),
            forall|m: int| 0 <= m < k ==> metadata_symbol@[lo + m] == symbol@[m],
        decreases symbol.len() - k,
    {
        if metadata_symbol[lo + k] != symbol[k] {
            proof {
                assert(trim_nuls(metadata_symbol@)[k as int] == metadata_symbol@[lo as int + k as int]);
                assert(trim_nuls(metadata_symbol@)[k as int] != symbol@[k as int]);
                assert(trim_nuls(metadata_symbol@) != symbol@);
            }
            return false;
        }
        k += 1;
    }
    proof {
        assert(trim_nuls(metadata_symbol@) =~= symbol@);
    }
    true
}

/// Looks for a verified creator entry naming an allowed address.
fn find_verified_creator(creators: &Vec<Creator>, allowed: &Vec<Pubkey>) -> (r: bool)
    ensures
        r == creator_matches(creators@, allowed@),
{
    let mut i: usize = 0;
    while i < creators.len()
        invariant
            i <= creators.len(),
            forall|a: int, b: int|
                0 <= a < i && 0 <= b < allowed@.len() ==> !(creators@[a].verified
                    && creators@[a].address == allowed@[b]),
        decreases creators.len() - i,
    {
        if creators[i].verified {
            let mut j: usize = 0;
            while j < allowed.len()
                invariant
                    i < creators.len(),
                    j <= allowed.len(),
                    creators@[i as int].verified,
                    forall|b: int| 0 <= b < j ==> creators@[i as int].address != allowed@[b],
                decreases allowed.len() - j,
            {
                if creators[i].address == allowed[j] {
                    return true;
                }
                j += 1;
            }
        }
        i += 1;
    }
    false
}

/// Decides whether the NFT described by `metadata` belongs to the
/// collection described by `collection_info`; see
/// [`collection_verified`] for the rule.
pub fn verify_collection(
    metadata: &NftMetadata,
    collection_info: &CollectionInfo,
    whitelist_proof: Option<Vec<[u8; 32]>>,
) -> (r: bool)
    ensures
        r == collection_verified(*metadata, *collection_info, whitelist_proof),
{
    match collection_info {
        CollectionInfo::V1 { symbol, verified_creators, whitelist_root } => {
            let valid_symbol = trimmed_symbol_eq(&metadata.symbol, symbol);
            let valid_creator = match &metadata.creators {
                Some(creators) => find_verified_creator(creators, verified_creators),
                None => false,
            };
            let in_whitelist = match whitelist_proof {
                Some(path) => {
                    let leaf = hash_bytes32(&metadata.mint.0);
                    verify_proof(path, *whitelist_root, leaf)
                },
                None => false,
            };
            valid_symbol && valid_creator && in_whitelist
        },
        CollectionInfo::V2 { collection_mint } => {
            match &metadata.collection {
                None => false,
                Some(c) => c.verified && c.key == *collection_mint,
            }
        },
    }
}

/// A V1 descriptor must carry a symbol of at most 32 bytes and between
/// 1 and 5 verified creators; a V2 descriptor is always well formed.
pub open spec fn collection_info_valid(collection_info: CollectionInfo) -> bool {
    match collection_info {
        CollectionInfo::V1 { symbol, verified_creators, .. } => {
            &&& symbol@.len() <= 32
            &&& 1 <= verified_creators@.len() <= 5
        },
        CollectionInfo::V2 { .. } => true,
    }
}

/// Rejects a malformed collection descriptor before it is stored:
/// an oversized symbol, or a creator list that is empty or longer than
/// five entries.
pub fn validate_collection_info(collection_info: &CollectionInfo) -> (r: Result<
    (),
    SolventError,
>)
    ensures
        r is Ok <==> collection_info_valid(*collection_info),
        r matches Err(e) ==> (match *collection_info {
            CollectionInfo::V1 { symbol, verified_creators, .. } => {
                if symbol@.len() > 32 {
                    e == SolventError::CollectionSymbolInvalid
                } else {
                    e == SolventError::VerifiedCreatorsInvalid
                }
            },
            CollectionInfo::V2 { .. } => false,
        }),
{
    match collection_info {
        CollectionInfo::V1 { symbol, verified_creators, .. } => {
            if symbol.len() > 32 {
                return Err(SolventError::CollectionSymbolInvalid);
            }
            if verified_creators.len() < 1 || verified_creators.len() > 5 {
                return Err(SolventError::VerifiedCreatorsInvalid);
            }
            Ok(())
        },
        CollectionInfo::V2 { .. } => Ok(()),
    }
}

} // verus!
