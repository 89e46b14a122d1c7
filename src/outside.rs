//! The calls into outside crates, each with the contract the library relies on.

use vstd::prelude::*;

verus! {

/// The SHA-256 digest of `data`.
pub uninterp spec fn sha256_of(data: Seq<u8>) -> Seq<u8>;

/// The program address and bump seed that the ledger's search finds for
/// `seeds` under `program_id`, or `None` where the search finds none.
pub uninterp spec fn program_address(seeds: Seq<Seq<u8>>, program_id: Seq<u8>) -> Option<(Seq<u8>, u8)>;

/// Relies on `solana_sha256_hasher::hash`: the SHA-256 digest of `data`,
/// a function of `data` alone.
#[verifier::external_body]
pub(crate) fn sha256(data: &[u8]) -> (r: [u8; 32])
    ensures
        r@ == sha256_of(data@),
{
    solana_sha256_hasher::hash(data).to_bytes()
}

/// Relies on `Pubkey::try_find_program_address` (re-exported by anchor_lang):
/// a function of the seeds and the program id alone.
#[verifier::external_body]
pub(crate) fn try_find_program_address(seeds: &Vec<Vec<u8>>, program_id: &[u8; 32]) -> (r: Option<([u8; 32], u8)>)
    ensures
        r.is_some() == program_address(seeds@.map_values(|s: Vec<u8>| s@), program_id@).is_some(),
        r.is_some() ==> program_address(seeds@.map_values(|s: Vec<u8>| s@), program_id@) == Some((r.unwrap().0@, r.unwrap().1)),
{
    let refs: Vec<&[u8]> = seeds.iter().map(|s| s.as_slice()).collect();
    let id = anchor_lang::prelude::Pubkey::new_from_array(*program_id);
    anchor_lang::prelude::Pubkey::try_find_program_address(&refs, &id).map(|(k, b)| (k.to_bytes(), b))
}

} // verus!
