use vstd::prelude::*;
use vstd::slice::slice_to_vec;

use crate::outside::{program_address, try_find_program_address};

verus! {

/// The domain tag that opens every node's seed list: the bytes of "story-node".
pub open spec fn node_tag() -> Seq<u8> {
    seq![115u8, 116u8, 111u8, 114u8, 121u8, 45u8, 110u8, 111u8, 100u8, 101u8]
}

/// The key of the program that owns every node.
pub open spec fn story_program_id() -> Seq<u8> {
    seq![
        206u8, 173u8, 44u8, 114u8, 173u8, 180u8, 26u8, 70u8, 125u8, 252u8, 226u8, 57u8, 178u8,
        117u8, 23u8, 229u8, 123u8, 8u8, 242u8, 19u8, 60u8, 194u8, 120u8, 27u8, 53u8, 255u8,
        221u8, 48u8, 165u8, 240u8, 198u8, 232u8,
    ]
}

/// Seeds of a root node's address.
pub open spec fn root_seeds(author: Seq<u8>, title_seed: Seq<u8>) -> Seq<Seq<u8>> {
    seq![node_tag(), author, title_seed]
}

/// Seeds of a branch node's address: the parent's address stands between
/// the author and the title seed.
pub open spec fn branch_seeds(author: Seq<u8>, parent: Seq<u8>, title_seed: Seq<u8>) -> Seq<
    Seq<u8>,
> {
    seq![node_tag(), author, parent, title_seed]
}

/// The address and bump of a root node, if the search finds one.
pub open spec fn root_address(author: Seq<u8>, title_seed: Seq<u8>) -> Option<(Seq<u8>, u8)> {
    program_address(root_seeds(author, title_seed), story_program_id())
}

/// The address and bump of a branch node, if the search finds one.
pub open spec fn branch_address(author: Seq<u8>, parent: Seq<u8>, title_seed: Seq<u8>) -> Option<
    (Seq<u8>, u8),
> {
    program_address(branch_seeds(author, parent, title_seed), story_program_id())
}

/// Whether `r` holds exactly the address and bump that `expected` gives.
pub open spec fn found_as(r: Option<([u8; 32], u8)>, expected: Option<(Seq<u8>, u8)>) -> bool {
    match r {
        Some(p) => expected == Some((p.0@, p.1)),
        None => expected.is_none(),
    }
}

/// The key of the program that owns every node.
pub fn program_id() -> (r: [u8; 32])
    ensures
        r@ == story_program_id(),
{
    let r: [u8; 32] = [
        206u8, 173u8, 44u8, 114u8, 173u8, 180u8, 26u8, 70u8, 125u8, 252u8, 226u8, 57u8, 178u8,
        117u8, 23u8, 229u8, 123u8, 8u8, 242u8, 19u8, 60u8, 194u8, 120u8, 27u8, 53u8, 255u8,
        221u8, 48u8, 165u8, 240u8, 198u8, 232u8,
    ];
    assert(r@ =~= story_program_id());
    r
}

/// The domain tag that opens every node's seed list.
pub fn node_seed_tag() -> (r: Vec<u8>)
    ensures
        r@ == node_tag(),
{
    let r: Vec<u8> = vec![115u8, 116u8, 111u8, 114u8, 121u8, 45u8, 110u8, 111u8, 100u8, 101u8];
    assert(r@ =~= node_tag());
    r
}

/// Finds the address and bump of the root node that `author` creates with `title_seed`.
pub fn find_root_address(author: &[u8; 32], title_seed: &[u8; 32]) -> (r: Option<([u8; 32], u8)>)
    ensures
        found_as(r, root_address(author@, title_seed@)),
{
    let mut seeds: Vec<Vec<u8>> = Vec::new();
    seeds.push(node_seed_tag());
    seeds.push(slice_to_vec(author.as_slice()));
    seeds.push(slice_to_vec(title_seed.as_slice()));
    assert(seeds@.map_values(|s: Vec<u8>| s@) =~= root_seeds(author@, title_seed@));
    try_find_program_address(&seeds, &program_id())
}

/// Finds the address and bump of the node that `author` branches from
/// `parent` with `title_seed`.
pub fn find_branch_address(author: &[u8; 32], parent: &[u8; 32], title_seed: &[u8; 32]) -> (r:
    Option<([u8; 32], u8)>)
    ensures
        found_as(r, branch_address(author@, parent@, title_seed@)),
{
    let mut seeds: Vec<Vec<u8>> = Vec::new();
    seeds.push(node_seed_tag());
    seeds.push(slice_to_vec(author.as_slice()));
    seeds.push(slice_to_vec(parent.as_slice()));
    seeds.push(slice_to_vec(title_seed.as_slice()));
    assert(seeds@.map_values(|s: Vec<u8>| s@) =~= branch_seeds(author@, parent@, title_seed@));
    try_find_program_address(&seeds, &program_id())
}

} // verus!
