use vstd::prelude::*;
use vstd::utf8::encode_utf8;

use crate::address::{branch_address, branch_seeds, root_address, root_seeds};
use crate::error::StoryChainError;
use crate::instructions::{branch_outcome, no_parent, root_outcome};
use crate::node::byte_len;
use crate::outside::sha256_of;
use crate::store::AccountView;
use crate::validate::{check_fields, MAX_TITLE_LEN, MAX_URI_LEN};

verus! {

/// The inputs of one branch creation, but for the parent.
pub struct BranchCall {
    pub author: Seq<u8>,
    pub now: i64,
    pub title: Seq<char>,
    pub content_uri: Seq<char>,
    pub image_uri: Seq<char>,
    pub title_seed: Seq<u8>,
}

/// The store after running `calls` one after another against `parent`,
/// and how many of them succeeded.
pub open spec fn run_branches(
    store: Map<Seq<u8>, AccountView>,
    parent: Seq<u8>,
    calls: Seq<BranchCall>,
) -> (Map<Seq<u8>, AccountView>, nat)
    decreases calls.len(),
{
    if calls.len() == 0 {
        (store, 0)
    } else {
        let (prev, n) = run_branches(store, parent, calls.drop_last());
        let c = calls.last();
        let (r, next) = branch_outcome(
            prev,
            c.author,
            parent,
            c.now,
            c.title,
            c.content_uri,
            c.image_uri,
            c.title_seed,
        );
        (next, if r.is_ok() { n + 1 } else { n })
    }
}

/// Address derivation is a function of its seeds: equal inputs give equal
/// results. Distinct inputs give distinct seed lists, and a root's seed list
/// never equals a branch's, so distinct inputs never ask for the same address
/// by construction.
pub proof fn derivation_is_deterministic_and_seeds_are_distinct(
    author1: Seq<u8>,
    parent1: Seq<u8>,
    seed1: Seq<u8>,
    author2: Seq<u8>,
    parent2: Seq<u8>,
    seed2: Seq<u8>,
)
    ensures
        author1 == author2 && seed1 == seed2 ==> root_address(author1, seed1) == root_address(
            author2,
            seed2,
        ),
        author1 == author2 && parent1 == parent2 && seed1 == seed2 ==> branch_address(
            author1,
            parent1,
            seed1,
        ) == branch_address(author2, parent2, seed2),
        (root_seeds(author1, seed1) == root_seeds(author2, seed2)) == (author1 == author2 && seed1
            == seed2),
        (branch_seeds(author1, parent1, seed1) == branch_seeds(author2, parent2, seed2)) == (author1
            == author2 && parent1 == parent2 && seed1 == seed2),
        root_seeds(author1, seed1) != branch_seeds(author2, parent2, seed2),
{
    if root_seeds(author1, seed1) == root_seeds(author2, seed2) {
        assert(root_seeds(author1, seed1)[1] == author1);
        assert(root_seeds(author2, seed2)[1] == author2);
        assert(root_seeds(author1, seed1)[2] == seed1);
        assert(root_seeds(author2, seed2)[2] == seed2);
    }
    if branch_seeds(author1, parent1, seed1) == branch_seeds(author2, parent2, seed2) {
        assert(branch_seeds(author1, parent1, seed1)[1] == author1);
        assert(branch_seeds(author2, parent2, seed2)[1] == author2);
        assert(branch_seeds(author1, parent1, seed1)[2] == parent1);
        assert(branch_seeds(author2, parent2, seed2)[2] == parent2);
        assert(branch_seeds(author1, parent1, seed1)[3] == seed1);
        assert(branch_seeds(author2, parent2, seed2)[3] == seed2);
    }
    assert(root_seeds(author1, seed1).len() != branch_seeds(author2, parent2, seed2).len());
}

/// A title seed is refused only when it is not the digest of the title, and
/// when the other fields pass their checks it is refused exactly then.
pub proof fn invalid_title_seed_iff_not_digest(
    title: Seq<char>,
    content_uri: Seq<char>,
    image_uri: Seq<char>,
    title_seed: Seq<u8>,
)
    ensures
        check_fields(title, content_uri, image_uri, title_seed) == Err::<(), StoryChainError>(
            StoryChainError::InvalidTitleSeed,
        ) ==> title_seed != sha256_of(encode_utf8(title)),
        content_uri.len() > 0 && byte_len(title) <= MAX_TITLE_LEN && byte_len(content_uri)
            <= MAX_URI_LEN && byte_len(image_uri) <= MAX_URI_LEN ==> ((check_fields(
            title,
            content_uri,
            image_uri,
            title_seed,
        ) == Err::<(), StoryChainError>(StoryChainError::InvalidTitleSeed)) == (title_seed
            != sha256_of(encode_utf8(title)))),
{
}

/// An empty content URI is refused, whatever the other fields hold, and
/// neither creation then changes the store.
pub proof fn empty_content_uri_is_refused(
    store: Map<Seq<u8>, AccountView>,
    author: Seq<u8>,
    parent: Seq<u8>,
    now: i64,
    title: Seq<char>,
    image_uri: Seq<char>,
    title_seed: Seq<u8>,
)
    ensures
        check_fields(title, Seq::empty(), image_uri, title_seed) == Err::<(), StoryChainError>(
            StoryChainError::EmptyUri,
        ),
        root_outcome(store, author, now, title, Seq::empty(), image_uri, title_seed) == (Err::<
            Seq<u8>,
            StoryChainError,
        >(StoryChainError::EmptyUri), store),
        branch_outcome(store, author, parent, now, title, Seq::empty(), image_uri, title_seed) == (
        Err::<(Seq<u8>, u64), StoryChainError>(StoryChainError::EmptyUri), store),
{
}

/// A root is stored with the all-zero parent, and a branch with the parent
/// it was made from.
pub proof fn created_nodes_record_their_parent(
    store: Map<Seq<u8>, AccountView>,
    author: Seq<u8>,
    parent: Seq<u8>,
    now: i64,
    title: Seq<char>,
    content_uri: Seq<char>,
    image_uri: Seq<char>,
    title_seed: Seq<u8>,
)
    ensures
        ({
            let (r, after) = root_outcome(
                store,
                author,
                now,
                title,
                content_uri,
                image_uri,
                title_seed,
            );
            r.is_ok() ==> after.contains_key(r.unwrap()) && after[r.unwrap()].node.parent
                == no_parent() && after[r.unwrap()].node.children_count == 0
        }),
        ({
            let (r, after) = branch_outcome(
                store,
                author,
                parent,
                now,
                title,
                content_uri,
                image_uri,
                title_seed,
            );
            r.is_ok() ==> after.contains_key(r.unwrap().0) && after[r.unwrap().0].node.parent
                == parent && after[r.unwrap().0].node.children_count == 0
        }),
{
}

/// A branch creation never removes a node nor changes any node's parent; it
/// changes no counter but the parent's, which goes up by one on success.
/// A failed branch creation leaves the store as it was.
pub proof fn branch_only_grows_the_parent_counter(
    store: Map<Seq<u8>, AccountView>,
    author: Seq<u8>,
    parent: Seq<u8>,
    now: i64,
    title: Seq<char>,
    content_uri: Seq<char>,
    image_uri: Seq<char>,
    title_seed: Seq<u8>,
)
    ensures
        ({
            let (r, after) = branch_outcome(
                store,
                author,
                parent,
                now,
                title,
                content_uri,
                image_uri,
                title_seed,
            );
            &&& r.is_err() ==> after == store
            &&& forall|k: Seq<u8>| #[trigger]
                store.contains_key(k) ==> after.contains_key(k) && after[k].node.parent
                    == store[k].node.parent && after[k].node.author == store[k].node.author
                    && after[k].node.title == store[k].node.title && after[k].node.children_count
                    == if r.is_ok() && k == parent {
                    store[k].node.children_count + 1
                } else {
                    store[k].node.children_count as int
                }
        }),
{
}

/// A root creation never removes or changes a stored node, and a failed one
/// leaves the store as it was.
pub proof fn root_keeps_existing_nodes(
    store: Map<Seq<u8>, AccountView>,
    author: Seq<u8>,
    now: i64,
    title: Seq<char>,
    content_uri: Seq<char>,
    image_uri: Seq<char>,
    title_seed: Seq<u8>,
)
    ensures
        ({
            let (r, after) = root_outcome(
                store,
                author,
                now,
                title,
                content_uri,
                image_uri,
                title_seed,
            );
            &&& r.is_err() ==> after == store
            &&& forall|k: Seq<u8>| #[trigger]
                store.contains_key(k) ==> after.contains_key(k) && after[k] == store[k]
        }),
{
}

/// A branch from a parent whose counter is at its largest value fails, with
/// `Overflow` once the fields pass their checks, and changes nothing: no
/// child is created.
pub proof fn full_counter_overflows(
    store: Map<Seq<u8>, AccountView>,
    author: Seq<u8>,
    parent: Seq<u8>,
    now: i64,
    title: Seq<char>,
    content_uri: Seq<char>,
    image_uri: Seq<char>,
    title_seed: Seq<u8>,
)
    requires
        store.contains_key(parent),
        store[parent].node.children_count == u64::MAX,
    ensures
        ({
            let (r, after) = branch_outcome(
                store,
                author,
                parent,
                now,
                title,
                content_uri,
                image_uri,
                title_seed,
            );
            &&& r.is_err()
            &&& after == store
            &&& check_fields(title, content_uri, image_uri, title_seed).is_ok() ==> r == Err::<
                (Seq<u8>, u64),
                StoryChainError,
            >(StoryChainError::Overflow)
        }),
{
}

/// After any run of branch creations against one stored parent, its counter
/// has grown by exactly the number of calls that succeeded.
pub proof fn children_count_counts_successes(
    store: Map<Seq<u8>, AccountView>,
    parent: Seq<u8>,
    calls: Seq<BranchCall>,
)
    requires
        store.contains_key(parent),
    ensures
        run_branches(store, parent, calls).0.contains_key(parent),
        run_branches(store, parent, calls).0[parent].node.children_count == store[parent].node.children_count
            + run_branches(store, parent, calls).1,
    decreases calls.len(),
{
    if calls.len() > 0 {
        children_count_counts_successes(store, parent, calls.drop_last());
        let (prev, n) = run_branches(store, parent, calls.drop_last());
        let c = calls.last();
        branch_only_grows_the_parent_counter(
            prev,
            c.author,
            parent,
            c.now,
            c.title,
            c.content_uri,
            c.image_uri,
            c.title_seed,
        );
    }
}

/// Two successful branch creations against the same parent, one after the
/// other, give two different addresses and raise the parent's counter by two.
pub proof fn two_branches_are_distinct(
    store: Map<Seq<u8>, AccountView>,
    parent: Seq<u8>,
    first: BranchCall,
    second: BranchCall,
)
    ensures
        ({
            let (r1, mid) = branch_outcome(
                store,
                first.author,
                parent,
                first.now,
                first.title,
                first.content_uri,
                first.image_uri,
                first.title_seed,
            );
            let (r2, after) = branch_outcome(
                mid,
                second.author,
                parent,
                second.now,
                second.title,
                second.content_uri,
                second.image_uri,
                second.title_seed,
            );
            r1.is_ok() && r2.is_ok() ==> r1.unwrap().0 != r2.unwrap().0 && after.contains_key(
                r1.unwrap().0,
            ) && after.contains_key(r2.unwrap().0) && after[parent].node.children_count
                == store[parent].node.children_count + 2 && r2.unwrap().1 == after[parent].node.children_count
        }),
{
    let (r1, mid) = branch_outcome(
        store,
        first.author,
        parent,
        first.now,
        first.title,
        first.content_uri,
        first.image_uri,
        first.title_seed,
    );
    branch_only_grows_the_parent_counter(
        store,
        first.author,
        parent,
        first.now,
        first.title,
        first.content_uri,
        first.image_uri,
        first.title_seed,
    );
    branch_only_grows_the_parent_counter(
        mid,
        second.author,
        parent,
        second.now,
        second.title,
        second.content_uri,
        second.image_uri,
        second.title_seed,
    );
}

} // verus!
