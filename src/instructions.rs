use vstd::prelude::*;

use crate::address::{branch_address, find_branch_address, find_root_address, root_address};
use crate::error::StoryChainError;
use crate::node::{record_size, StoryNode, StoryNodeView};
use crate::store::{with_children_count, AccountView, NodeStore};
use crate::validate::{check_fields, validate};

verus! {

/// The accounts and clock that a root creation runs with.
pub struct CreateRoot {
    /// Key of the account that creates the node.
    pub author: [u8; 32],
    /// Unix timestamp of the ledger clock.
    pub unix_timestamp: i64,
}

/// The accounts and clock that a branch creation runs with.
pub struct CreateBranch {
    /// Key of the account that creates the node.
    pub author: [u8; 32],
    /// Address of the node to branch from.
    pub parent_node: [u8; 32],
    /// Unix timestamp of the ledger clock.
    pub unix_timestamp: i64,
}

/// The parent address of a root node: 32 zero bytes.
pub open spec fn no_parent() -> Seq<u8> {
    Seq::new(32, |i: int| 0u8)
}

/// The record of a freshly created node.
pub open spec fn fresh_record(
    author: Seq<u8>,
    parent: Seq<u8>,
    title: Seq<char>,
    content_uri: Seq<char>,
    image_uri: Seq<char>,
    created_at: i64,
    bump: u8,
) -> AccountView {
    AccountView {
        space: record_size(title, content_uri, image_uri),
        node: StoryNodeView {
            author,
            parent,
            title,
            content_uri,
            image_uri,
            children_count: 0,
            created_at,
            bump,
        },
    }
}

/// The result of a root creation and the store after it.
pub open spec fn root_outcome(
    store: Map<Seq<u8>, AccountView>,
    author: Seq<u8>,
    now: i64,
    title: Seq<char>,
    content_uri: Seq<char>,
    image_uri: Seq<char>,
    title_seed: Seq<u8>,
) -> (Result<Seq<u8>, StoryChainError>, Map<Seq<u8>, AccountView>) {
    match check_fields(title, content_uri, image_uri, title_seed) {
        Err(e) => (Err(e), store),
        Ok(_) => match root_address(author, title_seed) {
            None => (Err(StoryChainError::NoProgramAddress), store),
            Some((addr, bump)) => if store.contains_key(addr) {
                (Err(StoryChainError::AlreadyExists), store)
            } else {
                (
                    Ok(addr),
                    store.insert(
                        addr,
                        fresh_record(author, no_parent(), title, content_uri, image_uri, now, bump),
                    ),
                )
            },
        },
    }
}

/// The result of a branch creation and the store after it.
///
/// On success the parent's counter goes up by one and the child is stored
/// with the parent's address; every error leaves the store as it was.
pub open spec fn branch_outcome(
    store: Map<Seq<u8>, AccountView>,
    author: Seq<u8>,
    parent: Seq<u8>,
    now: i64,
    title: Seq<char>,
    content_uri: Seq<char>,
    image_uri: Seq<char>,
    title_seed: Seq<u8>,
) -> (Result<(Seq<u8>, u64), StoryChainError>, Map<Seq<u8>, AccountView>) {
    match check_fields(title, content_uri, image_uri, title_seed) {
        Err(e) => (Err(e), store),
        Ok(_) => if !store.contains_key(parent) {
            (Err(StoryChainError::NotFound), store)
        } else if store[parent].node.children_count == u64::MAX {
            (Err(StoryChainError::Overflow), store)
        } else {
            match branch_address(author, parent, title_seed) {
                None => (Err(StoryChainError::NoProgramAddress), store),
                Some((addr, bump)) => if store.contains_key(addr) {
                    (Err(StoryChainError::AlreadyExists), store)
                } else {
                    let count = (store[parent].node.children_count + 1) as u64;
                    (
                        Ok((addr, count)),
                        store.insert(parent, with_children_count(store[parent], count)).insert(
                            addr,
                            fresh_record(author, parent, title, content_uri, image_uri, now, bump),
                        ),
                    )
                },
            }
        },
    }
}

/// The address of a root creation's result, as a value.
pub open spec fn root_result_view(r: Result<[u8; 32], StoryChainError>) -> Result<
    Seq<u8>,
    StoryChainError,
> {
    match r {
        Ok(a) => Ok(a@),
        Err(e) => Err(e),
    }
}

/// The address and counter of a branch creation's result, as values.
pub open spec fn branch_result_view(r: Result<([u8; 32], u64), StoryChainError>) -> Result<
    (Seq<u8>, u64),
    StoryChainError,
> {
    match r {
        Ok(p) => Ok((p.0@, p.1)),
        Err(e) => Err(e),
    }
}

/// Creates a new story: a root node with no parent. Returns its address.
pub fn create_root(
    store: &mut NodeStore,
    ctx: &CreateRoot,
    title: String,
    content_uri: String,
    image_uri: String,
    title_seed: [u8; 32],
) -> (r: Result<[u8; 32], StoryChainError>)
    requires
        old(store).wf(),
    ensures
        final(store).wf(),
        (root_result_view(r), final(store)@) == root_outcome(
            old(store)@,
            ctx.author@,
            ctx.unix_timestamp,
            title@,
            content_uri@,
            image_uri@,
            title_seed@,
        ),
{
    match validate(title.as_str(), content_uri.as_str(), image_uri.as_str(), &title_seed) {
        Err(e) => return Err(e),
        Ok(_) => {},
    }
    let (address, bump) = match find_root_address(&ctx.author, &title_seed) {
        Some(found) => found,
        None => return Err(StoryChainError::NoProgramAddress),
    };
    if store.contains(&address) {
        return Err(StoryChainError::AlreadyExists);
    }
    let space = StoryNode::space(title.as_str(), content_uri.as_str(), image_uri.as_str());
    let node = StoryNode {
        author: ctx.author,
        parent: [0u8; 32],
        title,
        content_uri,
        image_uri,
        children_count: 0,
        created_at: ctx.unix_timestamp,
        bump,
    };
    assert(node@.parent =~= no_parent());
    store.create(address, space, node);
    Ok(address)
}

/// Branches off an existing node: creates a child whose parent is
/// `ctx.parent_node` and adds one to the parent's counter. Returns the
/// child's address and the parent's new counter.
pub fn create_branch(
    store: &mut NodeStore,
    ctx: &CreateBranch,
    title: String,
    content_uri: String,
    image_uri: String,
    title_seed: [u8; 32],
) -> (r: Result<([u8; 32], u64), StoryChainError>)
    requires
        old(store).wf(),
    ensures
        final(store).wf(),
        (branch_result_view(r), final(store)@) == branch_outcome(
            old(store)@,
            ctx.author@,
            ctx.parent_node@,
            ctx.unix_timestamp,
            title@,
            content_uri@,
            image_uri@,
            title_seed@,
        ),
{
    match validate(title.as_str(), content_uri.as_str(), image_uri.as_str(), &title_seed) {
        Err(e) => return Err(e),
        Ok(_) => {},
    }
    let count = match store.get(&ctx.parent_node) {
        None => return Err(StoryChainError::NotFound),
        Some(parent) => match parent.children_count.checked_add(1) {
            None => return Err(StoryChainError::Overflow),
            Some(c) => c,
        },
    };
    let (address, bump) = match find_branch_address(&ctx.author, &ctx.parent_node, &title_seed) {
        Some(found) => found,
        None => return Err(StoryChainError::NoProgramAddress),
    };
    if store.contains(&address) {
        return Err(StoryChainError::AlreadyExists);
    }
    let space = StoryNode::space(title.as_str(), content_uri.as_str(), image_uri.as_str());
    let node = StoryNode {
        author: ctx.author,
        parent: ctx.parent_node,
        title,
        content_uri,
        image_uri,
        children_count: 0,
        created_at: ctx.unix_timestamp,
        bump,
    };
    store.increment_children(&ctx.parent_node);
    store.create(address, space, node);
    Ok((address, count))
}

} // verus!
