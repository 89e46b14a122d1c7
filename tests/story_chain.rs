use std::str::FromStr;

use anchor_lang::prelude::Pubkey;
use story_chain::address::{find_branch_address, find_root_address, node_seed_tag, program_id};
use story_chain::instructions::{create_branch, create_root, CreateBranch, CreateRoot};
use story_chain::node::StoryNode;
use story_chain::store::NodeStore;
use story_chain::validate::{bytes_equal, validate, validate_fields};
use story_chain::StoryChainError;

fn digest(text: &str) -> [u8; 32] {
    solana_sha256_hasher::hash(text.as_bytes()).to_bytes()
}

fn author() -> [u8; 32] {
    [7u8; 32]
}

fn root_ctx() -> CreateRoot {
    CreateRoot { author: author(), unix_timestamp: 1_700_000_000 }
}

fn branch_ctx(parent: [u8; 32]) -> CreateBranch {
    CreateBranch { author: author(), parent_node: parent, unix_timestamp: 1_700_000_100 }
}

fn make_root(store: &mut NodeStore, title: &str) -> [u8; 32] {
    create_root(
        store,
        &root_ctx(),
        title.to_string(),
        "ipfs://abc".to_string(),
        String::new(),
        digest(title),
    )
    .unwrap()
}

fn branch(store: &mut NodeStore, parent: [u8; 32], title: &str) -> Result<([u8; 32], u64), StoryChainError> {
    create_branch(
        store,
        &branch_ctx(parent),
        title.to_string(),
        "ipfs://def".to_string(),
        String::new(),
        digest(title),
    )
}

fn blank_node(children_count: u64) -> StoryNode {
    StoryNode {
        author: author(),
        parent: [0u8; 32],
        title: "full".to_string(),
        content_uri: "ipfs://full".to_string(),
        image_uri: String::new(),
        children_count,
        created_at: 0,
        bump: 255,
    }
}

#[test]
fn program_id_matches_declared_key() {
    let declared = Pubkey::from_str("Eun9Ca5x4CGTZ53XC5ie8GidJBAgFhkr7gYwvx5qLcKq").unwrap();
    assert_eq!(program_id(), declared.to_bytes());
}

#[test]
fn seed_tag_is_story_node() {
    assert_eq!(node_seed_tag(), b"story-node".to_vec());
}

#[test]
fn root_address_matches_program_address_search() {
    let seed = digest("Chapter 1");
    let id = Pubkey::new_from_array(program_id());
    let (expected, bump) = Pubkey::find_program_address(&[b"story-node", &author(), &seed], &id);
    assert_eq!(find_root_address(&author(), &seed), Some((expected.to_bytes(), bump)));
}

#[test]
fn branch_address_includes_parent() {
    let seed = digest("Chapter 2a");
    let p1 = [1u8; 32];
    let p2 = [2u8; 32];
    let a1 = find_branch_address(&author(), &p1, &seed).unwrap();
    let a2 = find_branch_address(&author(), &p2, &seed).unwrap();
    assert_ne!(a1.0, a2.0);
    let id = Pubkey::new_from_array(program_id());
    let (expected, bump) = Pubkey::find_program_address(&[b"story-node", &author(), &p1, &seed], &id);
    assert_eq!(a1, (expected.to_bytes(), bump));
}

#[test]
fn derivation_is_deterministic() {
    let seed = digest("same");
    assert_eq!(find_root_address(&author(), &seed), find_root_address(&author(), &seed));
    let other = find_root_address(&[8u8; 32], &seed).unwrap();
    assert_ne!(find_root_address(&author(), &seed).unwrap().0, other.0);
    let other_seed = find_root_address(&author(), &digest("different")).unwrap();
    assert_ne!(find_root_address(&author(), &seed).unwrap().0, other_seed.0);
}

#[test]
fn space_counts_every_field() {
    assert_eq!(StoryNode::space("", "", ""), 101);
    assert_eq!(StoryNode::space("abc", "ipfs://x", ""), 112);
    assert_eq!(StoryNode::space("é", "a", "bc"), 106);
}

#[test]
fn bytes_equal_compares_every_byte() {
    let a = [3u8; 32];
    let mut b = [3u8; 32];
    assert!(bytes_equal(&a, &b));
    b[31] = 4;
    assert!(!bytes_equal(&a, &b));
}

#[test]
fn validate_accepts_digest_of_title() {
    assert_eq!(validate("Chapter 1", "ipfs://abc", "", &digest("Chapter 1")), Ok(()));
}

#[test]
fn validate_refuses_title_bytes_as_seed() {
    let mut raw = [0u8; 32];
    raw[..9].copy_from_slice(b"Chapter 1");
    assert_eq!(validate("Chapter 1", "ipfs://abc", "", &raw), Err(StoryChainError::InvalidTitleSeed));
}

#[test]
fn invalid_title_seed_only_on_mismatch() {
    assert_eq!(
        validate("Chapter 1", "ipfs://abc", "", &digest("Chapter 2")),
        Err(StoryChainError::InvalidTitleSeed)
    );
    let e = [9u8; 32];
    assert_eq!(validate_fields("t", "u", "", &e, &e), Ok(()));
    assert_eq!(validate_fields("t", "u", "", &e, &[8u8; 32]), Err(StoryChainError::InvalidTitleSeed));
}

#[test]
fn title_of_64_bytes_is_accepted() {
    let title = "a".repeat(64);
    assert_eq!(validate(&title, "ipfs://abc", "", &digest(&title)), Ok(()));
    let mut store = NodeStore::new();
    let r = create_root(&mut store, &root_ctx(), title.clone(), "ipfs://abc".to_string(), String::new(), digest(&title));
    assert!(r.is_ok());
}

#[test]
fn title_of_65_bytes_is_too_long() {
    let title = "a".repeat(65);
    let mut store = NodeStore::new();
    let r = create_root(&mut store, &root_ctx(), title.clone(), "ipfs://abc".to_string(), String::new(), digest(&title));
    assert_eq!(r, Err(StoryChainError::TitleTooLong));
}

#[test]
fn title_limit_counts_bytes_not_chars() {
    let title = "é".repeat(33);
    assert_eq!(validate(&title, "ipfs://abc", "", &digest(&title)), Err(StoryChainError::TitleTooLong));
}

#[test]
fn content_uri_of_201_bytes_is_too_long() {
    let uri = "u".repeat(201);
    assert_eq!(validate("t", &uri, "", &digest("t")), Err(StoryChainError::UriTooLong));
    let uri = "u".repeat(200);
    assert_eq!(validate("t", &uri, "", &digest("t")), Ok(()));
}

#[test]
fn image_uri_of_201_bytes_is_too_long() {
    let uri = "i".repeat(201);
    assert_eq!(validate("t", "c", &uri, &digest("t")), Err(StoryChainError::ImageUriTooLong));
    let uri = "i".repeat(200);
    assert_eq!(validate("t", "c", &uri, &digest("t")), Ok(()));
}

#[test]
fn empty_content_uri_is_refused_whatever_else() {
    let long_title = "a".repeat(65);
    let long_image = "i".repeat(201);
    assert_eq!(validate(&long_title, "", &long_image, &[0u8; 32]), Err(StoryChainError::EmptyUri));
    let mut store = NodeStore::new();
    let r = create_root(&mut store, &root_ctx(), long_title, String::new(), long_image, [0u8; 32]);
    assert_eq!(r, Err(StoryChainError::EmptyUri));
    assert!(!store.contains(&find_root_address(&author(), &[0u8; 32]).unwrap().0));
}

#[test]
fn root_then_branch_scenario() {
    let mut store = NodeStore::new();
    let a = create_root(
        &mut store,
        &root_ctx(),
        "Chapter 1".to_string(),
        "ipfs://abc".to_string(),
        String::new(),
        digest("Chapter 1"),
    )
    .unwrap();
    let root = store.get(&a).unwrap();
    assert_eq!(root.children_count, 0);
    assert_eq!(root.parent, [0u8; 32]);
    assert_eq!(root.author, author());
    assert_eq!(root.title, "Chapter 1");
    assert_eq!(root.created_at, 1_700_000_000);
    assert_eq!(store.space_of(&a), Some(StoryNode::space("Chapter 1", "ipfs://abc", "")));

    let (b, count) = create_branch(
        &mut store,
        &branch_ctx(a),
        "Chapter 2a".to_string(),
        "ipfs://def".to_string(),
        String::new(),
        digest("Chapter 2a"),
    )
    .unwrap();
    assert_eq!(count, 1);
    assert_eq!(store.get(&a).unwrap().children_count, 1);
    let child = store.get(&b).unwrap();
    assert_eq!(child.parent, a);
    assert_eq!(child.children_count, 0);
    assert_eq!(child.content_uri, "ipfs://def");
    assert_eq!(child.created_at, 1_700_000_100);
    assert_ne!(a, b);
}

#[test]
fn root_address_is_derived_from_author_and_seed() {
    let mut store = NodeStore::new();
    let a = make_root(&mut store, "Chapter 1");
    let (expected, bump) = find_root_address(&author(), &digest("Chapter 1")).unwrap();
    assert_eq!(a, expected);
    assert_eq!(store.get(&a).unwrap().bump, bump);
}

#[test]
fn same_root_twice_already_exists() {
    let mut store = NodeStore::new();
    let a = make_root(&mut store, "Chapter 1");
    let r = create_root(
        &mut store,
        &root_ctx(),
        "Chapter 1".to_string(),
        "ipfs://other".to_string(),
        String::new(),
        digest("Chapter 1"),
    );
    assert_eq!(r, Err(StoryChainError::AlreadyExists));
    assert_eq!(store.get(&a).unwrap().content_uri, "ipfs://abc");
}

#[test]
fn branch_of_missing_parent_not_found() {
    let mut store = NodeStore::new();
    assert_eq!(branch(&mut store, [5u8; 32], "Chapter 2"), Err(StoryChainError::NotFound));
}

#[test]
fn branch_counts_equal_successes() {
    let mut store = NodeStore::new();
    let a = make_root(&mut store, "Chapter 1");
    let titles = ["b1", "b2", "b3", "b4", "b5"];
    for (i, t) in titles.iter().enumerate() {
        let (_, count) = branch(&mut store, a, t).unwrap();
        assert_eq!(count, i as u64 + 1);
    }
    assert_eq!(store.get(&a).unwrap().children_count, 5);
    assert_eq!(branch(&mut store, a, "b1"), Err(StoryChainError::AlreadyExists));
    let bad = create_branch(
        &mut store,
        &branch_ctx(a),
        "b6".to_string(),
        "ipfs://def".to_string(),
        String::new(),
        digest("b7"),
    );
    assert_eq!(bad, Err(StoryChainError::InvalidTitleSeed));
    assert_eq!(store.get(&a).unwrap().children_count, 5);
}

#[test]
fn full_counter_overflows_and_creates_nothing() {
    let mut store = NodeStore::new();
    let parent = [4u8; 32];
    store.create(parent, 120, blank_node(u64::MAX));
    assert_eq!(branch(&mut store, parent, "Chapter 2"), Err(StoryChainError::Overflow));
    assert_eq!(store.get(&parent).unwrap().children_count, u64::MAX);
    let child = find_branch_address(&author(), &parent, &digest("Chapter 2")).unwrap().0;
    assert!(!store.contains(&child));
}

#[test]
fn counter_one_below_full_still_branches() {
    let mut store = NodeStore::new();
    let parent = [4u8; 32];
    store.create(parent, 120, blank_node(u64::MAX - 1));
    let (_, count) = branch(&mut store, parent, "Chapter 2").unwrap();
    assert_eq!(count, u64::MAX);
}

#[test]
fn two_branches_of_one_parent() {
    let mut store = NodeStore::new();
    let a = make_root(&mut store, "Chapter 1");
    let (b1, _) = branch(&mut store, a, "Chapter 2a").unwrap();
    let (b2, count) = branch(&mut store, a, "Chapter 2b").unwrap();
    assert_ne!(b1, b2);
    assert_eq!(count, 2);
    assert_eq!(store.get(&a).unwrap().children_count, 2);
    assert_eq!(store.get(&b1).unwrap().parent, a);
    assert_eq!(store.get(&b2).unwrap().parent, a);
}

#[test]
fn same_title_under_different_parents() {
    let mut store = NodeStore::new();
    let a = make_root(&mut store, "Chapter 1");
    let b = make_root(&mut store, "Other story");
    let (c1, _) = branch(&mut store, a, "Ending").unwrap();
    let (c2, _) = branch(&mut store, b, "Ending").unwrap();
    assert_ne!(c1, c2);
}
