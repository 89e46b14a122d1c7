//! A branching tree of story nodes kept in an append-only store.
//!
//! Each node is written once at an address derived from its author, its
//! parent (for a branch) and a hash of its title; the only later change to a
//! node is the count of branches made from it.

pub mod address;
pub mod error;
pub mod instructions;
pub mod laws;
pub mod node;
pub mod outside;
pub mod store;
pub mod validate;

pub use error::StoryChainError;
pub use node::StoryNode;
pub use instructions::{create_branch, create_root, CreateBranch, CreateRoot};
pub use store::NodeStore;
