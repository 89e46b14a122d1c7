use vstd::prelude::*;
use vstd::utf8::encode_utf8;

verus! {

/// Bytes of the account discriminator that precedes every record.
pub const DISCRIMINATOR_LEN: usize = 8;

/// Bytes of a public key.
pub const PUBKEY_LEN: usize = 32;

/// Bytes of the length prefix of a string field.
pub const STRING_PREFIX_LEN: usize = 4;

/// One node of a story tree, as stored at its derived address.
pub struct StoryNode {
    /// Key of the account that created this node.
    pub author: [u8; 32],
    /// Address of the parent node; all zeros for a root.
    pub parent: [u8; 32],
    /// Short title for navigation and display.
    pub title: String,
    /// URI of the full content.
    pub content_uri: String,
    /// URI of a cover image; empty if there is none.
    pub image_uri: String,
    /// Number of direct children branched from this node.
    pub children_count: u64,
    /// Unix timestamp of creation, from the ledger clock.
    pub created_at: i64,
    /// Bump seed of the node's program address.
    pub bump: u8,
}

/// What a node holds, as mathematical values.
pub struct StoryNodeView {
    pub author: Seq<u8>,
    pub parent: Seq<u8>,
    pub title: Seq<char>,
    pub content_uri: Seq<char>,
    pub image_uri: Seq<char>,
    pub children_count: u64,
    pub created_at: i64,
    pub bump: u8,
}

impl View for StoryNode {
    type V = StoryNodeView;

    open spec fn view(&self) -> StoryNodeView {
        StoryNodeView {
            author: self.author@,
            parent: self.parent@,
            title: self.title@,
            content_uri: self.content_uri@,
            image_uri: self.image_uri@,
            children_count: self.children_count,
            created_at: self.created_at,
            bump: self.bump,
        }
    }
}

/// Length in bytes of the UTF-8 encoding of `s`.
pub open spec fn byte_len(s: Seq<char>) -> nat {
    encode_utf8(s).len()
}

/// Size in bytes of a stored record with these three strings: discriminator,
/// author, parent, three length-prefixed strings, counter, timestamp and bump.
pub open spec fn record_size(title: Seq<char>, content_uri: Seq<char>, image_uri: Seq<char>) -> nat {
    8 + 32 + 32 + (4 + byte_len(title)) + (4 + byte_len(content_uri)) + (4 + byte_len(image_uri))
        + 8 + 8 + 1
}

impl StoryNode {
    /// The number of bytes to allocate for a record holding these strings.
    pub fn space(title: &str, content_uri: &str, image_uri: &str) -> (r: usize)
        requires
            record_size(title@, content_uri@, image_uri@) <= usize::MAX,
        ensures
            r == record_size(title@, content_uri@, image_uri@),
    {
        DISCRIMINATOR_LEN + PUBKEY_LEN + PUBKEY_LEN + (STRING_PREFIX_LEN + title.len()) + (
        STRING_PREFIX_LEN + content_uri.len()) + (STRING_PREFIX_LEN + image_uri.len()) + 8 + 8 + 1
    }
}

} // verus!
