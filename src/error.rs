use vstd::prelude::*;

verus! {

/// Why a node could not be created.
///
/// Every error leaves the store exactly as it was.
#[derive(PartialEq, Eq, Structural, Debug, Clone, Copy)]
pub enum StoryChainError {
    /// The title is longer than the title limit, in bytes.
    TitleTooLong,
    /// The content URI is longer than the URI limit, in bytes.
    UriTooLong,
    /// The image URI is longer than the URI limit, in bytes.
    ImageUriTooLong,
    /// The content URI is empty.
    EmptyUri,
    /// The parent's branch counter is already at its largest value.
    Overflow,
    /// The title seed is not the SHA-256 digest of the title.
    InvalidTitleSeed,
    /// A node already occupies the derived address.
    AlreadyExists,
    /// No node is stored at the parent address.
    NotFound,
    /// No bump seed gives a valid program address for these seeds.
    NoProgramAddress,
}

} // verus!
