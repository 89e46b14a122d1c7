use vstd::prelude::*;
use vstd::utf8::encode_utf8;

use crate::error::StoryChainError;
use crate::node::byte_len;
use crate::outside::{sha256, sha256_of};

verus! {

/// Largest title, in bytes.
pub const MAX_TITLE_LEN: usize = 64;

/// Largest content or image URI, in bytes.
pub const MAX_URI_LEN: usize = 200;

/// The outcome of checking the fields of a new node, where `expected` is the
/// digest of the title. An empty content URI is refused before anything else.
pub open spec fn field_check(
    title: Seq<char>,
    content_uri: Seq<char>,
    image_uri: Seq<char>,
    title_seed: Seq<u8>,
    expected: Seq<u8>,
) -> Result<(), StoryChainError> {
    if content_uri.len() == 0 {
        Err(StoryChainError::EmptyUri)
    } else if byte_len(title) > MAX_TITLE_LEN {
        Err(StoryChainError::TitleTooLong)
    } else if byte_len(content_uri) > MAX_URI_LEN {
        Err(StoryChainError::UriTooLong)
    } else if byte_len(image_uri) > MAX_URI_LEN {
        Err(StoryChainError::ImageUriTooLong)
    } else if title_seed != expected {
        Err(StoryChainError::InvalidTitleSeed)
    } else {
        Ok(())
    }
}

/// The outcome of checking the fields of a new node against the SHA-256
/// digest of its title.
pub open spec fn check_fields(
    title: Seq<char>,
    content_uri: Seq<char>,
    image_uri: Seq<char>,
    title_seed: Seq<u8>,
) -> Result<(), StoryChainError> {
    field_check(title, content_uri, image_uri, title_seed, sha256_of(encode_utf8(title)))
}

/// Whether two 32-byte values are equal.
pub fn bytes_equal(a: &[u8; 32], b: &[u8; 32]) -> (r: bool)
    ensures
        r == (a@ == b@),
{
    let mut i: usize = 0;
    while i < 32
        invariant
            0 <= i <= 32,
            a@.len() == 32,
            b@.len() == 32,
            forall|j: int| 0 <= j < i ==> a@[j] == b@[j],
        decreases 32 - i,
    {
        if a[i] != b[i] {
            assert(a@[i as int] != b@[i as int]);
            return false;
        }
        i += 1;
    }
    assert(a@ =~= b@);
    true
}

/// Checks the fields of a new node, given the digest `expected` of its title.
pub fn validate_fields(
    title: &str,
    content_uri: &str,
    image_uri: &str,
    title_seed: &[u8; 32],
    expected: &[u8; 32],
) -> (r: Result<(), StoryChainError>)
    ensures
        r == field_check(title@, content_uri@, image_uri@, title_seed@, expected@),
{
    if content_uri.is_empty() {
        return Err(StoryChainError::EmptyUri);
    }
    if title.as_bytes().len() > MAX_TITLE_LEN {
        return Err(StoryChainError::TitleTooLong);
    }
    if content_uri.as_bytes().len() > MAX_URI_LEN {
        return Err(StoryChainError::UriTooLong);
    }
    if image_uri.as_bytes().len() > MAX_URI_LEN {
        return Err(StoryChainError::ImageUriTooLong);
    }
    if !bytes_equal(title_seed, expected) {
        return Err(StoryChainError::InvalidTitleSeed);
    }
    Ok(())
}

/// Checks the fields of a new node: the length limits, a non-empty content
/// URI, and that `title_seed` is the SHA-256 digest of the title.
pub fn validate(title: &str, content_uri: &str, image_uri: &str, title_seed: &[u8; 32]) -> (r:
    Result<(), StoryChainError>)
    ensures
        r == check_fields(title@, content_uri@, image_uri@, title_seed@),
{
    let expected = sha256(title.as_bytes());
    validate_fields(title, content_uri, image_uri, title_seed, &expected)
}

} // verus!
