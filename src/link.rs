//! The persisted pairing of a short identifier with a URL, and the errors
//! that shortening can report.
use vstd::prelude::*;

verus! {

/// Number of characters in every short identifier.
pub const ID_LEN: usize = 6;

/// A character of the alphabet `[A-Za-z0-9]`.
pub open spec fn is_alnum(c: char) -> bool {
    ('A' <= c && c <= 'Z') || ('a' <= c && c <= 'z') || ('0' <= c && c <= '9')
}

/// A well-formed short identifier: six characters, each alphanumeric.
pub open spec fn is_short_id(s: Seq<char>) -> bool {
    &&& s.len() == ID_LEN
    &&& forall|i: int| 0 <= i < s.len() ==> #[trigger] is_alnum(s[i])
}

/// One (id, url) row of the store.
#[derive(Clone, Debug)]
pub struct ShortLink {
    pub id: String,
    pub url: String,
}

/// Why a shortening or a resolution did not produce a result.
#[derive(Clone, Debug, PartialEq, Eq)]
pub enum ShortenError {
    /// The submitted text does not parse as an absolute URL.
    InvalidUrl,
    /// The store failed; the message is the store's own description.
    StoreError(String),
}

} // verus!
