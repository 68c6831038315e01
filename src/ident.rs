//! Generation of fresh random identifiers.
use crate::link::{is_alnum, is_short_id, ID_LEN};
use vstd::prelude::*;

verus! {

/// Relies on `rand::Rng::sample` with `rand::distributions::Alphanumeric`
/// on the thread-local generator: the sampled byte is taken from the table
/// `A-Z`, `a-z`, `0-9`, so the character is alphanumeric.
#[verifier::external_body]
fn random_alphanumeric() -> (c: char)
    ensures
        is_alnum(c),
{
    char::from(rand::Rng::sample(&mut rand::thread_rng(), rand::distributions::Alphanumeric))
}

/// Relies on `FromIterator<char> for String`: the string holds the
/// characters in order.
#[verifier::external_body]
fn string_of_chars(chars: &Vec<char>) -> (s: String)
    ensures
        s@ == chars@,
{
    chars.iter().collect()
}

/// Draws a fresh identifier: `ID_LEN` characters, each picked independently
/// and uniformly from the alphanumeric alphabet. The identifier is unrelated
/// to any URL.
pub fn generate_id() -> (id: String)
    ensures
        is_short_id(id@),
{
    let mut chars: Vec<char> = Vec::new();
    let mut n: usize = 0;
    while n < ID_LEN
        invariant
            n <= ID_LEN,
            chars@.len() == n,
            forall|i: int| 0 <= i < chars@.len() ==> #[trigger] is_alnum(chars@[i]),
        decreases ID_LEN - n,
    {
        let c = random_alphanumeric();
        chars.push(c);
        n = n + 1;
    }
    string_of_chars(&chars)
}

} // verus!
