//! The decisions of shortening and resolving, one step per answer of the
//! store. A driver performs the store access that a step asks for and hands
//! the answer to the next step; store failures arrive as their message.
use crate::ident::generate_id;
use crate::link::{is_short_id, ShortenError};
use crate::validation::{is_valid_url, url_parses};
use vstd::prelude::*;

verus! {

/// What a shortening asks its driver to do next.
#[derive(Debug)]
pub enum ShortenStep {
    /// Look up the row whose url is the submitted URL.
    FindByUrl,
    /// Insert the row (id, submitted URL).
    Insert(String),
    /// Stop with this result.
    Finish(Result<String, ShortenError>),
}

/// First step once validity is known: an invalid URL ends the operation
/// without touching the store.
pub fn after_validation(valid: bool) -> (step: ShortenStep)
    ensures
        valid ==> step is FindByUrl,
        !valid ==> step == ShortenStep::Finish(Err(ShortenError::InvalidUrl)),
{
    if valid {
        ShortenStep::FindByUrl
    } else {
        ShortenStep::Finish(Err(ShortenError::InvalidUrl))
    }
}

/// First step of shortening `url`.
pub fn begin_shorten(url: &str) -> (step: ShortenStep)
    ensures
        url_parses(url@) ==> step is FindByUrl,
        !url_parses(url@) ==> step == ShortenStep::Finish(Err(ShortenError::InvalidUrl)),
{
    after_validation(is_valid_url(url))
}

/// Step after the lookup by url, with `fresh` the identifier to use if the
/// URL has none yet: a known URL keeps its id, an unknown one gets `fresh`,
/// a store failure ends the operation.
pub fn after_lookup_with(found: Result<Option<String>, String>, fresh: String) -> (step: ShortenStep)
    ensures
        step == (match found {
            Ok(Some(id)) => ShortenStep::Finish(Ok(id)),
            Ok(None) => ShortenStep::Insert(fresh),
            Err(m) => ShortenStep::Finish(Err(ShortenError::StoreError(m))),
        }),
{
    match found {
        Ok(Some(id)) => ShortenStep::Finish(Ok(id)),
        Ok(None) => ShortenStep::Insert(fresh),
        Err(m) => ShortenStep::Finish(Err(ShortenError::StoreError(m))),
    }
}

/// Step after the lookup by url; an unknown URL gets a freshly drawn id.
pub fn after_lookup(found: Result<Option<String>, String>) -> (step: ShortenStep)
    ensures
        match found {
            Ok(Some(id)) => step == ShortenStep::Finish(Ok(id)),
            Ok(None) => step matches ShortenStep::Insert(fresh) && is_short_id(fresh@),
            Err(m) => step == ShortenStep::Finish(Err(ShortenError::StoreError(m))),
        },
{
    match found {
        Ok(None) => after_lookup_with(found, generate_id()),
        _ => after_lookup_with(found, String::new()),
    }
}

/// Result once the insert of (`id`, url) has been answered: the new id, or
/// the store's failure, which is not retried.
pub fn after_insert(id: String, inserted: Result<(), String>) -> (r: Result<String, ShortenError>)
    ensures
        r == (match inserted {
            Ok(()) => Ok(id),
            Err(m) => Err(ShortenError::StoreError(m)),
        }),
{
    match inserted {
        Ok(()) => Ok(id),
        Err(m) => Err(ShortenError::StoreError(m)),
    }
}

/// Result of resolving an id from the store's answer: a missing row is a
/// plain `None`, distinct from a store failure.
pub fn resolve_outcome(found: Result<Option<String>, String>) -> (r: Result<Option<String>, ShortenError>)
    ensures
        r == (match found {
            Ok(u) => Ok(u),
            Err(m) => Err(ShortenError::StoreError(m)),
        }),
{
    match found {
        Ok(u) => Ok(u),
        Err(m) => Err(ShortenError::StoreError(m)),
    }
}

} // verus!
