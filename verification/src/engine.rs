//! Decisions of the fingerprint and retrieval services: resolving a
//! collection reference to exactly one collection, deriving a fingerprint
//! from collection metadata, and the optimistic-concurrency guard.

use vstd::prelude::*;
use crate::data::RecError;
use crate::data::Version;

verus! {

/// Derives the fingerprint from a collection's metadata, as the store
/// reports it: the collection identifier and its last-modification
/// timestamp in milliseconds.
pub fn db_version(id: String, last_edited_time: i64) -> (r: Version)
    ensures
        r@ == (id@, last_edited_time as int),
{
    Version { id, last_edited_time }
}

/// Resolves a collection reference to exactly one collection identifier.
/// An identifier parsed directly from the reference wins; otherwise a name
/// search must have yielded exactly one match. `parsed_id` is the result of
/// the driver's identifier parse, `search_matches` the identifiers a name
/// search returned (`None` when no search is possible).
pub fn resolve_reference(parsed_id: Option<String>, search_matches: Option<Vec<String>>) -> (r:
    Result<String, RecError>)
    ensures
        match r {
            Ok(id) => {
                ||| parsed_id matches Some(p) && id == p
                ||| (parsed_id is None && (search_matches matches Some(m) && m@.len() == 1 && id
                    == m@[0]))
            },
            Err(e) => parsed_id is None && match e {
                RecError::Resolution => search_matches is None,
                RecError::NotFound => search_matches matches Some(m) && m@.len() == 0,
                RecError::Ambiguous => search_matches matches Some(m) && m@.len() > 1,
                _ => false,
            },
        },
{
    match parsed_id {
        Some(p) => Ok(p),
        None => match search_matches {
            None => Err(RecError::Resolution),
            Some(mut m) => {
                if m.len() == 0 {
                    Err(RecError::NotFound)
                } else if m.len() > 1 {
                    Err(RecError::Ambiguous)
                } else {
                    match m.pop() {
                        Some(id) => Ok(id),
                        None => Err(RecError::NotFound),
                    }
                }
            },
        },
    }
}

/// The optimistic-concurrency guard: retrieval may proceed only when the
/// collection's current fingerprint equals the one captured at CHECK time.
pub fn retrieve_decide(expected: &Version, current: &Version) -> (r: Result<(), RecError>)
    ensures
        r is Ok <==> expected@ == current@,
        r matches Err(e) ==> e matches RecError::ConcurrentModification,
{
    if expected == current {
        Ok(())
    } else {
        Err(RecError::ConcurrentModification)
    }
}

} // verus!
