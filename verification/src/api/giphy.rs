//! Pictures from Giphy.
use vstd::prelude::*;
use crate::api::error::{ApiError, ErrorKind, bad_request, internal};

verus! {

/// What to look for among the pictures.
#[derive(Debug)]
#[allow(missing_docs)]
pub struct SearchQuery {
    pub q: String,
    pub limit: u32,
    pub offset: u32,
}

/// Which of the pictures that are in vogue.
#[derive(Debug)]
#[allow(missing_docs)]
pub struct TrendingQuery {
    pub limit: u32,
    pub offset: u32,
}

/// How many pictures are asked for where a request does not say.
pub fn default_limit() -> (r: u32)
    ensures
        r == 25,
{
    25
}

/// What a request for pictures asks where it does not say: a limit of its own,
/// and to begin at the first.
pub open spec fn asked_for(limit: Option<u32>, offset: Option<u32>) -> (u32, u32) {
    (
        match limit {
            Some(n) => n,
            None => 25,
        },
        match offset {
            Some(n) => n,
            None => 0,
        },
    )
}

/// What to look for.
pub fn search(q: String, limit: Option<u32>, offset: Option<u32>) -> (r: SearchQuery)
    ensures
        r.q == q,
        (r.limit, r.offset) == asked_for(limit, offset),
{
    let t: TrendingQuery = trending(limit, offset);
    SearchQuery { q, limit: t.limit, offset: t.offset }
}

/// Which pictures to show.
pub fn trending(limit: Option<u32>, offset: Option<u32>) -> (r: TrendingQuery)
    ensures
        (r.limit, r.offset) == asked_for(limit, offset),
{
    TrendingQuery {
        limit: match limit {
            Some(n) => n,
            None => default_limit(),
        },
        offset: match offset {
            Some(n) => n,
            None => 0,
        },
    }
}

/// Whether pictures can be asked for: only where a key is configured.
pub fn configured(key: &str) -> (r: Result<(), ApiError>)
    ensures
        r is Ok <==> key@.len() > 0,
        r matches Err(e) ==> e@ == (ErrorKind::BadRequest, "Giphy not configured"@),
{
    if key.is_empty() {
        Err(bad_request("Giphy not configured"))
    } else {
        Ok(())
    }
}

/// What came back, or the answer to the service's error.
pub fn answered(result: Result<String, String>) -> (r: Result<String, ApiError>)
    ensures
        match result {
            Ok(s) => r == Ok::<String, ApiError>(s),
            Err(e) => r matches Err(a) && a@ == (ErrorKind::Internal, "Giphy API error: "@ + e@),
        },
{
    match result {
        Ok(s) => Ok(s),
        Err(e) => Err(internal("Giphy API error: ", e.as_str())),
    }
}

} // verus!
