use crate::error::{Error, ErrorKind};
use vstd::prelude::*;

verus! {

/// Number of results returned when a request names no limit.
pub const DEFAULT_LIMIT: u32 = 10;

/// Largest number of results that one request may ask for.
pub const MAX_LIMIT: u32 = 100;

/// The limit that a request asks for: its own, or the default.
pub open spec fn requested_limit(limit: Option<u32>) -> u32 {
    match limit {
        Some(l) => l,
        None => DEFAULT_LIMIT,
    }
}

/// Whether a search may be run with this limit.
pub open spec fn limit_allowed(l: u32) -> bool {
    1 <= l <= MAX_LIMIT
}

/// The limit that a request is served with: its own, or the default when it
/// names none; a limit outside `[1, MAX_LIMIT]` is rejected as an invalid
/// argument before any index is consulted.
pub fn resolve_limit(limit: Option<u32>) -> (r: Result<u32, Error>)
    ensures
        r is Ok <==> limit_allowed(requested_limit(limit)),
        r matches Ok(l) ==> l == requested_limit(limit),
        r matches Err(e) ==> e.kind == ErrorKind::InvalidArgument,
{
    let l = match limit {
        Some(l) => l,
        None => DEFAULT_LIMIT,
    };
    if l < 1 || l > MAX_LIMIT {
        return Err(Error::new(ErrorKind::InvalidArgument, "Limit should be between 1 and 100"));
    }
    Ok(l)
}

} // verus!
