//! Who may use the API: the holder of the gateway token.
use vstd::prelude::*;
use crate::text::string_of;

verus! {

/// The request header that carries the gateway token.
pub fn token_header() -> (res: String)
    ensures
        res@ == "x-telemesh-token"@,
{
    string_of("x-telemesh-token")
}

/// Whether a request that presented `presented` (the token header, when it is readable
/// text) may use the API guarded by `token`.
pub fn is_authorized(presented: Option<&str>, token: &str) -> (res: bool)
    ensures
        res == (presented matches Some(p) && p@ == token@),
{
    match presented {
        None => false,
        Some(p) => string_of(p) == string_of(token),
    }
}

} // verus!
