//! Access tokens in requests.
use crate::text::joined;
use vstd::prelude::*;

verus! {

/// The value of the `Authorization` header for a token: `Bearer <token>`.
pub fn bearer(token: &str) -> (r: String)
    ensures
        r@ == "Bearer "@ + token@,
{
    joined("Bearer ", token)
}

} // verus!
