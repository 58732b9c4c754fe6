//! Access tokens created on the console.
use vstd::prelude::*;

verus! {

/// An access token and the user it belongs to.
#[derive(Clone, Debug)]
pub struct AccessToken {
    pub username: String,
    pub token: String,
}

} // verus!
