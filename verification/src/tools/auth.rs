//! How a device authenticates, and as whom it sends.
use vstd::prelude::*;

verus! {

/// The credentials a device presents.
#[derive(Clone, Debug)]
pub enum Auth {
    NoCredentials,
    UsernamePassword(String, String),
    X509Certificate(Vec<u8>),
}

impl Default for Auth {
    fn default() -> (r: Self)
        ensures
            r is NoCredentials,
    {
        Auth::NoCredentials
    }
}

/// Whether a device sends for itself or, as a gateway, for another device.
#[derive(Clone, Debug)]
pub enum SendAs {
    Device,
    Gateway { device: String },
}

impl Default for SendAs {
    fn default() -> (r: Self)
        ensures
            r is Device,
    {
        SendAs::Device
    }
}

} // verus!
