//! API keys created on the console.
use vstd::prelude::*;

verus! {

/// An API key and the user it belongs to.
#[derive(Clone, Debug)]
pub struct ApiKey {
    pub username: String,
    pub key: String,
}

/// The name of the screenshot for the `counter`-th creation of an API key:
/// `create_api_key_web_<counter>`.
pub fn api_key_screenshot_name(counter: u64) -> (r: String)
    ensures
        r@ == "create_api_key_web_"@ + crate::text::decimal(counter as nat),
{
    let n = crate::text::decimal_string(counter);
    crate::text::joined("create_api_key_web_", n.as_str())
}

/// Distinct counters give distinct screenshot names.
pub proof fn api_key_screenshot_names_distinct(a: u64, b: u64)
    requires
        a != b,
    ensures
        "create_api_key_web_"@ + crate::text::decimal(a as nat) != "create_api_key_web_"@
            + crate::text::decimal(b as nat),
{
    let p = "create_api_key_web_"@;
    crate::text::decimal_framed_injective(p, Seq::empty(), a as nat, b as nat);
    assert(p + crate::text::decimal(a as nat) + Seq::<char>::empty() =~= p + crate::text::decimal(a as nat));
    assert(p + crate::text::decimal(b as nat) + Seq::<char>::empty() =~= p + crate::text::decimal(b as nat));
}

} // verus!
