//! The web driver session: the browser's arguments and where screenshots go.
use crate::text::{joined, decimal, decimal_framed_injective, decimal_string, owned, str_equal};
use vstd::prelude::*;

verus! {

/// The arguments for Firefox: `-headless` when `HEADLESS` is `true`.
pub fn firefox_args(headless: Option<String>) -> (r: Vec<String>)
    ensures
        (headless matches Some(h) && h@ == "true"@) ==> r@.len() == 1 && r@[0]@ == "-headless"@,
        !(headless matches Some(h) && h@ == "true"@) ==> r@.len() == 0,
{
    let mut args: Vec<String> = Vec::new();
    let on = match &headless {
        Some(h) => str_equal(h.as_str(), "true"),
        None => false,
    };
    if on {
        args.push(owned("-headless"));
    }
    args
}

/// The file of a screenshot: `screenshots/<name>/<counter>.png`.
pub fn screenshot_path(name: &str, counter: u64) -> (r: String)
    ensures
        r@ == "screenshots/"@ + name@ + "/"@ + decimal(counter as nat) + ".png"@,
{
    let a = joined("screenshots/", name);
    let b = joined(a.as_str(), "/");
    let n = decimal_string(counter);
    let c = joined(b.as_str(), n.as_str());
    joined(c.as_str(), ".png")
}

/// Distinct counters give distinct screenshot paths.
pub proof fn screenshot_paths_distinct(name: Seq<char>, a: u64, b: u64)
    requires
        a != b,
    ensures
        "screenshots/"@ + name + "/"@ + decimal(a as nat) + ".png"@ != "screenshots/"@ + name
            + "/"@ + decimal(b as nat) + ".png"@,
{
    decimal_framed_injective("screenshots/"@ + name + "/"@, ".png"@, a as nat, b as nat);
}

/// The name of the screenshot taken when an operation fails: `<name>.png`.
pub fn failure_screenshot_name(name: &str) -> (r: String)
    ensures
        r@ == name@ + ".png"@,
{
    joined(name, ".png")
}

} // verus!
