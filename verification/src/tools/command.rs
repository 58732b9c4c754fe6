//! Sending a command to a device through the command endpoint.
use crate::init::info::Information;
use crate::init::url::{append_url_pair, set_url_path, url_with_pair, url_with_path};
use crate::text::{joined, opt_view};
use vstd::prelude::*;

verus! {

/// The path that a command for a device of an application goes to.
pub open spec fn command_path(app: Seq<char>, device: Seq<char>) -> Seq<char> {
    "/api/command/v1alpha1/apps/"@ + app + "/devices/"@ + device
}

/// The URL of a command: the command endpoint with the device's command path
/// and the query pair `command=<command>`.
pub open spec fn command_target(endpoint: Seq<char>, app: Seq<char>, device: Seq<char>, command: Seq<char>) -> Option<
    Seq<char>,
> {
    match url_with_path(endpoint, command_path(app, device)) {
        Some(u) => url_with_pair(u, "command"@, command),
        None => None,
    }
}

/// The URL that `send_http_command` posts a command to.
pub fn command_url(info: &Information, app: &str, device: &str, command: &str) -> (r: Option<String>)
    ensures
        opt_view(r) == command_target(info.command_url@, app@, device@, command@),
{
    let prefix = joined("/api/command/v1alpha1/apps/", app);
    let middle = joined(prefix.as_str(), "/devices/");
    let path = joined(middle.as_str(), device);
    assert(path@ == command_path(app@, device@));
    let with_path = match set_url_path(info.command_url.as_str(), path.as_str()) {
        Some(u) => u,
        None => {
            return None;
        },
    };
    append_url_pair(with_path.as_str(), "command", command)
}

} // verus!
