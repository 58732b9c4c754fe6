//! The WebSocket integration: where a receiver connects.
use crate::init::url::{join_url, set_url_query, url_joined, url_with_query};
use crate::json::{json_accepts, json_parses};
use crate::text::{joined, opt_view};
use crate::tools::assertion::{cloud_event, data_base64_decodes, CloudMessage};
use vstd::prelude::*;
use vstd::string::*;

verus! {

/// The address of an application's stream: the endpoint joined with the
/// application's name, with the query `token=<token>`.
pub open spec fn stream_address(endpoint: Seq<char>, token: Seq<char>, app: Seq<char>) -> Option<
    Seq<char>,
> {
    match url_joined(endpoint, app) {
        Some(u) => url_with_query(u, "token="@ + token),
        None => None,
    }
}

/// The address that a WebSocket receiver for `app` connects to.
pub fn websocket_address(endpoint: &str, token: &str, app: &str) -> (r: Option<String>)
    ensures
        opt_view(r) == stream_address(endpoint@, token@, app@),
{
    let resolved = match join_url(endpoint, app) {
        Some(u) => u,
        None => {
            return None;
        },
    };
    let query = joined("token=", token);
    set_url_query(resolved.as_str(), query.as_str())
}

/// The cloud message in a text frame of the stream: the frame is a
/// CloudEvents JSON document. `None` where the text is not JSON or carries a
/// `data_base64` string that is not Base64.
pub fn text_message(text: &str) -> (r: Option<CloudMessage>)
    ensures
        r is Some <==> (json_accepts(text.spec_bytes()) && data_base64_decodes(text.spec_bytes())),
        r matches Some(m) ==> m@ == cloud_event(text.spec_bytes()),
{
    let bytes = text.as_bytes();
    if !json_parses(bytes) {
        return None;
    }
    CloudMessage::try_from_json(bytes)
}

} // verus!
