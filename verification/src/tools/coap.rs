//! Sending to the CoAP endpoint: where a message goes and the CoAP request
//! that carries it.
use crate::codec::{base64_encode_unpadded, base64_unpadded};
use crate::init::info::Information;
use crate::init::url::{encode_form, form_encoded, pairs_view, url_components, url_parts};
use crate::text::{joined, opt_view};
use crate::tools::auth::Auth;
use crate::tools::http::{query_pairs, HttpSenderOptions};
use vstd::prelude::*;
use vstd::slice::slice_to_vec;
use vstd::string::*;

verus! {

/// What `Regex::new(pattern)` followed by `replace(text, replacement)`
/// gives; `None` where the pattern does not compile.
pub uninterp spec fn regex_replaced(pattern: Seq<char>, text: Seq<char>, replacement: Seq<char>) -> Option<
    Seq<char>,
>;

/// The encoding (`Packet::to_bytes`) of the confirmable CoAP request
/// (`CoapRequest::new`) whose header code is `code` (`MessageClass::from`),
/// with the path set by `set_path`, the options added in order
/// (`add_option` with `CoapOption::from(number)`), and the payload; `None`
/// where encoding fails.
pub uninterp spec fn coap_request_encoded(
    code: u8,
    path: Seq<char>,
    options: Seq<(u16, Seq<u8>)>,
    payload: Seq<u8>,
) -> Option<Seq<u8>>;

/// Replaces the first match of a regular expression (`regex::Regex::new`,
/// `Regex::replace`).
#[verifier::external_body]
fn regex_replace(pattern: &str, text: &str, replacement: &str) -> (r: Option<String>)
    ensures
        opt_view(r) == regex_replaced(pattern@, text@, replacement@),
{
    let re = regex::Regex::new(pattern).ok()?;
    Some(re.replace(text, replacement).to_string())
}

/// Encodes a CoAP request (`coap_lite::CoapRequest`, `Packet::to_bytes`).
#[verifier::external_body]
fn encode_request(parts: &CoapRequestParts) -> (r: Option<Vec<u8>>)
    ensures
        match r {
            Some(b) => coap_request_encoded(parts.code, parts.path@, options_view(parts.options@), parts.payload@)
                == Some(b@),
            None => coap_request_encoded(parts.code, parts.path@, options_view(parts.options@), parts.payload@) is None,
        },
{
    let mut request: coap_lite::CoapRequest<()> = coap_lite::CoapRequest::new();
    request.set_path(&parts.path);
    for (number, value) in parts.options.iter() {
        request.message.add_option(coap_lite::CoapOption::from(*number), value.clone());
    }
    request.message.header.code = coap_lite::MessageClass::from(parts.code);
    request.message.payload = parts.payload.clone();
    request.message.to_bytes().ok()
}

/// A CoAP request as this crate describes it: the header code (a method
/// code of class 0), the path, the other options in order (number and
/// value), and the payload.
#[derive(Clone, Debug)]
pub struct CoapRequestParts {
    pub code: u8,
    pub path: String,
    pub options: Vec<(u16, Vec<u8>)>,
    pub payload: Vec<u8>,
}

/// The view of a list of options.
pub open spec fn options_view(options: Seq<(u16, Vec<u8>)>) -> Seq<(u16, Seq<u8>)> {
    options.map_values(|o: (u16, Vec<u8>)| (o.0, o.1@))
}

/// The code of the POST method (0.02). A send publishes a message on a
/// channel, which the endpoint takes as a POST to `/v1/<channel>`, as it
/// does over HTTP; a GET would deliver nothing to the application.
pub open spec fn post_code() -> u8 {
    2
}

/// Every request that a send encodes is a POST: its header code is 0.02,
/// the code byte 2 (class 0, detail 2).
pub proof fn sends_are_posts()
    ensures
        post_code() == 2,
        post_code() / 32 == 0 && post_code() % 32 == 2,
{
}

/// The number of the `Uri-Query` option.
pub open spec fn uri_query_option() -> u16 {
    15
}

/// The options of a send: the `Authorization` option, then the query.
pub open spec fn send_options(authorization: Seq<char>, query: Seq<char>) -> Seq<(u16, Seq<u8>)> {
    seq![
        (authorization_option(), vstd::utf8::encode_utf8(authorization)),
        (uri_query_option(), vstd::utf8::encode_utf8(query)),
    ]
}

/// Why a CoAP URL is refused.
#[derive(Clone, Copy, Debug, PartialEq, Eq, Structural)]
pub enum CoapUrlError {
    /// The text is not a URL.
    InvalidUrl,
    /// The URL has no host, or an empty one.
    InvalidHost,
}

/// The pattern that strips the brackets from an IPv6 host.
pub open spec fn bracket_pattern() -> Seq<char> {
    "^\\[(.*?)]$"@
}

/// The host as the CoAP client uses it: with the brackets of an IPv6 host
/// removed.
pub open spec fn unbracketed(host: Seq<char>) -> Seq<char> {
    match regex_replaced(bracket_pattern(), host, "$1"@) {
        Some(h) => h,
        None => host,
    }
}

/// The host, port (5683 where the URL has none) and path of a CoAP URL.
pub open spec fn coap_endpoint(url: Seq<char>) -> Result<(Seq<char>, u16, Seq<char>), CoapUrlError> {
    match url_components(url) {
        None => Err(CoapUrlError::InvalidUrl),
        Some((host, port, path)) => match host {
            None => Err(CoapUrlError::InvalidHost),
            Some(h) => if h.len() == 0 {
                Err(CoapUrlError::InvalidHost)
            } else {
                Ok(
                    (
                        unbracketed(h),
                        match port {
                            Some(p) => p,
                            None => 5683u16,
                        },
                        path,
                    ),
                )
            },
        },
    }
}

/// Splits a CoAP URL into host, port and path.
pub fn parse_coap_url(url: &str) -> (r: Result<(String, u16, String), CoapUrlError>)
    ensures
        match r {
            Ok((h, p, path)) => coap_endpoint(url@) == Ok::<
                (Seq<char>, u16, Seq<char>),
                CoapUrlError,
            >((h@, p, path@)),
            Err(e) => coap_endpoint(url@) == Err::<(Seq<char>, u16, Seq<char>), CoapUrlError>(e),
        },
{
    let (host, port, path) = match url_parts(url) {
        Some(parts) => parts,
        None => {
            return Err(CoapUrlError::InvalidUrl);
        },
    };
    let host = match host {
        Some(h) => h,
        None => {
            return Err(CoapUrlError::InvalidHost);
        },
    };
    if host.as_str().unicode_len() == 0 {
        return Err(CoapUrlError::InvalidHost);
    }
    let host = match regex_replace("^\\[(.*?)]$", host.as_str(), "$1") {
        Some(h) => h,
        None => host,
    };
    let port = match port {
        Some(p) => p,
        None => 5683,
    };
    Ok((host, port, path))
}

/// Why a CoAP request could not be made.
#[derive(Clone, Copy, Debug, PartialEq, Eq, Structural)]
pub enum CoapError {
    Url(CoapUrlError),
    /// The request could not be encoded.
    Encoding,
}

/// The option number that carries the `Authorization` header.
pub open spec fn authorization_option() -> u16 {
    4209
}

/// The credentials part of the `Authorization` value: the unpadded Base64
/// of `<user>:<password>` for user name and password, else nothing.
pub open spec fn basic_credentials(auth: Auth) -> Seq<char> {
    match auth {
        Auth::UsernamePassword(u, p) => base64_unpadded(
            vstd::utf8::encode_utf8(u@ + ":"@ + p@),
        ),
        _ => Seq::empty(),
    }
}

/// The value of the `Authorization` option: `Basic <credentials>`.
pub open spec fn authorization_value(auth: Auth) -> Seq<char> {
    "Basic "@ + basic_credentials(auth)
}

/// What a send over CoAP does: the datagram for the host and port.
#[derive(Clone, Debug)]
pub struct CoapRequestPlan {
    pub host: String,
    pub port: u16,
    pub path: String,
    pub authorization: String,
    pub query: String,
    /// The encoded request.
    pub message: Vec<u8>,
}

/// The sender of messages to the CoAP endpoint of an installation.
#[derive(Clone, Debug)]
pub struct CoapSender {
    /// The serialization of the endpoint's URL.
    pub coap_url: String,
}

impl CoapSender {
    pub fn new(info: &Information) -> (r: Self)
        ensures
            r.coap_url@ == info.coap.url@,
    {
        CoapSender { coap_url: info.coap.url.clone() }
    }

    /// The request that posts `payload` on `channel`: to the endpoint of
    /// `<url>/v1/<channel>`, with the `Authorization` option, the options'
    /// query and the payload.
    pub fn send(
        &self,
        channel: &str,
        auth: &Auth,
        options: &HttpSenderOptions,
        payload: Option<Vec<u8>>,
    ) -> (r: Result<CoapRequestPlan, CoapError>)
        ensures
            ({
                let target = self.coap_url@ + "/v1/"@ + channel@;
                let body = match payload {
                    Some(p) => p@,
                    None => Seq::empty(),
                };
                match coap_endpoint(target) {
                    Err(e) => r == Err::<CoapRequestPlan, CoapError>(CoapError::Url(e)),
                    Ok((host, port, path)) => {
                        let query = form_encoded(query_pairs(*options));
                        let encoded = coap_request_encoded(
                            post_code(),
                            path,
                            send_options(authorization_value(*auth), query),
                            body,
                        );
                        match encoded {
                            None => r == Err::<CoapRequestPlan, CoapError>(CoapError::Encoding),
                            Some(m) => r matches Ok(p) && p.host@ == host && p.port == port
                                && p.path@ == path && p.authorization@ == authorization_value(
                                *auth,
                            ) && p.query@ == query && p.message@ == m,
                        }
                    },
                }
            }),
    {
        let with_version = joined(self.coap_url.as_str(), "/v1/");
        let target = joined(with_version.as_str(), channel);
        proof {
            assert(target@ == self.coap_url@ + "/v1/"@ + channel@);
        }
        let (host, port, path) = match parse_coap_url(target.as_str()) {
            Ok(parts) => parts,
            Err(e) => {
                return Err(CoapError::Url(e));
            },
        };
        let credentials = match auth {
            Auth::UsernamePassword(u, p) => {
                let with_colon = joined(u.as_str(), ":");
                let pair = joined(with_colon.as_str(), p.as_str());
                proof {
                    assert(pair@ == u@ + ":"@ + p@);
                }
                base64_encode_unpadded(pair.as_str().as_bytes())
            },
            _ => String::new(),
        };
        let authorization = joined("Basic ", credentials.as_str());
        let mut params: Vec<(String, String)> = Vec::new();
        options.append_query(&mut params);
        proof {
            assert(pairs_view(params@) =~= query_pairs(*options));
        }
        let query = encode_form(&params);
        let body = match payload {
            Some(p) => p,
            None => Vec::new(),
        };
        let mut request_options: Vec<(u16, Vec<u8>)> = Vec::new();
        request_options.push((4209, slice_to_vec(authorization.as_str().as_bytes())));
        request_options.push((15, slice_to_vec(query.as_str().as_bytes())));
        let parts = CoapRequestParts { code: 2, path: path.clone(), options: request_options, payload: body };
        proof {
            assert(options_view(parts.options@) =~= send_options(authorization@, query@));
        }
        let message = match encode_request(&parts) {
            Some(m) => m,
            None => {
                return Err(CoapError::Encoding);
            },
        };
        Ok(CoapRequestPlan { host, port, path, authorization, query, message })
    }
}

} // verus!
