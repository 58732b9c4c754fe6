//! Sending to the HTTP endpoint: the options of a request, their query
//! parameters, and the request that a send makes.
use crate::init::info::Information;
use crate::init::url::{
    append_url_pair, clear_url_query, pairs_view, set_url_path, url_with_cleared_query,
    url_with_pair, url_with_path,
};
use crate::text::{joined, decimal, decimal_string, opt_view, owned};
use crate::tools::auth::{Auth, SendAs};
use vstd::prelude::*;
use vstd::std_specs::convert::FromSpecImpl;

verus! {

/// Options of a message sent through an endpoint.
#[derive(Clone, Debug)]
pub struct HttpSenderOptions {
    pub application: Option<String>,
    pub device: Option<String>,
    /// The device to send as (a device behind a gateway).
    pub send_as: Option<String>,
    pub command_timeout: Option<u32>,
}

impl Default for HttpSenderOptions {
    fn default() -> (r: Self)
        ensures
            r.application is None,
            r.device is None,
            r.send_as is None,
            r.command_timeout is None,
    {
        HttpSenderOptions { application: None, device: None, send_as: None, command_timeout: None }
    }
}

/// The options that sending as `send_as` needs: none for a device, the
/// device's name as `as` for a gateway.
pub open spec fn options_for(send_as: SendAs) -> HttpSenderOptions {
    HttpSenderOptions {
        application: None,
        device: None,
        send_as: match send_as {
            SendAs::Device => None,
            SendAs::Gateway { device } => Some(device),
        },
        command_timeout: None,
    }
}

impl From<SendAs> for HttpSenderOptions {
    fn from(send_as: SendAs) -> (r: Self)
        ensures
            r == options_for(send_as),
    {
        match send_as {
            SendAs::Device => HttpSenderOptions::default(),
            SendAs::Gateway { device } => HttpSenderOptions {
                application: None,
                device: None,
                send_as: Some(device),
                command_timeout: None,
            },
        }
    }
}

impl FromSpecImpl<SendAs> for HttpSenderOptions {
    open spec fn obeys_from_spec() -> bool {
        true
    }

    open spec fn from_spec(v: SendAs) -> HttpSenderOptions {
        options_for(v)
    }
}

impl<'a> From<&'a SendAs> for HttpSenderOptions {
    fn from(send_as: &'a SendAs) -> (r: Self)
        ensures
            r == options_for(*send_as),
    {
        match send_as {
            SendAs::Device => HttpSenderOptions::default(),
            SendAs::Gateway { device } => HttpSenderOptions {
                application: None,
                device: None,
                send_as: Some(device.clone()),
                command_timeout: None,
            },
        }
    }
}

impl<'a> FromSpecImpl<&'a SendAs> for HttpSenderOptions {
    open spec fn obeys_from_spec() -> bool {
        true
    }

    open spec fn from_spec(v: &'a SendAs) -> HttpSenderOptions {
        options_for(*v)
    }
}

/// Sending as the device itself adds no query parameter; sending as a
/// gateway for a device adds exactly `as=<device>`.
pub proof fn send_as_query(send_as: SendAs)
    ensures
        query_pairs(options_for(send_as)) == match send_as {
            SendAs::Device => Seq::<(Seq<char>, Seq<char>)>::empty(),
            SendAs::Gateway { device } => seq![("as"@, device@)],
        },
{
    let pairs = query_pairs(options_for(send_as));
    match send_as {
        SendAs::Device => assert(pairs =~= Seq::<(Seq<char>, Seq<char>)>::empty()),
        SendAs::Gateway { device } => assert(pairs =~= seq![("as"@, device@)]),
    }
}

/// A single pair, or none.
pub open spec fn pair_if(key: Seq<char>, value: Option<Seq<char>>) -> Seq<(Seq<char>, Seq<char>)> {
    match value {
        Some(v) => seq![(key, v)],
        None => Seq::empty(),
    }
}

/// The query parameters of the options, in order: `ct` (the command
/// timeout, in decimal), `application`, `device`, `as`; each only when set.
pub open spec fn query_pairs(o: HttpSenderOptions) -> Seq<(Seq<char>, Seq<char>)> {
    pair_if(
        "ct"@,
        match o.command_timeout {
            Some(ct) => Some(decimal(ct as nat)),
            None => None,
        },
    ) + pair_if("application"@, opt_view(o.application)) + pair_if("device"@, opt_view(o.device))
        + pair_if("as"@, opt_view(o.send_as))
}

fn push_pair(params: &mut Vec<(String, String)>, key: &str, value: String)
    ensures
        pairs_view(final(params)@) == pairs_view(old(params)@).push((key@, value@)),
{
    let ghost before = params@;
    params.push((owned(key), value));
    assert(pairs_view(params@) =~= pairs_view(before).push((key@, value@)));
}

impl HttpSenderOptions {
    /// Appends the query parameters of the options to `params`.
    pub fn append_query(&self, params: &mut Vec<(String, String)>)
        ensures
            pairs_view(final(params)@) == pairs_view(old(params)@) + query_pairs(*self),
    {
        let ghost start = pairs_view(params@);
        if let Some(ct) = self.command_timeout {
            push_pair(params, "ct", decimal_string(ct as u64));
        }
        let ghost after_ct = pairs_view(params@);
        if let Some(application) = &self.application {
            push_pair(params, "application", application.clone());
        }
        let ghost after_app = pairs_view(params@);
        if let Some(device) = &self.device {
            push_pair(params, "device", device.clone());
        }
        let ghost after_device = pairs_view(params@);
        if let Some(send_as) = &self.send_as {
            push_pair(params, "as", send_as.clone());
        }
        proof {
            let ct_pairs = pair_if(
                "ct"@,
                match self.command_timeout {
                    Some(ct) => Some(decimal(ct as nat)),
                    None => None,
                },
            );
            assert(after_ct =~= start + ct_pairs);
            assert(after_app =~= start + ct_pairs + pair_if(
                "application"@,
                opt_view(self.application),
            ));
            assert(after_device =~= start + ct_pairs + pair_if(
                "application"@,
                opt_view(self.application),
            ) + pair_if("device"@, opt_view(self.device)));
            assert(pairs_view(params@) =~= start + query_pairs(*self));
        }
    }
}

/// A URL with the pairs appended to its query one after the other
/// (`None` as soon as an append fails).
pub open spec fn with_pairs(url: Seq<char>, pairs: Seq<(Seq<char>, Seq<char>)>) -> Option<
    Seq<char>,
>
    decreases pairs.len(),
{
    if pairs.len() == 0 {
        Some(url)
    } else {
        match with_pairs(url, pairs.drop_last()) {
            Some(u) => url_with_pair(u, pairs.last().0, pairs.last().1),
            None => None,
        }
    }
}

/// The URL that a message on `channel` goes to: the endpoint with the path
/// `/v1/<channel>` and, in place of any query, the options' parameters.
pub open spec fn channel_url(endpoint: Seq<char>, channel: Seq<char>, options: HttpSenderOptions) -> Option<
    Seq<char>,
> {
    match url_with_path(endpoint, "/v1/"@ + channel) {
        Some(u) => match url_with_cleared_query(u) {
            Some(c) => with_pairs(c, query_pairs(options)),
            None => None,
        },
        None => None,
    }
}

/// Appends the pairs to the query of a URL, one after the other.
pub fn append_pairs(url: String, pairs: &Vec<(String, String)>) -> (r: Option<String>)
    ensures
        opt_view(r) == with_pairs(url@, pairs_view(pairs@)),
{
    let mut current = url;
    let mut i: usize = 0;
    while i < pairs.len()
        invariant
            i <= pairs@.len(),
            with_pairs(url@, pairs_view(pairs@).take(i as int)) == Some(current@),
        decreases pairs@.len() - i,
    {
        proof {
            assert(pairs_view(pairs@).take(i + 1).drop_last() =~= pairs_view(pairs@).take(
                i as int,
            ));
        }
        let (k, v) = &pairs[i];
        match append_url_pair(current.as_str(), k.as_str(), v.as_str()) {
            Some(u) => {
                current = u;
            },
            None => {
                proof {
                    lemma_with_pairs_none(url@, pairs_view(pairs@), i as int + 1);
                    assert(pairs_view(pairs@).take(pairs@.len() as int) =~= pairs_view(pairs@));
                }
                return None;
            },
        }
        i = i + 1;
    }
    proof {
        assert(pairs_view(pairs@).take(pairs@.len() as int) =~= pairs_view(pairs@));
    }
    Some(current)
}

proof fn lemma_with_pairs_none(url: Seq<char>, pairs: Seq<(Seq<char>, Seq<char>)>, k: int)
    requires
        0 <= k <= pairs.len(),
        with_pairs(url, pairs.take(k)) is None,
    ensures
        with_pairs(url, pairs) is None,
    decreases pairs.len() - k,
{
    if k < pairs.len() {
        assert(pairs.take(k + 1).drop_last() =~= pairs.take(k));
        lemma_with_pairs_none(url, pairs, k + 1);
    } else {
        assert(pairs.take(k) =~= pairs);
    }
}

/// What a send to the HTTP endpoint requests: where, with which
/// credentials, and what.
#[derive(Clone, Debug)]
pub struct HttpRequestPlan {
    pub url: String,
    /// User name and password for basic authentication.
    pub basic_auth: Option<(String, String)>,
    /// A client certificate (PEM) to present.
    pub identity_pem: Option<Vec<u8>>,
    pub content_type: Option<String>,
    pub body: Option<Vec<u8>>,
}

/// The sender of messages to the HTTP endpoint of an installation.
#[derive(Clone, Debug)]
pub struct HttpSender {
    pub http_url: String,
}

impl HttpSender {
    pub fn new(info: &Information) -> (r: Self)
        ensures
            r.http_url@ == info.http.url@,
    {
        HttpSender { http_url: info.http.url.clone() }
    }

    /// The request that sends `payload` on `channel`: a POST to the
    /// channel's URL, authenticated as `auth` says; `None` where the
    /// endpoint's URL does not take the path or query.
    pub fn send(
        &self,
        channel: &str,
        auth: &Auth,
        content_type: Option<String>,
        options: &HttpSenderOptions,
        payload: Option<Vec<u8>>,
    ) -> (r: Option<HttpRequestPlan>)
        ensures
            channel_url(self.http_url@, channel@, *options) is None <==> r is None,
            r matches Some(p) ==> {
                &&& channel_url(self.http_url@, channel@, *options) == Some(p.url@)
                &&& match auth {
                    Auth::UsernamePassword(u, pw) => p.basic_auth matches Some(b) && b.0@ == u@
                        && b.1@ == pw@,
                    _ => p.basic_auth is None,
                }
                &&& match auth {
                    Auth::X509Certificate(c) => p.identity_pem matches Some(i) && i@ == c@,
                    _ => p.identity_pem is None,
                }
                &&& p.content_type == content_type
                &&& p.body == payload
            },
    {
        let path = joined("/v1/", channel);
        let with_path = match set_url_path(self.http_url.as_str(), path.as_str()) {
            Some(u) => u,
            None => {
                return None;
            },
        };
        let cleared = match clear_url_query(with_path.as_str()) {
            Some(u) => u,
            None => {
                return None;
            },
        };
        let mut params: Vec<(String, String)> = Vec::new();
        options.append_query(&mut params);
        proof {
            assert(pairs_view(params@) =~= query_pairs(*options));
        }
        let url = match append_pairs(cleared, &params) {
            Some(u) => u,
            None => {
                return None;
            },
        };
        let basic_auth = match auth {
            Auth::UsernamePassword(u, pw) => Some((u.clone(), pw.clone())),
            _ => None,
        };
        let identity_pem = match auth {
            Auth::X509Certificate(c) => Some(c.clone()),
            _ => None,
        };
        Some(HttpRequestPlan { url, basic_auth, identity_pem, content_type, body: payload })
    }
}

} // verus!
