//! The endpoints of a Drogue Cloud installation, as its console API reports them.
use crate::init::config::Config;
use crate::init::url::{join_url, url_joined};
use crate::text::opt_view;
use vstd::prelude::*;

verus! {

/// A URL endpoint (held as the URL's serialization).
#[derive(Clone, Debug)]
pub struct UrlInformation {
    pub url: String,
}

/// A host and port endpoint.
#[derive(Clone, Debug)]
pub struct HostPortInformation {
    pub host: String,
    pub port: u16,
}

/// The endpoints of an installation (URLs held as their serialization).
#[derive(Clone, Debug)]
pub struct Information {
    pub api: String,
    pub http: UrlInformation,
    pub coap: UrlInformation,
    pub mqtt: HostPortInformation,
    pub mqtt_integration: HostPortInformation,
    /// The MQTT endpoint over WebSocket.
    pub mqtt_ws: UrlInformation,
    /// The MQTT integration over WebSocket.
    pub mqtt_integration_ws: UrlInformation,
    /// The WebSocket integration.
    pub websocket_integration: UrlInformation,
    pub command_url: String,
}

impl Information {
    /// Where the console API serves the information: the API URL joined
    /// with `/api/console/v1alpha1/info`.
    pub fn endpoint(config: &Config) -> (r: Option<String>)
        ensures
            opt_view(r) == url_joined(config.api@, "/api/console/v1alpha1/info"@),
    {
        join_url(config.api.as_str(), "/api/console/v1alpha1/info")
    }
}

} // verus!
