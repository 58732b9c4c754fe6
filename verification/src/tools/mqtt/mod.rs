//! MQTT protocol versions, connection variants and quality of service.
use crate::text::{joined, strip_end, trim_end_char};
use vstd::prelude::*;
use vstd::std_specs::convert::FromSpecImpl;

pub mod device;
pub mod receiver;

verus! {

/// An MQTT protocol version; for version 5, whether messages use the binary
/// content mode.
#[derive(Clone, Copy, Debug, PartialEq, Eq, Structural)]
pub enum MqttVersion {
    V3_1_1,
    V5(bool),
}

/// How a client reaches the broker: a plain connection or a WebSocket.
#[derive(Clone, Copy, Debug, PartialEq, Eq, Structural)]
pub enum MqttVariant {
    Plain(MqttVersion),
    WebSocket(MqttVersion),
}

/// The variant for a version, over a WebSocket or not.
pub open spec fn variant_of(version: MqttVersion, websocket: bool) -> MqttVariant {
    if websocket {
        MqttVariant::WebSocket(version)
    } else {
        MqttVariant::Plain(version)
    }
}

/// The protocol version of a variant.
pub open spec fn variant_version(variant: MqttVariant) -> MqttVersion {
    match variant {
        MqttVariant::Plain(v) => v,
        MqttVariant::WebSocket(v) => v,
    }
}

impl From<(MqttVersion, bool)> for MqttVariant {
    fn from(value: (MqttVersion, bool)) -> (r: Self)
        ensures
            r == variant_of(value.0, value.1),
    {
        if value.1 {
            MqttVariant::WebSocket(value.0)
        } else {
            MqttVariant::Plain(value.0)
        }
    }
}

impl FromSpecImpl<(MqttVersion, bool)> for MqttVariant {
    open spec fn obeys_from_spec() -> bool {
        true
    }

    open spec fn from_spec(v: (MqttVersion, bool)) -> MqttVariant {
        variant_of(v.0, v.1)
    }
}

impl MqttVariant {
    pub fn version(&self) -> (r: MqttVersion)
        ensures
            r == variant_version(*self),
    {
        match self {
            MqttVariant::Plain(version) => *version,
            MqttVariant::WebSocket(version) => *version,
        }
    }
}

/// A variant made from a version reports that version.
pub proof fn variant_keeps_version(version: MqttVersion, websocket: bool)
    ensures
        variant_version(variant_of(version, websocket)) == version,
        (variant_of(version, websocket) is WebSocket) == websocket,
{
}

/// How a connection starts its session.
#[derive(Clone, Copy, Debug, PartialEq, Eq, Structural)]
pub enum SessionStart {
    /// MQTT 3.1.1 `clean session`.
    CleanSession,
    /// MQTT 5 `clean start`.
    CleanStart,
}

/// The protocol level and session start of a connection.
#[derive(Clone, Copy, Debug, PartialEq, Eq, Structural)]
pub struct MqttSession {
    /// The protocol level (`paho_mqtt::MQTT_VERSION_3_1_1` or `MQTT_VERSION_5`).
    pub protocol: u32,
    pub start: SessionStart,
}

impl MqttVersion {
    /// Whether messages arrive in the binary content mode: only for MQTT 5
    /// with binary mode.
    pub fn is_binary(&self) -> (r: bool)
        ensures
            r == (*self == MqttVersion::V5(true)),
    {
        match self {
            MqttVersion::V5(binary) => *binary,
            _ => false,
        }
    }

    /// The session a connection of this version asks for: protocol level 4
    /// with a clean session, or level 5 with a clean start.
    pub fn session(&self) -> (r: MqttSession)
        ensures
            *self is V3_1_1 ==> r == (MqttSession { protocol: 4, start: SessionStart::CleanSession }),
            *self is V5 ==> r == (MqttSession { protocol: 5, start: SessionStart::CleanStart }),
    {
        match self {
            MqttVersion::V3_1_1 => MqttSession { protocol: 4, start: SessionStart::CleanSession },
            MqttVersion::V5(_) => MqttSession { protocol: 5, start: SessionStart::CleanStart },
        }
    }
}

/// The quality of service of a subscription or publication.
#[derive(Clone, Copy, Debug, PartialEq, Eq, Structural)]
pub enum MqttQoS {
    QoS0,
    QoS1,
    QoS2,
}

/// The number of a quality of service level.
pub open spec fn qos_level(qos: MqttQoS) -> i32 {
    match qos {
        MqttQoS::QoS0 => 0,
        MqttQoS::QoS1 => 1,
        MqttQoS::QoS2 => 2,
    }
}

impl From<MqttQoS> for i32 {
    fn from(qos: MqttQoS) -> (r: i32)
        ensures
            r == qos_level(qos),
    {
        match qos {
            MqttQoS::QoS0 => 0,
            MqttQoS::QoS1 => 1,
            MqttQoS::QoS2 => 2,
        }
    }
}

impl FromSpecImpl<MqttQoS> for i32 {
    open spec fn obeys_from_spec() -> bool {
        true
    }

    open spec fn from_spec(v: MqttQoS) -> i32 {
        qos_level(v)
    }
}

/// Distinct levels have distinct numbers, each between 0 and 2.
pub proof fn qos_levels_distinct(a: MqttQoS, b: MqttQoS)
    ensures
        0 <= qos_level(a) <= 2,
        qos_level(a) == qos_level(b) <==> a == b,
{
}

/// The WebSocket URI of an MQTT endpoint: the URI without trailing slashes,
/// followed by `/mqtt`.
pub open spec fn scrubbed(uri: Seq<char>) -> Seq<char> {
    strip_end(uri, |c: char| c == '/') + "/mqtt"@
}

/// The WebSocket URI of an MQTT endpoint.
pub fn scrub_uri(uri: &str) -> (r: String)
    ensures
        r@ == scrubbed(uri@),
{
    let base = trim_end_char(uri, '/');
    joined(base.as_str(), "/mqtt")
}

/// Trailing slashes do not change the scrubbed URI.
pub proof fn scrub_ignores_trailing_slash(uri: Seq<char>)
    ensures
        scrubbed(uri.push('/')) == scrubbed(uri),
{
    let p = |c: char| c == '/';
    assert(uri.push('/').drop_last() =~= uri);
    assert(strip_end(uri.push('/'), p) == strip_end(uri, p));
}

} // verus!
