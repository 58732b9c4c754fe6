//! Messages received from the MQTT integration, and their conversion into
//! cloud messages, in the structured or the binary content mode.
use crate::json::{json_accepts, json_parses};
use crate::text::{opt_view, str_equal};
use crate::tools::assertion::{
    cloud_event, data_base64_decodes, CloudMessage, CloudMessageView, MessageError,
};
use crate::init::info::Information;
use crate::text::{decimal, decimal_string, joined};
use crate::tools::mqtt::{scrub_uri, scrubbed, MqttVariant};
use vstd::prelude::*;

verus! {

/// The URI an integration receiver connects to: the plain MQTT integration
/// (`ssl://<host>:<port>`) or, over WebSocket, the integration's WebSocket
/// URL without trailing slashes followed by `/mqtt`.
pub fn integration_uri(info: &Information, variant: MqttVariant) -> (r: String)
    ensures
        variant is Plain ==> r@ == "ssl://"@ + info.mqtt_integration.host@ + ":"@ + decimal(
            info.mqtt_integration.port as nat,
        ),
        variant is WebSocket ==> r@ == scrubbed(info.mqtt_integration_ws.url@),
{
    match variant {
        MqttVariant::Plain(_) => {
            let scheme_host = joined("ssl://", info.mqtt_integration.host.as_str());
            let with_colon = joined(scheme_host.as_str(), ":");
            let port = decimal_string(info.mqtt_integration.port as u64);
            joined(with_colon.as_str(), port.as_str())
        },
        MqttVariant::WebSocket(_) => scrub_uri(info.mqtt_integration_ws.url.as_str()),
    }
}

/// A message as the MQTT client received it.
#[derive(Clone, Debug, PartialEq, Eq)]
pub struct MqttMessage {
    pub topic: String,
    /// The user properties, in the order received.
    pub user_properties: Vec<(String, String)>,
    pub content_type: Option<String>,
    pub payload: Vec<u8>,
}

pub struct MqttMessageView {
    pub topic: Seq<char>,
    pub user_properties: Seq<(Seq<char>, Seq<char>)>,
    pub content_type: Option<Seq<char>>,
    pub payload: Seq<u8>,
}

impl View for MqttMessage {
    type V = MqttMessageView;

    open spec fn view(&self) -> MqttMessageView {
        MqttMessageView {
            topic: self.topic@,
            user_properties: self.user_properties@.map_values(
                |p: (String, String)| (p.0@, p.1@),
            ),
            content_type: opt_view(self.content_type),
            payload: self.payload@,
        }
    }
}

/// The value of a user property: the last one received under the name,
/// as collecting the properties into a map keeps it.
pub open spec fn property(props: Seq<(Seq<char>, Seq<char>)>, key: Seq<char>) -> Option<Seq<char>>
    decreases props.len(),
{
    if props.len() == 0 {
        None
    } else if props.last().0 == key {
        Some(props.last().1)
    } else {
        property(props.drop_last(), key)
    }
}

/// A user property, or the empty string.
pub open spec fn property_or_empty(props: Seq<(Seq<char>, Seq<char>)>, key: Seq<char>) -> Seq<char> {
    match property(props, key) {
        Some(v) => v,
        None => Seq::empty(),
    }
}

/// The cloud message that a message in the binary content mode carries:
/// the attributes from the user properties, content type and payload as
/// they are.
pub open spec fn binary_message(m: MqttMessageView) -> CloudMessageView {
    CloudMessageView {
        subject: property_or_empty(m.user_properties, "subject"@),
        event_type: property_or_empty(m.user_properties, "type"@),
        instance: property_or_empty(m.user_properties, "instance"@),
        app: property_or_empty(m.user_properties, "application"@),
        device: property_or_empty(m.user_properties, "device"@),
        sender: property_or_empty(m.user_properties, "sender"@),
        content_type: m.content_type,
        payload: m.payload,
    }
}

/// The content type of a structured message.
pub open spec fn cloud_events_json() -> Seq<char> {
    "application/cloudevents+json; charset=utf-8"@
}

/// Whether the declared content type, if any, is CloudEvents JSON.
pub open spec fn structured_content_type(m: MqttMessageView) -> bool {
    match m.content_type {
        Some(ct) => ct == cloud_events_json(),
        None => true,
    }
}

/// Whether the structured conversion of a message finishes: it does unless
/// the message passes the content type check and parses, yet carries a
/// `data_base64` string that is not Base64.
pub open spec fn structured_convertible(m: MqttMessageView) -> bool {
    structured_content_type(m) && json_accepts(m.payload) ==> data_base64_decodes(m.payload)
}

impl MqttMessage {
    /// The value of a user property (the last one under the name).
    pub fn property(&self, key: &str) -> (r: Option<String>)
        ensures
            opt_view(r) == property(self@.user_properties, key@),
    {
        let ghost props = self@.user_properties;
        let mut i: usize = self.user_properties.len();
        assert(props.take(i as int) =~= props);
        while i > 0
            invariant
                i <= self.user_properties@.len(),
                props == self@.user_properties,
                property(props, key@) == property(props.take(i as int), key@),
            decreases i,
        {
            let (k, v) = &self.user_properties[i - 1];
            proof {
                let t = props.take(i as int);
                assert(t.last() == props[i - 1]);
                assert(t.drop_last() =~= props.take(i - 1));
            }
            if str_equal(k.as_str(), key) {
                return Some(v.clone());
            }
            i = i - 1;
        }
        assert(props.take(0) =~= Seq::<(Seq<char>, Seq<char>)>::empty());
        None
    }

    fn property_or_empty(&self, key: &str) -> (r: String)
        ensures
            r@ == property_or_empty(self@.user_properties, key@),
    {
        match self.property(key) {
            Some(v) => v,
            None => String::new(),
        }
    }

    /// Converts in the binary content mode if `binary`, else in the
    /// structured mode.
    pub fn into_message(self, binary: bool) -> (r: Result<CloudMessage, MessageError>)
        requires
            !binary ==> structured_convertible(self@),
        ensures
            binary ==> (r matches Ok(m) && m@ == binary_message(self@)),
            !binary ==> structured_result(self@, r),
    {
        if binary {
            self.into_message_binary()
        } else {
            self.into_message_structured()
        }
    }

    /// Converts as [`MqttMessage::into_message`] does; `None` where the
    /// structured conversion would not finish.
    pub fn try_into_message(self, binary: bool) -> (r: Option<Result<CloudMessage, MessageError>>)
        ensures
            r is None <==> (!binary && !structured_convertible(self@)),
            r matches Some(c) ==> (binary ==> (c matches Ok(m) && m@ == binary_message(self@))),
            r matches Some(c) ==> (!binary ==> structured_result(self@, c)),
    {
        if binary {
            return Some(self.into_message_binary());
        }
        let content_ok = match &self.content_type {
            Some(ct) => str_equal(ct.as_str(), "application/cloudevents+json; charset=utf-8"),
            None => true,
        };
        if content_ok && json_parses(self.payload.as_slice()) {
            match CloudMessage::try_from_json(self.payload.as_slice()) {
                Some(m) => Some(Ok(m)),
                None => None,
            }
        } else {
            Some(self.into_message_structured())
        }
    }

    /// Converts a message in the structured content mode: the payload is a
    /// CloudEvents JSON document, and the content type, if declared, must be
    /// CloudEvents JSON.
    pub fn into_message_structured(self) -> (r: Result<CloudMessage, MessageError>)
        requires
            structured_convertible(self@),
        ensures
            structured_result(self@, r),
    {
        if let Some(content_type) = &self.content_type {
            if !str_equal(content_type.as_str(), "application/cloudevents+json; charset=utf-8") {
                return Err(MessageError::WrongContentType(content_type.clone()));
            }
        }
        if !json_parses(self.payload.as_slice()) {
            return Err(MessageError::InvalidJson);
        }
        Ok(CloudMessage::from_json(self.payload.as_slice()))
    }

    /// Converts a message in the binary content mode.
    pub fn into_message_binary(self) -> (r: Result<CloudMessage, MessageError>)
        ensures
            r matches Ok(m) && m@ == binary_message(self@),
    {
        let subject = self.property_or_empty("subject");
        let event_type = self.property_or_empty("type");
        let instance = self.property_or_empty("instance");
        let app = self.property_or_empty("application");
        let device = self.property_or_empty("device");
        let sender = self.property_or_empty("sender");
        Ok(
            CloudMessage {
                subject,
                event_type,
                instance,
                app,
                device,
                sender,
                content_type: self.content_type,
                payload: self.payload,
            },
        )
    }
}

/// What the structured conversion gives: a wrong content type is refused
/// first, then a payload that is not JSON, else the message that the
/// document describes.
pub open spec fn structured_result(m: MqttMessageView, r: Result<CloudMessage, MessageError>) -> bool {
    if !structured_content_type(m) {
        r matches Err(MessageError::WrongContentType(ct)) && Some(ct@) == m.content_type
    } else if !json_accepts(m.payload) {
        r == Err::<CloudMessage, MessageError>(MessageError::InvalidJson)
    } else {
        r matches Ok(c) && c@ == cloud_event(m.payload)
    }
}

/// The value of a property is that of the last property under its name;
/// there is none when no property has that name.
proof fn lemma_property_is_last(props: Seq<(Seq<char>, Seq<char>)>, key: Seq<char>)
    ensures
        property(props, key) is None <==> forall|i: int| 0 <= i < props.len() ==> props[i].0 != key,
        forall|i: int|
            0 <= i < props.len() && props[i].0 == key && (forall|j: int|
                i < j < props.len() ==> props[j].0 != key) ==> property(props, key) == Some(
                props[i].1,
            ),
    decreases props.len(),
{
    if props.len() > 0 {
        let init = props.drop_last();
        lemma_property_is_last(init, key);
        assert forall|i: int| 0 <= i < init.len() implies init[i] == props[i] by {}
        if props.last().0 != key {
            assert forall|i: int|
                0 <= i < props.len() && props[i].0 == key && (forall|j: int|
                    i < j < props.len() ==> props[j].0 != key) implies property(props, key)
                == Some(props[i].1) by {
                assert(i < props.len() - 1);
                assert forall|j: int| i < j < init.len() implies init[j].0 != key by {
                    assert(props[j].0 != key);
                }
            }
        } else {
            assert forall|i: int|
                0 <= i < props.len() && props[i].0 == key && (forall|j: int|
                    i < j < props.len() ==> props[j].0 != key) implies property(props, key)
                == Some(props[i].1) by {
                if i < props.len() - 1 {
                    assert(props[props.len() - 1].0 != key);
                }
            }
        }
    }
}

/// In the binary content mode, each attribute of the converted message is
/// the value of the last user property of that attribute's name, or empty
/// where no user property has that name; content type and payload are the
/// message's own.
pub proof fn binary_attributes(m: MqttMessageView, key: Seq<char>, i: int)
    requires
        0 <= i < m.user_properties.len(),
        m.user_properties[i].0 == key,
        forall|j: int| i < j < m.user_properties.len() ==> m.user_properties[j].0 != key,
    ensures
        key == "subject"@ ==> binary_message(m).subject == m.user_properties[i].1,
        key == "type"@ ==> binary_message(m).event_type == m.user_properties[i].1,
        key == "instance"@ ==> binary_message(m).instance == m.user_properties[i].1,
        key == "application"@ ==> binary_message(m).app == m.user_properties[i].1,
        key == "device"@ ==> binary_message(m).device == m.user_properties[i].1,
        key == "sender"@ ==> binary_message(m).sender == m.user_properties[i].1,
{
    lemma_property_is_last(m.user_properties, key);
}

/// In the binary content mode, an attribute without a user property of its
/// name is empty.
pub proof fn binary_attributes_absent(m: MqttMessageView, key: Seq<char>)
    requires
        forall|i: int| 0 <= i < m.user_properties.len() ==> m.user_properties[i].0 != key,
    ensures
        key == "subject"@ ==> binary_message(m).subject.len() == 0,
        key == "type"@ ==> binary_message(m).event_type.len() == 0,
        key == "instance"@ ==> binary_message(m).instance.len() == 0,
        key == "application"@ ==> binary_message(m).app.len() == 0,
        key == "device"@ ==> binary_message(m).device.len() == 0,
        key == "sender"@ ==> binary_message(m).sender.len() == 0,
        binary_message(m).content_type == m.content_type,
        binary_message(m).payload == m.payload,
{
    lemma_property_is_last(m.user_properties, key);
}

/// A user property received later under the same name takes the place of
/// an earlier one; one under another name leaves it unchanged.
pub proof fn later_property_wins(
    props: Seq<(Seq<char>, Seq<char>)>,
    key: Seq<char>,
    other: Seq<char>,
    value: Seq<char>,
)
    ensures
        property(props.push((key, value)), key) == Some(value),
        other != key ==> property(props.push((other, value)), key) == property(props, key),
{
    assert(props.push((key, value)).drop_last() =~= props);
    assert(props.push((other, value)).drop_last() =~= props);
}

} // verus!
