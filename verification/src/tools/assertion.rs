//! Messages as the cloud delivers them and as devices send them, their
//! conversion from CloudEvents JSON, and the comparison of received messages
//! with expected ones.
use crate::codec::{base64_decode, base64_decoded};
use crate::json::{json_object_field, json_object_member, json_str_field, json_str_member};
use crate::text::{bytes_equal, opt_string_equal, opt_view};
use vstd::prelude::*;

verus! {

/// A message received on the cloud from a device.
#[derive(Clone, Debug, PartialEq, Eq)]
pub struct CloudMessage {
    pub subject: String,
    pub event_type: String,
    pub instance: String,
    pub app: String,
    pub device: String,
    pub sender: String,
    pub content_type: Option<String>,
    pub payload: Vec<u8>,
}

pub struct CloudMessageView {
    pub subject: Seq<char>,
    pub event_type: Seq<char>,
    pub instance: Seq<char>,
    pub app: Seq<char>,
    pub device: Seq<char>,
    pub sender: Seq<char>,
    pub content_type: Option<Seq<char>>,
    pub payload: Seq<u8>,
}

impl View for CloudMessage {
    type V = CloudMessageView;

    open spec fn view(&self) -> CloudMessageView {
        CloudMessageView {
            subject: self.subject@,
            event_type: self.event_type@,
            instance: self.instance@,
            app: self.app@,
            device: self.device@,
            sender: self.sender@,
            content_type: opt_view(self.content_type),
            payload: self.payload@,
        }
    }
}

/// A message for a device to send to the cloud.
#[derive(Clone, Debug, PartialEq, Eq)]
pub struct DeviceMessage {
    pub subject: String,
    pub app: String,
    pub device: String,
    pub content_type: Option<String>,
    pub payload: Option<Vec<u8>>,
}

/// Why a received message could not be turned into a [`CloudMessage`].
#[derive(Clone, Debug, PartialEq, Eq)]
pub enum MessageError {
    /// A structured message declared a content type other than CloudEvents JSON.
    WrongContentType(String),
    /// A structured message whose payload is not JSON.
    InvalidJson,
}

impl CloudMessage {
    /// Whether two messages are equal in every field.
    pub fn same_as(&self, other: &CloudMessage) -> (r: bool)
        ensures
            r == (self@ == other@),
    {
        self.subject == other.subject && self.event_type == other.event_type && self.instance
            == other.instance && self.app == other.app && self.device == other.device
            && self.sender == other.sender && opt_string_equal(
            &self.content_type,
            &other.content_type,
        ) && bytes_equal(self.payload.as_slice(), other.payload.as_slice())
    }
}

/// A string member of a CloudEvents document, or the empty string.
pub open spec fn member_or_empty(document: Seq<u8>, key: Seq<char>) -> Seq<char> {
    match json_str_member(document, key) {
        Some(s) => s,
        None => Seq::empty(),
    }
}

/// Whether the `data_base64` member of a document, if it is a string, is
/// valid Base64.
pub open spec fn data_base64_decodes(document: Seq<u8>) -> bool {
    match json_str_member(document, "data_base64"@) {
        Some(t) => base64_decoded(t) is Some,
        None => true,
    }
}

/// The payload of a CloudEvents document: the decoded `data_base64` member
/// if it is a string, else the serialized `data` member if it is an object,
/// else nothing.
pub open spec fn event_payload(document: Seq<u8>) -> Seq<u8> {
    match json_str_member(document, "data_base64"@) {
        Some(t) => base64_decoded(t).unwrap(),
        None => match json_object_member(document, "data"@) {
            Some(b) => b,
            None => Seq::empty(),
        },
    }
}

/// The message that a CloudEvents JSON document describes.
pub open spec fn cloud_event(document: Seq<u8>) -> CloudMessageView {
    CloudMessageView {
        subject: member_or_empty(document, "subject"@),
        event_type: member_or_empty(document, "type"@),
        instance: member_or_empty(document, "instance"@),
        app: member_or_empty(document, "application"@),
        device: member_or_empty(document, "device"@),
        sender: member_or_empty(document, "sender"@),
        content_type: json_str_member(document, "datacontenttype"@),
        payload: event_payload(document),
    }
}

/// Each attribute of a converted CloudEvents document is the document's
/// string member of that attribute's name, or empty where the document has
/// no such string member; the content type is the `datacontenttype` member,
/// and the payload is the decoded `data_base64` string, else the serialized
/// `data` object, else empty.
pub proof fn converted_attributes(document: Seq<u8>)
    ensures
        ({
            let m = cloud_event(document);
            &&& json_str_member(document, "subject"@) matches Some(v) ==> m.subject == v
            &&& json_str_member(document, "subject"@) is None ==> m.subject.len() == 0
            &&& json_str_member(document, "type"@) matches Some(v) ==> m.event_type == v
            &&& json_str_member(document, "type"@) is None ==> m.event_type.len() == 0
            &&& json_str_member(document, "instance"@) matches Some(v) ==> m.instance == v
            &&& json_str_member(document, "instance"@) is None ==> m.instance.len() == 0
            &&& json_str_member(document, "application"@) matches Some(v) ==> m.app == v
            &&& json_str_member(document, "application"@) is None ==> m.app.len() == 0
            &&& json_str_member(document, "device"@) matches Some(v) ==> m.device == v
            &&& json_str_member(document, "device"@) is None ==> m.device.len() == 0
            &&& json_str_member(document, "sender"@) matches Some(v) ==> m.sender == v
            &&& json_str_member(document, "sender"@) is None ==> m.sender.len() == 0
            &&& m.content_type == json_str_member(document, "datacontenttype"@)
            &&& json_str_member(document, "data_base64"@) matches Some(t) ==> (
            base64_decoded(t) matches Some(b) ==> m.payload == b)
            &&& json_str_member(document, "data_base64"@) is None ==> (json_object_member(
                document,
                "data"@,
            ) matches Some(b) ==> m.payload == b)
            &&& json_str_member(document, "data_base64"@) is None && json_object_member(
                document,
                "data"@,
            ) is None ==> m.payload.len() == 0
        }),
{
}

/// Documents that agree on their `sender` member convert to messages with
/// the same sender, whatever their other members (the device among them).
pub proof fn sender_from_sender_member(a: Seq<u8>, b: Seq<u8>)
    requires
        json_str_member(a, "sender"@) == json_str_member(b, "sender"@),
    ensures
        cloud_event(a).sender == cloud_event(b).sender,
{
}

fn str_member(document: &[u8], key: &str) -> (r: String)
    ensures
        r@ == member_or_empty(document@, key@),
{
    match json_str_field(document, key) {
        Some(s) => s,
        None => String::new(),
    }
}

impl CloudMessage {
    /// Reads a CloudEvents JSON document (given as its bytes). The document
    /// must not carry a `data_base64` string that is not Base64.
    pub fn from_json(document: &[u8]) -> (r: CloudMessage)
        requires
            data_base64_decodes(document@),
        ensures
            r@ == cloud_event(document@),
    {
        let payload = match json_str_field(document, "data_base64") {
            Some(text) => match base64_decode(text.as_str()) {
                Some(b) => b,
                None => Vec::new(),
            },
            None => match json_object_field(document, "data") {
                Some(b) => b,
                None => Vec::new(),
            },
        };
        CloudMessage {
            subject: str_member(document, "subject"),
            event_type: str_member(document, "type"),
            instance: str_member(document, "instance"),
            app: str_member(document, "application"),
            device: str_member(document, "device"),
            sender: str_member(document, "sender"),
            content_type: json_str_field(document, "datacontenttype"),
            payload,
        }
    }

    /// Reads a CloudEvents JSON document; `None` where its `data_base64`
    /// string is not Base64.
    pub fn try_from_json(document: &[u8]) -> (r: Option<CloudMessage>)
        ensures
            r is Some <==> data_base64_decodes(document@),
            r matches Some(m) ==> m@ == cloud_event(document@),
    {
        let valid = match json_str_field(document, "data_base64") {
            Some(text) => base64_decode(text.as_str()).is_some(),
            None => true,
        };
        if valid {
            Some(CloudMessage::from_json(document))
        } else {
            None
        }
    }
}

/// How a received message differs from the expected one at a position.
#[derive(Clone, Copy, Debug, PartialEq, Eq, Structural)]
pub enum MismatchKind {
    /// Both are there, and they differ.
    Different,
    /// The received message could not be converted.
    ConversionFailed,
    /// A message was received where none was expected.
    Unexpected,
    /// No message was received where one was expected.
    Missing,
}

/// The first position at which the received messages differ from the expected ones.
#[derive(Clone, Copy, Debug, PartialEq, Eq, Structural)]
pub struct Mismatch {
    pub position: usize,
    pub kind: MismatchKind,
}

/// How the received messages differ from the expected ones at position `i`;
/// `None` where they agree.
pub open spec fn mismatch_at(
    actual: Seq<Result<CloudMessage, MessageError>>,
    expected: Seq<CloudMessage>,
    i: int,
) -> Option<MismatchKind> {
    if i < actual.len() && i < expected.len() {
        match actual[i] {
            Ok(a) => if a@ == expected[i]@ {
                None
            } else {
                Some(MismatchKind::Different)
            },
            Err(_) => Some(MismatchKind::ConversionFailed),
        }
    } else if i < actual.len() {
        Some(MismatchKind::Unexpected)
    } else if i < expected.len() {
        Some(MismatchKind::Missing)
    } else {
        None
    }
}

/// The larger of the two lengths.
pub open spec fn longer(a: nat, b: nat) -> nat {
    if a > b {
        a
    } else {
        b
    }
}

/// Compares received messages with the expected ones, position by
/// position. `Ok` when every position agrees; otherwise the first position
/// that does not, and how.
pub fn assert_msgs(actual: &Vec<Result<CloudMessage, MessageError>>, expected: &Vec<CloudMessage>) -> (r:
    Result<(), Mismatch>)
    ensures
        match r {
            Ok(()) => forall|i: int|
                0 <= i < longer(actual@.len(), expected@.len()) ==> #[trigger] mismatch_at(
                    actual@,
                    expected@,
                    i,
                ) is None,
            Err(m) => {
                &&& m.position < longer(actual@.len(), expected@.len())
                &&& mismatch_at(actual@, expected@, m.position as int) == Some(m.kind)
                &&& forall|j: int|
                    0 <= j < m.position ==> #[trigger] mismatch_at(actual@, expected@, j) is None
            },
        },
{
    let len = if actual.len() > expected.len() {
        actual.len()
    } else {
        expected.len()
    };
    let mut i: usize = 0;
    while i < len
        invariant
            len == longer(actual@.len(), expected@.len()),
            i <= len,
            forall|j: int| 0 <= j < i ==> #[trigger] mismatch_at(actual@, expected@, j) is None,
        decreases len - i,
    {
        if i < actual.len() && i < expected.len() {
            match &actual[i] {
                Ok(a) => {
                    if !a.same_as(&expected[i]) {
                        return Err(Mismatch { position: i, kind: MismatchKind::Different });
                    }
                },
                Err(_) => {
                    return Err(Mismatch { position: i, kind: MismatchKind::ConversionFailed });
                },
            }
        } else if i < actual.len() {
            return Err(Mismatch { position: i, kind: MismatchKind::Unexpected });
        } else {
            return Err(Mismatch { position: i, kind: MismatchKind::Missing });
        }
        i = i + 1;
    }
    Ok(())
}

/// Each message as successfully converted.
pub open spec fn all_converted(messages: Seq<CloudMessage>) -> Seq<Result<CloudMessage, MessageError>> {
    messages.map_values(|m: CloudMessage| Ok::<CloudMessage, MessageError>(m))
}

/// Received messages that are exactly the expected ones, each converted
/// successfully, pass the comparison.
pub proof fn expected_messages_pass(expected: Seq<CloudMessage>)
    ensures
        forall|i: int|
            0 <= i < expected.len() ==> #[trigger] mismatch_at(all_converted(expected), expected, i) is None,
{
}

/// A comparison passes exactly when both lists have the same length and each
/// received message converted and equals the expected one at its position.
pub proof fn comparison_passes_iff_equal(
    actual: Seq<Result<CloudMessage, MessageError>>,
    expected: Seq<CloudMessage>,
)
    ensures
        (forall|i: int|
            0 <= i < longer(actual.len(), expected.len()) ==> #[trigger] mismatch_at(
                actual,
                expected,
                i,
            ) is None) <==> (actual.len() == expected.len() && forall|i: int|
            0 <= i < actual.len() ==> (#[trigger] actual[i] matches Ok(a) && a@ == expected[i]@)),
{
    if forall|i: int|
        0 <= i < longer(actual.len(), expected.len()) ==> #[trigger] mismatch_at(
            actual,
            expected,
            i,
        ) is None {
        if actual.len() < expected.len() {
            assert(mismatch_at(actual, expected, actual.len() as int) is Some);
        }
        if actual.len() > expected.len() {
            assert(mismatch_at(actual, expected, expected.len() as int) is Some);
        }
        assert forall|i: int| 0 <= i < actual.len() implies (#[trigger] actual[i] matches Ok(a)
            && a@ == expected[i]@) by {
            assert(mismatch_at(actual, expected, i) is None);
        }
    }
}

} // verus!
