use drogue_cloud_testing::tools::assertion::{
    assert_msgs, CloudMessage, DeviceMessage, MessageError, Mismatch, MismatchKind,
};
use drogue_cloud_testing::tools::mqtt::receiver::MqttMessage;
use drogue_cloud_testing::tools::websocket::text_message;

fn msg(subject: &str, payload: &[u8]) -> CloudMessage {
    CloudMessage {
        subject: subject.into(),
        event_type: "io.drogue.event.v1".into(),
        instance: "drogue".into(),
        app: "app1".into(),
        device: "device1".into(),
        sender: "device1".into(),
        content_type: Some("application/octet-stream".into()),
        payload: payload.to_vec(),
    }
}

#[test]
fn cloud_event_with_base64_data() {
    let doc = br#"{"subject":"telemetry","type":"io.drogue.event.v1","instance":"drogue","application":"app1","device":"device1","sender":"device1","datacontenttype":"application/octet-stream","data_base64":"aGVsbG8="}"#;
    assert_eq!(CloudMessage::from_json(doc), msg("telemetry", b"hello"));
}

#[test]
fn cloud_event_with_object_data_and_missing_fields() {
    let doc = br#"{"subject":"connection","data":{"connected":true}}"#;
    let m = CloudMessage::from_json(doc);
    assert_eq!(m.subject, "connection");
    assert_eq!(m.event_type, "");
    assert_eq!(m.app, "");
    assert_eq!(m.content_type, None);
    assert_eq!(m.payload, br#"{"connected":true}"#.to_vec());
    let m = CloudMessage::from_json(br#"{"subject":"x","data":"text"}"#);
    assert_eq!(m.payload, Vec::<u8>::new());
}

#[test]
fn cloud_event_with_invalid_base64_is_refused() {
    assert_eq!(CloudMessage::try_from_json(br#"{"data_base64":"!!"}"#), None);
    assert!(CloudMessage::try_from_json(br#"{"data_base64":"aGk="}"#).is_some());
}

#[test]
fn assert_msgs_passes_equal_lists() {
    let expected = vec![msg("a", b"1"), msg("b", b"2")];
    let actual: Vec<Result<CloudMessage, MessageError>> =
        expected.iter().cloned().map(Ok).collect();
    assert_eq!(assert_msgs(&actual, &expected), Ok(()));
    assert_eq!(assert_msgs(&vec![], &vec![]), Ok(()));
}

#[test]
fn assert_msgs_reports_first_mismatch() {
    let expected = vec![msg("a", b"1"), msg("b", b"2")];
    let different = vec![Ok(msg("a", b"1")), Ok(msg("b", b"3"))];
    assert_eq!(
        assert_msgs(&different, &expected),
        Err(Mismatch { position: 1, kind: MismatchKind::Different })
    );
    let failed = vec![Err(MessageError::InvalidJson), Ok(msg("x", b""))];
    assert_eq!(
        assert_msgs(&failed, &expected),
        Err(Mismatch { position: 0, kind: MismatchKind::ConversionFailed })
    );
    let short = vec![Ok(msg("a", b"1"))];
    assert_eq!(
        assert_msgs(&short, &expected),
        Err(Mismatch { position: 1, kind: MismatchKind::Missing })
    );
    let long = vec![Ok(msg("a", b"1")), Ok(msg("b", b"2")), Ok(msg("c", b""))];
    assert_eq!(
        assert_msgs(&long, &expected),
        Err(Mismatch { position: 2, kind: MismatchKind::Unexpected })
    );
}

fn mqtt(props: &[(&str, &str)], content_type: Option<&str>, payload: &[u8]) -> MqttMessage {
    MqttMessage {
        topic: "app/app1".into(),
        user_properties: props.iter().map(|(k, v)| (k.to_string(), v.to_string())).collect(),
        content_type: content_type.map(String::from),
        payload: payload.to_vec(),
    }
}

#[test]
fn binary_message_reads_user_properties() {
    let m = mqtt(
        &[
            ("subject", "telemetry"),
            ("type", "io.drogue.event.v1"),
            ("instance", "drogue"),
            ("application", "app1"),
            ("device", "device1"),
            ("sender", "device1"),
        ],
        Some("application/octet-stream"),
        b"hello",
    );
    assert_eq!(m.clone().into_message(true).unwrap(), msg("telemetry", b"hello"));
    assert_eq!(m.into_message_binary().unwrap(), msg("telemetry", b"hello"));
    let empty = mqtt(&[], None, b"").into_message_binary().unwrap();
    assert_eq!(empty.subject, "");
    assert_eq!(empty.sender, "");
}

#[test]
fn later_user_property_wins() {
    let m = mqtt(&[("subject", "first"), ("device", "d"), ("subject", "second")], None, b"");
    assert_eq!(m.property("subject"), Some("second".to_string()));
    assert_eq!(m.property("device"), Some("d".to_string()));
    assert_eq!(m.property("missing"), None);
}

#[test]
fn structured_message_checks_content_type_then_json() {
    let doc = br#"{"subject":"telemetry","application":"app1","data_base64":"aGk="}"#;
    let ok = mqtt(&[], Some("application/cloudevents+json; charset=utf-8"), doc)
        .into_message(false)
        .unwrap();
    assert_eq!(ok.subject, "telemetry");
    assert_eq!(ok.payload, b"hi".to_vec());
    assert!(mqtt(&[], None, doc).into_message_structured().is_ok());
    assert_eq!(
        mqtt(&[], Some("text/plain"), doc).into_message_structured(),
        Err(MessageError::WrongContentType("text/plain".into()))
    );
    assert_eq!(mqtt(&[], None, b"not json").into_message_structured(), Err(MessageError::InvalidJson));
    assert_eq!(mqtt(&[], None, br#"{"data_base64":"!!"}"#).try_into_message(false), None);
    assert!(mqtt(&[], None, br#"{"data_base64":"!!"}"#).try_into_message(true).is_some());
}

#[test]
fn websocket_text_frames() {
    let m = text_message(r#"{"subject":"telemetry","device":"d1"}"#).unwrap();
    assert_eq!(m.subject, "telemetry");
    assert_eq!(m.device, "d1");
    assert_eq!(text_message("nope"), None);
}

#[test]
fn device_message_is_plain_data() {
    let m = DeviceMessage {
        subject: "s".into(),
        app: "a".into(),
        device: "d".into(),
        content_type: None,
        payload: None,
    };
    assert_eq!(m.clone(), m);
}
