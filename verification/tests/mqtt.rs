use drogue_cloud_testing::init::info::{HostPortInformation, Information, UrlInformation};
use drogue_cloud_testing::tools::auth::Auth;
use drogue_cloud_testing::tools::mqtt::device::{
    command_subscription, credentials, device_uri, endpoint_uri, MessageDispatcher, MqttCredentials,
};
use drogue_cloud_testing::tools::mqtt::receiver::{integration_uri, MqttMessage};
use drogue_cloud_testing::tools::mqtt::{
    scrub_uri, MqttQoS, MqttSession, MqttVariant, MqttVersion, SessionStart,
};

#[test]
fn variants_keep_their_version() {
    for v in [MqttVersion::V3_1_1, MqttVersion::V5(false), MqttVersion::V5(true)] {
        for ws in [true, false] {
            let variant: MqttVariant = (v, ws).into();
            assert_eq!(variant.version(), v);
            assert_eq!(matches!(variant, MqttVariant::WebSocket(_)), ws);
        }
    }
}

#[test]
fn binary_only_for_v5_binary() {
    assert!(!MqttVersion::V3_1_1.is_binary());
    assert!(!MqttVersion::V5(false).is_binary());
    assert!(MqttVersion::V5(true).is_binary());
}

#[test]
fn sessions_per_version() {
    assert_eq!(
        MqttVersion::V3_1_1.session(),
        MqttSession { protocol: 4, start: SessionStart::CleanSession }
    );
    assert_eq!(
        MqttVersion::V5(true).session(),
        MqttSession { protocol: 5, start: SessionStart::CleanStart }
    );
}

#[test]
fn qos_levels() {
    assert_eq!(i32::from(MqttQoS::QoS0), 0);
    assert_eq!(i32::from(MqttQoS::QoS1), 1);
    assert_eq!(i32::from(MqttQoS::QoS2), 2);
}

#[test]
fn scrubbed_uris() {
    assert_eq!(scrub_uri("wss://host.example.com"), "wss://host.example.com/mqtt");
    assert_eq!(scrub_uri("wss://host.example.com/"), "wss://host.example.com/mqtt");
    assert_eq!(scrub_uri("wss://host.example.com///"), "wss://host.example.com/mqtt");
    assert_eq!(scrub_uri(""), "/mqtt");
}

#[test]
fn device_endpoint_and_credentials() {
    let info = Information {
        api: "https://api/".into(),
        http: UrlInformation { url: "https://http/".into() },
        coap: UrlInformation { url: "coaps://coap/".into() },
        mqtt: HostPortInformation { host: "mqtt.example.com".into(), port: 8883 },
        mqtt_integration: HostPortInformation { host: "i".into(), port: 1 },
        mqtt_ws: UrlInformation { url: "wss://mqtt-ws.example.com/".into() },
        mqtt_integration_ws: UrlInformation { url: "wss://mqtt-integration-ws.example.com/".into() },
        websocket_integration: UrlInformation { url: "wss://ws-integration.example.com/".into() },
        command_url: "https://cmd/".into(),
    };
    assert_eq!(endpoint_uri(&info), "ssl://mqtt.example.com:8883");
    let plain = MqttVariant::Plain(MqttVersion::V3_1_1);
    let ws = MqttVariant::WebSocket(MqttVersion::V5(true));
    assert_eq!(device_uri(&info, plain), "ssl://mqtt.example.com:8883");
    assert_eq!(device_uri(&info, ws), "wss://mqtt-ws.example.com/mqtt");
    assert_eq!(integration_uri(&info, plain), "ssl://i:1");
    assert_eq!(integration_uri(&info, ws), "wss://mqtt-integration-ws.example.com/mqtt");
    assert!(matches!(credentials(&Auth::NoCredentials), MqttCredentials::Anonymous));
    match credentials(&Auth::UsernamePassword("u".into(), "p".into())) {
        MqttCredentials::UserPassword(u, p) => assert_eq!((u.as_str(), p.as_str()), ("u", "p")),
        _ => panic!("expected user and password"),
    }
    match credentials(&Auth::X509Certificate(vec![1, 2])) {
        MqttCredentials::ClientCertificate(c) => assert_eq!(c, vec![1, 2]),
        _ => panic!("expected a certificate"),
    }
    let (filter, qos) = command_subscription("command/inbox/#");
    assert_eq!(filter, "command/inbox/#");
    assert_eq!(qos, MqttQoS::QoS0);
    let (filter, qos) = command_subscription("command/inbox/device1/#");
    assert_eq!(filter, "command/inbox/device1/#");
    assert_eq!(qos, MqttQoS::QoS0);
}

fn message(topic: &str, payload: &[u8]) -> MqttMessage {
    MqttMessage {
        topic: topic.into(),
        user_properties: vec![],
        content_type: None,
        payload: payload.to_vec(),
    }
}

#[test]
fn dispatcher_keeps_messages_per_topic() {
    let mut d = MessageDispatcher::new();
    assert_eq!(d.num_messages(), 0);
    d.dispatch(message("command/inbox//SET", b"1"));
    d.dispatch(message("command/inbox/device1/SET", b"2"));
    d.dispatch(message("command/inbox//SET", b"3"));
    assert_eq!(d.num_messages(), 3);
    let all = d.fetch_messages();
    assert_eq!(all.len(), 2);
    assert_eq!(all[0].0, "command/inbox//SET");
    assert_eq!(all[0].1, vec![message("command/inbox//SET", b"1"), message("command/inbox//SET", b"3")]);
    assert_eq!(all[1].0, "command/inbox/device1/SET");
    assert_eq!(all[1].1, vec![message("command/inbox/device1/SET", b"2")]);
    let listed: usize = all.iter().map(|(_, list)| list.len()).sum();
    assert_eq!(listed, d.num_messages());
}
