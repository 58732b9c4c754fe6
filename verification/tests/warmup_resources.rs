use drogue_cloud_testing::init::drg::{DeviceSpec, Drg, DrgError};
use drogue_cloud_testing::registry::Application as RegisteredApplication;
use drogue_cloud_testing::resources::apps::{condition_state, condition_step, Application, ConditionStep};
use drogue_cloud_testing::resources::devices::Device;
use drogue_cloud_testing::tools::assertion::{CloudMessage, MessageError};
use drogue_cloud_testing::tools::messages::{MessageWait, WaitStep};
use drogue_cloud_testing::tools::warmup::{
    find_warmup, identify, warmup_message, Warmup, WarmupAction, WarmupPhase, WarmupSender,
    WarmupTarget,
};

fn args(c: &drogue_cloud_testing::init::drg::DrgCommand) -> Vec<&str> {
    c.args.iter().map(|s| s.as_str()).collect()
}

fn delivered(app: &str, device: &str, subject: &str, payload: Vec<u8>) -> CloudMessage {
    CloudMessage {
        subject: subject.into(),
        event_type: "io.drogue.event.v1".into(),
        instance: "drogue".into(),
        app: app.into(),
        device: device.into(),
        sender: device.into(),
        content_type: Some("application/json".into()),
        payload,
    }
}

#[test]
fn warmup_messages_are_identified_by_index() {
    let m = warmup_message("app1", "device1", 3);
    assert_eq!(m.subject, "warmup");
    assert_eq!(m.app, "app1");
    assert_eq!(m.device, "device1");
    assert_eq!(m.content_type, Some("application/json".to_string()));
    assert_eq!(m.payload, Some(br#"{"index":3}"#.to_vec()));
    let received = delivered("app1", "device1", "warmup", m.payload.clone().unwrap());
    assert!(identify("app1", "device1", &received, 3));
    assert!(!identify("app1", "device1", &received, 2));
    assert!(!identify("app2", "device1", &received, 3));
    assert!(!identify("app1", "device2", &received, 3));
    let other = delivered("app1", "device1", "telemetry", m.payload.unwrap());
    assert!(!identify("app1", "device1", &other, 3));
    let garbage = delivered("app1", "device1", "warmup", b"xx".to_vec());
    assert!(!identify("app1", "device1", &garbage, 3));
}

#[test]
fn warmup_sender_trait() {
    let target = WarmupTarget { application: "app1".into(), device: "device1".into() };
    let m = target.message(9);
    assert_eq!(m.payload, Some(br#"{"index":9}"#.to_vec()));
    let received = delivered("app1", "device1", "warmup", m.payload.unwrap());
    assert!(WarmupSender::identify(&target, &received, 9));
    let batch: Vec<Result<CloudMessage, MessageError>> = vec![
        Err(MessageError::InvalidJson),
        Ok(delivered("app1", "device1", "warmup", br#"{"index":8}"#.to_vec())),
        Ok(received),
    ];
    assert!(find_warmup("app1", "device1", &batch, 9));
    assert!(!find_warmup("app1", "device1", &batch, 7));
}

#[test]
fn warmup_machine_runs_through_its_phases() {
    let (mut w, first) = Warmup::new(30_000_000_000);
    assert_eq!(first, WarmupAction::Discard);
    assert_eq!(w.phase, WarmupPhase::Discarding);
    assert_eq!(w.discarded(), WarmupAction::Send(0));
    assert_eq!(w.phase, WarmupPhase::Probing);
    assert_eq!(w.sent(), WarmupAction::PauseThenCount);
    assert_eq!(w.counted(0, 1_000_000_000), WarmupAction::Send(1));
    assert_eq!(w.index, 1);
    assert_eq!(w.counted(2, 2_000_000_000), WarmupAction::Drain);
    assert_eq!(w.phase, WarmupPhase::Collecting);
    assert_eq!(w.index, 1);
    assert_eq!(w.drained(false), WarmupAction::PauseThenCheck);
    assert_eq!(w.checked(3_000_000_000), WarmupAction::Drain);
    assert_eq!(w.drained(true), WarmupAction::Ready);
    assert_eq!(w.checked(31_000_000_000), WarmupAction::TimedOut);
    let (mut late, _) = Warmup::new(10);
    assert_eq!(late.discarded(), WarmupAction::Send(0));
    assert_eq!(late.counted(0, 11), WarmupAction::TimedOut);
    assert_eq!(late.index, 0);
}

#[test]
fn message_wait() {
    let w = MessageWait::new(3, 5_000_000_000);
    assert_eq!(w.check(2), WaitStep::Pause);
    assert_eq!(w.check(3), WaitStep::Done);
    assert_eq!(w.after_pause(1), WaitStep::Pause);
    assert_eq!(w.after_pause(5_000_000_001), WaitStep::TimedOut);
    assert_eq!(w.pause_millis(), 250);
}

#[test]
fn application_lifecycle() {
    let app = Application::new(Drg::new(), "app1".into(), Ok(String::new())).unwrap();
    assert_eq!(app.name(), "app1");
    assert_eq!(args(&app.release().unwrap()), vec!["delete", "app", "app1"]);
    let ready = app.wait_ready();
    assert_eq!(ready, vec![("KafkaReady".to_string(), 300), ("Ready".to_string(), 300)]);
    let mut app = app;
    app.mark_deleted();
    assert!(app.release().is_none());
    assert_eq!(app.name(), "app1");
    let failed = Application::new(Drg::new(), "app1".into(), Err(DrgError::CommandFailed { code: Some(1) }));
    assert!(failed.is_err());
}

#[test]
fn registry_application_lifecycle() {
    let app = RegisteredApplication::new(Drg::new(), "app2".into(), Ok(String::new())).unwrap();
    assert_eq!(args(&app.release()), vec!["delete", "app", "app2"]);
    assert!(RegisteredApplication::new(Drg::new(), "x".into(), Err(DrgError::InvalidOutput)).is_err());
}

#[test]
fn device_lifecycle() {
    let app = Application::new(Drg::new(), "app1".into(), Ok(String::new())).unwrap();
    let c = Device::create_command(&app, "dev1", &DeviceSpec::Null).unwrap();
    assert_eq!(args(&c), vec!["create", "device", "--app", "app1", "dev1"]);
    assert!(app.create_device("dev1", &DeviceSpec::Other).is_err());
    let mut dev = Device::new(&app, "dev1".into(), Ok(String::new())).unwrap();
    assert_eq!(dev.name(), "dev1");
    assert_eq!(dev.app().name(), "app1");
    assert_eq!(args(&dev.release().unwrap()), vec!["delete", "device", "--app", "app1", "dev1"]);
    dev.mark_deleted();
    assert!(dev.release().is_none());
    assert!(Device::new(&app, "dev2".into(), Err(DrgError::InvalidDeviceSpec)).is_err());
}

#[test]
fn conditions() {
    let doc = br#"{"status":{"conditions":[{"type":"KafkaReady","status":"True"},{"type":"Ready","status":"False"},{"type":"Ready","status":"True"}]}}"#;
    assert!(condition_state(doc, "KafkaReady"));
    assert!(!condition_state(doc, "Ready"));
    assert!(!condition_state(doc, "Missing"));
    assert!(!condition_state(br#"{"status":{}}"#, "Ready"));
    assert!(!condition_state(b"garbage", "Ready"));
    assert_eq!(condition_step(true, 100, 1), ConditionStep::Met);
    assert_eq!(condition_step(false, 100, 1), ConditionStep::TimedOut);
    assert_eq!(condition_step(false, 1, 1), ConditionStep::Retry);
}
