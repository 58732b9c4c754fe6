use drogue_cloud_testing::init::config::{Config, ConfigError};
use drogue_cloud_testing::init::drg::{DeviceSpec, Drg, DrgError};
use drogue_cloud_testing::init::info::{HostPortInformation, Information, UrlInformation};
use drogue_cloud_testing::init::url::UrlExt;

fn args(c: &drogue_cloud_testing::init::drg::DrgCommand) -> Vec<&str> {
    c.args.iter().map(|s| s.as_str()).collect()
}

#[test]
fn drg_commands_carry_their_arguments_and_context() {
    let drg = Drg::new();
    let c = drg.delete_context();
    assert_eq!(args(&c), vec!["context", "delete", "system-tests"]);
    assert_eq!(c.context, "system-tests");
    assert_eq!(c.input, None);
    assert_eq!(
        args(&drg.login("https://api.example.com".into(), "tok")),
        vec!["login", "https://api.example.com", "-t", "tok", "--context", "system-tests"]
    );
    assert_eq!(args(&drg.version_str()), vec!["version"]);
    assert_eq!(args(&drg.contexts_str()), vec!["context", "list"]);
    assert_eq!(args(&drg.create_app("app1")), vec!["create", "app", "app1"]);
    assert_eq!(args(&drg.delete_app("app1")), vec!["delete", "app", "app1"]);
    assert_eq!(
        args(&drg.delete_device("app1", "dev1")),
        vec!["delete", "device", "--app", "app1", "dev1"]
    );
    assert_eq!(args(&drg.whoami()), vec!["whoami", "-t"]);
}

#[test]
fn drg_create_device_takes_object_or_null() {
    let drg = Drg::new();
    let spec = DeviceSpec::Object(br#"{"credentials":{}}"#.to_vec());
    let c = drg.create_device("app1", "dev1", &spec).unwrap();
    assert_eq!(args(&c), vec!["create", "device", "--app", "app1", "dev1"]);
    assert_eq!(c.input, Some(br#"{"credentials":{}}"#.to_vec()));
    let c = drg.create_device("app1", "dev1", &DeviceSpec::Null).unwrap();
    assert_eq!(c.input, None);
    assert_eq!(
        drg.create_device("app1", "dev1", &DeviceSpec::Other).unwrap_err(),
        DrgError::InvalidDeviceSpec
    );
}

#[test]
fn drg_output_reads_successful_utf8() {
    assert_eq!(Drg::output(true, Some(0), b"0.11.0\n".to_vec()), Ok("0.11.0\n".to_string()));
    assert_eq!(
        Drg::output(false, Some(2), b"whatever".to_vec()),
        Err(DrgError::CommandFailed { code: Some(2) })
    );
    assert_eq!(
        Drg::output(true, Some(0), vec![0xff, 0x00]),
        Err(DrgError::InvalidOutput)
    );
}

#[test]
fn drg_token_is_trimmed_output() {
    assert_eq!(Drg::token_from_output("  eyJhbGc.token \n"), "eyJhbGc.token");
}

#[test]
fn config_reads_variables_in_order() {
    let c = Config::new(
        Some("user".into()),
        Some("pass".into()),
        Some("https://api.example.com".into()),
    )
    .unwrap();
    assert_eq!(c.user, "user");
    assert_eq!(c.password, "pass");
    assert_eq!(c.api, "https://api.example.com/");
    assert_eq!(
        Config::new(None, None, None).unwrap_err(),
        ConfigError::MissingVariable("TEST_USER".into())
    );
    assert_eq!(
        Config::new(Some("u".into()), None, Some("x".into())).unwrap_err(),
        ConfigError::MissingVariable("TEST_PASSWORD".into())
    );
    assert_eq!(
        Config::new(Some("u".into()), Some("p".into()), None).unwrap_err(),
        ConfigError::MissingVariable("API_URL".into())
    );
    assert_eq!(
        Config::new(Some("u".into()), Some("p".into()), Some("not a url".into())).unwrap_err(),
        ConfigError::InvalidApiUrl
    );
}

pub fn info() -> Information {
    Information {
        api: "https://api.example.com/".into(),
        http: UrlInformation { url: "https://http.example.com/".into() },
        coap: UrlInformation { url: "coaps://coap.example.com:5684".into() },
        mqtt: HostPortInformation { host: "mqtt.example.com".into(), port: 8883 },
        mqtt_integration: HostPortInformation { host: "mqtt-integration.example.com".into(), port: 443 },
        mqtt_ws: UrlInformation { url: "wss://mqtt-ws.example.com/".into() },
        mqtt_integration_ws: UrlInformation { url: "wss://mqtt-integration-ws.example.com/".into() },
        websocket_integration: UrlInformation { url: "wss://ws-integration.example.com/".into() },
        command_url: "https://command.example.com/".into(),
    }
}

#[test]
fn info_endpoint_joins_the_api_url() {
    let c = Config {
        user: "u".into(),
        password: "p".into(),
        api: "https://api.example.com/some/path".into(),
    };
    assert_eq!(
        Information::endpoint(&c),
        Some("https://api.example.com/api/console/v1alpha1/info".to_string())
    );
    let _ = info();
}

#[test]
fn url_ext_edits_urls() {
    let u = "https://example.com/a?x=1".to_string();
    assert_eq!(u.clone().clear_query_param(), "https://example.com/a?");
    assert_eq!(u.clone().add_query_param("k", "v w"), "https://example.com/a?x=1&k=v+w");
    assert_eq!(u.clone().reset_path("/b/c"), "https://example.com/b/c?x=1");
    assert_eq!("not a url".to_string().reset_path("/b"), "not a url");
}
