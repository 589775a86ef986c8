use hc_yolink::actions::{Action, Publication, Reply};
use hc_yolink::config::{
    CloudConfig, Config, HomecoreConfig, LocalConfig, Mode, TemperatureUnit, YolinkConfig,
};
use hc_yolink::devices::{AttributeValue, DeviceKind};
use hc_yolink::json::Json;
use hc_yolink::startup::{retry_delay, try_start, Startup};
use hc_yolink::yolink::types::DeviceInfo;

fn failed() -> Reply {
    Reply::Failed("no answer".to_string())
}

fn config(mode: Mode) -> Config {
    Config {
        homecore: HomecoreConfig {
            broker_host: "127.0.0.1".to_string(),
            broker_port: 1883,
            plugin_id: "plugin.yolink".to_string(),
            password: "p".to_string(),
        },
        yolink: YolinkConfig {
            mode,
            poll_interval_secs: 60,
            poll_device_delay_ms: 5,
            initial_fetch_delay_secs: 10,
            temperature_unit: TemperatureUnit::C,
            cloud: Some(CloudConfig {
                uaid: "ua".to_string(),
                secret_key: "sk".to_string(),
                api_url: "https://api".to_string(),
                mqtt_host: "mqtt".to_string(),
                mqtt_port: 8003,
            }),
            local: Some(LocalConfig {
                hub_ip: "10.0.0.2".to_string(),
                client_id: "cl".to_string(),
                client_secret: "cs".to_string(),
                net_id: "net".to_string(),
                api_port: 1080,
                mqtt_port: 18080,
            }),
        },
    }
}

fn info(id: &str, device_type: &str) -> DeviceInfo {
    DeviceInfo {
        device_id: id.to_string(),
        name: format!("The {id}"),
        device_type: device_type.to_string(),
        token: "t".to_string(),
        parent_device_id: None,
    }
}

/// A local start that waits for the device list.
fn listing() -> Startup {
    listing_with(config(Mode::Local))
}

fn listing_with(cfg: Config) -> Startup {
    let (mut startup, _) = try_start(&cfg).unwrap();
    startup.advance(Reply::Done);
    startup.advance(Reply::Done);
    assert!(matches!(startup.advance(Reply::Done), Action::ListDevices));
    startup
}

#[test]
fn attempts() {
    assert_eq!(retry_delay(1), Some(60));
    assert_eq!(retry_delay(2), Some(60));
    assert_eq!(retry_delay(3), None);
}

#[test]
fn cloud_starts_ask_for_the_home() {
    let (mut startup, action) = try_start(&config(Mode::Cloud)).unwrap();
    match action {
        Action::Authenticate { token_url, client_id, client_secret } => {
            assert_eq!(token_url, "https://api/open/yolink/token");
            assert_eq!(client_id, "ua");
            assert_eq!(client_secret, "sk");
        }
        _ => panic!("not authenticated"),
    }
    assert!(matches!(startup.advance(Reply::Done), Action::GetHomeId));
    match startup.advance(Reply::HomeId("h1".to_string())) {
        Action::OpenEventStream { host, port, topic_prefix } => {
            assert_eq!(host, "mqtt");
            assert_eq!(port, 8003);
            assert_eq!(topic_prefix, "yl-home/h1");
        }
        _ => panic!("no stream"),
    }
    assert!(matches!(startup.advance(Reply::Done), Action::ConnectHomecore));
    assert!(matches!(startup.advance(Reply::Done), Action::ListDevices));
}

#[test]
fn local_starts_know_their_network() {
    let (mut startup, _) = try_start(&config(Mode::Local)).unwrap();
    match startup.advance(Reply::Done) {
        Action::OpenEventStream { host, port, topic_prefix } => {
            assert_eq!(host, "10.0.0.2");
            assert_eq!(port, 18080);
            assert_eq!(topic_prefix, "ylsubnet/net");
        }
        _ => panic!("no stream"),
    }
}

#[test]
fn failures_end_a_start() {
    let (mut startup, _) = try_start(&config(Mode::Cloud)).unwrap();
    assert!(matches!(startup.advance(failed()), Action::Abort(_)));
    assert!(matches!(startup.advance(Reply::Done), Action::Abort(_)));
    let (mut startup, _) = try_start(&config(Mode::Cloud)).unwrap();
    startup.advance(Reply::Done);
    assert!(matches!(startup.advance(failed()), Action::Abort(_)));
    assert!(matches!(listing().advance(failed()), Action::Abort(_)));
    let mut startup = listing();
    startup.advance(Reply::Devices(vec![info("a", "Switch")]));
    assert!(matches!(startup.advance(failed()), Action::Abort(_)));
    let mut startup = listing();
    startup.advance(Reply::Devices(vec![info("a", "Switch")]));
    startup.advance(Reply::Done);
    assert!(matches!(startup.advance(failed()), Action::Abort(_)));
}

#[test]
fn devices_are_registered_and_announced() {
    let mut startup = listing();
    let list = vec![info("h", "Hub"), info("a", "Switch"), info("x", "Toaster"), info("b", "Lock")];
    match startup.advance(Reply::Devices(list)) {
        Action::Register { hc_id, name, device_type, kind } => {
            assert_eq!(kind, DeviceKind::Switch);
            assert_eq!(hc_id, "yolink_a");
            assert_eq!(name, "The a");
            assert_eq!(device_type, "switch");
        }
        _ => panic!("not registered"),
    }
    match startup.advance(Reply::Done) {
        Action::SubscribeCommands { hc_id } => assert_eq!(hc_id, "yolink_a"),
        _ => panic!("not subscribed"),
    }
    match startup.advance(Reply::Done) {
        Action::FetchState { device } => assert_eq!(device.device_id, "a"),
        _ => panic!("not fetched"),
    }
    let data = Json::parse(b"{ \"state\": \"open\", \"online\": false }").unwrap();
    assert!(matches!(
        startup.advance(Reply::State(data)),
        Action::Publish(Publication::Availability { online: false, .. })
    ));
    match startup.advance(Reply::Done) {
        Action::Publish(Publication::State { hc_id, state }) => {
            assert_eq!(hc_id, "yolink_a");
            assert!(matches!(state.get("on"), Some(AttributeValue::Flag(true))));
        }
        _ => panic!("not shown"),
    }
    match startup.advance(Reply::Done) {
        Action::Register { hc_id, .. } => assert_eq!(hc_id, "yolink_b"),
        _ => panic!("not registered"),
    }
    startup.advance(Reply::Done);
    startup.advance(Reply::Done);
    assert!(matches!(
        startup.advance(failed()),
        Action::Publish(Publication::Availability { online: false, .. })
    ));
    assert!(matches!(startup.advance(Reply::Done), Action::Finish));
    let bridge = startup.into_bridge();
    assert_eq!(bridge.device_count(), 2);
    assert!(bridge.find_by_yolink_id("a").is_some());
    assert!(bridge.find_by_yolink_id("b").is_some());
    assert!(bridge.find_by_yolink_id("h").is_none());
    assert_eq!(bridge.poll_interval_secs(), 60);
    assert_eq!(bridge.temp_unit(), TemperatureUnit::C);
    assert_eq!(bridge.poll_all_devices()[0].delay_ms, Some(5));
}

#[test]
fn nothing_listed_is_a_start_too() {
    let mut startup = listing();
    assert!(matches!(startup.advance(Reply::Devices(Vec::new())), Action::Finish));
    assert_eq!(startup.into_bridge().device_count(), 0);
}

#[test]
fn disabled_fetches_ask_for_no_state() {
    let mut cfg = config(Mode::Local);
    cfg.yolink.initial_fetch_delay_secs = 0;
    let mut startup = listing_with(cfg);
    let list = vec![info("a", "Outlet"), info("h", "Hub"), info("b", "THSensor")];
    match startup.advance(Reply::Devices(list)) {
        Action::Register { hc_id, .. } => assert_eq!(hc_id, "yolink_a"),
        _ => panic!("not registered"),
    }
    match startup.advance(Reply::Done) {
        Action::SubscribeCommands { hc_id } => assert_eq!(hc_id, "yolink_a"),
        _ => panic!("not subscribed"),
    }
    match startup.advance(Reply::Done) {
        Action::Register { hc_id, .. } => assert_eq!(hc_id, "yolink_b"),
        _ => panic!("not registered"),
    }
    assert!(matches!(startup.advance(Reply::Done), Action::SubscribeCommands { .. }));
    assert!(matches!(startup.advance(Reply::Done), Action::Finish));
    let bridge = startup.into_bridge();
    assert_eq!(bridge.device_count(), 2);
    assert!(bridge.find_by_yolink_id("b").is_some());
}

#[test]
fn disabled_fetches_do_not_hide_failures() {
    let mut cfg = config(Mode::Local);
    cfg.yolink.initial_fetch_delay_secs = 0;
    let mut startup = listing_with(cfg);
    startup.advance(Reply::Devices(vec![info("a", "Outlet")]));
    startup.advance(Reply::Done);
    assert!(matches!(startup.advance(failed()), Action::Abort(_)));
}

#[test]
fn failed_starts_carry_their_error() {
    let (mut startup, _) = try_start(&config(Mode::Cloud)).unwrap();
    match startup.advance(Reply::Failed("token refused".to_string())) {
        Action::Abort(error) => assert_eq!(error, "token refused"),
        _ => panic!("not aborted"),
    }
    match startup.advance(Reply::Done) {
        Action::Abort(error) => assert_eq!(error, "token refused"),
        _ => panic!("not aborted"),
    }
    let (mut startup, _) = try_start(&config(Mode::Local)).unwrap();
    match startup.advance(Reply::Devices(Vec::new())) {
        Action::Abort(error) => assert_eq!(error, "unexpected reply"),
        _ => panic!("not aborted"),
    }
}
