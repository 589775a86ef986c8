use hc_yolink::config::{
    default_broker_host, default_broker_port, default_cloud_api_url, default_cloud_mqtt_host,
    default_cloud_mqtt_port, default_initial_fetch_delay_secs, default_local_api_port,
    default_local_mqtt_port, default_plugin_id, default_poll_device_delay_ms,
    default_poll_interval, CloudConfig, Config, ConfigError, Endpoints, HomecoreConfig,
    LocalConfig, Mode, TemperatureUnit, YolinkConfig,
};
use hc_yolink::json::JsonNumber;
use hc_yolink::run::Event;
use hc_yolink::schedule::{Armed, Schedule, Timer};
use hc_yolink::measure::{round1, round3, Conversion, Measurement, Reading};

fn cloud() -> CloudConfig {
    CloudConfig {
        uaid: "ua_1".to_string(),
        secret_key: "sk_1".to_string(),
        api_url: default_cloud_api_url(),
        mqtt_host: default_cloud_mqtt_host(),
        mqtt_port: default_cloud_mqtt_port(),
    }
}

fn local() -> LocalConfig {
    LocalConfig {
        hub_ip: "192.168.1.20".to_string(),
        client_id: "client".to_string(),
        client_secret: "words".to_string(),
        net_id: "net7".to_string(),
        api_port: default_local_api_port(),
        mqtt_port: default_local_mqtt_port(),
    }
}

fn config(mode: Mode, cloud: Option<CloudConfig>, local: Option<LocalConfig>) -> Config {
    Config {
        homecore: HomecoreConfig {
            broker_host: default_broker_host(),
            broker_port: default_broker_port(),
            plugin_id: default_plugin_id(),
            password: "p".to_string(),
        },
        yolink: YolinkConfig {
            mode,
            poll_interval_secs: default_poll_interval(),
            poll_device_delay_ms: default_poll_device_delay_ms(),
            initial_fetch_delay_secs: default_initial_fetch_delay_secs(),
            temperature_unit: TemperatureUnit::default(),
            cloud,
            local,
        },
    }
}

#[test]
fn defaults() {
    let cfg = config(Mode::Cloud, Some(cloud()), None);
    assert_eq!(cfg.homecore.broker_host, "127.0.0.1");
    assert_eq!(cfg.homecore.broker_port, 1883);
    assert_eq!(cfg.homecore.plugin_id, "plugin.yolink");
    assert_eq!(cfg.yolink.poll_interval_secs, 3600);
    assert_eq!(cfg.yolink.poll_device_delay_ms, 1000);
    assert_eq!(cfg.yolink.initial_fetch_delay_secs, 10);
    assert_eq!(cfg.yolink.temperature_unit, TemperatureUnit::F);
}

#[test]
fn cloud_mode_needs_its_section() {
    assert_eq!(config(Mode::Cloud, Some(cloud()), None).validate(), Ok(()));
    let error = config(Mode::Cloud, None, Some(local())).validate().unwrap_err();
    assert_eq!(error, ConfigError::MissingCloudSection);
    assert_eq!(
        error.message(),
        "[yolink.cloud] section is required when mode = \"cloud\""
    );
}

#[test]
fn local_mode_needs_its_section() {
    assert_eq!(config(Mode::Local, None, Some(local())).validate(), Ok(()));
    let error = config(Mode::Local, Some(cloud()), None).validate().unwrap_err();
    assert_eq!(error, ConfigError::MissingLocalSection);
    assert_eq!(
        error.message(),
        "[yolink.local] section is required when mode = \"local\""
    );
}

#[test]
fn cloud_endpoints() {
    let cfg = config(Mode::Cloud, Some(cloud()), Some(local()));
    let ep = Endpoints::from_config(&cfg.yolink).unwrap();
    assert_eq!(ep.token_url, "https://api.yosmart.com/open/yolink/token");
    assert_eq!(ep.api_base_url, "https://api.yosmart.com");
    assert_eq!(ep.mqtt_host, "mqtt.api.yosmart.com");
    assert_eq!(ep.mqtt_port, 8003);
    assert_eq!(ep.client_id, "ua_1");
    assert_eq!(ep.client_secret, "sk_1");
    assert_eq!(ep.net_id, "");
}

#[test]
fn local_endpoints() {
    let cfg = config(Mode::Local, None, Some(local()));
    let ep = Endpoints::from_config(&cfg.yolink).unwrap();
    assert_eq!(ep.token_url, "http://192.168.1.20:1080/open/yolink/token");
    assert_eq!(ep.api_base_url, "http://192.168.1.20:1080");
    assert_eq!(ep.mqtt_host, "192.168.1.20");
    assert_eq!(ep.mqtt_port, 18080);
    assert_eq!(ep.client_id, "client");
    assert_eq!(ep.client_secret, "words");
    assert_eq!(ep.net_id, "net7");
}

#[test]
fn token_urls_extend_the_base_url() {
    for mode in vec![Mode::Cloud, Mode::Local] {
        let cfg = config(mode, Some(cloud()), Some(local()));
        let ep = Endpoints::from_config(&cfg.yolink).unwrap();
        assert_eq!(ep.token_url, format!("{}/open/yolink/token", ep.api_base_url));
    }
}

#[test]
fn mode_settings() {
    assert_eq!(Mode::from_setting("cloud"), Some(Mode::Cloud));
    assert_eq!(Mode::from_setting("local"), Some(Mode::Local));
    assert_eq!(Mode::from_setting("Cloud"), None);
    assert_eq!(Mode::from_setting(""), None);
}

#[test]
fn unit_settings() {
    assert_eq!(TemperatureUnit::from_setting("c"), Some(TemperatureUnit::C));
    assert_eq!(TemperatureUnit::from_setting("f"), Some(TemperatureUnit::F));
    assert_eq!(TemperatureUnit::from_setting("k"), None);
    for unit in vec![TemperatureUnit::C, TemperatureUnit::F] {
        assert_eq!(TemperatureUnit::from_setting(unit.label()), Some(unit));
    }
    assert_eq!(TemperatureUnit::C.label(), "C");
    assert_eq!(TemperatureUnit::F.label(), "F");
}

#[test]
fn unit_conversions() {
    let n = JsonNumber::PosInt(20);
    assert_eq!(TemperatureUnit::C.from_celsius(n), Reading::unchanged(n));
    assert_eq!(TemperatureUnit::F.from_fahrenheit(n), Reading::unchanged(n));
    assert_eq!(
        TemperatureUnit::F.from_celsius(n).conversion,
        Conversion::CelsiusToFahrenheit
    );
    assert_eq!(
        TemperatureUnit::C.from_fahrenheit(n).conversion,
        Conversion::FahrenheitToCelsius
    );
}

#[test]
fn rounding() {
    let reading = Reading::unchanged(JsonNumber::NegInt(-3));
    assert_eq!(round1(reading), Measurement { reading, decimals: 1 });
    assert_eq!(round3(reading), Measurement { reading, decimals: 3 });
}

#[test]
fn initial_fetch_can_be_disabled() {
    let mut cfg = config(Mode::Cloud, Some(cloud()), None);
    assert_eq!(cfg.yolink.initial_fetch_delay(), Some(10));
    cfg.yolink.initial_fetch_delay_secs = 0;
    assert_eq!(cfg.yolink.initial_fetch_delay(), None);
}

#[test]
fn settings_can_be_copied() {
    let cfg = config(Mode::Local, None, Some(local())).clone();
    assert_eq!(cfg.homecore.plugin_id, "plugin.yolink");
    assert!(cfg.yolink.cloud.is_none());
    assert_eq!(cfg.yolink.local.as_ref().unwrap().net_id, "net7");
    let ep = Endpoints::from_config(&cfg.yolink).unwrap().clone();
    assert_eq!(ep.mqtt_port, 18080);
    assert_eq!(cloud().clone().uaid, "ua_1");
}

#[test]
fn the_initial_fetch_comes_once() {
    let cfg = config(Mode::Cloud, Some(cloud()), None);
    let mut schedule = Schedule::new(&cfg.yolink);
    assert_eq!(schedule.armed(), Armed { initial_fetch: Some(10), true_up: 3600 });
    assert!(matches!(schedule.fire(Timer::TrueUp), Some(Event::PollDue)));
    assert_eq!(schedule.armed(), Armed { initial_fetch: Some(10), true_up: 3600 });
    assert!(matches!(schedule.fire(Timer::InitialFetch), Some(Event::InitialFetchDue)));
    assert_eq!(schedule.armed(), Armed { initial_fetch: None, true_up: 3600 });
    assert!(schedule.fire(Timer::InitialFetch).is_none());
    assert!(matches!(schedule.fire(Timer::TrueUp), Some(Event::PollDue)));
}

#[test]
fn a_disabled_initial_fetch_is_never_armed() {
    let mut cfg = config(Mode::Cloud, Some(cloud()), None);
    cfg.yolink.initial_fetch_delay_secs = 0;
    let mut schedule = Schedule::new(&cfg.yolink);
    assert_eq!(schedule.armed().initial_fetch, None);
    assert!(schedule.fire(Timer::InitialFetch).is_none());
}
