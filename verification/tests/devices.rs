use hc_yolink::config::TemperatureUnit;
use hc_yolink::devices::{AttributeValue, CommandError, DeviceKind, DeviceState};
use hc_yolink::json::{Json, JsonNumber};
use hc_yolink::measure::{Conversion, Measurement};

fn json(text: &str) -> Json {
    Json::parse(text.as_bytes()).unwrap()
}

fn flag(state: &DeviceState, name: &str) -> Option<bool> {
    match state.get(name) {
        Some(AttributeValue::Flag(b)) => Some(*b),
        _ => None,
    }
}

fn count(state: &DeviceState, name: &str) -> Option<u64> {
    match state.get(name) {
        Some(AttributeValue::Count(n)) => Some(*n),
        _ => None,
    }
}

fn label(state: &DeviceState, name: &str) -> Option<String> {
    match state.get(name) {
        Some(AttributeValue::Label(s)) => Some(s.clone()),
        _ => None,
    }
}

fn evaluate(m: &Measurement) -> f64 {
    let raw = match m.reading.number {
        JsonNumber::PosInt(n) => n as f64,
        JsonNumber::NegInt(n) => n as f64,
        JsonNumber::FloatBits(bits) => f64::from_bits(bits),
    };
    let converted = match m.reading.conversion {
        Conversion::Unchanged => raw,
        Conversion::CelsiusToFahrenheit => raw * 9.0 / 5.0 + 32.0,
        Conversion::FahrenheitToCelsius => (raw - 32.0) * 5.0 / 9.0,
    };
    let scale = 10f64.powi(m.decimals as i32);
    (converted * scale).round() / scale
}

fn measured(state: &DeviceState, name: &str) -> Option<f64> {
    match state.get(name) {
        Some(AttributeValue::Measured(m)) => Some(evaluate(m)),
        _ => None,
    }
}

fn shown(kind: DeviceKind, data: &str, unit: TemperatureUnit) -> DeviceState {
    kind.translate_state(&json(data), &unit).unwrap()
}

#[test]
fn outlet_on() {
    let data = r#"{ "state": "open", "power": 12.5, "electricity": 0.031 }"#;
    let state = shown(DeviceKind::Outlet, data, TemperatureUnit::F);
    assert_eq!(flag(&state, "on"), Some(true));
    assert_eq!(measured(&state, "power_w"), Some(12.5));
    assert_eq!(measured(&state, "energy_kwh"), Some(0.031));
}

#[test]
fn outlet_off() {
    let state = shown(DeviceKind::Outlet, r#"{ "state": "close" }"#, TemperatureUnit::F);
    assert_eq!(flag(&state, "on"), Some(false));
}

#[test]
fn door_open() {
    let state = shown(
        DeviceKind::DoorSensor,
        r#"{ "state": "open", "battery": 3 }"#,
        TemperatureUnit::F,
    );
    assert_eq!(flag(&state, "open"), Some(true));
    assert_eq!(count(&state, "battery"), Some(3));
}

#[test]
fn door_closed() {
    let state = shown(
        DeviceKind::DoorSensor,
        r#"{ "state": "close", "battery": 4 }"#,
        TemperatureUnit::F,
    );
    assert_eq!(flag(&state, "open"), Some(false));
}

#[test]
fn motion_detected() {
    let state = shown(
        DeviceKind::MotionSensor,
        r#"{ "alarm": true, "battery": 2 }"#,
        TemperatureUnit::F,
    );
    assert_eq!(flag(&state, "motion"), Some(true));
}

#[test]
fn th_celsius_device_to_fahrenheit_output() {
    let data = r#"{ "temperature": 22.5, "humidity": 65.2, "tempUnit": "℃", "battery": 4 }"#;
    let state = shown(DeviceKind::THSensor, data, TemperatureUnit::F);
    // 22.5 C is 72.5 F
    assert_eq!(measured(&state, "temperature"), Some(72.5));
    assert_eq!(label(&state, "temperature_unit"), Some("F".to_string()));
    assert_eq!(measured(&state, "humidity_pct"), Some(65.2));
}

#[test]
fn th_celsius_device_to_celsius_output() {
    let data = r#"{ "temperature": 22.5, "humidity": 65.2, "tempUnit": "℃", "battery": 4 }"#;
    let state = shown(DeviceKind::THSensor, data, TemperatureUnit::C);
    assert_eq!(measured(&state, "temperature"), Some(22.5));
    assert_eq!(label(&state, "temperature_unit"), Some("C".to_string()));
}

#[test]
fn th_fahrenheit_device_to_fahrenheit_output() {
    let data = r#"{ "temperature": 72.5, "humidity": 50.0, "tempUnit": "℉" }"#;
    let state = shown(DeviceKind::THSensor, data, TemperatureUnit::F);
    assert_eq!(measured(&state, "temperature"), Some(72.5));
}

#[test]
fn th_fahrenheit_device_to_celsius_output() {
    let data = r#"{ "temperature": 72.5, "humidity": 50.0, "tempUnit": "℉" }"#;
    let state = shown(DeviceKind::THSensor, data, TemperatureUnit::C);
    // 72.5 F is 22.5 C
    assert_eq!(measured(&state, "temperature"), Some(22.5));
}

#[test]
fn lock_locked() {
    let state = shown(
        DeviceKind::Lock,
        r#"{ "state": "locked", "battery": 3 }"#,
        TemperatureUnit::F,
    );
    assert_eq!(flag(&state, "locked"), Some(true));
}

#[test]
fn switch_cmd_on() {
    let cmd = json(r#"{ "on": true }"#);
    let (method, params) = DeviceKind::Switch.translate_command(&cmd).unwrap();
    assert_eq!(method, "setState");
    assert_eq!(params.text_at("state"), Some("open"));
}

#[test]
fn switch_cmd_off() {
    let cmd = json(r#"{ "on": false }"#);
    let (_method, params) = DeviceKind::Switch.translate_command(&cmd).unwrap();
    assert_eq!(params.text_at("state"), Some("close"));
}

#[test]
fn sensor_cmd_rejected() {
    let cmd = json("{}");
    assert!(DeviceKind::DoorSensor.translate_command(&cmd).is_err());
}

#[test]
fn types_name_their_kind() {
    let bridged = vec![
        ("Outlet", DeviceKind::Outlet, "switch"),
        ("SmartPlug", DeviceKind::SmartPlug, "switch"),
        ("Switch", DeviceKind::Switch, "switch"),
        ("MultiOutlet", DeviceKind::MultiOutlet, "switch"),
        ("DoorSensor", DeviceKind::DoorSensor, "contact_sensor"),
        ("MotionSensor", DeviceKind::MotionSensor, "motion_sensor"),
        ("LeakSensor", DeviceKind::LeakSensor, "water_sensor"),
        ("THSensor", DeviceKind::THSensor, "temperature_sensor"),
        ("VibrationSensor", DeviceKind::VibrationSensor, "vibration_sensor"),
        ("Lock", DeviceKind::Lock, "lock"),
        ("LockV2", DeviceKind::LockV2, "lock"),
        ("Siren", DeviceKind::Siren, "switch"),
    ];
    for (name, kind, device_type) in bridged {
        assert_eq!(DeviceKind::from_yolink_type(name), kind);
        assert_eq!(kind.homecore_device_type(), device_type);
        assert!(kind.is_supported());
    }
    assert_eq!(DeviceKind::from_yolink_type("Hub"), DeviceKind::Hub);
    assert!(!DeviceKind::Hub.is_supported());
    let odd = DeviceKind::from_yolink_type("outlet");
    assert_eq!(odd, DeviceKind::Unknown("outlet".to_string()));
    assert!(!odd.is_supported());
    assert_eq!(odd.homecore_device_type(), "unknown");
}

#[test]
fn relay_state_falls_back_to_the_report_itself() {
    let state = shown(DeviceKind::Switch, r#""on""#, TemperatureUnit::C);
    assert_eq!(flag(&state, "on"), Some(true));
    assert!(DeviceKind::Switch.translate_state(&json("7"), &TemperatureUnit::C).is_none());
    assert!(DeviceKind::MultiOutlet
        .translate_state(&json(r#"{ "state": ["open", "close"] }"#), &TemperatureUnit::C)
        .is_none());
}

#[test]
fn power_falls_back_to_watt_and_is_rounded() {
    let state = shown(
        DeviceKind::SmartPlug,
        r#"{ "state": "on", "watt": 7.26, "electricity": 1.23456 }"#,
        TemperatureUnit::C,
    );
    assert_eq!(measured(&state, "power_w"), Some(7.3));
    assert_eq!(measured(&state, "energy_kwh"), Some(1.235));
    let whole = shown(DeviceKind::SmartPlug, r#"{ "state": "on", "power": -4 }"#, TemperatureUnit::C);
    assert_eq!(measured(&whole, "power_w"), Some(-4.0));
    assert!(whole.get("energy_kwh").is_none());
}

#[test]
fn nested_battery_comes_first_and_must_be_whole() {
    let nested = r#"{ "alarm": false, "state": { "battery": 1 }, "battery": 4 }"#;
    let state = shown(DeviceKind::VibrationSensor, nested, TemperatureUnit::C);
    assert_eq!(flag(&state, "vibration"), Some(false));
    assert_eq!(count(&state, "battery"), Some(1));
    let negative = shown(DeviceKind::MotionSensor, r#"{ "battery": -1 }"#, TemperatureUnit::C);
    assert_eq!(flag(&negative, "motion"), Some(false));
    assert!(negative.get("battery").is_none());
    let broken = shown(DeviceKind::MotionSensor, r#"{ "battery": 2.5 }"#, TemperatureUnit::C);
    assert!(broken.get("battery").is_none());
}

#[test]
fn leak_goes_by_alarm_then_by_state() {
    let alarm = shown(DeviceKind::LeakSensor, r#"{ "state": { "alarm": true } }"#, TemperatureUnit::C);
    assert_eq!(flag(&alarm, "leak"), Some(true));
    assert_eq!(flag(&alarm, "water_detected"), Some(true));
    let alert = shown(DeviceKind::LeakSensor, r#"{ "state": "alert" }"#, TemperatureUnit::C);
    assert_eq!(flag(&alert, "leak"), Some(true));
    let calm = shown(DeviceKind::LeakSensor, r#"{ "alarm": false, "state": "alert" }"#, TemperatureUnit::C);
    assert_eq!(flag(&calm, "leak"), Some(false));
    let silent = shown(DeviceKind::LeakSensor, "null", TemperatureUnit::C);
    assert_eq!(flag(&silent, "leak"), Some(false));
}

#[test]
fn th_needs_both_readings_and_assumes_celsius() {
    let kind = DeviceKind::THSensor;
    assert!(kind.translate_state(&json(r#"{ "temperature": 1 }"#), &TemperatureUnit::C).is_none());
    assert!(kind.translate_state(&json(r#"{ "humidity": 1 }"#), &TemperatureUnit::C).is_none());
    let nested = r#"{ "state": { "temperature": 10, "humidity": 40.44, "battery": 2 } }"#;
    let state = shown(DeviceKind::THSensor, nested, TemperatureUnit::F);
    assert_eq!(measured(&state, "temperature"), Some(50.0));
    assert_eq!(measured(&state, "humidity_pct"), Some(40.4));
    assert_eq!(count(&state, "battery"), Some(2));
    let plain = r#"{ "temperature": 50, "humidity": 1, "tempUnit": "F" }"#;
    let state = shown(DeviceKind::THSensor, plain, TemperatureUnit::C);
    assert_eq!(measured(&state, "temperature"), Some(10.0));
    let degrees = r#"{ "temperature": 10, "humidity": 1, "tempUnit": "deg C" }"#;
    let state = shown(DeviceKind::THSensor, degrees, TemperatureUnit::F);
    assert_eq!(measured(&state, "temperature"), Some(50.0));
}

#[test]
fn lock_reports_bolt_door_alert_and_settings() {
    let data = r#"{
        "state": { "lock": "unlocked", "door": "closed", "battery": 1 },
        "alert": { "type": "DoorOpenAlarm" },
        "attributes": { "autoLock": 30, "soundLevel": 2 }
    }"#;
    let state = shown(DeviceKind::LockV2, data, TemperatureUnit::C);
    assert_eq!(flag(&state, "locked"), Some(false));
    assert_eq!(flag(&state, "door_open"), Some(false));
    assert_eq!(label(&state, "last_alert"), Some("DoorOpenAlarm".to_string()));
    assert_eq!(count(&state, "auto_lock_secs"), Some(30));
    assert_eq!(count(&state, "sound_level"), Some(2));
    assert_eq!(count(&state, "battery"), Some(1));
    assert!(DeviceKind::Lock.translate_state(&json("{}"), &TemperatureUnit::C).is_none());
}

#[test]
fn siren_alarm_goes_by_on_unless_reported() {
    let on = shown(DeviceKind::Siren, r#"{ "state": "open" }"#, TemperatureUnit::C);
    assert_eq!(flag(&on, "on"), Some(true));
    assert_eq!(flag(&on, "alarm"), Some(true));
    let tested = shown(DeviceKind::Siren, r#"{ "state": "close", "alarm": true }"#, TemperatureUnit::C);
    assert_eq!(flag(&tested, "on"), Some(false));
    assert_eq!(flag(&tested, "alarm"), Some(true));
    let silent = shown(DeviceKind::Siren, "{}", TemperatureUnit::C);
    assert_eq!(flag(&silent, "on"), Some(false));
}

#[test]
fn unbridged_kinds_show_nothing() {
    let data = json(r#"{ "state": "open" }"#);
    assert!(DeviceKind::Hub.translate_state(&data, &TemperatureUnit::C).is_none());
    assert!(DeviceKind::Unknown("x".to_string()).translate_state(&data, &TemperatureUnit::C).is_none());
}

#[test]
fn lock_commands() {
    let (method, params) = DeviceKind::LockV2.translate_command(&json(r#"{ "locked": true }"#)).unwrap();
    assert_eq!(method, "setState");
    assert_eq!(params.text_at("state"), Some("lock"));
    let (_, params) = DeviceKind::Lock.translate_command(&json(r#"{ "locked": false }"#)).unwrap();
    assert_eq!(params.text_at("state"), Some("unlock"));
}

#[test]
fn commands_are_refused_for_a_reason() {
    let on_as_text = json(r#"{ "on": "true" }"#);
    let error = DeviceKind::Outlet.translate_command(&on_as_text).unwrap_err();
    assert!(matches!(error, CommandError::MissingOn));
    assert_eq!(error.message(), "cmd missing boolean 'on' field");
    let error = DeviceKind::Lock.translate_command(&json(r#"{ "on": true }"#)).unwrap_err();
    assert!(matches!(error, CommandError::MissingLocked));
    assert_eq!(error.message(), "cmd missing boolean 'locked' field");
    let error = DeviceKind::THSensor.translate_command(&json(r#"{ "on": true }"#)).unwrap_err();
    assert!(matches!(error, CommandError::ReadOnly(DeviceKind::THSensor)));
    assert_eq!(error.message(), "THSensor is read-only; commands are not supported");
    let error = DeviceKind::Hub.translate_command(&json("{}")).unwrap_err();
    assert_eq!(error.message(), "Hub is not a supported device kind");
    let odd = DeviceKind::Unknown("a \"b\"".to_string());
    let error = odd.translate_command(&json("{}")).unwrap_err();
    assert!(matches!(error, CommandError::NotSupported(_)));
    assert_eq!(error.message(), "Unknown(\"a \\\"b\\\"\") is not a supported device kind");
}

#[test]
fn commanded_relays_report_what_was_commanded() {
    for on in vec![true, false] {
        let cmd = json(if on { r#"{ "on": true }"# } else { r#"{ "on": false }"# });
        for kind in vec![DeviceKind::Outlet, DeviceKind::MultiOutlet, DeviceKind::Siren] {
            let (_, params) = kind.translate_command(&cmd).unwrap();
            let state = kind.translate_state(&params, &TemperatureUnit::C).unwrap();
            assert_eq!(flag(&state, "on"), Some(on));
        }
    }
}
