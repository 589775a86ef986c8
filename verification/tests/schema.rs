use hc_yolink::config::TemperatureUnit;
use hc_yolink::devices::{AttributeValue, DeviceKind};
use hc_yolink::json::Json;
use hc_yolink::schema::{schema_for, AttributeKind};

fn json(text: &str) -> Json {
    Json::parse(text.as_bytes()).unwrap()
}

fn all_kinds() -> Vec<DeviceKind> {
    vec![
        DeviceKind::Outlet,
        DeviceKind::SmartPlug,
        DeviceKind::Switch,
        DeviceKind::MultiOutlet,
        DeviceKind::DoorSensor,
        DeviceKind::MotionSensor,
        DeviceKind::LeakSensor,
        DeviceKind::THSensor,
        DeviceKind::VibrationSensor,
        DeviceKind::Lock,
        DeviceKind::LockV2,
        DeviceKind::Siren,
    ]
}

#[test]
fn every_bridged_kind_has_a_schema() {
    for kind in all_kinds() {
        assert!(schema_for(&kind).is_some(), "{kind:?} is bridged but declares nothing");
    }
    assert!(schema_for(&DeviceKind::Hub).is_none());
    assert!(schema_for(&DeviceKind::Unknown("x".into())).is_none());
}

#[test]
fn every_boolean_names_both_of_its_states() {
    for kind in all_kinds() {
        let schema = schema_for(&kind).unwrap();
        for (name, attr) in schema.attributes.entries() {
            if !matches!(attr.kind, AttributeKind::Bool) {
                continue;
            }
            let states = attr
                .states
                .as_ref()
                .unwrap_or_else(|| panic!("{kind:?}.{name} is a bool with no state names"));
            assert!(!states.when_true.label.is_empty(), "{kind:?}.{name}");
            assert!(!states.when_false.label.is_empty(), "{kind:?}.{name}");
            assert_ne!(
                states.when_true.label, states.when_false.label,
                "{kind:?}.{name} names both states the same thing"
            );
        }
    }
}

#[test]
fn contact_is_declared_the_way_this_plugin_actually_publishes_it() {
    let schema = schema_for(&DeviceKind::DoorSensor).unwrap();
    let contact = schema.attributes.get("contact").unwrap().states.as_ref().unwrap();
    assert_eq!(contact.get(true).label, "open");
    assert_eq!(contact.get(false).label, "closed");

    let state = DeviceKind::DoorSensor
        .translate_state(&json(r#"{ "state": "open" }"#), &TemperatureUnit::C)
        .unwrap();
    assert!(matches!(state.get("contact"), Some(AttributeValue::Flag(true))));
    assert!(matches!(state.get("open"), Some(AttributeValue::Flag(true))));
}

#[test]
fn every_declared_attribute_is_published() {
    // Reports rich enough to exercise every optional branch of each translator.
    let cases = vec![
        (DeviceKind::Switch, r#"{ "state": "open", "power": 12.5, "electricity": 3.25 }"#),
        (DeviceKind::Siren, r#"{ "state": "open" }"#),
        (DeviceKind::DoorSensor, r#"{ "state": "open", "battery": 4 }"#),
        (DeviceKind::MotionSensor, r#"{ "alarm": true, "battery": 3 }"#),
        (DeviceKind::LeakSensor, r#"{ "alarm": true, "battery": 2 }"#),
        (DeviceKind::VibrationSensor, r#"{ "alarm": true, "battery": 1 }"#),
        (
            DeviceKind::THSensor,
            r#"{ "temperature": 21.5, "humidity": 44.0, "tempUnit": "℃", "battery": 4 }"#,
        ),
        (
            DeviceKind::LockV2,
            r#"{
                "state": { "lock": "locked", "door": "open" },
                "battery": 4,
                "alert": { "type": "DoorOpenAlarm" },
                "attributes": { "autoLock": 30, "soundLevel": 2 }
            }"#,
        ),
    ];
    for (kind, report) in cases {
        let declared = schema_for(&kind).unwrap();
        let published = kind
            .translate_state(&json(report), &TemperatureUnit::C)
            .unwrap_or_else(|| panic!("{kind:?} translated nothing"));
        for (name, _) in declared.attributes.entries() {
            assert!(
                published.get(name).is_some(),
                "{kind:?} declares `{name}` but a full report does not publish it"
            );
        }
    }
}

#[test]
fn nothing_is_writable_that_the_command_path_refuses() {
    for kind in all_kinds() {
        let schema = schema_for(&kind).unwrap();
        for (name, attr) in schema.attributes.entries() {
            if attr.writable {
                assert!(
                    name == "on" || name == "locked",
                    "{kind:?}.{name} claims to be writable"
                );
                let cmd = Json::Object(vec![(name.clone(), Json::Bool(true))]);
                assert!(
                    kind.translate_command(&cmd).is_ok(),
                    "{kind:?} declares `{name}` writable but rejects the command"
                );
            }
        }
    }
}

#[test]
fn declarations_in_detail() {
    let relay = schema_for(&DeviceKind::Outlet).unwrap();
    assert_eq!(relay.attributes.entries().len(), 3);
    let on = relay.attributes.get("on").unwrap();
    assert!(on.writable);
    assert_eq!(on.label, "Power");
    assert_eq!(on.states.as_ref().unwrap().get(true).verb, "turns on");
    assert_eq!(on.states.as_ref().unwrap().get(false).verb, "turns off");
    let power = relay.attributes.get("power_w").unwrap();
    assert_eq!(power.kind, AttributeKind::Float);
    assert_eq!(power.unit, Some("W".to_string()));
    let energy = relay.attributes.get("energy_kwh").unwrap();
    assert_eq!(energy.unit, Some("kWh".to_string()));

    let door = schema_for(&DeviceKind::DoorSensor).unwrap();
    let battery = door.attributes.get("battery").unwrap();
    assert_eq!(battery.kind, AttributeKind::Integer);
    assert_eq!(battery.label, "Battery");
    assert_eq!(battery.unit, Some("%".to_string()));
    assert_eq!(battery.min, Some(0));
    assert_eq!(battery.max, Some(100));
    assert!(!battery.writable);

    let lock = schema_for(&DeviceKind::Lock).unwrap();
    assert_eq!(lock.attributes.entries().len(), 6);
    let delay = lock.attributes.get("auto_lock_secs").unwrap();
    assert_eq!(delay.label, "Auto-lock delay");
    assert_eq!(delay.unit, Some("s".to_string()));
    assert!(lock.attributes.get("on").is_none());

    let siren = schema_for(&DeviceKind::Siren).unwrap();
    assert_eq!(siren.attributes.get("on").unwrap().label, "Siren");
    let th = schema_for(&DeviceKind::THSensor).unwrap();
    assert_eq!(th.attributes.get("temperature_unit").unwrap().kind, AttributeKind::Text);
}
