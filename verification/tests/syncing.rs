use hc_yolink::actions::{Action, Publication, Reply};
use hc_yolink::bridge::Bridge;
use hc_yolink::config::TemperatureUnit;
use hc_yolink::devices::DeviceKind;
use hc_yolink::json::Json;
use hc_yolink::yolink::types::DeviceInfo;

fn failed() -> Reply {
    Reply::Failed("no answer".to_string())
}

fn info(id: &str, name: &str, device_type: &str) -> DeviceInfo {
    DeviceInfo {
        device_id: id.to_string(),
        name: name.to_string(),
        device_type: device_type.to_string(),
        token: "t".to_string(),
        parent_device_id: Some("hub".to_string()),
    }
}

fn bridge() -> Bridge {
    let raw = vec![
        (info("a", "A", "Switch"), DeviceKind::Switch),
        (info("b", "B", "Lock"), DeviceKind::Lock),
    ];
    Bridge::new(raw, TemperatureUnit::F, 3600, 1000)
}

fn registered(action: &Action) -> (String, String, &'static str) {
    match action {
        Action::Register { hc_id, name, device_type, kind } => {
            assert_eq!(kind.homecore_device_type(), *device_type);
            (hc_id.clone(), name.clone(), *device_type)
        }
        _ => panic!("nothing registered"),
    }
}

#[test]
fn a_list_without_news_asks_for_nothing() {
    let list = vec![info("b", "B", "LockV2"), info("h", "Hub", "Hub"), info("a", "A", "Outlet")];
    let (sync, action) = bridge().sync_inventory(list);
    assert!(matches!(action, Action::Finish));
    assert!(sync.is_finished());
    let b = sync.into_bridge();
    assert_eq!(b.device_count(), 2);
    // The records are new all the same.
    assert_eq!(b.find_by_yolink_id("a").unwrap().kind, DeviceKind::Outlet);
    assert_eq!(b.find_by_yolink_id("b").unwrap().kind, DeviceKind::LockV2);
}

#[test]
fn renamed_devices_are_registered_again() {
    let list = vec![info("a", "A2", "Switch"), info("b", "B", "Lock")];
    let (mut sync, action) = bridge().sync_inventory(list);
    assert_eq!(registered(&action), ("yolink_a".to_string(), "A2".to_string(), "switch"));
    assert!(matches!(sync.advance(Reply::Done), Action::Finish));
    assert_eq!(sync.into_bridge().find_by_yolink_id("a").unwrap().info.name, "A2");
}

#[test]
fn a_failed_registration_keeps_the_old_record() {
    let list = vec![info("a", "A", "THSensor"), info("b", "B", "Lock")];
    let (mut sync, action) = bridge().sync_inventory(list);
    assert_eq!(registered(&action).2, "temperature_sensor");
    assert!(matches!(sync.advance(failed()), Action::Finish));
    let b = sync.into_bridge();
    assert_eq!(b.find_by_yolink_id("a").unwrap().kind, DeviceKind::Switch);
}

#[test]
fn new_devices_are_announced() {
    let list = vec![info("a", "A", "Switch"), info("b", "B", "Lock"), info("c", "C", "MotionSensor")];
    let (mut sync, action) = bridge().sync_inventory(list);
    assert_eq!(
        registered(&action),
        ("yolink_c".to_string(), "C".to_string(), "motion_sensor")
    );
    match sync.advance(Reply::Done) {
        Action::SubscribeCommands { hc_id } => assert_eq!(hc_id, "yolink_c"),
        _ => panic!("not subscribed"),
    }
    match sync.advance(failed()) {
        Action::FetchState { device } => assert_eq!(device.device_id, "c"),
        _ => panic!("not fetched"),
    }
    match sync.advance(Reply::State(Json::parse(b"{ \"alarm\": true }").unwrap())) {
        Action::Publish(Publication::Availability { hc_id, online }) => {
            assert_eq!(hc_id, "yolink_c");
            assert!(online);
        }
        _ => panic!("not announced"),
    }
    match sync.advance(failed()) {
        Action::Publish(Publication::State { hc_id, state }) => {
            assert_eq!(hc_id, "yolink_c");
            assert!(state.get("motion").is_some());
        }
        _ => panic!("not shown"),
    }
    assert!(!sync.is_finished());
    assert!(matches!(sync.advance(Reply::Done), Action::Finish));
    let b = sync.into_bridge();
    assert_eq!(b.position_of("c"), Some(2));
}

#[test]
fn new_devices_without_a_state_are_offline() {
    let list = vec![info("a", "A", "Switch"), info("b", "B", "Lock"), info("c", "C", "Siren")];
    let (mut sync, _) = bridge().sync_inventory(list);
    sync.advance(Reply::Done);
    sync.advance(Reply::Done);
    assert!(matches!(
        sync.advance(failed()),
        Action::Publish(Publication::Availability { online: false, .. })
    ));
    assert!(matches!(sync.advance(Reply::Done), Action::Finish));
    assert!(sync.into_bridge().find_by_yolink_id("c").is_some());
}

#[test]
fn new_devices_that_cannot_be_registered_are_left_out() {
    let list = vec![info("a", "A", "Switch"), info("b", "B", "Lock"), info("c", "C", "Siren")];
    let (mut sync, _) = bridge().sync_inventory(list);
    assert!(matches!(sync.advance(failed()), Action::Finish));
    assert_eq!(sync.into_bridge().device_count(), 2);
}

#[test]
fn missing_devices_are_retired() {
    let (mut sync, action) = bridge().sync_inventory(vec![info("b", "B", "Lock")]);
    match action {
        Action::Unregister { hc_id } => assert_eq!(hc_id, "yolink_a"),
        _ => panic!("not unregistered"),
    }
    assert!(matches!(sync.advance(Reply::Done), Action::Finish));
    let b = sync.into_bridge();
    assert_eq!(b.device_count(), 2);
    assert!(b.device(0).retired);
    assert!(b.find_by_yolink_id("a").is_none());
    assert_eq!(b.poll_all_devices().len(), 1);

    // A device that comes back is a new one.
    let (mut sync, action) = b.sync_inventory(vec![info("b", "B", "Lock"), info("a", "A", "Switch")]);
    assert_eq!(registered(&action).0, "yolink_a");
    sync.advance(Reply::Done);
    sync.advance(Reply::Done);
    sync.advance(failed());
    assert!(matches!(sync.advance(Reply::Done), Action::Finish));
    let b = sync.into_bridge();
    assert_eq!(b.device_count(), 3);
    assert_eq!(b.position_of("a"), Some(2));
}

#[test]
fn devices_that_cannot_be_unregistered_stay() {
    let (mut sync, _) = bridge().sync_inventory(Vec::new());
    match sync.advance(failed()) {
        Action::Unregister { hc_id } => assert_eq!(hc_id, "yolink_b"),
        _ => panic!("not unregistered"),
    }
    assert!(matches!(sync.advance(Reply::Done), Action::Finish));
    assert!(matches!(sync.advance(Reply::Done), Action::Finish));
    let b = sync.into_bridge();
    assert!(b.find_by_yolink_id("a").is_some());
    assert!(!b.device(0).retired);
    assert!(b.find_by_yolink_id("b").is_none());
    assert!(b.device(1).retired);
}

#[test]
fn the_last_entry_of_a_device_counts() {
    let list = vec![
        info("a", "A", "Switch"),
        info("b", "B", "Lock"),
        info("a", "A", "Siren"),
        info("a", "A", "Hub"),
    ];
    let (sync, action) = bridge().sync_inventory(list);
    assert!(matches!(action, Action::Finish));
    let b = sync.into_bridge();
    assert_eq!(b.find_by_yolink_id("a").unwrap().kind, DeviceKind::Siren);
    assert_eq!(b.find_by_yolink_id("a").unwrap().info.device_type, "Siren");
}

#[test]
fn a_second_sync_changes_nothing() {
    let list = vec![info("a", "A2", "Lock"), info("c", "C", "Switch"), info("h", "H", "Hub")];
    let (mut sync, action) = bridge().sync_inventory(list.clone());
    assert_eq!(registered(&action), ("yolink_a".to_string(), "A2".to_string(), "lock"));
    assert_eq!(registered(&sync.advance(Reply::Done)).0, "yolink_c");
    sync.advance(Reply::Done);
    sync.advance(Reply::Done);
    sync.advance(failed());
    assert!(matches!(sync.advance(Reply::Done), Action::Unregister { .. }));
    assert!(matches!(sync.advance(Reply::Done), Action::Finish));
    let (sync, action) = sync.into_bridge().sync_inventory(list);
    assert!(matches!(action, Action::Finish));
    assert!(sync.is_finished());
    let b = sync.into_bridge();
    assert_eq!(b.device_count(), 3);
    assert_eq!(b.find_by_yolink_id("a").unwrap().info.name, "A2");
    assert_eq!(b.find_by_yolink_id("a").unwrap().kind, DeviceKind::Lock);
    assert_eq!(b.position_of("c"), Some(2));
    assert!(b.find_by_yolink_id("b").is_none());
    assert!(b.device(1).retired);
}

#[test]
fn failed_registrations_leave_devices_as_they_were() {
    let list = vec![info("c", "C", "Switch"), info("a", "A2", "Switch"), info("d", "D", "Lock")];
    let (mut sync, action) = bridge().sync_inventory(list);
    assert_eq!(registered(&action).0, "yolink_c");
    assert_eq!(registered(&sync.advance(failed())).0, "yolink_a");
    assert_eq!(registered(&sync.advance(failed())).0, "yolink_d");
    sync.advance(Reply::Done);
    sync.advance(Reply::Done);
    sync.advance(failed());
    assert!(matches!(sync.advance(Reply::Done), Action::Unregister { .. }));
    assert!(matches!(sync.advance(Reply::Done), Action::Finish));
    let b = sync.into_bridge();
    assert!(b.find_by_yolink_id("c").is_none());
    assert_eq!(b.find_by_yolink_id("a").unwrap().info.name, "A");
    assert!(b.find_by_yolink_id("d").is_some());
    assert!(b.find_by_yolink_id("b").is_none());
}
