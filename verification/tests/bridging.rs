use hc_yolink::actions::{Action, Publication, Reply};
use hc_yolink::bridge::{hc_id_for, Bridge, CommandOutcome};
use hc_yolink::config::TemperatureUnit;
use hc_yolink::devices::{AttributeValue, CommandError, DeviceKind};
use hc_yolink::json::Json;
use hc_yolink::run::{Event, Run, Task};
use hc_yolink::yolink::types::{DeviceInfo, YolinkReport};

fn failed() -> Reply {
    Reply::Failed("no answer".to_string())
}

fn json(text: &str) -> Json {
    Json::parse(text.as_bytes()).unwrap()
}

fn info(id: &str, name: &str, device_type: &str) -> DeviceInfo {
    DeviceInfo {
        device_id: id.to_string(),
        name: name.to_string(),
        device_type: device_type.to_string(),
        token: format!("token-{id}"),
        parent_device_id: None,
    }
}

fn entry(id: &str, name: &str, device_type: &str) -> (DeviceInfo, DeviceKind) {
    (info(id, name, device_type), DeviceKind::from_yolink_type(device_type))
}

fn bridge(delay_ms: u64) -> Bridge {
    let raw = vec![
        entry("d1", "Front door", "DoorSensor"),
        entry("d2", "Lamp", "Switch"),
        entry("d3", "Hub", "Hub"),
    ];
    Bridge::new(raw, TemperatureUnit::C, 3600, delay_ms)
}

fn report(id: &str, data: &str) -> YolinkReport {
    YolinkReport {
        device_id: id.to_string(),
        event: "Report".to_string(),
        data: json(data),
    }
}

fn fetched(task: Task) -> String {
    match task {
        Task::Perform(Action::FetchState { device }) => device.device_id,
        _ => panic!("no state was asked for"),
    }
}

#[test]
fn ids_lead_back_and_forth() {
    assert_eq!(hc_id_for("d1"), "yolink_d1");
    let b = bridge(0);
    assert_eq!(b.device_count(), 3);
    assert_eq!(b.find_by_yolink_id("d2").unwrap().hc_id, "yolink_d2");
    assert!(b.find_by_yolink_id("yolink_d2").is_none());
    assert_eq!(b.position_of("d3"), Some(2));
    assert_eq!(b.poll_interval_secs(), 3600);
    assert_eq!(b.temp_unit(), TemperatureUnit::C);
}

#[test]
fn the_later_of_two_equal_ids_is_found() {
    let raw = vec![entry("d", "First", "Switch"), entry("d", "Second", "Lock")];
    let b = Bridge::new(raw, TemperatureUnit::F, 1, 0);
    assert_eq!(b.device_count(), 2);
    assert_eq!(b.find_by_yolink_id("d").unwrap().info.name, "Second");
    assert_eq!(b.device(0).info.name, "First");
}

#[test]
fn reports_become_publications() {
    let b = bridge(0);
    let publications = b.handle_yolink_report(&report("d1", r#"{ "online": false, "state": "open" }"#));
    assert_eq!(publications.len(), 2);
    match &publications[0] {
        Publication::Availability { hc_id, online } => {
            assert_eq!(hc_id, "yolink_d1");
            assert!(!*online);
        }
        _ => panic!("no availability"),
    }
    match &publications[1] {
        Publication::Patch { hc_id, patch } => {
            assert_eq!(hc_id, "yolink_d1");
            assert!(matches!(patch.get("open"), Some(AttributeValue::Flag(true))));
        }
        _ => panic!("no patch"),
    }
    assert_eq!(b.handle_yolink_report(&report("d1", r#"{ "state": "close" }"#)).len(), 1);
    assert_eq!(b.handle_yolink_report(&report("d1", "{}")).len(), 0);
    assert_eq!(b.handle_yolink_report(&report("nobody", r#"{ "state": "open" }"#)).len(), 0);
}

#[test]
fn commands_reach_their_device() {
    let b = bridge(0);
    match b.handle_homecore_command("yolink_d2", &json(r#"{ "on": false }"#)) {
        CommandOutcome::Send { device, method, params } => {
            assert_eq!(device.device_id, "d2");
            assert_eq!(method, "setState");
            assert_eq!(params.text_at("state"), Some("close"));
        }
        _ => panic!("not sent"),
    }
    assert!(matches!(
        b.handle_homecore_command("d2", &json(r#"{ "on": true }"#)),
        CommandOutcome::Send { .. }
    ));
    assert!(matches!(
        b.handle_homecore_command("yolink_d2", &json("{}")),
        CommandOutcome::Refused(CommandError::MissingOn)
    ));
    assert!(matches!(
        b.handle_homecore_command("yolink_d1", &json(r#"{ "on": true }"#)),
        CommandOutcome::Refused(CommandError::ReadOnly(DeviceKind::DoorSensor))
    ));
    assert!(matches!(
        b.handle_homecore_command("yolink_d9", &json("{}")),
        CommandOutcome::UnknownDevice
    ));
}

#[test]
fn polls_skip_what_is_not_bridged() {
    let steps = bridge(250).poll_all_devices();
    assert_eq!(steps.len(), 2);
    assert_eq!(steps[0].device, 0);
    assert_eq!(steps[0].info.device_id, "d1");
    assert_eq!(steps[1].device, 1);
    assert_eq!(steps[1].delay_ms, Some(250));
    assert_eq!(bridge(0).poll_all_devices()[0].delay_ms, None);
}

#[test]
fn poll_replies_become_full_states() {
    let b = bridge(0);
    let publications = b.handle_poll_reply(1, &json(r#"{ "state": "open" }"#));
    assert_eq!(publications.len(), 2);
    assert!(matches!(
        publications[0],
        Publication::Availability { online: true, .. }
    ));
    match &publications[1] {
        Publication::State { hc_id, state } => {
            assert_eq!(hc_id, "yolink_d2");
            assert!(matches!(state.get("on"), Some(AttributeValue::Flag(true))));
        }
        _ => panic!("no state"),
    }
    let silent = b.handle_poll_reply(0, &json(r#"{ "online": false }"#));
    assert_eq!(silent.len(), 1);
    assert!(matches!(silent[0], Publication::Availability { online: false, .. }));
}

#[test]
fn a_report_is_published_piece_by_piece() {
    let run: Run = bridge(0).run();
    assert!(run.is_idle());
    let event = Event::Report(report("d2", r#"{ "online": true, "state": "open" }"#));
    let (run, task) = run.react(event);
    assert!(matches!(
        task,
        Task::Perform(Action::Publish(Publication::Availability { online: true, .. }))
    ));
    assert!(!run.is_idle());
    let (run, task) = run.advance(failed());
    assert!(matches!(task, Task::Perform(Action::Publish(Publication::Patch { .. }))));
    let (run, task) = run.advance(Reply::Done);
    assert!(matches!(task, Task::Await));
    assert!(run.is_idle());
}

#[test]
fn commands_are_sent_or_refused() {
    let cmd = |hc_id: &str, text: &str| Event::Command {
        hc_id: hc_id.to_string(),
        cmd: json(text),
    };
    let (run, task) = bridge(0).run().react(cmd("yolink_d2", r#"{ "on": true }"#));
    match task {
        Task::Send { device, method, params } => {
            assert_eq!(device.token, "token-d2");
            assert_eq!(method, "setState");
            assert_eq!(params.text_at("state"), Some("open"));
        }
        _ => panic!("not sent"),
    }
    let (run, task) = run.advance(Reply::Done);
    assert!(matches!(task, Task::Await));
    let (run, task) = run.react(cmd("yolink_d1", "{}"));
    assert!(matches!(task, Task::Refuse(CommandError::ReadOnly(_))));
    let (run, _) = run.advance(Reply::Done);
    let (run, task) = run.react(cmd("yolink_d7", "{}"));
    assert!(matches!(task, Task::Await));
    assert!(run.is_idle());
}

#[test]
fn the_initial_fetch_asks_everyone_and_no_more() {
    let (run, task) = bridge(5).run().react(Event::InitialFetchDue);
    assert!(matches!(task, Task::Pause { millis: 5 }));
    let (run, task) = run.advance(Reply::Done);
    assert_eq!(fetched(task), "d1");
    let (run, task) = run.advance(failed());
    assert!(matches!(task, Task::Pause { millis: 5 }));
    let (run, task) = run.advance(Reply::Done);
    assert_eq!(fetched(task), "d2");
    let (run, task) = run.advance(Reply::State(json(r#"{ "state": "close" }"#)));
    assert!(matches!(
        task,
        Task::Perform(Action::Publish(Publication::Availability { online: true, .. }))
    ));
    let (run, task) = run.advance(Reply::Done);
    assert!(matches!(task, Task::Perform(Action::Publish(Publication::State { .. }))));
    let (run, task) = run.advance(Reply::Done);
    assert!(matches!(task, Task::Await));
    assert!(run.is_idle());
}

#[test]
fn a_true_up_polls_and_then_syncs() {
    let (run, task) = bridge(0).run().react(Event::PollDue);
    assert_eq!(fetched(task), "d1");
    let (run, task) = run.advance(failed());
    assert_eq!(fetched(task), "d2");
    let (run, task) = run.advance(failed());
    assert!(matches!(task, Task::Perform(Action::ListDevices)));
    let list = vec![info("d1", "Front door", "DoorSensor")];
    let (run, task) = run.advance(Reply::Devices(list));
    match task {
        Task::Perform(Action::Unregister { hc_id }) => assert_eq!(hc_id, "yolink_d2"),
        _ => panic!("nothing unregistered"),
    }
    let (run, task) = run.advance(Reply::Done);
    match task {
        Task::Perform(Action::Unregister { hc_id }) => assert_eq!(hc_id, "yolink_d3"),
        _ => panic!("nothing unregistered"),
    }
    let (run, task) = run.advance(Reply::Done);
    assert!(matches!(task, Task::Await));
    // Retired devices are left alone from here on.
    let (run, task) = run.react(Event::Report(report("d2", r#"{ "state": "open" }"#)));
    assert!(matches!(task, Task::Await));
    let (run, task) = run.react(Event::PollDue);
    assert_eq!(fetched(task), "d1");
    let (run, task) = run.advance(failed());
    assert!(matches!(task, Task::Perform(Action::ListDevices)));
    let (run, task) = run.advance(failed());
    assert!(matches!(task, Task::Await));
    assert!(run.is_idle());
}
