use hc_yolink::config::Mode;
use hc_yolink::json::Json;
use hc_yolink::yolink::mqtt::{
    device_of_topic, end_of, handle_event, report_of, topic_prefix, MqttEvent, QualityOfService,
    SessionEnd, StreamStep, YolinkMqtt,
};
use hc_yolink::yolink::stream::{StreamAction, StreamReply};
use hc_yolink::yolink::types::{method_name, Budp};

fn publish(topic: &str, payload: &str) -> MqttEvent {
    MqttEvent::Publish {
        topic: topic.to_string(),
        payload: payload.as_bytes().to_vec(),
    }
}

#[test]
fn prefixes_of_both_modes() {
    assert_eq!(topic_prefix(Mode::Cloud, "home9"), "yl-home/home9");
    assert_eq!(topic_prefix(Mode::Local, "net7"), "ylsubnet/net7");
}

#[test]
fn topics_name_their_device() {
    for mode in vec![Mode::Cloud, Mode::Local] {
        let topic = format!("{}/d88b4c/report", topic_prefix(mode, "n1"));
        assert_eq!(device_of_topic(&topic), Some("d88b4c".to_string()));
    }
    assert_eq!(device_of_topic("yl-home/h/d/report/x"), Some("d".to_string()));
    assert_eq!(device_of_topic("yl-home/h/d"), None);
    assert_eq!(device_of_topic("yl-home/h/d/request"), None);
    assert_eq!(device_of_topic("yl-home/a/b/d/report"), None);
}

#[test]
fn reports_are_delivered() {
    let step = handle_event(publish(
        "yl-home/h/d1/report",
        r#"{ "event": "DoorSensor.Alert", "data": { "state": "open" } }"#,
    ));
    match step {
        StreamStep::Deliver(report) => {
            assert_eq!(report.device_id, "d1");
            assert_eq!(report.event, "DoorSensor.Alert");
            assert_eq!(report.data.text_at("state"), Some("open"));
        }
        _ => panic!("not delivered"),
    }
}

#[test]
fn reports_have_a_default_event() {
    let report = report_of("d".to_string(), Json::parse(b"{ \"event\": 5 }").unwrap());
    assert_eq!(report.event, "Report");
    assert!(matches!(report.data, Json::Null));
}

#[test]
fn other_events() {
    assert!(matches!(handle_event(MqttEvent::ConnAck), StreamStep::Wait));
    assert!(matches!(handle_event(MqttEvent::Other), StreamStep::Wait));
    assert!(matches!(handle_event(MqttEvent::Disconnect), StreamStep::Fail));
    assert!(matches!(handle_event(publish("yl-home/h/d", "{}")), StreamStep::Wait));
    assert!(matches!(handle_event(publish("a/b/c/report", "oops")), StreamStep::Skip));
}

#[test]
fn sessions() {
    let mqtt = YolinkMqtt::new("hub".to_string(), 18080);
    let session = mqtt.session("token", "ylsubnet/n", "0123456789abcdef");
    assert_eq!(session.client_id, "hc-yolink-01234567");
    assert_eq!(session.host, "hub");
    assert_eq!(session.port, 18080);
    assert_eq!(session.username, "token");
    assert_eq!(session.password, "");
    assert_eq!(session.keep_alive_secs, 30);
    assert!(session.clean_session);
    assert_eq!(session.capacity, 128);
    assert_eq!(session.topic, "ylsubnet/n/+/report");
    assert_eq!(session.qos, QualityOfService::AtLeastOnce);
}

#[test]
fn opened_sessions_have_a_name_of_their_own() {
    let mqtt = YolinkMqtt::new("hub".to_string(), 1);
    let session = mqtt.open_session("t", "p");
    let tail = session.client_id.strip_prefix("hc-yolink-").unwrap();
    assert_eq!(tail.len(), 8);
    assert!(tail.chars().all(|c| c.is_ascii_digit() || ('a'..='f').contains(&c)));
    let other = mqtt.open_session("t", "p");
    assert_ne!(session.client_id, other.client_id);
}

#[test]
fn reconnecting() {
    assert_eq!(YolinkMqtt::reconnect_delay(SessionEnd::Lost), Some(10));
    assert_eq!(YolinkMqtt::reconnect_delay(SessionEnd::ReceiverGone), None);
}

#[test]
fn replies_are_unwrapped() {
    let ok = Budp {
        code: "000000".to_string(),
        desc: None,
        data: Some(Json::Bool(true)),
    };
    assert_eq!(ok.into_data().unwrap().as_bool(), Some(true));
    let empty = Budp { code: "000000".to_string(), desc: None, data: None };
    assert!(matches!(empty.into_data(), Ok(Json::Null)));
    let failed = Budp {
        code: "000201".to_string(),
        desc: Some("Cannot connect to device".to_string()),
        data: Some(Json::Null),
    };
    let error = failed.into_data().unwrap_err();
    assert_eq!(error.message(), "YoLink API error 000201 — Cannot connect to device");
    let bare = Budp { code: "1".to_string(), desc: None, data: None };
    assert_eq!(bare.into_data().unwrap_err().message(), "YoLink API error 1 — ");
}

#[test]
fn method_names() {
    assert_eq!(method_name("Outlet", "setState"), "Outlet.setState");
}

#[test]
fn reports_can_be_copied() {
    let payload = Json::parse(b"{ \"data\": { \"a\": [1, { \"b\": \"x\" }] } }").unwrap();
    let report = report_of("d".to_string(), payload);
    let copy = report.clone();
    assert_eq!(copy.device_id, "d");
    assert_eq!(copy.event, "Report");
    match copy.data.get("a") {
        Some(Json::Array(items)) => {
            assert_eq!(items[0].as_u64(), Some(1));
            assert_eq!(items[1].text_at("b"), Some("x"));
        }
        _ => panic!("no array"),
    }
}

#[test]
fn ends_of_sessions() {
    assert_eq!(end_of(Some(true)), None);
    assert_eq!(end_of(Some(false)), Some(SessionEnd::ReceiverGone));
    assert_eq!(end_of(None), Some(SessionEnd::Lost));
}

#[test]
fn a_session_from_its_token_to_its_end() {
    let mqtt = YolinkMqtt::new("hub".to_string(), 18080);
    let (mut session, action) = mqtt.run_once("ylsubnet/n");
    assert!(matches!(action, StreamAction::GetToken));
    match session.advance(StreamReply::Token("tok".to_string())) {
        StreamAction::Subscribe(options) => {
            assert_eq!(options.username, "tok");
            assert_eq!(options.host, "hub");
            assert_eq!(options.topic, "ylsubnet/n/+/report");
            assert_eq!(options.qos, QualityOfService::AtLeastOnce);
        }
        _ => panic!("not subscribed"),
    }
    assert!(matches!(session.advance(StreamReply::Done), StreamAction::Poll));
    assert!(matches!(
        session.advance(StreamReply::Event(MqttEvent::ConnAck)),
        StreamAction::Poll
    ));
    let junk = StreamReply::Event(publish("ylsubnet/n/d/report", "oops"));
    assert!(matches!(session.advance(junk), StreamAction::NoteSkipped));
    assert!(matches!(session.advance(StreamReply::Done), StreamAction::Poll));
    let event = || StreamReply::Event(publish("ylsubnet/n/d/report", "{}"));
    match session.advance(event()) {
        StreamAction::Deliver(report) => assert_eq!(report.device_id, "d"),
        _ => panic!("not delivered"),
    }
    assert!(matches!(session.advance(StreamReply::Delivered(true)), StreamAction::Poll));
    assert!(matches!(session.advance(event()), StreamAction::Deliver(_)));
    assert!(matches!(
        session.advance(StreamReply::Delivered(false)),
        StreamAction::Finish(SessionEnd::ReceiverGone)
    ));
    assert!(matches!(
        session.advance(StreamReply::Failed),
        StreamAction::Finish(SessionEnd::ReceiverGone)
    ));
}

#[test]
fn failures_lose_a_session() {
    let mqtt = YolinkMqtt::new("hub".to_string(), 1);
    let lost = |action: StreamAction| matches!(action, StreamAction::Finish(SessionEnd::Lost));
    let (mut session, _) = mqtt.run_once("p");
    assert!(lost(session.advance(StreamReply::Failed)));
    assert!(lost(session.advance(StreamReply::Token("t".to_string()))));
    let (mut session, _) = mqtt.run_once("p");
    session.advance(StreamReply::Token("t".to_string()));
    assert!(lost(session.advance(StreamReply::Failed)));
    let (mut session, _) = mqtt.run_once("p");
    session.advance(StreamReply::Token("t".to_string()));
    session.advance(StreamReply::Done);
    assert!(lost(session.advance(StreamReply::Failed)));
    let (mut session, _) = mqtt.run_once("p");
    session.advance(StreamReply::Token("t".to_string()));
    session.advance(StreamReply::Done);
    assert!(lost(session.advance(StreamReply::Event(MqttEvent::Disconnect))));
}
