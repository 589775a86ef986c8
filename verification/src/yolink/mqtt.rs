//! The stream of device reports from the YoLink MQTT broker: how to subscribe,
//! and what each event of the connection means.

use vstd::prelude::*;
use vstd::string::*;

use super::types::YolinkReport;
use crate::config::Mode;
use crate::json;
use crate::json::{Json, JsonView};
use crate::text;
use crate::text::{joined, same_text, split};

verus! {

// ---------------------------------------------------------------------------
// Topics
// ---------------------------------------------------------------------------

/// The namespace of all topics: the home in the cloud, or the local network.
pub open spec fn namespace(mode: Mode, network: Seq<char>) -> Seq<char> {
    match mode {
        Mode::Cloud => "yl-home/"@ + network,
        Mode::Local => "ylsubnet/"@ + network,
    }
}

/// The topic prefix of a mode.
/// - Cloud: `yl-home/{home_id}`
/// - Local: `ylsubnet/{net_id}`
pub fn topic_prefix(mode: Mode, network: &str) -> (prefix: String)
    ensures
        prefix@ == namespace(mode, network@),
{
    match mode {
        Mode::Cloud => joined("yl-home/", network),
        Mode::Local => joined("ylsubnet/", network),
    }
}

/// The device that a topic carries reports of: the third part of a topic whose
/// fourth part is `report`.
pub open spec fn reporting_device(topic: Seq<char>) -> Option<Seq<char>> {
    let parts = text::split_pieces(topic, '/');
    if parts.len() >= 4 && parts[3] == "report"@ {
        Some(parts[2])
    } else {
        None
    }
}

/// The device that a topic carries reports of, or `None` if it carries none.
pub fn device_of_topic(topic: &str) -> (device_id: Option<String>)
    ensures
        match device_id {
            Some(id) => reporting_device(topic@) == Some(id@),
            None => reporting_device(topic@) is None,
        },
{
    let parts = split(topic, '/');
    if parts.len() < 4 || !same_text(parts[3], "report") {
        return None;
    }
    Some(parts[2].to_string())
}

// ---------------------------------------------------------------------------
// Reports
// ---------------------------------------------------------------------------

/// The event that a payload names; "Report" where it names none.
pub open spec fn event_name(payload: JsonView) -> Seq<char> {
    match payload.member("event"@).as_text() {
        Some(event) => event,
        None => "Report"@,
    }
}

/// Whether `report` is what a payload says about a device.
pub open spec fn is_report_of(
    report: YolinkReport,
    device_id: Seq<char>,
    payload: JsonView,
) -> bool {
    &&& report.device_id@ == device_id
    &&& report.event@ == event_name(payload)
    &&& report.data@ == payload.member("data"@)
}

/// The report that a parsed payload makes for a device.
pub fn report_of(device_id: String, payload: Json) -> (report: YolinkReport)
    ensures
        is_report_of(report, device_id@, payload@),
{
    let event = match payload.text_at("event") {
        Some(event) => event.to_string(),
        None => "Report".to_string(),
    };
    let data = payload.into_member("data");
    YolinkReport { device_id, event, data }
}

/// An event of the MQTT connection.
#[derive(Debug)]
pub enum MqttEvent {
    /// The broker accepted the connection.
    ConnAck,
    /// A message on a subscribed topic.
    Publish { topic: String, payload: Vec<u8> },
    /// The broker is closing the connection.
    Disconnect,
    /// Anything else.
    Other,
}

/// What an event of the connection asks for.
#[derive(Debug)]
pub enum StreamStep {
    /// Nothing; wait for the next event.
    Wait,
    /// Hand a report on.
    Deliver(YolinkReport),
    /// Nothing, but a report was not JSON.
    Skip,
    /// Give the connection up.
    Fail,
}

/// Whether `step` is what the event asks for.
pub open spec fn is_step_for(step: StreamStep, event: MqttEvent) -> bool {
    match event {
        MqttEvent::ConnAck => step is Wait,
        MqttEvent::Other => step is Wait,
        MqttEvent::Disconnect => step is Fail,
        MqttEvent::Publish { topic, payload } => match reporting_device(topic@) {
            None => step is Wait,
            Some(device_id) => match json::json_document(payload@) {
                None => step is Skip,
                Some(document) => step is Deliver && is_report_of(
                    step->Deliver_0,
                    device_id,
                    document,
                ),
            },
        },
    }
}

/// Decides what to do about an event of the connection.
pub fn handle_event(event: MqttEvent) -> (step: StreamStep)
    ensures
        is_step_for(step, event),
{
    match event {
        MqttEvent::ConnAck => StreamStep::Wait,
        MqttEvent::Other => StreamStep::Wait,
        MqttEvent::Disconnect => StreamStep::Fail,
        MqttEvent::Publish { topic, payload } => match device_of_topic(topic.as_str()) {
            None => StreamStep::Wait,
            Some(device_id) => match Json::parse(payload.as_slice()) {
                None => StreamStep::Skip,
                Some(document) => StreamStep::Deliver(report_of(device_id, document)),
            },
        },
    }
}

// ---------------------------------------------------------------------------
// Sessions
// ---------------------------------------------------------------------------

/// How hard a broker tries to deliver a message.
#[derive(Clone, Copy, Debug, PartialEq, Eq, Structural)]
pub enum QualityOfService {
    AtMostOnce,
    AtLeastOnce,
    ExactlyOnce,
}

/// How one MQTT session is opened.
#[derive(Debug)]
pub struct MqttSession {
    pub client_id: String,
    pub host: String,
    pub port: u16,
    pub username: String,
    pub password: String,
    pub keep_alive_secs: u64,
    pub clean_session: bool,
    /// How many requests may be queued on the connection.
    pub capacity: usize,
    /// What is subscribed to, and how.
    pub topic: String,
    pub qos: QualityOfService,
}

/// Whether a character is a lower-case hexadecimal digit.
pub open spec fn is_hex(c: char) -> bool {
    ('0' <= c && c <= '9') || ('a' <= c && c <= 'f')
}

/// The shape of a random UUID in text: groups of 8, 4, 4, 4 and 12 hexadecimal
/// digits joined by hyphens, the third group starting with the version.
pub open spec fn is_random_uuid(text: Seq<char>) -> bool {
    &&& text.len() == 36
    &&& forall|i: int|
        0 <= i < 36 ==> if i == 8 || i == 13 || i == 18 || i == 23 {
            #[trigger] text[i] == '-'
        } else {
            is_hex(text[i])
        }
    &&& text[14] == '4'
}

/// A random UUID in text: `uuid::Uuid::new_v4`, shown by its `Display`. Every
/// outcome has the hyphenated shape; which digits come is left to chance.
#[verifier::external_body]
fn random_uuid() -> (text: String)
    ensures
        is_random_uuid(text@),
{
    uuid::Uuid::new_v4().to_string()
}

/// The MQTT connection to YoLink.
#[derive(Debug)]
pub struct YolinkMqtt {
    host: String,
    port: u16,
}

/// Why a session ended.
#[derive(Clone, Copy, Debug, PartialEq, Eq, Structural)]
pub enum SessionEnd {
    /// Nobody takes reports any more.
    ReceiverGone,
    /// The connection failed.
    Lost,
}

/// How a session ends, if it does: for good when a report could not be handed
/// on because nobody takes reports any more, and as a lost one when a call
/// failed, for which there is no `delivered`.
pub fn end_of(delivered: Option<bool>) -> (end: Option<SessionEnd>)
    ensures
        end == match delivered {
            Some(true) => None,
            Some(false) => Some(SessionEnd::ReceiverGone),
            None => Some(SessionEnd::Lost),
        },
{
    match delivered {
        Some(true) => None,
        Some(false) => Some(SessionEnd::ReceiverGone),
        None => Some(SessionEnd::Lost),
    }
}

impl YolinkMqtt {
    pub closed spec fn host_name(self) -> Seq<char> {
        self.host@
    }

    pub closed spec fn port_number(self) -> u16 {
        self.port
    }

    pub fn new(host: String, port: u16) -> (mqtt: Self)
        ensures
            mqtt.host_name() == host@,
            mqtt.port_number() == port,
    {
        YolinkMqtt { host, port }
    }

    /// Whether a session is opened the way this connection is, with the access
    /// token as user name, under a client name that ends in the first eight
    /// characters of `random`.
    pub open spec fn opens(
        self,
        session: MqttSession,
        token: Seq<char>,
        prefix: Seq<char>,
        random: Seq<char>,
    ) -> bool {
        &&& session.client_id@ == "hc-yolink-"@ + random.take(8)
        &&& session.host@ == self.host_name()
        &&& session.port == self.port_number()
        &&& session.username@ == token
        &&& session.password@ == Seq::<char>::empty()
        &&& session.keep_alive_secs == 30
        &&& session.clean_session
        &&& session.capacity == 128
        &&& session.topic@ == prefix + "/+/report"@
        &&& session.qos == QualityOfService::AtLeastOnce
    }

    /// The session for an access token and a topic prefix, told apart from
    /// others by a random text.
    pub fn session(&self, token: &str, topic_prefix: &str, random: &str) -> (session: MqttSession)
        requires
            is_ascii(random),
            random@.len() >= 8,
        ensures
            self.opens(session, token@, topic_prefix@, random@),
    {
        let tail = random.substring_ascii(0, 8);
        assert(tail@ =~= random@.take(8));
        MqttSession {
            client_id: joined("hc-yolink-", tail),
            host: self.host.clone(),
            port: self.port,
            username: token.to_string(),
            password: String::new(),
            keep_alive_secs: 30,
            clean_session: true,
            capacity: 128,
            topic: joined(topic_prefix, "/+/report"),
            qos: QualityOfService::AtLeastOnce,
        }
    }

    /// A session under a client name of its own.
    pub fn open_session(&self, token: &str, topic_prefix: &str) -> (session: MqttSession)
        ensures
            exists|random: Seq<char>|
                #[trigger] is_random_uuid(random) && self.opens(
                    session,
                    token@,
                    topic_prefix@,
                    random,
                ),
    {
        let random = random_uuid();
        proof {
            assert forall|i: int| 0 <= i < random@.len() implies '\0' <= #[trigger] random@[i]
                <= '\u{7f}' by {
                assert(random@[i] == '-' || is_hex(random@[i]));
            }
        }
        self.session(token, topic_prefix, random.as_str())
    }

    /// How many seconds to wait before the next session; `None` if there is to
    /// be none.
    pub fn reconnect_delay(end: SessionEnd) -> (delay: Option<u64>)
        ensures
            delay == match end {
                SessionEnd::ReceiverGone => None,
                SessionEnd::Lost => Some(10u64),
            },
    {
        match end {
            SessionEnd::ReceiverGone => None,
            SessionEnd::Lost => Some(10),
        }
    }
}

} // verus!
