//! One session of the stream of device reports, from the access token to its
//! end.
//!
//! Everything that needs the outside is handed out as a [`StreamAction`]; its
//! [`StreamReply`] takes the session one step further.

use vstd::prelude::*;

use super::mqtt;
use super::mqtt::{end_of, handle_event, MqttEvent, MqttSession, SessionEnd, StreamStep, YolinkMqtt};
use super::types::YolinkReport;
use crate::json;

verus! {

/// What a session is waiting for.
#[derive(Clone, Copy, Debug, PartialEq, Eq, Structural)]
pub enum StreamStage {
    /// The access token.
    AwaitingToken,
    /// The subscription.
    Subscribing,
    /// The next event of the connection.
    Polling,
    /// The hand-over of a report.
    Delivering,
    /// A note that a payload was skipped.
    Skipping,
    /// Nothing: it has ended.
    Ended(SessionEnd),
}

/// One thing that the surroundings are to do next.
#[derive(Debug)]
pub enum StreamAction {
    /// Obtain the access token.
    GetToken,
    /// Open a connection this way, and subscribe to its one topic.
    Subscribe(MqttSession),
    /// Wait for the next event of the connection.
    Poll,
    /// Hand a report on.
    Deliver(YolinkReport),
    /// Note that a payload was not JSON.
    NoteSkipped,
    /// Nothing more: the session has ended.
    Finish(SessionEnd),
}

/// What came of an action.
#[derive(Debug)]
pub enum StreamReply {
    /// The access token.
    Token(String),
    /// It was done.
    Done,
    /// The next event of the connection.
    Event(MqttEvent),
    /// Whether somebody took the report.
    Delivered(bool),
    /// It failed.
    Failed,
}

impl StreamStage {
    /// Where an event of the connection leads: a report of a device is handed
    /// on, a Disconnect loses the session, and everything else is passed over.
    pub open spec fn at_event(event: MqttEvent) -> StreamStage {
        match event {
            MqttEvent::ConnAck => StreamStage::Polling,
            MqttEvent::Other => StreamStage::Polling,
            MqttEvent::Disconnect => StreamStage::Ended(SessionEnd::Lost),
            MqttEvent::Publish { topic, payload } => if mqtt::reporting_device(topic@) is None {
                StreamStage::Polling
            } else if json::json_document(payload@) is None {
                StreamStage::Skipping
            } else {
                StreamStage::Delivering
            },
        }
    }

    /// Where a reply leads. Whatever fails loses the session; a report that
    /// nobody takes ends it for good.
    pub open spec fn step(self, reply: StreamReply) -> StreamStage {
        match (self, reply) {
            (StreamStage::Ended(end), _) => StreamStage::Ended(end),
            (StreamStage::AwaitingToken, StreamReply::Token(_)) => StreamStage::Subscribing,
            (StreamStage::Subscribing, StreamReply::Done) => StreamStage::Polling,
            (StreamStage::Polling, StreamReply::Event(event)) => Self::at_event(event),
            (StreamStage::Delivering, StreamReply::Delivered(true)) => StreamStage::Polling,
            (StreamStage::Delivering, StreamReply::Delivered(false)) => StreamStage::Ended(
                SessionEnd::ReceiverGone,
            ),
            (StreamStage::Skipping, StreamReply::Done) => StreamStage::Polling,
            _ => StreamStage::Ended(SessionEnd::Lost),
        }
    }
}

/// A session under way.
#[derive(Debug)]
pub struct StreamRun<'a> {
    mqtt: &'a YolinkMqtt,
    topic_prefix: &'a str,
    stage: StreamStage,
}

impl<'a> StreamRun<'a> {
    /// The connection that the session belongs to.
    pub closed spec fn connection(self) -> YolinkMqtt {
        *self.mqtt
    }

    /// The namespace of the topics.
    pub closed spec fn prefix(self) -> Seq<char> {
        self.topic_prefix@
    }

    /// What the session is waiting for.
    pub closed spec fn at(self) -> StreamStage {
        self.stage
    }

    /// Whether `action` is what the session asks for after `reply` has led it to
    /// where it is now.
    pub open spec fn asks(self, action: StreamAction, reply: StreamReply) -> bool {
        match self.at() {
            StreamStage::AwaitingToken => action is GetToken,
            StreamStage::Subscribing => {
                &&& action is Subscribe
                &&& reply is Token
                &&& exists|random: Seq<char>| #[trigger]
                    mqtt::is_random_uuid(random) && self.connection().opens(
                        action->Subscribe_0,
                        reply->Token_0@,
                        self.prefix(),
                        random,
                    )
            },
            StreamStage::Polling => action is Poll,
            StreamStage::Delivering => {
                &&& action is Deliver
                &&& reply is Event
                &&& mqtt::is_step_for(StreamStep::Deliver(action->Deliver_0), reply->Event_0)
            },
            StreamStage::Skipping => action is NoteSkipped,
            StreamStage::Ended(end) => action == StreamAction::Finish(end),
        }
    }

    /// Takes the session one step further with what came of the last action.
    pub fn advance(&mut self, reply: StreamReply) -> (action: StreamAction)
        ensures
            final(self).at() == old(self).at().step(reply),
            final(self).connection() == old(self).connection(),
            final(self).prefix() == old(self).prefix(),
            final(self).asks(action, reply),
    {
        match (self.stage, reply) {
            (StreamStage::Ended(end), _) => StreamAction::Finish(end),
            (StreamStage::AwaitingToken, StreamReply::Token(token)) => {
                self.stage = StreamStage::Subscribing;
                StreamAction::Subscribe(self.mqtt.open_session(token.as_str(), self.topic_prefix))
            },
            (StreamStage::Subscribing, StreamReply::Done) => self.poll(),
            (StreamStage::Polling, StreamReply::Event(event)) => match handle_event(event) {
                StreamStep::Wait => self.poll(),
                StreamStep::Deliver(report) => {
                    self.stage = StreamStage::Delivering;
                    StreamAction::Deliver(report)
                },
                StreamStep::Skip => {
                    self.stage = StreamStage::Skipping;
                    StreamAction::NoteSkipped
                },
                StreamStep::Fail => self.end(SessionEnd::Lost),
            },
            (StreamStage::Delivering, StreamReply::Delivered(delivered)) => match end_of(
                Some(delivered),
            ) {
                Some(end) => self.end(end),
                None => self.poll(),
            },
            (StreamStage::Skipping, StreamReply::Done) => self.poll(),
            _ => self.end(SessionEnd::Lost),
        }
    }

    /// Waits for the next event.
    fn poll(&mut self) -> (action: StreamAction)
        ensures
            final(self).at() == StreamStage::Polling,
            final(self).connection() == old(self).connection(),
            final(self).prefix() == old(self).prefix(),
            action is Poll,
    {
        self.stage = StreamStage::Polling;
        StreamAction::Poll
    }

    /// Ends the session.
    fn end(&mut self, end: SessionEnd) -> (action: StreamAction)
        ensures
            final(self).at() == StreamStage::Ended(end),
            final(self).connection() == old(self).connection(),
            final(self).prefix() == old(self).prefix(),
            action == StreamAction::Finish(end),
    {
        self.stage = StreamStage::Ended(end);
        StreamAction::Finish(end)
    }
}

impl YolinkMqtt {
    /// Begins a session: at first it asks for the access token.
    pub fn run_once<'a>(&'a self, topic_prefix: &'a str) -> (begun: (StreamRun<'a>, StreamAction))
        ensures
            begun.0.at() == StreamStage::AwaitingToken,
            begun.0.connection() == *self,
            begun.0.prefix() == topic_prefix@,
            begun.1 is GetToken,
    {
        (
            StreamRun { mqtt: self, topic_prefix, stage: StreamStage::AwaitingToken },
            StreamAction::GetToken,
        )
    }
}

} // verus!
