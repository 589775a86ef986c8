//! How a session of the report stream goes, and how it ends.

use vstd::prelude::*;

use crate::config::Mode;
use crate::json;
use crate::json::JsonView;
use crate::laws::documents;
use crate::text;
use crate::yolink::mqtt;
use crate::yolink::mqtt::{MqttEvent, MqttSession, SessionEnd, StreamStep, YolinkMqtt};
use crate::yolink::stream::{StreamAction, StreamReply, StreamRun, StreamStage};

verus! {

/// Where a session is after a number of replies.
pub open spec fn after(replies: Seq<StreamReply>) -> StreamStage
    decreases replies.len(),
{
    if replies.len() == 0 {
        StreamStage::AwaitingToken
    } else {
        after(replies.drop_last()).step(replies.last())
    }
}

/// A session that has ended stays so, in the way that it ended.
pub proof fn ended_sessions_stay_ended(replies: Seq<StreamReply>, k: int)
    requires
        0 <= k <= replies.len(),
        after(replies.take(k)) is Ended,
    ensures
        after(replies) == after(replies.take(k)),
    decreases replies.len(),
{
    if k < replies.len() {
        let init = replies.drop_last();
        assert(init.take(k) =~= replies.take(k));
        ended_sessions_stay_ended(init, k);
    } else {
        assert(replies.take(k) =~= replies);
    }
}

/// A session ends for good exactly when a report could not be handed on because
/// nobody takes reports any more.
pub proof fn sessions_end_for_good_when_nobody_listens(replies: Seq<StreamReply>)
    ensures
        after(replies) == StreamStage::Ended(SessionEnd::ReceiverGone) <==> exists|k: int|
            0 <= k < replies.len() && #[trigger] replies[k] == StreamReply::Delivered(false)
                && after(replies.take(k)) is Delivering,
    decreases replies.len(),
{
    let gone = StreamStage::Ended(SessionEnd::ReceiverGone);
    if replies.len() > 0 {
        let init = replies.drop_last();
        let last = replies.len() - 1;
        sessions_end_for_good_when_nobody_listens(init);
        assert(replies.take(last) =~= init);
        if after(replies) == gone {
            if after(init) == gone {
                let k = choose|k: int|
                    0 <= k < init.len() && #[trigger] init[k] == StreamReply::Delivered(false)
                        && after(init.take(k)) is Delivering;
                assert(replies[k] == init[k]);
                assert(replies.take(k) =~= init.take(k));
            } else {
                assert(replies[last] == StreamReply::Delivered(false));
            }
        }
        if exists|k: int|
            0 <= k < replies.len() && #[trigger] replies[k] == StreamReply::Delivered(false)
                && after(replies.take(k)) is Delivering {
            let k = choose|k: int|
                0 <= k < replies.len() && #[trigger] replies[k] == StreamReply::Delivered(false)
                    && after(replies.take(k)) is Delivering;
            assert(replies.take(k + 1).drop_last() =~= replies.take(k));
            assert(replies.take(k + 1).last() == replies[k]);
            ended_sessions_stay_ended(replies, k + 1);
        }
    }
}

/// Whatever fails while a session lasts (the access token, the subscription or
/// waiting for an event), and a Disconnect of the broker, loses the session.
pub proof fn failures_lose_the_session(stage: StreamStage, event: MqttEvent)
    requires
        !(stage is Ended),
    ensures
        stage.step(StreamReply::Failed) == StreamStage::Ended(SessionEnd::Lost),
        event is Disconnect ==> StreamStage::Polling.step(StreamReply::Event(event))
            == StreamStage::Ended(SessionEnd::Lost),
{
}

/// Without an access token nothing is subscribed to: the session is lost at
/// once, whatever is replied afterwards.
pub proof fn sessions_without_a_token_are_lost(replies: Seq<StreamReply>)
    requires
        replies.len() > 0,
        !(replies[0] is Token),
    ensures
        after(replies) == StreamStage::Ended(SessionEnd::Lost),
{
    assert(replies.take(1).drop_last() =~= Seq::empty());
    assert(replies.take(1).last() == replies[0]);
    reveal_with_fuel(after, 2);
    ended_sessions_stay_ended(replies, 1);
}

/// A session subscribes at most once, and first of all.
pub proof fn sessions_subscribe_once(replies: Seq<StreamReply>)
    requires
        after(replies) is Subscribing,
    ensures
        replies.len() == 1,
        replies[0] is Token,
{
    reveal_with_fuel(after, 2);
}

/// A report on a device's topic is handed on as one of that device, with the
/// event and the data that its payload names. One whose payload is no document
/// is skipped, and what comes on any other topic is passed over.
pub proof fn reports_are_handed_on(
    topic: String,
    payload: Vec<u8>,
    step: StreamStep,
    run: StreamRun,
    action: StreamAction,
)
    requires
        mqtt::is_step_for(step, MqttEvent::Publish { topic, payload }),
        run.at() == StreamStage::Polling.step(
            StreamReply::Event(MqttEvent::Publish { topic, payload }),
        ),
        run.asks(action, StreamReply::Event(MqttEvent::Publish { topic, payload })),
    ensures
        match (mqtt::reporting_device(topic@), json::json_document(payload@)) {
            (Some(device), Some(document)) => {
                let event = match document.member("event"@) {
                    JsonView::Text(named) => named,
                    _ => "Report"@,
                };
                &&& step matches StreamStep::Deliver(report)
                &&& action matches StreamAction::Deliver(handed)
                &&& report.device_id@ == device && handed.device_id@ == device
                &&& report.event@ == event && handed.event@ == event
                &&& report.data@ == document.member("data"@)
                &&& handed.data@ == document.member("data"@)
                &&& run.at() is Delivering
            },
            (Some(_), None) => step is Skip && action is NoteSkipped,
            (None, _) => step is Wait && action is Poll,
        },
{
}

/// Other events of a connection: a Disconnect loses it, and everything else is
/// waited out.
pub proof fn other_events_are_waited_out(step: StreamStep, event: MqttEvent)
    requires
        mqtt::is_step_for(step, event),
    ensures
        event is ConnAck || event is Other ==> step is Wait && StreamStage::at_event(event)
            == StreamStage::Polling,
        event is Disconnect ==> step is Fail && StreamStage::at_event(event) == StreamStage::Ended(
            SessionEnd::Lost,
        ),
{
}

/// A session that is going well goes from its token to the subscription, from
/// there to waiting for events, and back to waiting after every report that was
/// taken and every payload that was skipped.
pub proof fn sessions_go_on(token: String, event: MqttEvent)
    ensures
        StreamStage::AwaitingToken.step(StreamReply::Token(token)) == StreamStage::Subscribing,
        StreamStage::Subscribing.step(StreamReply::Done) == StreamStage::Polling,
        StreamStage::Polling.step(StreamReply::Event(event)) == StreamStage::at_event(event),
        StreamStage::Delivering.step(StreamReply::Delivered(true)) == StreamStage::Polling,
        StreamStage::Skipping.step(StreamReply::Done) == StreamStage::Polling,
{
}

/// What a session asks for goes with what it waits for.
pub proof fn sessions_ask_for_what_they_wait_for(
    run: StreamRun,
    action: StreamAction,
    reply: StreamReply,
)
    requires
        run.asks(action, reply),
    ensures
        run.at() is AwaitingToken <==> action is GetToken,
        run.at() is Subscribing <==> action is Subscribe,
        run.at() is Polling <==> action is Poll,
        run.at() is Delivering <==> action is Deliver,
        run.at() is Skipping <==> action is NoteSkipped,
        run.at() matches StreamStage::Ended(end) ==> action == StreamAction::Finish(end),
{
}

/// How a session is opened: at the connection's host and port, as the holder of
/// the token, with a clean state, and with one subscription, which is to the
/// reports of all devices of the namespace and is served at least once.
pub proof fn sessions_are_opened_alike(
    mqtt: YolinkMqtt,
    session: MqttSession,
    token: Seq<char>,
    prefix: Seq<char>,
    random: Seq<char>,
)
    requires
        mqtt.opens(session, token, prefix, random),
        random.len() >= 8,
    ensures
        session.host@ == mqtt.host_name(),
        session.port == mqtt.port_number(),
        session.username@ == token,
        session.password@.len() == 0,
        session.keep_alive_secs == 30,
        session.clean_session,
        session.capacity == 128,
        session.topic@ == prefix + "/+/report"@,
        session.qos is AtLeastOnce,
        session.client_id@ == "hc-yolink-"@ + random.subrange(0, 8),
{
    assert(random.take(8) =~= random.subrange(0, 8));
}

/// A session is opened with the token that was replied.
pub proof fn sessions_are_opened_with_their_token(
    run: StreamRun,
    action: StreamAction,
    token: String,
)
    requires
        run.at() is Subscribing,
        run.asks(action, StreamReply::Token(token)),
    ensures
        action is Subscribe,
        action->Subscribe_0.username@ == token@,
        action->Subscribe_0.topic@ == run.prefix() + "/+/report"@,
        action->Subscribe_0.host@ == run.connection().host_name(),
        action->Subscribe_0.port == run.connection().port_number(),
{
}

/// The namespace of the topics, by mode.
pub proof fn namespaces_are_by_mode(network: Seq<char>)
    ensures
        mqtt::namespace(Mode::Cloud, network) == "yl-home/"@ + network,
        mqtt::namespace(Mode::Local, network) == "ylsubnet/"@ + network,
{
}

/// A topic carries the reports of a device exactly if it consists of two parts,
/// the device, and `report`, all without slashes, and possibly more behind
/// another slash.
#[verifier::spinoff_prover]
#[verifier::rlimit(60)]
pub proof fn topics_that_carry_reports(topic: Seq<char>, device: Seq<char>)
    requires
        mqtt::reporting_device(topic) == Some(device),
    ensures
        !device.contains('/'),
        exists|root: Seq<char>, network: Seq<char>, rest: Seq<char>|
            !root.contains('/') && !network.contains('/') && #[trigger] topic_of(
                root,
                network,
                device,
                rest,
            ) == topic && (rest.len() > 0 ==> rest[0] == '/'),
{
    let pieces = text::split_pieces(topic, '/');
    let root = pieces[0];
    documents::pieces_make_up_the_text(topic, '/');
    let t1 = topic.skip(root.len() as int + 1);
    documents::pieces_make_up_the_text(t1, '/');
    let network = pieces.skip(1)[0];
    let t2 = t1.skip(network.len() as int + 1);
    documents::pieces_make_up_the_text(t2, '/');
    assert(pieces.skip(1).skip(1)[0] == device);
    let t3 = t2.skip(device.len() as int + 1);
    documents::pieces_make_up_the_text(t3, '/');
    assert(pieces.skip(1).skip(1).skip(1)[0] == "report"@);
    let rest = t3.skip("report"@.len() as int);
    if text::split_pieces(t3, '/').len() == 1 {
        assert(rest =~= Seq::empty());
    } else {
        let head = "report"@.push('/');
        assert(t3 == head + t3.skip(head.len() as int));
        assert(rest[0] == '/');
    }
    assert(t3 =~= "report"@ + rest);
    assert(topic_of(root, network, device, rest) =~= topic);
}

/// A topic of two parts, a device and `report`, with something behind it.
pub open spec fn topic_of(
    root: Seq<char>,
    network: Seq<char>,
    device: Seq<char>,
    rest: Seq<char>,
) -> Seq<char> {
    root.push('/') + (network.push('/') + (device.push('/') + ("report"@ + rest)))
}

} // verus!
