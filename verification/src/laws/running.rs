//! What comes of the bridge's work between two events.

use vstd::prelude::*;

use crate::actions::{ActionView, PublicationView, ReplyView};
use crate::bridge;
use crate::bridge::{BridgeView, PollStep};
use crate::inventory::SyncView;
use crate::laws::bridging;
use crate::laws::routing;
use crate::laws::syncing;
use crate::run;
use crate::run::{Event, RunView, TaskView};
use crate::yolink::types::DeviceInfo;

verus! {

/// Whatever happens, and whatever is replied to the tasks that come of it, the
/// bridge stays sound.
pub proof fn runs_keep_the_bridge_sound(bridge: BridgeView, event: Event, replies: Seq<ReplyView>)
    requires
        bridge.wf(),
    ensures
        after(bridge, event, replies).0.wf(),
        after(bridge, event, replies).0.bridge().wf(),
    decreases replies.len(),
{
    if replies.len() == 0 {
        poll_starts_sound(bridge, true);
        poll_starts_sound(bridge, false);
    } else {
        runs_keep_the_bridge_sound(bridge, event, replies.drop_last());
        run::step_keeps_wf(after(bridge, event, replies.drop_last()).0, replies.last());
    }
}

/// Where a bridge is after an event and a number of replies, and what it asks
/// for there.
pub open spec fn after(bridge: BridgeView, event: Event, replies: Seq<ReplyView>) -> (
    RunView,
    TaskView,
)
    decreases replies.len(),
{
    if replies.len() == 0 {
        RunView::react(bridge, event)
    } else {
        after(bridge, event, replies.drop_last()).0.step(replies.last())
    }
}

/// A poll of a sound bridge is sound from its start.
proof fn poll_starts_sound(bridge: BridgeView, sync_after: bool)
    requires
        bridge.wf(),
    ensures
        RunView::poll(bridge, sync_after).0.wf(),
{
    let steps = bridge.poll_steps();
    let positions = bridge::polled_positions(bridge.devices);
    routing::polled_positions_are_exact(bridge.devices);
    assert forall|k: int| 0 <= k < steps.len() implies (#[trigger] steps[k]).device
        < bridge.devices.len() by {
        assert(positions.contains(positions[k]));
        assert(steps[k].device == positions[k] as usize);
    }
}

/// How far work is from its end, coarsely.
pub open spec fn phase(run: RunView) -> int {
    match run {
        RunView::Idle(_) => 0,
        RunView::Syncing(_) => 1,
        RunView::Listing(_) => 2,
        _ => 3,
    }
}

/// How many more replies this phase of the work takes at the most.
pub open spec fn steps_left(run: RunView) -> int {
    match run {
        RunView::Idle(_) => 0,
        RunView::Reporting(_, rest) => rest.len() as int,
        RunView::Commanding(_) => 0,
        RunView::Pausing(poll) => 5 * (poll.steps.len() - poll.at),
        RunView::Fetching(poll) => 5 * (poll.steps.len() - poll.at) - 1,
        RunView::Announcing(poll, rest) => 5 * (poll.steps.len() - poll.at) - 3 + rest.len(),
        RunView::Listing(_) => 0,
        RunView::Syncing(sync) => syncing::steps_left(sync),
    }
}

/// Work always comes to an end: each reply, whatever it is, leads to a later
/// phase or leaves fewer replies to go in this one, until the bridge is idle.
pub proof fn work_comes_to_an_end(run: RunView, reply: ReplyView)
    requires
        run.wf(),
        !(run is Idle),
    ensures
        ({
            let now = run.step(reply).0;
            ||| phase(now) < phase(run)
            ||| phase(now) == phase(run) && 0 <= steps_left(now) < steps_left(run)
        }),
{
    match run {
        RunView::Syncing(sync) => {
            syncing::syncs_come_to_an_end(sync, reply);
        },
        _ => {},
    }
}

/// Reports, commands and the initial fetch leave the bridge as it is; only the
/// periodic true-up can change it.
pub proof fn only_true_ups_change_the_bridge(
    bridge: BridgeView,
    event: Event,
    replies: Seq<ReplyView>,
)
    requires
        !(event is PollDue),
    ensures
        after(bridge, event, replies).0.bridge() == bridge,
        phase(after(bridge, event, replies).0) == 0 || phase(after(bridge, event, replies).0) == 3,
        after(bridge, event, replies).0 matches RunView::Pausing(poll) ==> !poll.sync_after,
        after(bridge, event, replies).0 matches RunView::Fetching(poll) ==> !poll.sync_after,
        after(bridge, event, replies).0 matches RunView::Announcing(poll, _) ==> !poll.sync_after,
    decreases replies.len(),
{
    if replies.len() > 0 {
        only_true_ups_change_the_bridge(bridge, event, replies.drop_last());
    }
}

/// What a report leads to is handed out one by one, in order, whatever comes of
/// each; then the bridge is idle again.
pub proof fn reports_are_published_in_order(
    bridge: BridgeView,
    event: Event,
    replies: Seq<ReplyView>,
)
    requires
        event is Report,
    ensures
        ({
            let report = event->Report_0;
            let queue = bridge.report_publications(report.device_id@, report.data@);
            let k = replies.len() as int;
            if k < queue.len() {
                &&& after(bridge, event, replies).0 == RunView::Reporting(bridge, queue.skip(k + 1))
                &&& after(bridge, event, replies).1 == TaskView::Perform(
                    ActionView::Publish(queue[k]),
                )
            } else {
                &&& after(bridge, event, replies).0 == RunView::Idle(bridge)
                &&& after(bridge, event, replies).1 is Await
            }
        }),
    decreases replies.len(),
{
    let report = event->Report_0;
    let queue = bridge.report_publications(report.device_id@, report.data@);
    let k = replies.len() as int;
    if k == 0 {
        if queue.len() > 0 {
            assert(queue.drop_first() =~= queue.skip(1));
        }
    } else {
        reports_are_published_in_order(bridge, event, replies.drop_last());
        if k < queue.len() {
            assert(queue.skip(k).first() == queue[k]);
            assert(queue.skip(k).drop_first() =~= queue.skip(k + 1));
        }
    }
}

/// The devices that a poll has asked for their state so far.
pub open spec fn asked(bridge: BridgeView, event: Event, replies: Seq<ReplyView>) -> Seq<DeviceInfo>
    decreases replies.len(),
{
    let before = if replies.len() == 0 {
        Seq::empty()
    } else {
        asked(bridge, event, replies.drop_last())
    };
    match after(bridge, event, replies) {
        (RunView::Fetching(_), TaskView::Perform(ActionView::FetchState { device })) => before.push(
            device,
        ),
        _ => before,
    }
}

/// A poll asks the devices that it is to poll in order, whatever each of them
/// answers, and is only over when it has asked all of them.
pub proof fn polls_ask_every_device(bridge: BridgeView, event: Event, replies: Seq<ReplyView>)
    requires
        bridge.wf(),
        event is InitialFetchDue || event is PollDue,
    ensures
        ({
            let wanted = bridge.poll_steps().map_values(|step: PollStep| step.info);
            let so_far = asked(bridge, event, replies);
            &&& so_far.is_prefix_of(wanted)
            &&& phase(after(bridge, event, replies).0) < 3 ==> so_far == wanted
        }),
{
    asked_so_far(bridge, event, replies);
}

/// Where a poll is tells which devices it has asked.
proof fn asked_so_far(bridge: BridgeView, event: Event, replies: Seq<ReplyView>)
    requires
        bridge.wf(),
        event is InitialFetchDue || event is PollDue,
    ensures
        ({
            let steps = bridge.poll_steps();
            let wanted = steps.map_values(|step: PollStep| step.info);
            let so_far = asked(bridge, event, replies);
            match after(bridge, event, replies).0 {
                RunView::Pausing(poll) => {
                    &&& poll.steps == steps
                    &&& 0 <= poll.at < steps.len()
                    &&& so_far == wanted.take(poll.at)
                },
                RunView::Fetching(poll) => {
                    &&& poll.steps == steps
                    &&& 0 <= poll.at < steps.len()
                    &&& so_far == wanted.take(poll.at + 1)
                },
                RunView::Announcing(poll, _) => {
                    &&& poll.steps == steps
                    &&& 0 <= poll.at < steps.len()
                    &&& so_far == wanted.take(poll.at + 1)
                },
                RunView::Reporting(_, _) => false,
                RunView::Commanding(_) => false,
                _ => so_far == wanted,
            }
        }),
    decreases replies.len(),
{
    let steps = bridge.poll_steps();
    let wanted = steps.map_values(|step: PollStep| step.info);
    assert(wanted.take(0) =~= Seq::empty());
    assert(wanted.take(wanted.len() as int) =~= wanted);
    assert forall|i: int| 0 <= i < wanted.len() implies #[trigger] wanted.take(i).push(
        steps[i].info,
    ) =~= wanted.take(i + 1) by {}
    if replies.len() > 0 {
        asked_so_far(bridge, event, replies.drop_last());
    }
}

/// As long as a poll is going on, the bridge is the one that it started with; it
/// goes on to the device list exactly for the periodic true-up.
proof fn polls_keep_the_bridge(bridge: BridgeView, event: Event, replies: Seq<ReplyView>)
    requires
        event is InitialFetchDue || event is PollDue,
    ensures
        match after(bridge, event, replies).0 {
            RunView::Pausing(poll) => poll.bridge == bridge && poll.sync_after == (event is PollDue),
            RunView::Fetching(poll) => poll.bridge == bridge && poll.sync_after == (
            event is PollDue),
            RunView::Announcing(poll, _) => poll.bridge == bridge && poll.sync_after == (
            event is PollDue),
            RunView::Listing(same) => same == bridge && event is PollDue,
            _ => true,
        },
    decreases replies.len(),
{
    if replies.len() > 0 {
        polls_keep_the_bridge(bridge, event, replies.drop_last());
    }
}

/// A device that answers a poll is published under its own HomeCore ID: first its
/// availability, as it answered, then the full state that its answer shows for
/// its kind in the bridge's unit, if it shows one. The device is the one that
/// was last asked. One that does not answer is not published.
pub proof fn answers_are_published_as_the_device_asked(
    bridge: BridgeView,
    event: Event,
    replies: Seq<ReplyView>,
    reply: ReplyView,
    next: ReplyView,
)
    requires
        bridge.wf(),
        bridge.devices.len() <= usize::MAX,
        event is InitialFetchDue || event is PollDue,
        after(bridge, event, replies).0 is Fetching,
    ensures
        ({
            let count = asked(bridge, event, replies).len();
            let at = bridge::polled_positions(bridge.devices)[count - 1];
            let device = bridge.devices[at];
            let hc_id = "yolink_"@ + asked(bridge, event, replies).last().device_id@;
            let first = after(bridge, event, replies.push(reply)).1;
            let second = after(bridge, event, replies.push(reply).push(next)).1;
            &&& count > 0
            &&& 0 <= at < bridge.devices.len()
            &&& asked(bridge, event, replies).last() == device.info
            &&& match reply {
                ReplyView::State(data) => {
                    &&& first == TaskView::Perform(
                        ActionView::Publish(
                            PublicationView::Availability {
                                hc_id,
                                online: bridging::answers_online(data),
                            },
                        ),
                    )
                    &&& match device.kind.shown_state(data, bridge.temp_unit) {
                        Some(state) => second == TaskView::Perform(
                            ActionView::Publish(PublicationView::State { hc_id, state }),
                        ),
                        None => !publishes(second),
                    }
                },
                _ => !publishes(first),
            }
        }),
{
    asked_so_far(bridge, event, replies);
    polls_keep_the_bridge(bridge, event, replies);
    let one = replies.push(reply);
    let two = one.push(next);
    assert(one.drop_last() =~= replies);
    assert(two.drop_last() =~= one);
    let count = asked(bridge, event, replies).len();
    bridging::poll_steps_ask_their_device(bridge, 0, count - 1);
    let at = bridge::polled_positions(bridge.devices)[count - 1];
    let wanted = bridge.poll_steps().map_values(|step: PollStep| step.info);
    assert(wanted.take(count as int).last() == wanted[count - 1]);
    if let ReplyView::State(data) = reply {
        bridging::snapshots_become_full_states(bridge.devices[at], data, bridge.temp_unit);
    }
}

/// Whether a task is to publish something.
pub open spec fn publishes(task: TaskView) -> bool {
    task matches TaskView::Perform(action) && action is Publish
}

/// Where there is a delay between devices, each of them is asked right after a
/// pause of that length; where there is none, a poll never pauses.
pub proof fn polls_pause_before_each_device(
    bridge: BridgeView,
    event: Event,
    replies: Seq<ReplyView>,
)
    requires
        bridge.wf(),
        event is InitialFetchDue || event is PollDue,
    ensures
        after(bridge, event, replies).1 matches TaskView::Pause { millis } ==> millis
            == bridge.poll_device_delay_ms && millis > 0,
        after(bridge, event, replies).0 is Fetching && bridge.poll_device_delay_ms > 0 ==> {
            &&& replies.len() > 0
            &&& after(bridge, event, replies.drop_last()).1 == (TaskView::Pause {
                millis: bridge.poll_device_delay_ms,
            })
        },
    decreases replies.len(),
{
    pauses_are_as_configured(bridge, event, replies);
    if replies.len() > 0 {
        pauses_are_as_configured(bridge, event, replies.drop_last());
        polls_keep_the_bridge(bridge, event, replies.drop_last());
        asked_so_far(bridge, event, replies.drop_last());
        if let RunView::Fetching(poll) = after(bridge, event, replies.drop_last()).0 {
            bridging::poll_steps_ask_their_device(bridge, 0, poll.at + 1);
        }
        if let RunView::Announcing(poll, _) = after(bridge, event, replies.drop_last()).0 {
            bridging::poll_steps_ask_their_device(bridge, 0, poll.at + 1);
        }
    } else {
        bridging::poll_steps_ask_their_device(bridge, 0, 0);
    }
}

/// A pause is the delay between devices, and a poll that pauses says so.
proof fn pauses_are_as_configured(bridge: BridgeView, event: Event, replies: Seq<ReplyView>)
    requires
        bridge.wf(),
        event is InitialFetchDue || event is PollDue,
    ensures
        after(bridge, event, replies).0 is Pausing <==> after(bridge, event, replies).1 is Pause,
        after(bridge, event, replies).1 matches TaskView::Pause { millis } ==> millis
            == bridge.poll_device_delay_ms && millis > 0,
    decreases replies.len(),
{
    if replies.len() > 0 {
        pauses_are_as_configured(bridge, event, replies.drop_last());
        polls_keep_the_bridge(bridge, event, replies.drop_last());
        asked_so_far(bridge, event, replies.drop_last());
        if let RunView::Fetching(poll) = after(bridge, event, replies.drop_last()).0 {
            bridging::poll_steps_ask_their_device(bridge, 0, poll.at + 1);
        }
        if let RunView::Announcing(poll, _) = after(bridge, event, replies.drop_last()).0 {
            bridging::poll_steps_ask_their_device(bridge, 0, poll.at + 1);
        }
    } else {
        bridging::poll_steps_ask_their_device(bridge, 0, 0);
    }
}

/// When a poll is over, the periodic true-up asks for the device list, and the
/// initial fetch leaves the bridge idle.
pub proof fn true_ups_go_on_to_the_device_list(
    bridge: BridgeView,
    event: Event,
    replies: Seq<ReplyView>,
)
    requires
        event is InitialFetchDue || event is PollDue,
        phase(after(bridge, event, replies).0) < 3,
        replies.len() > 0 ==> phase(after(bridge, event, replies.drop_last()).0) == 3,
    ensures
        after(bridge, event, replies) == if event is PollDue {
            (RunView::Listing(bridge), TaskView::Perform(ActionView::ListDevices))
        } else {
            (RunView::Idle(bridge), TaskView::Await)
        },
{
    polls_keep_the_bridge(bridge, event, replies);
    if replies.len() > 0 {
        polls_keep_the_bridge(bridge, event, replies.drop_last());
        never_reports_during_polls(bridge, event, replies.drop_last());
    }
}

/// A poll has nothing to do with reports and commands.
proof fn never_reports_during_polls(bridge: BridgeView, event: Event, replies: Seq<ReplyView>)
    requires
        event is InitialFetchDue || event is PollDue,
    ensures
        !(after(bridge, event, replies).0 is Reporting),
        !(after(bridge, event, replies).0 is Commanding),
    decreases replies.len(),
{
    if replies.len() > 0 {
        never_reports_during_polls(bridge, event, replies.drop_last());
    }
}

/// A bridge that has asked for the device list syncs with the list that comes,
/// reply by reply, until that sync is over; without a list it is idle, as it
/// was.
pub proof fn true_ups_sync_with_the_list(
    bridge: BridgeView,
    list: Seq<DeviceInfo>,
    replies: Seq<ReplyView>,
    reply: ReplyView,
)
    ensures
        ({
            let first = RunView::Listing(bridge).step(ReplyView::Devices(list));
            let start = SyncView::start(bridge, list).visit();
            if start.0.stage is Finished {
                first == (RunView::Idle(start.0.bridge), TaskView::Await)
            } else {
                first == (RunView::Syncing(start.0), TaskView::Perform(start.1))
            }
        }),
        ({
            let s = syncing::after(bridge, list, replies);
            let next = s.step(reply);
            if next.0.stage is Finished {
                RunView::Syncing(s).step(reply) == (RunView::Idle(next.0.bridge), TaskView::Await)
            } else {
                RunView::Syncing(s).step(reply) == (
                    RunView::Syncing(next.0),
                    TaskView::Perform(next.1),
                )
            }
        }),
        !(reply is Devices) ==> RunView::Listing(bridge).step(reply) == (
            RunView::Idle(bridge),
            TaskView::Await,
        ),
{
}

/// A command is answered by one task, after which the bridge is idle again,
/// whatever came of it; an idle bridge stays so without an event.
pub proof fn commands_take_one_task(bridge: BridgeView, event: Event, reply: ReplyView)
    requires
        event is Command,
    ensures
        RunView::react(bridge, event) == RunView::command(
            bridge,
            event->hc_id@,
            event->cmd@,
        ),
        after(bridge, event, seq![reply]) == (RunView::Idle(bridge), TaskView::Await),
        RunView::Idle(bridge).step(reply) == (RunView::Idle(bridge), TaskView::Await),
{
    assert(seq![reply].drop_last() =~= Seq::empty());
    reveal_with_fuel(after, 2);
}

} // verus!
