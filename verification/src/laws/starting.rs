//! What comes of a whole start.

use vstd::prelude::*;

use crate::actions::{ActionView, PublicationView, ReplyView};
use crate::bridge;
use crate::config::{Config, Mode, TemperatureUnit, YolinkConfig};
use crate::devices::{AttributeValueView, DeviceKind};
use crate::laws::bridging;
use crate::laws::naming;
use crate::laws::states;
use crate::measure::Conversion;
use crate::startup;
use crate::startup::{StartupStageView, StartupView};
use crate::yolink::types::DeviceInfo;

verus! {

/// Whether a reply is the kind of success that a stage waits for. A device's
/// state may be missing, and starting the stream of reports cannot fail.
pub open spec fn succeeds(stage: StartupStageView, reply: ReplyView) -> bool {
    match stage {
        StartupStageView::Authenticating => reply is Done,
        StartupStageView::AskingHome => reply is HomeId,
        StartupStageView::OpeningStream => true,
        StartupStageView::Connecting => reply is Done,
        StartupStageView::Listing => reply is Devices,
        StartupStageView::Registering => reply is Done,
        StartupStageView::Subscribing => reply is Done,
        StartupStageView::Fetching => true,
        StartupStageView::Announcing(_) => reply is Done,
        StartupStageView::Showing => reply is Done,
        StartupStageView::Finished => true,
        StartupStageView::Aborted(_) => false,
    }
}

/// A start fails exactly when something that it needs does not succeed.
pub proof fn starts_fail_only_on_failures(s: StartupView, reply: ReplyView)
    requires
        s.wf(),
    ensures
        s.step(reply).1 is Abort <==> !succeeds(s.stage, reply),
        s.step(reply).0.stage is Aborted <==> !succeeds(s.stage, reply),
{
    match (s.stage, reply) {
        (StartupStageView::Listing, ReplyView::Devices(list)) => {
            visit_does_not_abort(StartupView { devices: list, next: 0, ..s });
        },
        _ => {},
    }
    visit_does_not_abort(
        StartupView {
            bridged: s.bridged.push((s.current(), s.current_kind()->0)),
            next: s.next + 1,
            ..s
        },
    );
}

/// A start that fails ends with the error of what failed, and keeps to it.
pub proof fn failed_starts_carry_their_error(s: StartupView, error: Seq<char>, reply: ReplyView)
    requires
        s.wf(),
        !succeeds(s.stage, ReplyView::Failed(error)),
        !(s.stage is Aborted),
    ensures
        s.step(ReplyView::Failed(error)).1 == ActionView::Abort(error),
        s.step(ReplyView::Failed(error)).0.step(reply).1 == ActionView::Abort(error),
{
}

/// Going on to the next device does not fail.
proof fn visit_does_not_abort(s: StartupView)
    ensures
        !(s.visit().1 is Abort),
        !(s.visit().0.stage is Aborted),
    decreases s.devices.len() - s.next,
{
    if s.next < s.devices.len() && s.current_kind() is None {
        visit_does_not_abort(StartupView { next: s.next + 1, ..s });
    }
}

/// When a start is done, it has bridged exactly the devices of the list whose
/// type is bridged, in order, each as its kind.
pub proof fn finished_starts_bridge_what_is_listed(s: StartupView)
    requires
        s.wf(),
        s.stage is Finished,
    ensures
        s.bridged == startup::bridged_of(s.devices),
{
    assert(s.devices.take(s.next) =~= s.devices);
}

/// Every listed device of a bridged type can be found in the bridge that comes
/// of the list, and everything in it is of a bridged kind.
pub proof fn listed_devices_are_bridged(devices: Seq<DeviceInfo>)
    ensures
        forall|i: int|
            0 <= i < devices.len() && DeviceKind::bridged_type(
                (#[trigger] devices[i]).device_type@,
            ) is Some ==> bridge::positions(startup::bridged_of(devices)).contains_key(
                devices[i].device_id@,
            ),
        forall|k: int|
            0 <= k < startup::bridged_of(devices).len() ==> (
            #[trigger] startup::bridged_of(devices)[k]).1.is_bridged(),
    decreases devices.len(),
{
    if devices.len() > 0 {
        let init = devices.drop_last();
        listed_devices_are_bridged(init);
        let before = startup::bridged_of(init);
        let all = startup::bridged_of(devices);
        if DeviceKind::bridged_type(devices.last().device_type@) is Some {
            assert(all.drop_last() =~= before);
        }
        assert forall|i: int|
            0 <= i < devices.len() && DeviceKind::bridged_type(
                (#[trigger] devices[i]).device_type@,
            ) is Some implies bridge::positions(all).contains_key(devices[i].device_id@) by {
            if i < devices.len() - 1 {
                assert(init[i] == devices[i]);
                assert(bridge::positions(before).contains_key(init[i].device_id@));
            }
        }
        assert forall|k: int| 0 <= k < all.len() implies (#[trigger] all[k]).1.is_bridged() by {
            if k < before.len() {
                assert(all[k] == before[k]);
            }
        }
    }
}

/// Where a start is after a number of replies, and what it asks for there; at
/// first it asks for its access token.
pub open spec fn after(s: StartupView, replies: Seq<ReplyView>) -> (StartupView, ActionView)
    decreases replies.len(),
{
    if replies.len() == 0 {
        (s, s.authentication())
    } else {
        after(s, replies.drop_last()).0.step(replies.last())
    }
}

/// With the initial fetch disabled, a start asks no device for its state, and
/// publishes nothing, whatever is replied.
pub proof fn disabled_fetches_ask_for_no_state(
    s: StartupView,
    cfg: YolinkConfig,
    replies: Seq<ReplyView>,
)
    requires
        s.is_fresh(cfg),
        cfg.initial_fetch_delay_secs == 0,
    ensures
        !(after(s, replies).1 is FetchState),
        !(after(s, replies).1 is Publish),
{
    disabled_fetches_stay_disabled(s, cfg, replies);
}

/// With the initial fetch disabled, a start never gets to a device's state.
proof fn disabled_fetches_stay_disabled(
    s: StartupView,
    cfg: YolinkConfig,
    replies: Seq<ReplyView>,
)
    requires
        s.is_fresh(cfg),
        cfg.initial_fetch_delay_secs == 0,
    ensures
        !after(s, replies).0.fetches,
        !has_to_do_with_states(after(s, replies)),
    decreases replies.len(),
{
    if replies.len() > 0 {
        disabled_fetches_stay_disabled(s, cfg, replies.drop_last());
        let t = after(s, replies.drop_last()).0;
        if let ReplyView::Devices(list) = replies.last() {
            visit_leaves_states_alone(StartupView { devices: list, next: 0, ..t });
        }
        visit_leaves_states_alone(
            StartupView {
                bridged: t.bridged.push((t.current(), t.current_kind()->0)),
                next: t.next + 1,
                ..t
            },
        );
    }
}

/// Whether a start waits for a device's state or its publication, or asks for
/// either.
spec fn has_to_do_with_states(at: (StartupView, ActionView)) -> bool {
    ||| at.0.stage is Fetching
    ||| at.0.stage is Announcing
    ||| at.0.stage is Showing
    ||| at.1 is FetchState
    ||| at.1 is Publish
}

/// Going on to the next device has nothing to do with states.
proof fn visit_leaves_states_alone(s: StartupView)
    ensures
        !has_to_do_with_states(s.visit()),
        s.visit().0.fetches == s.fetches,
    decreases s.devices.len() - s.next,
{
    if s.next < s.devices.len() && s.current_kind() is None {
        visit_leaves_states_alone(StartupView { next: s.next + 1, ..s });
    }
}

/// How far a start is from its end, coarsely.
pub open spec fn phase(stage: StartupStageView) -> int {
    match stage {
        StartupStageView::Authenticating => 6,
        StartupStageView::AskingHome => 5,
        StartupStageView::OpeningStream => 4,
        StartupStageView::Connecting => 3,
        StartupStageView::Listing => 2,
        StartupStageView::Finished => 0,
        StartupStageView::Aborted(_) => 0,
        _ => 1,
    }
}

/// How many more replies the devices take at the most.
pub open spec fn steps_left(s: StartupView) -> int {
    let ahead = 5 * (s.devices.len() - s.next);
    match s.stage {
        StartupStageView::Registering => ahead,
        StartupStageView::Subscribing => ahead - 1,
        StartupStageView::Fetching => ahead - 2,
        StartupStageView::Announcing(_) => ahead - 3,
        StartupStageView::Showing => ahead - 4,
        _ => 0,
    }
}

/// Going on to the next device brings the end nearer.
proof fn visit_steps(s: StartupView)
    requires
        0 <= s.next <= s.devices.len(),
    ensures
        phase(s.visit().0.stage) <= 1,
        0 <= steps_left(s.visit().0) <= 5 * (s.devices.len() - s.next),
    decreases s.devices.len() - s.next,
{
    if s.next < s.devices.len() && s.current_kind() is None {
        visit_steps(StartupView { next: s.next + 1, ..s });
    }
}

/// Every start comes to an end: each reply, whatever it is, leads to a later
/// phase or leaves fewer replies to go in this one.
pub proof fn starts_come_to_an_end(s: StartupView, reply: ReplyView)
    requires
        s.wf(),
        !(s.stage is Finished),
        !(s.stage is Aborted),
    ensures
        ({
            let now = s.step(reply).0;
            ||| phase(now.stage) < phase(s.stage)
            ||| phase(now.stage) == phase(s.stage) && 0 <= steps_left(now) < steps_left(s)
        }),
{
    match (s.stage, reply) {
        (StartupStageView::Listing, ReplyView::Devices(list)) => {
            visit_steps(StartupView { devices: list, next: 0, ..s });
        },
        _ => {},
    }
    if s.is_at_device() {
        visit_steps(
            StartupView {
                bridged: s.bridged.push((s.current(), s.current_kind()->0)),
                next: s.next + 1,
                ..s
            },
        );
    }
}

/// A start keeps to its settings, and is sound at every point, whatever is
/// replied.
pub proof fn starts_keep_to_their_settings(
    s: StartupView,
    cfg: YolinkConfig,
    replies: Seq<ReplyView>,
)
    requires
        s.is_fresh(cfg),
    ensures
        ({
            let now = after(s, replies).0;
            &&& now.wf()
            &&& now.mode == cfg.mode
            &&& now.endpoints == s.endpoints
            &&& now.temp_unit == cfg.temperature_unit
            &&& now.poll_interval_secs == cfg.poll_interval_secs
            &&& now.poll_device_delay_ms == cfg.poll_device_delay_ms
            &&& now.fetches <==> cfg.initial_fetch_delay_secs > 0
        }),
    decreases replies.len(),
{
    if replies.len() == 0 {
        assert(s.devices.take(0) =~= Seq::empty());
    } else {
        starts_keep_to_their_settings(s, cfg, replies.drop_last());
        let t = after(s, replies.drop_last()).0;
        startup::step_keeps_wf(t, replies.last());
        if let ReplyView::Devices(list) = replies.last() {
            visit_keeps_settings(StartupView { devices: list, next: 0, ..t });
        }
        visit_keeps_settings(
            StartupView {
                bridged: t.bridged.push((t.current(), t.current_kind()->0)),
                next: t.next + 1,
                ..t
            },
        );
    }
}

/// Going on to the next device changes nothing but where the start is.
proof fn visit_keeps_settings(s: StartupView)
    ensures
        ({
            let now = s.visit().0;
            now == (StartupView { next: now.next, stage: now.stage, ..s })
        }),
        s.visit().1 is Register || s.visit().1 is Finish,
    decreases s.devices.len() - s.next,
{
    if s.next < s.devices.len() && s.current_kind() is None {
        visit_keeps_settings(StartupView { next: s.next + 1, ..s });
    }
}

/// A start asks for its access token where the section of its mode says, with
/// the credentials of that section.
pub proof fn fresh_starts_ask_for_their_token(s: StartupView, cfg: Config)
    requires
        cfg.yolink.is_complete(),
        s.is_fresh(cfg.yolink),
    ensures
        after(s, Seq::empty()).1 == match cfg.yolink.mode {
            Mode::Cloud => ActionView::Authenticate {
                token_url: cfg.yolink.cloud->0.api_url@ + "/open/yolink/token"@,
                client_id: cfg.yolink.cloud->0.uaid@,
                client_secret: cfg.yolink.cloud->0.secret_key@,
            },
            Mode::Local => ActionView::Authenticate {
                token_url: "http://"@ + cfg.yolink.local->0.hub_ip@ + ":"@
                    + crate::text::decimal_digits(cfg.yolink.local->0.api_port as nat)
                    + "/open/yolink/token"@,
                client_id: cfg.yolink.local->0.client_id@,
                client_secret: cfg.yolink.local->0.client_secret@,
            },
        },
{
    naming::endpoints_follow_the_section(s.endpoints, cfg);
}

/// With its token, a local start opens the stream of its network at the hub,
/// connects to HomeCore, and asks for the devices.
pub proof fn local_starts_go_in_order(s: StartupView, cfg: Config, opened: ReplyView)
    requires
        cfg.yolink.is_complete(),
        s.is_fresh(cfg.yolink),
        cfg.yolink.mode is Local,
    ensures
        ({
            let done = ReplyView::Done;
            &&& after(s, seq![done]).1 == (ActionView::OpenEventStream {
                host: cfg.yolink.local->0.hub_ip@,
                port: cfg.yolink.local->0.mqtt_port,
                topic_prefix: "ylsubnet/"@ + cfg.yolink.local->0.net_id@,
            })
            &&& after(s, seq![done, opened]).1 is ConnectHomecore
            &&& after(s, seq![done, opened, done]).1 is ListDevices
            &&& after(s, seq![done, opened, done]).0.stage is Listing
        }),
{
    let done = ReplyView::Done;
    naming::endpoints_follow_the_section(s.endpoints, cfg);
    reveal_with_fuel(after, 4);
    assert(seq![done].drop_last() =~= Seq::empty());
    assert(seq![done, opened].drop_last() =~= seq![done]);
    assert(seq![done, opened, done].drop_last() =~= seq![done, opened]);
}

/// With its token, a cloud start asks for the home, opens the stream of that
/// home at the cloud's broker, connects to HomeCore, and asks for the devices.
pub proof fn cloud_starts_go_in_order(
    s: StartupView,
    cfg: Config,
    home: Seq<char>,
    opened: ReplyView,
)
    requires
        cfg.yolink.is_complete(),
        s.is_fresh(cfg.yolink),
        cfg.yolink.mode is Cloud,
    ensures
        ({
            let done = ReplyView::Done;
            let id = ReplyView::HomeId(home);
            &&& after(s, seq![done]).1 is GetHomeId
            &&& after(s, seq![done, id]).1 == (ActionView::OpenEventStream {
                host: cfg.yolink.cloud->0.mqtt_host@,
                port: cfg.yolink.cloud->0.mqtt_port,
                topic_prefix: "yl-home/"@ + home,
            })
            &&& after(s, seq![done, id, opened]).1 is ConnectHomecore
            &&& after(s, seq![done, id, opened, done]).1 is ListDevices
            &&& after(s, seq![done, id, opened, done]).0.stage is Listing
        }),
{
    let done = ReplyView::Done;
    let id = ReplyView::HomeId(home);
    naming::endpoints_follow_the_section(s.endpoints, cfg);
    reveal_with_fuel(after, 5);
    assert(seq![done].drop_last() =~= Seq::empty());
    assert(seq![done, id].drop_last() =~= seq![done]);
    assert(seq![done, id, opened].drop_last() =~= seq![done, id]);
    assert(seq![done, id, opened, done].drop_last() =~= seq![done, id, opened]);
}

/// A start that gets the device list goes through that list from its beginning.
pub proof fn starts_go_through_the_list_they_get(s: StartupView, list: Seq<DeviceInfo>)
    requires
        s.wf(),
        s.stage is Listing,
    ensures
        s.step(ReplyView::Devices(list)) == (StartupView { devices: list, ..s }).visit(),
        s.next == 0,
        s.step(ReplyView::Devices(list)).0.devices == list,
        s.bridged.len() == 0,
{
    assert(s.devices.take(s.next) =~= Seq::empty());
    visit_keeps_settings(StartupView { devices: list, ..s });
}

/// A start that comes to a listed device of a bridged type registers it: under
/// the HomeCore ID made of its YoLink ID, by its name and as its type. Other
/// types are passed over, and past the last device the start is done.
pub proof fn listed_devices_are_registered(s: StartupView, kind: DeviceKind)
    requires
        0 <= s.next <= s.devices.len(),
        s.next < s.devices.len() ==> kind.is_of_type(s.devices[s.next].device_type@),
    ensures
        ({
            let entry = s.devices[s.next];
            if s.next == s.devices.len() {
                &&& s.visit().1 is Finish
                &&& s.visit().0.stage is Finished
                &&& s.visit().0.bridged == s.bridged
            } else if kind is Hub || kind is Unknown {
                s.visit() == (StartupView { next: s.next + 1, ..s }).visit()
            } else {
                &&& s.visit().0 == (StartupView { stage: StartupStageView::Registering, ..s })
                &&& s.visit().1 == (ActionView::Register {
                    hc_id: "yolink_"@ + entry.device_id@,
                    name: entry.name@,
                    device_type: kind.device_type(),
                    kind,
                })
            }
        }),
{
    if s.next < s.devices.len() {
        naming::bridged_types_have_bridged_kinds(kind, s.devices[s.next].device_type@);
    }
}

/// A registered device is subscribed to; then it is asked for its state, unless
/// the initial fetch is disabled, in which case it is bridged at once.
pub proof fn registered_devices_are_subscribed_to(s: StartupView, kind: DeviceKind)
    requires
        s.wf(),
        s.stage is Registering,
        kind.is_of_type(s.devices[s.next].device_type@),
    ensures
        ({
            let entry = s.devices[s.next];
            let first = s.step(ReplyView::Done);
            let second = first.0.step(ReplyView::Done);
            &&& first.1 == (ActionView::SubscribeCommands {
                hc_id: "yolink_"@ + entry.device_id@,
            })
            &&& s.fetches ==> second.1 == (ActionView::FetchState { device: entry })
                && second.0.stage is Fetching && second.0.next == s.next
            &&& !s.fetches ==> second.0.bridged == s.bridged.push((entry, kind))
                && !(second.1 is FetchState) && !(second.1 is Publish)
        }),
{
    naming::bridged_types_have_bridged_kinds(kind, s.devices[s.next].device_type@);
    let first = s.step(ReplyView::Done).0;
    visit_keeps_settings(
        StartupView {
            bridged: first.bridged.push((first.current(), first.current_kind()->0)),
            next: first.next + 1,
            ..first
        },
    );
}

/// A device that a start has asked for its state is announced as it answers: its
/// availability is what `online` says, or else that it is reachable, and without
/// an answer that it is not. Then comes the full state that the answer shows for
/// its kind in the configured unit, if it shows one. Then it is bridged, with
/// its entry and its kind.
pub proof fn devices_are_announced_as_they_answer(
    s: StartupView,
    cfg: YolinkConfig,
    replies: Seq<ReplyView>,
    kind: DeviceKind,
    reply: ReplyView,
)
    requires
        s.is_fresh(cfg),
        after(s, replies).0.stage is Fetching,
        kind.is_of_type(
            after(s, replies).0.devices[after(s, replies).0.next].device_type@,
        ),
    ensures
        ({
            let now = after(s, replies).0;
            let entry = now.devices[now.next];
            let hc_id = "yolink_"@ + entry.device_id@;
            let first = now.step(reply);
            let second = first.0.step(ReplyView::Done);
            let third = second.0.step(ReplyView::Done);
            let (online, shown) = match reply {
                ReplyView::State(data) => (
                    bridging::answers_online(data),
                    kind.shown_state(data, cfg.temperature_unit),
                ),
                _ => (false, None),
            };
            &&& first.1 == ActionView::Publish(PublicationView::Availability { hc_id, online })
            &&& match shown {
                Some(state) => {
                    &&& second.1 == ActionView::Publish(PublicationView::State { hc_id, state })
                    &&& !(third.1 is Publish)
                    &&& third.0.bridged == now.bridged.push((entry, kind))
                },
                None => {
                    &&& !(second.1 is Publish)
                    &&& second.0.bridged == now.bridged.push((entry, kind))
                },
            }
        }),
{
    starts_keep_to_their_settings(s, cfg, replies);
    let now = after(s, replies).0;
    naming::bridged_types_have_bridged_kinds(kind, now.devices[now.next].device_type@);
    let first = now.step(reply).0;
    let second = first.step(ReplyView::Done).0;
    visit_keeps_settings(
        StartupView {
            bridged: first.bridged.push((first.current(), first.current_kind()->0)),
            next: first.next + 1,
            ..first
        },
    );
    visit_keeps_settings(
        StartupView {
            bridged: second.bridged.push((second.current(), second.current_kind()->0)),
            next: second.next + 1,
            ..second
        },
    );
}

/// Every full state that a start publishes is that of the device it is at, as
/// the device answered before last, and in the configured unit: a temperature
/// carries the unit's letter and is converted exactly if the device reports in
/// the other unit.
pub proof fn starts_publish_in_the_configured_unit(
    s: StartupView,
    cfg: YolinkConfig,
    replies: Seq<ReplyView>,
    kind: DeviceKind,
)
    requires
        s.is_fresh(cfg),
        after(s, replies).1 matches ActionView::Publish(published) && published is State,
        kind.is_of_type(
            after(s, replies).0.devices[after(s, replies).0.next].device_type@,
        ),
    ensures
        ({
            let now = after(s, replies).0;
            let published = after(s, replies).1->Publish_0;
            let state = published->state;
            &&& published->State_hc_id == "yolink_"@ + now.devices[now.next].device_id@
            &&& replies.len() >= 2
            &&& replies[replies.len() - 2] matches ReplyView::State(data)
            &&& kind.shown_state(data, cfg.temperature_unit) == Some(state)
            &&& kind is THSensor ==> {
                let celsius = match (
                    data.member("tempUnit"@).as_text(),
                    data.member("state"@).member("tempUnit"@).as_text(),
                ) {
                    (Some(text), _) => text.contains('C') || text == "℃"@,
                    (None, Some(text)) => text.contains('C') || text == "℃"@,
                    (None, None) => true,
                };
                &&& state["temperature_unit"@] == AttributeValueView::Label(
                    match cfg.temperature_unit {
                        TemperatureUnit::C => "C"@,
                        TemperatureUnit::F => "F"@,
                    },
                )
                &&& state["temperature"@]->Measured_0.reading.conversion == match (
                    celsius,
                    cfg.temperature_unit,
                ) {
                    (true, TemperatureUnit::F) => Conversion::CelsiusToFahrenheit,
                    (false, TemperatureUnit::C) => Conversion::FahrenheitToCelsius,
                    _ => Conversion::Unchanged,
                }
            }
        }),
{
    let init = replies.drop_last();
    starts_keep_to_their_settings(s, cfg, replies);
    starts_keep_to_their_settings(s, cfg, init);
    let t = after(s, init).0;
    if let ReplyView::Devices(list) = replies.last() {
        visit_keeps_settings(StartupView { devices: list, next: 0, ..t });
    }
    visit_keeps_settings(
        StartupView {
            bridged: t.bridged.push((t.current(), t.current_kind()->0)),
            next: t.next + 1,
            ..t
        },
    );
    assert(t.stage is Announcing);
    let earlier = init.drop_last();
    starts_keep_to_their_settings(s, cfg, earlier);
    let u = after(s, earlier).0;
    if let ReplyView::Devices(list) = init.last() {
        visit_leaves_states_alone(StartupView { devices: list, next: 0, ..u });
    }
    visit_leaves_states_alone(
        StartupView {
            bridged: u.bridged.push((u.current(), u.current_kind()->0)),
            next: u.next + 1,
            ..u
        },
    );
    assert(u.stage is Fetching);
    assert(init.last() == replies[replies.len() - 2]);
    naming::bridged_types_have_bridged_kinds(kind, u.devices[u.next].device_type@);
    if let ReplyView::State(data) = init.last() {
        states::temperatures_are_shown_in_the_configured_unit(data, cfg.temperature_unit);
    }
}

/// What a list calls for is what its parts call for, one after the other; a
/// single device calls for itself, as the kind of its type, if that is bridged.
pub proof fn lists_are_bridged_device_by_device(
    left: Seq<DeviceInfo>,
    right: Seq<DeviceInfo>,
    device: DeviceInfo,
    kind: DeviceKind,
)
    requires
        kind.is_of_type(device.device_type@),
    ensures
        startup::bridged_of(left + right) == startup::bridged_of(left) + startup::bridged_of(right),
        startup::bridged_of(seq![device]) == if kind is Hub || kind is Unknown {
            Seq::empty()
        } else {
            seq![(device, kind)]
        },
        startup::bridged_of(Seq::empty()).len() == 0,
    decreases right.len(),
{
    naming::bridged_types_have_bridged_kinds(kind, device.device_type@);
    reveal_with_fuel(startup::bridged_of, 2);
    assert(seq![device].drop_last() =~= Seq::empty());
    assert(startup::bridged_of(seq![device]) =~= if kind is Hub || kind is Unknown {
        Seq::empty()
    } else {
        seq![(device, kind)]
    });
    if right.len() == 0 {
        assert(left + right =~= left);
    } else {
        lists_are_bridged_device_by_device(left, right.drop_last(), device, kind);
        assert((left + right).drop_last() =~= left + right.drop_last());
        assert((left + right).last() == right.last());
    }
    assert(startup::bridged_of(left + right) =~= startup::bridged_of(left) + startup::bridged_of(
        right,
    ));
}

/// The bridge that comes of a start has the configured unit, interval and delay,
/// and finds every listed device of a bridged type: with its last entry on the
/// list, and as the kind of its type.
pub proof fn started_bridges_are_as_configured(
    s: StartupView,
    cfg: YolinkConfig,
    replies: Seq<ReplyView>,
    p: int,
    kind: DeviceKind,
)
    requires
        s.is_fresh(cfg),
        after(s, replies).0.stage is Finished,
        0 <= p < after(s, replies).0.devices.len(),
        kind.is_of_type(after(s, replies).0.devices[p].device_type@),
        !(kind is Hub || kind is Unknown),
        is_last_entry(after(s, replies).0.devices, p),
    ensures
        ({
            let made = after(s, replies).0.bridge();
            let entry = after(s, replies).0.devices[p];
            let found = made.found(entry.device_id@);
            &&& made.temp_unit == cfg.temperature_unit
            &&& made.poll_interval_secs == cfg.poll_interval_secs
            &&& made.poll_device_delay_ms == cfg.poll_device_delay_ms
            &&& found is Some
            &&& found->0.info == entry
            &&& found->0.kind == kind
            &&& found->0.hc_id == "yolink_"@ + entry.device_id@
            &&& !found->0.retired
        }),
{
    let now = after(s, replies).0;
    starts_keep_to_their_settings(s, cfg, replies);
    finished_starts_bridge_what_is_listed(now);
    last_entries_are_found(now.devices, p, kind);
}

/// Whether no later entry of a list is a bridged device of the same ID.
pub open spec fn is_last_entry(devices: Seq<DeviceInfo>, p: int) -> bool {
    forall|q: int|
        p < q < devices.len() && DeviceKind::bridged_type(
            (#[trigger] devices[q]).device_type@,
        ) is Some ==> devices[q].device_id@ != devices[p].device_id@
}

/// The last entry of an ID is the one that is found.
proof fn last_entries_are_found(devices: Seq<DeviceInfo>, p: int, kind: DeviceKind)
    requires
        0 <= p < devices.len(),
        kind.is_of_type(devices[p].device_type@),
        !(kind is Hub || kind is Unknown),
        is_last_entry(devices, p),
    ensures
        ({
            let bridged = startup::bridged_of(devices);
            let id = devices[p].device_id@;
            &&& bridge::positions(bridged).contains_key(id)
            &&& 0 <= bridge::positions(bridged)[id] < bridged.len()
            &&& bridged[bridge::positions(bridged)[id]] == (devices[p], kind)
        }),
    decreases devices.len(),
{
    naming::bridged_types_have_bridged_kinds(kind, devices[p].device_type@);
    let init = devices.drop_last();
    let before = startup::bridged_of(init);
    let all = startup::bridged_of(devices);
    if DeviceKind::bridged_type(devices.last().device_type@) is Some {
        assert(all.drop_last() =~= before);
    }
    if p < init.len() {
        assert forall|q: int|
            p < q < init.len() && DeviceKind::bridged_type(
                (#[trigger] init[q]).device_type@,
            ) is Some implies init[q].device_id@ != init[p].device_id@ by {
            assert(devices[q] == init[q]);
        }
        last_entries_are_found(init, p, kind);
        assert(devices[devices.len() - 1] == devices.last());
    }
}

} // verus!
