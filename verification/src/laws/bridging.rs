//! What the bridge knows of its devices, and what it publishes of them.

use vstd::prelude::*;

use crate::actions::{Action, ActionView, Publication, PublicationView, Reply, ReplyView};
use crate::actions;
use crate::bridge;
use crate::bridge::{BridgeView, Device, DeviceView};
use crate::config::TemperatureUnit;
use crate::devices::{AttributeValue, AttributeValueView, DeviceKind};
use crate::json::JsonView;
use crate::laws::routing;
use crate::run::{Task, TaskView};
use crate::yolink::types::DeviceInfo;

verus! {

/// Whether a device's answer has it as reachable: as its `online` says, and
/// where it says nothing, it is.
pub open spec fn answers_online(data: JsonView) -> bool {
    match data.member("online"@) {
        JsonView::Bool(online) => online,
        _ => true,
    }
}

/// A snapshot leads to the device's availability, under its HomeCore ID, and
/// then to its full state, if it shows one.
pub proof fn snapshots_become_full_states(
    device: DeviceView,
    data: JsonView,
    unit: TemperatureUnit,
)
    ensures
        ({
            let published = device.snapshot_publications(data, unit);
            &&& published.len() >= 1
            &&& published[0] == (PublicationView::Availability {
                hc_id: device.hc_id,
                online: answers_online(data),
            })
            &&& match device.kind.shown_state(data, unit) {
                Some(state) => published.len() == 2 && published[1] == (PublicationView::State {
                    hc_id: device.hc_id,
                    state,
                }),
                None => published.len() == 1,
            }
        }),
{
}

/// A report leads to the device's availability exactly if it says whether it is
/// online, and to a change of its state exactly if it shows one, in this order.
pub proof fn reports_become_changes(device: DeviceView, data: JsonView, unit: TemperatureUnit)
    ensures
        ({
            let published = device.report_publications(data, unit);
            match (data.member("online"@), device.kind.shown_state(data, unit)) {
                (JsonView::Bool(online), Some(patch)) => {
                    &&& published.len() == 2
                    &&& published[0] == (PublicationView::Availability {
                        hc_id: device.hc_id,
                        online,
                    })
                    &&& published[1] == (PublicationView::Patch { hc_id: device.hc_id, patch })
                },
                (JsonView::Bool(online), None) => {
                    &&& published.len() == 1
                    &&& published[0] == (PublicationView::Availability {
                        hc_id: device.hc_id,
                        online,
                    })
                },
                (_, Some(patch)) => {
                    &&& published.len() == 1
                    &&& published[0] == (PublicationView::Patch { hc_id: device.hc_id, patch })
                },
                (_, None) => published.len() == 0,
            }
        }),
{
}

/// A bridge publishes a report as the device that its ID finds would, in the
/// bridge's unit, and nothing for an ID that finds none.
pub proof fn reports_are_those_of_the_device_found(
    bridge: BridgeView,
    id: Seq<char>,
    data: JsonView,
)
    ensures
        bridge.index.contains_key(id) ==> bridge.report_publications(id, data)
            == bridge.devices[bridge.index[id]].report_publications(data, bridge.temp_unit),
        !bridge.index.contains_key(id) ==> bridge.report_publications(id, data).len() == 0,
{
}

/// What an ID finds in a sound bridge is the device of that ID, which is not
/// retired and goes by the HomeCore ID made of it.
pub proof fn what_is_found_has_the_id(bridge: BridgeView, id: Seq<char>)
    requires
        bridge.wf(),
    ensures
        bridge.found(id) is Some <==> bridge.index.contains_key(id),
        bridge.found(id) matches Some(device) ==> {
            &&& bridge.devices[bridge.index[id]] == device
            &&& device.info.device_id@ == id
            &&& device.hc_id == "yolink_"@ + id
            &&& !device.retired
        },
{
}

/// A new bridge has one device for each that was discovered, in order, with its
/// record and kind.
pub proof fn new_bridges_have_what_was_discovered(raw: Seq<(DeviceInfo, DeviceKind)>, i: int)
    requires
        0 <= i < raw.len(),
    ensures
        bridge::bridged_devices(raw).len() == raw.len(),
        bridge::bridged_devices(raw)[i].info == raw[i].0,
        bridge::bridged_devices(raw)[i].kind == raw[i].1,
        bridge::bridged_devices(raw)[i].hc_id == "yolink_"@ + raw[i].0.device_id@,
        !bridge::bridged_devices(raw)[i].retired,
{
}

/// A new bridge finds nothing but what was discovered.
pub proof fn new_bridges_find_nothing_else(raw: Seq<(DeviceInfo, DeviceKind)>, id: Seq<char>)
    requires
        bridge::positions(raw).contains_key(id),
    ensures
        0 <= bridge::positions(raw)[id] < raw.len(),
        raw[bridge::positions(raw)[id]].0.device_id@ == id,
        forall|j: int|
            bridge::positions(raw)[id] < j < raw.len() ==> (#[trigger] raw[j]).0.device_id@ != id,
    decreases raw.len(),
{
    if raw.len() > 0 && raw.last().0.device_id@ != id {
        let init = raw.drop_last();
        new_bridges_find_nothing_else(init, id);
        assert forall|j: int| bridge::positions(raw)[id] < j < raw.len() implies (
        #[trigger] raw[j]).0.device_id@ != id by {
            if j < init.len() {
                assert(init[j] == raw[j]);
            }
        }
    }
}

/// A step of a poll asks the device at its position, whose record it has, after
/// the configured delay, if there is one. There is a step for each device that
/// is neither retired, nor a hub, nor unknown.
pub proof fn poll_steps_ask_their_device(bridge: BridgeView, i: int, k: int)
    ensures
        bridge::polled_positions(bridge.devices).contains(i) <==> 0 <= i < bridge.devices.len()
            && !bridge.devices[i].retired && !(bridge.devices[i].kind is Hub)
            && !(bridge.devices[i].kind is Unknown),
        bridge.poll_steps().len() == bridge::polled_positions(bridge.devices).len(),
        0 <= k < bridge.poll_steps().len() ==> {
            let at = bridge::polled_positions(bridge.devices)[k];
            &&& 0 <= at < bridge.devices.len()
            &&& bridge.poll_steps()[k].info == bridge.devices[at].info
            &&& bridge.devices.len() <= usize::MAX ==> bridge.poll_steps()[k].device == at
            &&& bridge.poll_device_delay_ms == 0 ==> bridge.poll_steps()[k].delay_ms is None
            &&& bridge.poll_device_delay_ms > 0 ==> bridge.poll_steps()[k].delay_ms == Some(
                bridge.poll_device_delay_ms,
            )
        },
{
    routing::polled_positions_are_exact(bridge.devices);
    if 0 <= k < bridge.poll_steps().len() {
        let at = bridge::polled_positions(bridge.devices)[k];
        assert(bridge::polled_positions(bridge.devices).contains(at));
    }
}

/// Publications, states and devices show exactly what they hold.
pub proof fn publications_show_what_they_hold(
    publication: Publication,
    value: AttributeValue,
    device: Device,
)
    ensures
        match publication {
            Publication::Availability { hc_id, online } => publication@ == (
            PublicationView::Availability { hc_id: hc_id@, online }),
            Publication::State { hc_id, state } => publication@ == (PublicationView::State {
                hc_id: hc_id@,
                state: state@,
            }),
            Publication::Patch { hc_id, patch } => publication@ == (PublicationView::Patch {
                hc_id: hc_id@,
                patch: patch@,
            }),
        },
        match value {
            AttributeValue::Flag(b) => value@ == AttributeValueView::Flag(b),
            AttributeValue::Count(n) => value@ == AttributeValueView::Count(n),
            AttributeValue::Label(s) => value@ == AttributeValueView::Label(s@),
            AttributeValue::Measured(m) => value@ == AttributeValueView::Measured(m),
        },
        device@ == (DeviceView {
            info: device.info,
            kind: device.kind,
            hc_id: device.hc_id@,
            retired: device.retired,
        }),
{
}

/// Actions, replies and tasks show exactly what they hold.
pub proof fn actions_show_what_they_hold(action: Action, reply: Reply, task: Task)
    ensures
        match action {
            Action::Authenticate { token_url, client_id, client_secret } => action@ == (
            ActionView::Authenticate {
                token_url: token_url@,
                client_id: client_id@,
                client_secret: client_secret@,
            }),
            Action::GetHomeId => action@ is GetHomeId,
            Action::OpenEventStream { host, port, topic_prefix } => action@ == (
            ActionView::OpenEventStream { host: host@, port, topic_prefix: topic_prefix@ }),
            Action::ConnectHomecore => action@ is ConnectHomecore,
            Action::ListDevices => action@ is ListDevices,
            Action::Register { hc_id, name, device_type, kind } => action@ == (
            ActionView::Register {
                hc_id: hc_id@,
                name: name@,
                device_type: device_type@,
                kind,
            }),
            Action::SubscribeCommands { hc_id } => action@ == (ActionView::SubscribeCommands {
                hc_id: hc_id@,
            }),
            Action::FetchState { device } => action@ == (ActionView::FetchState { device }),
            Action::Publish(publication) => action@ == ActionView::Publish(publication@),
            Action::Unregister { hc_id } => action@ == (ActionView::Unregister { hc_id: hc_id@ }),
            Action::Finish => action@ is Finish,
            Action::Abort(error) => action@ == ActionView::Abort(error@),
        },
        match reply {
            Reply::Done => reply@ is Done,
            Reply::Failed(error) => reply@ == ReplyView::Failed(error@),
            Reply::HomeId(id) => reply@ == ReplyView::HomeId(id@),
            Reply::Devices(list) => reply@ == ReplyView::Devices(list@),
            Reply::State(data) => reply@ == ReplyView::State(data@),
        },
        match task {
            Task::Await => task@ is Await,
            Task::Pause { millis } => task@ == (TaskView::Pause { millis }),
            Task::Perform(asked) => task@ == TaskView::Perform(asked@),
            Task::Send { device, method, params } => task@ == (TaskView::Send {
                device,
                method: method@,
                params: params@,
            }),
            Task::Refuse(error) => task@ == TaskView::Refuse(error),
        },
{
}

/// A list of publications shows each of them, in order.
pub proof fn contents_show_each(publications: Seq<Publication>, i: int)
    requires
        0 <= i < publications.len(),
    ensures
        actions::contents(publications).len() == publications.len(),
        actions::contents(publications)[i] == publications[i]@,
{
}

/// A new bridge has the settings that it was given.
pub proof fn new_bridges_have_their_settings(
    raw: Seq<(DeviceInfo, DeviceKind)>,
    unit: TemperatureUnit,
    interval: u64,
    delay: u64,
)
    ensures
        ({
            let made = BridgeView::discovered(raw, unit, interval, delay);
            &&& made.temp_unit == unit
            &&& made.poll_interval_secs == interval
            &&& made.poll_device_delay_ms == delay
            &&& made.devices == bridge::bridged_devices(raw)
            &&& made.index == bridge::positions(raw)
        }),
{
}

/// Whether two bridges have the same settings.
pub open spec fn same_settings(a: BridgeView, b: BridgeView) -> bool {
    &&& a.temp_unit == b.temp_unit
    &&& a.poll_interval_secs == b.poll_interval_secs
    &&& a.poll_device_delay_ms == b.poll_device_delay_ms
}

/// Replacing a device's record and kind, or retiring it, touches that device
/// alone, and not what finds it.
pub proof fn changes_touch_one_device(
    bridge: BridgeView,
    i: int,
    j: int,
    info: DeviceInfo,
    kind: DeviceKind,
)
    requires
        0 <= i < bridge.devices.len(),
        0 <= j < bridge.devices.len(),
    ensures
        ({
            let now = bridge.refreshed(i, info, kind);
            &&& now.devices.len() == bridge.devices.len()
            &&& now.devices[i].info == info && now.devices[i].kind == kind
            &&& now.devices[i].hc_id == bridge.devices[i].hc_id && !now.devices[i].retired
            &&& j != i ==> now.devices[j] == bridge.devices[j]
            &&& now.index == bridge.index
            &&& same_settings(now, bridge)
        }),
        ({
            let now = bridge.with_retired(i);
            &&& now.devices.len() == bridge.devices.len()
            &&& now.devices[i].info == bridge.devices[i].info
            &&& now.devices[i].kind == bridge.devices[i].kind
            &&& now.devices[i].hc_id == bridge.devices[i].hc_id && now.devices[i].retired
            &&& j != i ==> now.devices[j] == bridge.devices[j]
            &&& now.index == bridge.index
            &&& same_settings(now, bridge)
        }),
{
}

/// Adding a device puts it behind the others and makes its ID find it; nothing
/// else changes.
pub proof fn additions_leave_the_others(
    bridge: BridgeView,
    info: DeviceInfo,
    kind: DeviceKind,
    j: int,
    id: Seq<char>,
)
    requires
        0 <= j < bridge.devices.len(),
    ensures
        ({
            let now = bridge.added(info, kind);
            let new = now.devices[bridge.devices.len() as int];
            &&& now.devices.len() == bridge.devices.len() + 1
            &&& now.devices[j] == bridge.devices[j]
            &&& new.info == info && new.kind == kind && !new.retired
            &&& new.hc_id == "yolink_"@ + info.device_id@
            &&& now.found(info.device_id@) == Some(new)
            &&& id != info.device_id@ ==> (now.index.contains_key(id)
                <==> bridge.index.contains_key(id))
            &&& id != info.device_id@ && bridge.index.contains_key(id) ==> now.index[id]
                == bridge.index[id]
            &&& same_settings(now, bridge)
        }),
{
}

/// Taking a device off the IDs, and putting it back, concerns its own ID alone,
/// and no device.
pub proof fn listings_concern_one_id(bridge: BridgeView, i: int, id: Seq<char>)
    requires
        0 <= i < bridge.devices.len(),
    ensures
        ({
            let own = bridge.devices[i].info.device_id@;
            let off = bridge.delisted(i);
            let on = bridge.relisted(i);
            &&& off.devices == bridge.devices && on.devices == bridge.devices
            &&& !off.index.contains_key(own)
            &&& on.index.contains_key(own) && on.index[own] == i
            &&& id != own ==> off.found(id) == bridge.found(id) && on.found(id) == bridge.found(id)
            &&& same_settings(off, bridge) && same_settings(on, bridge)
        }),
{
}

} // verus!
