//! What commands ask of each kind of device, and why others are refused.

use vstd::prelude::*;

use crate::bridge;
use crate::bridge::{BridgeView, CommandOutcome};
use crate::devices;
use crate::devices::{CommandError, DeviceKind};
use crate::json::JsonView;
use crate::laws::routing;
use crate::record;
use crate::run::{RunView, TaskView};
use crate::yolink::types::DeviceInfo;

verus! {

/// The state that a command asks for, told from its members alone: relays and
/// sirens go by a boolean `on`, locks by a boolean `locked`, and nothing else
/// can be commanded.
pub proof fn commands_ask_for_what_they_say(kind: DeviceKind, cmd: JsonView)
    ensures
        match kind {
            DeviceKind::Outlet | DeviceKind::SmartPlug | DeviceKind::Switch
            | DeviceKind::MultiOutlet | DeviceKind::Siren => match cmd.member("on"@).as_bool() {
                Some(true) => kind.commanded_state(cmd) == Some("open"@),
                Some(false) => kind.commanded_state(cmd) == Some("close"@),
                None => kind.commanded_state(cmd) is None && kind.command_error()
                    == CommandError::MissingOn,
            },
            DeviceKind::Lock | DeviceKind::LockV2 => match cmd.member("locked"@).as_bool() {
                Some(true) => kind.commanded_state(cmd) == Some("lock"@),
                Some(false) => kind.commanded_state(cmd) == Some("unlock"@),
                None => kind.commanded_state(cmd) is None && kind.command_error()
                    == CommandError::MissingLocked,
            },
            DeviceKind::DoorSensor | DeviceKind::MotionSensor | DeviceKind::LeakSensor
            | DeviceKind::THSensor | DeviceKind::VibrationSensor => {
                kind.commanded_state(cmd) is None && kind.command_error()
                    == CommandError::ReadOnly(kind)
            },
            DeviceKind::Hub | DeviceKind::Unknown(_) => {
                kind.commanded_state(cmd) is None && kind.command_error()
                    == CommandError::NotSupported(kind)
            },
        },
{
}

/// The parameters of a request are an object with the wanted state under
/// `state`, and nothing else.
pub proof fn requests_hold_the_state_alone(state: Seq<char>, name: Seq<char>)
    ensures
        devices::set_state_params(state) is Object,
        devices::set_state_params(state)->Object_0.len() == 1,
        devices::set_state_params(state).member("state"@) == JsonView::Text(state),
        name != "state"@ ==> devices::set_state_params(state).member(name) == JsonView::Null,
{
    let members = seq![("state"@, JsonView::Text(state))];
    assert(members.drop_last() =~= Seq::empty());
    reveal_with_fuel(record::named_map, 2);
}

/// A lock that is asked to lock and one that is asked to unlock are asked for
/// different states, and so are a relay or siren that are switched on and off.
pub proof fn opposite_commands_ask_for_different_states(
    kind: DeviceKind,
    one: JsonView,
    other: JsonView,
    name: Seq<char>,
)
    requires
        kind.commanded_state(one) is Some,
        kind.commanded_state(other) is Some,
        name == "on"@ && !(kind is Lock || kind is LockV2) || name == "locked"@ && (kind is Lock
            || kind is LockV2),
    ensures
        kind.commanded_state(one) == kind.commanded_state(other) <==> one.member(name).as_bool()
            == other.member(name).as_bool(),
{
    reveal_strlit("open");
    reveal_strlit("close");
    reveal_strlit("lock");
    reveal_strlit("unlock");
    assert("open"@.len() != "close"@.len());
    assert("lock"@.len() != "unlock"@.len());
}

/// Whether a task answers a command for a device of the given record and kind.
pub open spec fn answers(
    task: TaskView,
    device: DeviceInfo,
    kind: DeviceKind,
    cmd: JsonView,
) -> bool {
    match kind.commanded_state(cmd) {
        Some(state) => {
            &&& task is Send
            &&& task->device == device
            &&& task->method == "setState"@
            &&& task->params == JsonView::Object(seq![("state"@, JsonView::Text(state))])
        },
        None => task == TaskView::Refuse(kind.command_error()),
    }
}

/// A command for the HomeCore ID of a known device, or for its YoLink ID where
/// that does not look like a HomeCore ID, is answered for that very device. Any
/// other command is dropped.
pub proof fn commands_are_answered_for_their_device(
    bridge: BridgeView,
    id: Seq<char>,
    cmd: JsonView,
)
    requires
        bridge.wf(),
    ensures
        match bridge.found(id) {
            Some(device) => {
                &&& device.info.device_id@ == id
                &&& RunView::command(bridge, "yolink_"@ + id, cmd).0 == RunView::Commanding(bridge)
                &&& answers(
                    RunView::command(bridge, "yolink_"@ + id, cmd).1,
                    device.info,
                    device.kind,
                    cmd,
                )
                &&& !"yolink_"@.is_prefix_of(id) ==> answers(
                    RunView::command(bridge, id, cmd).1,
                    device.info,
                    device.kind,
                    cmd,
                )
            },
            None => {
                &&& RunView::command(bridge, "yolink_"@ + id, cmd) == (
                    RunView::Idle(bridge),
                    TaskView::Await,
                )
                &&& !"yolink_"@.is_prefix_of(id) ==> RunView::command(bridge, id, cmd) == (
                    RunView::Idle(bridge),
                    TaskView::Await,
                )
            },
        },
{
    homecore_ids_are_prefixed(id);
    routing::homecore_ids_lead_back(id);
}

/// A HomeCore ID is the YoLink ID behind "yolink_", and an ID that does not
/// begin so stands for itself.
pub proof fn homecore_ids_are_prefixed(id: Seq<char>)
    ensures
        bridge::homecore_id(id) == "yolink_"@ + id,
        bridge::yolink_id("yolink_"@ + id) == id,
        !"yolink_"@.is_prefix_of(id) ==> bridge::yolink_id(id) == id,
{
    routing::homecore_ids_lead_back(id);
}

/// What a bridge decides about a command is what it then does about it.
pub proof fn outcomes_and_tasks_agree(
    bridge: BridgeView,
    outcome: CommandOutcome,
    hc_id: Seq<char>,
    cmd: JsonView,
)
    requires
        bridge.is_command_outcome(outcome, hc_id, cmd),
    ensures
        match outcome {
            CommandOutcome::UnknownDevice => RunView::command(bridge, hc_id, cmd).1 is Await,
            CommandOutcome::Refused(error) => RunView::command(bridge, hc_id, cmd).1
                == TaskView::Refuse(error),
            CommandOutcome::Send { device, method, params } => RunView::command(
                bridge,
                hc_id,
                cmd,
            ).1 == (TaskView::Send { device, method: method@, params: params@ }),
        },
{
}

} // verus!
