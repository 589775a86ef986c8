//! Settings, topics and IDs lead where they should.

use vstd::prelude::*;

use crate::actions::PublicationView;
use crate::bridge;
use crate::bridge::{BridgeView, DeviceView};
use crate::config::{Endpoints, Mode, TemperatureUnit, YolinkConfig};
use crate::devices::DeviceKind;
use crate::json::JsonView;
use crate::text;
use crate::yolink::mqtt;
use crate::yolink::types::DeviceInfo;

verus! {

/// In either mode tokens are obtained under the API's base URL, and only local
/// mode has a network ID.
pub proof fn tokens_come_from_the_api(endpoints: Endpoints, cfg: YolinkConfig)
    requires
        endpoints.are_of(cfg),
    ensures
        endpoints.token_url@ == endpoints.api_base_url@ + "/open/yolink/token"@,
        cfg.mode is Cloud ==> endpoints.net_id@.len() == 0,
        cfg.mode is Local ==> endpoints.net_id@ == cfg.local->0.net_id@,
{
}

/// The label under which a unit is published is one that the settings accept
/// for it.
pub proof fn unit_labels_are_settings(unit: TemperatureUnit)
    ensures
        TemperatureUnit::named(unit.short_name()) == Some(unit),
{
    reveal_strlit("c");
    reveal_strlit("C");
    reveal_strlit("f");
    reveal_strlit("F");
    assert("c"@[0] == 'c');
    assert("C"@[0] == 'C');
    assert("f"@[0] == 'f');
    assert("F"@[0] == 'F');
}

/// A report published on a device's topic, in the namespace that the plugin
/// subscribes to, is taken as one of that device. Network and device IDs have
/// no slash in them.
pub proof fn report_topics_name_their_device(
    mode: Mode,
    network: Seq<char>,
    device_id: Seq<char>,
)
    requires
        !network.contains('/'),
        !device_id.contains('/'),
    ensures
        mqtt::reporting_device(mqtt::namespace(mode, network) + "/"@ + device_id + "/report"@)
            == Some(device_id),
{
    reveal_strlit("/");
    reveal_strlit("/report");
    reveal_strlit("report");
    reveal_strlit("yl-home/");
    reveal_strlit("yl-home");
    reveal_strlit("ylsubnet/");
    reveal_strlit("ylsubnet");
    let root = match mode {
        Mode::Cloud => "yl-home"@,
        Mode::Local => "ylsubnet"@,
    };
    assert(!root.contains('/')) by {
        assert forall|i: int| 0 <= i < root.len() implies root[i] != '/' by {}
    }
    assert(!"report"@.contains('/')) by {
        assert forall|i: int| 0 <= i < "report"@.len() implies "report"@[i] != '/' by {}
    }
    let prefix = root.push('/') + network;
    assert(mqtt::namespace(mode, network) =~= prefix);
    let middle = prefix.push('/') + device_id;
    let topic = middle.push('/') + "report"@;
    assert(topic =~= mqtt::namespace(mode, network) + "/"@ + device_id + "/report"@);
    text::split_pieces_single(root, '/');
    text::split_pieces_single(network, '/');
    text::split_pieces_single(device_id, '/');
    text::split_pieces_single("report"@, '/');
    text::split_pieces_join(root, network, '/');
    text::split_pieces_join(prefix, device_id, '/');
    text::split_pieces_join(middle, "report"@, '/');
}

/// A device's HomeCore ID leads back to its YoLink ID.
pub proof fn homecore_ids_lead_back(device_id: Seq<char>)
    ensures
        bridge::yolink_id(bridge::homecore_id(device_id)) == device_id,
{
    let hc_id = bridge::homecore_id(device_id);
    let prefix = "yolink_"@;
    assert(prefix.is_prefix_of(hc_id)) by {
        assert(hc_id.subrange(0, prefix.len() as int) =~= prefix);
    }
    assert(hc_id.skip(prefix.len() as int) =~= device_id);
}

/// Different devices have different HomeCore IDs.
pub proof fn homecore_ids_differ(a: Seq<char>, b: Seq<char>)
    requires
        a != b,
    ensures
        bridge::homecore_id(a) != bridge::homecore_id(b),
{
    homecore_ids_lead_back(a);
    homecore_ids_lead_back(b);
}

/// A command for the HomeCore ID of a device that can be found reaches that
/// device.
pub proof fn commands_reach_their_device(bridge: BridgeView, id: Seq<char>)
    requires
        bridge.wf(),
        bridge.index.contains_key(id),
    ensures
        bridge.found(bridge::yolink_id(bridge.found(id)->0.hc_id)) == bridge.found(id),
{
    homecore_ids_lead_back(id);
}

/// The HomeCore ID that a publication is about.
pub open spec fn subject(publication: PublicationView) -> Seq<char> {
    match publication {
        PublicationView::Availability { hc_id, .. } => hc_id,
        PublicationView::State { hc_id, .. } => hc_id,
        PublicationView::Patch { hc_id, .. } => hc_id,
    }
}

/// A report is only ever published as one of the device that it came from, and
/// never as a full state.
pub proof fn reports_are_published_as_their_device(
    bridge: BridgeView,
    device_id: Seq<char>,
    data: JsonView,
    k: int,
)
    requires
        bridge.wf(),
        0 <= k < bridge.report_publications(device_id, data).len(),
    ensures
        subject(bridge.report_publications(device_id, data)[k]) == bridge::homecore_id(device_id),
        !(bridge.report_publications(device_id, data)[k] is State),
{
}

/// Whoever is retired is found by no ID, and is not polled.
pub proof fn retired_devices_are_left_alone(bridge: BridgeView, i: int, id: Seq<char>)
    requires
        bridge.wf(),
        0 <= i < bridge.devices.len(),
        bridge.devices[i].retired,
    ensures
        bridge.index.contains_key(id) ==> bridge.index[id] != i,
        !bridge::polled_positions(bridge.devices).contains(i),
{
    polled_positions_are_exact(bridge.devices);
}

/// A poll asks exactly the devices that are neither retired nor of a kind that
/// is not bridged, each once, in order.
pub proof fn polled_positions_are_exact(devices: Seq<DeviceView>)
    ensures
        forall|i: int| #[trigger]
            bridge::polled_positions(devices).contains(i) <==> 0 <= i < devices.len()
                && devices[i].is_polled(),
        forall|j: int, k: int|
            0 <= j < k < bridge::polled_positions(devices).len()
                ==> #[trigger] bridge::polled_positions(devices)[j]
                < #[trigger] bridge::polled_positions(devices)[k],
    decreases devices.len(),
{
    if devices.len() > 0 {
        let init = devices.drop_last();
        polled_positions_are_exact(init);
        let before = bridge::polled_positions(init);
        let all = bridge::polled_positions(devices);
        let last = devices.len() - 1;
        assert forall|k: int| 0 <= k < before.len() implies 0 <= #[trigger] before[k] < last by {
            assert(before.contains(before[k]));
        }
        assert forall|i: int| #[trigger] all.contains(i) <==> 0 <= i < devices.len()
            && devices[i].is_polled() by {
            if all.contains(i) {
                let k = all.index_of(i);
                assert(all[k] == i);
                if k < before.len() {
                    assert(before[k] == i);
                    assert(before.contains(i));
                    assert(init[i] == devices[i]);
                }
            }
            if 0 <= i < devices.len() && devices[i].is_polled() {
                if i < last {
                    assert(init[i] == devices[i]);
                    assert(before.contains(i));
                    let k = before.index_of(i);
                    assert(all[k] == i);
                } else {
                    assert(all[all.len() - 1] == i);
                }
            }
        }
    }
}

/// Every discovered device can be found in a new bridge by its ID; where an ID
/// was discovered twice, it finds the later one.
pub proof fn discovered_devices_are_found(raw: Seq<(DeviceInfo, DeviceKind)>, i: int)
    requires
        0 <= i < raw.len(),
    ensures
        bridge::positions(raw).contains_key(raw[i].0.device_id@),
        i <= bridge::positions(raw)[raw[i].0.device_id@] < raw.len(),
        raw[bridge::positions(raw)[raw[i].0.device_id@]].0.device_id@ == raw[i].0.device_id@,
    decreases raw.len(),
{
    if i < raw.len() - 1 {
        discovered_devices_are_found(raw.drop_last(), i);
    }
}

} // verus!
