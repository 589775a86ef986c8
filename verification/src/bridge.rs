//! The bridge: which devices are bridged, and what reports, commands and polls
//! lead to.

use vstd::hash_map::StringHashMap;
use vstd::prelude::*;

use crate::actions;
use crate::actions::{Publication, PublicationView};
use crate::config::TemperatureUnit;
use crate::devices::{CommandError, DeviceKind};
use crate::json::{Json, JsonView};
use crate::text;
use crate::text::{joined, without_prefix};
use crate::yolink::types::{DeviceInfo, YolinkReport};

verus! {

// ---------------------------------------------------------------------------
// Devices
// ---------------------------------------------------------------------------

/// The HomeCore ID of a YoLink device.
pub open spec fn homecore_id(device_id: Seq<char>) -> Seq<char> {
    "yolink_"@ + device_id
}

/// The HomeCore ID of a YoLink device: "yolink_{yolink_device_id}".
pub fn hc_id_for(device_id: &str) -> (hc_id: String)
    ensures
        hc_id@ == homecore_id(device_id@),
{
    joined("yolink_", device_id)
}

/// A bridged device: the YoLink record with its resolved kind.
#[derive(Debug)]
pub struct Device {
    pub info: DeviceInfo,
    pub kind: DeviceKind,
    /// HomeCore device ID
    pub hc_id: String,
    /// Whether the device has left the inventory.
    pub retired: bool,
}

/// The mathematical content of a [`Device`].
pub struct DeviceView {
    pub info: DeviceInfo,
    pub kind: DeviceKind,
    pub hc_id: Seq<char>,
    pub retired: bool,
}

impl View for Device {
    type V = DeviceView;

    open spec fn view(&self) -> DeviceView {
        DeviceView { info: self.info, kind: self.kind, hc_id: self.hc_id@, retired: self.retired }
    }
}

impl DeviceView {
    /// A device that has just been bridged.
    pub open spec fn bridged(info: DeviceInfo, kind: DeviceKind) -> DeviceView {
        DeviceView { info, kind, hc_id: homecore_id(info.device_id@), retired: false }
    }

    /// Whether the periodic poll asks for this device's state.
    pub open spec fn is_polled(self) -> bool {
        !self.retired && self.kind.is_bridged()
    }

    /// What a snapshot of the device's state leads to: its availability (taken
    /// as given where the snapshot does not say), then its full state.
    pub open spec fn snapshot_publications(
        self,
        data: JsonView,
        unit: TemperatureUnit,
    ) -> Seq<PublicationView> {
        let online = PublicationView::Availability {
            hc_id: self.hc_id,
            online: is_online(data),
        };
        match self.kind.shown_state(data, unit) {
            Some(state) => seq![online, PublicationView::State { hc_id: self.hc_id, state }],
            None => seq![online],
        }
    }

    /// What a real-time report leads to: the device's availability, if the
    /// report says, then the change of its state.
    pub open spec fn report_publications(
        self,
        data: JsonView,
        unit: TemperatureUnit,
    ) -> Seq<PublicationView> {
        let availability = match data.member("online"@).as_bool() {
            Some(online) => seq![PublicationView::Availability { hc_id: self.hc_id, online }],
            None => Seq::empty(),
        };
        match self.kind.shown_state(data, unit) {
            Some(patch) => availability.push(PublicationView::Patch { hc_id: self.hc_id, patch }),
            None => availability,
        }
    }
}

/// Whether a snapshot shows a device as reachable, which it does unless it says
/// otherwise.
pub open spec fn is_online(data: JsonView) -> bool {
    match data.member("online"@).as_bool() {
        Some(online) => online,
        None => true,
    }
}

/// Whether a snapshot shows a device as reachable.
pub fn snapshot_online(data: &Json) -> (online: bool)
    ensures
        online == is_online(data@),
{
    data.bool_at("online").unwrap_or(true)
}

// ---------------------------------------------------------------------------
// Bridge
// ---------------------------------------------------------------------------

/// The bridged devices, and how to find them.
pub struct Bridge {
    devices: Vec<Device>,
    /// YoLink device ID to position in `devices`, for lookup on MQTT events
    index: StringHashMap<usize>,
    temp_unit: TemperatureUnit,
    poll_interval_secs: u64,
    /// Delay between successive per-device getState calls to avoid hub rate limits.
    poll_device_delay_ms: u64,
}

/// The mathematical content of a [`Bridge`].
pub struct BridgeView {
    pub devices: Seq<DeviceView>,
    pub index: Map<Seq<char>, int>,
    pub temp_unit: TemperatureUnit,
    pub poll_interval_secs: u64,
    pub poll_device_delay_ms: u64,
}

impl View for Bridge {
    type V = BridgeView;

    closed spec fn view(&self) -> BridgeView {
        BridgeView {
            devices: self.devices@.map_values(|d: Device| d@),
            index: self.index@.map_values(|i: usize| i as int),
            temp_unit: self.temp_unit,
            poll_interval_secs: self.poll_interval_secs,
            poll_device_delay_ms: self.poll_device_delay_ms,
        }
    }
}

impl BridgeView {
    /// Every device goes by the HomeCore ID of its YoLink ID; whatever can be
    /// found by a YoLink ID is the device of that ID, and is not retired.
    pub open spec fn wf(self) -> bool {
        &&& forall|i: int|
            0 <= i < self.devices.len() ==> (#[trigger] self.devices[i]).hc_id == homecore_id(
                self.devices[i].info.device_id@,
            )
        &&& forall|id: Seq<char>| #[trigger]
            self.index.contains_key(id) ==> {
                &&& 0 <= self.index[id] < self.devices.len()
                &&& self.devices[self.index[id]].info.device_id@ == id
                &&& !self.devices[self.index[id]].retired
            }
    }

    /// The device that a YoLink ID finds.
    pub open spec fn found(self, id: Seq<char>) -> Option<DeviceView> {
        if self.index.contains_key(id) {
            Some(self.devices[self.index[id]])
        } else {
            None
        }
    }

    /// What a report leads to; nothing if it is of an unknown device.
    pub open spec fn report_publications(
        self,
        device_id: Seq<char>,
        data: JsonView,
    ) -> Seq<PublicationView> {
        match self.found(device_id) {
            Some(device) => device.report_publications(data, self.temp_unit),
            None => Seq::empty(),
        }
    }

    /// With a device's record and kind replaced.
    pub open spec fn refreshed(self, i: int, info: DeviceInfo, kind: DeviceKind) -> BridgeView {
        BridgeView {
            devices: self.devices.update(
                i,
                DeviceView { info, kind, retired: false, ..self.devices[i] },
            ),
            ..self
        }
    }

    /// With a device added.
    pub open spec fn added(self, info: DeviceInfo, kind: DeviceKind) -> BridgeView {
        BridgeView {
            devices: self.devices.push(DeviceView::bridged(info, kind)),
            index: self.index.insert(info.device_id@, self.devices.len() as int),
            ..self
        }
    }

    /// With a device that can no longer be found by its YoLink ID.
    pub open spec fn delisted(self, i: int) -> BridgeView {
        BridgeView { index: self.index.remove(self.devices[i].info.device_id@), ..self }
    }

    /// With a device that can be found by its YoLink ID again.
    pub open spec fn relisted(self, i: int) -> BridgeView {
        BridgeView { index: self.index.insert(self.devices[i].info.device_id@, i), ..self }
    }

    /// With a device retired.
    pub open spec fn with_retired(self, i: int) -> BridgeView {
        BridgeView {
            devices: self.devices.update(i, DeviceView { retired: true, ..self.devices[i] }),
            ..self
        }
    }
}

/// The bridged form of discovered devices.
pub open spec fn bridged_devices(raw: Seq<(DeviceInfo, DeviceKind)>) -> Seq<DeviceView> {
    raw.map_values(|r: (DeviceInfo, DeviceKind)| DeviceView::bridged(r.0, r.1))
}

/// Where each YoLink ID is found among discovered devices: at its last
/// occurrence.
pub open spec fn positions(raw: Seq<(DeviceInfo, DeviceKind)>) -> Map<Seq<char>, int>
    decreases raw.len(),
{
    if raw.len() == 0 {
        Map::empty()
    } else {
        positions(raw.drop_last()).insert(raw.last().0.device_id@, raw.len() - 1)
    }
}

/// The positions of the polled devices, in order.
pub open spec fn polled_positions(devices: Seq<DeviceView>) -> Seq<int>
    decreases devices.len(),
{
    if devices.len() == 0 {
        Seq::empty()
    } else if devices.last().is_polled() {
        polled_positions(devices.drop_last()).push(devices.len() - 1)
    } else {
        polled_positions(devices.drop_last())
    }
}

/// One device to be asked for its state during a poll.
#[derive(Debug)]
pub struct PollStep {
    /// Position of the device in the bridge.
    pub device: usize,
    /// Whom to ask.
    pub info: DeviceInfo,
    /// How long to wait before asking, in milliseconds, if at all.
    pub delay_ms: Option<u64>,
}

/// What a command from HomeCore leads to.
#[derive(Debug)]
pub enum CommandOutcome {
    /// No device of that ID is bridged.
    UnknownDevice,
    /// The device does not take the command.
    Refused(CommandError),
    /// Ask the YoLink API to set the device's state.
    Send { device: DeviceInfo, method: &'static str, params: Json },
}

/// The YoLink ID that a HomeCore ID stands for.
pub open spec fn yolink_id(hc_id: Seq<char>) -> Seq<char> {
    match text::behind_prefix(hc_id, "yolink_"@) {
        Some(id) => id,
        None => hc_id,
    }
}

impl BridgeView {
    /// A bridge of discovered devices.
    pub open spec fn discovered(
        raw: Seq<(DeviceInfo, DeviceKind)>,
        temp_unit: TemperatureUnit,
        poll_interval_secs: u64,
        poll_device_delay_ms: u64,
    ) -> BridgeView {
        BridgeView {
            devices: bridged_devices(raw),
            index: positions(raw),
            temp_unit,
            poll_interval_secs,
            poll_device_delay_ms,
        }
    }

    /// The steps of a poll: the polled devices in order, each after the delay
    /// between devices, if there is one.
    pub open spec fn poll_steps(self) -> Seq<PollStep> {
        polled_positions(self.devices).map_values(
            |i: int|
                PollStep {
                    device: i as usize,
                    info: self.devices[i].info,
                    delay_ms: if self.poll_device_delay_ms == 0 {
                        None
                    } else {
                        Some(self.poll_device_delay_ms)
                    },
                },
        )
    }

    /// Whether `outcome` is what a command leads to.
    pub open spec fn is_command_outcome(
        self,
        outcome: CommandOutcome,
        hc_id: Seq<char>,
        cmd: JsonView,
    ) -> bool {
        match self.found(yolink_id(hc_id)) {
            None => outcome is UnknownDevice,
            Some(device) => match device.kind.commanded_state(cmd) {
                None => outcome is Refused && outcome->Refused_0 == device.kind.command_error(),
                Some(state) => {
                    &&& outcome is Send
                    &&& outcome->device == device.info
                    &&& outcome->method@ == "setState"@
                    &&& outcome->params@ == crate::devices::set_state_params(state)
                },
            },
        }
    }
}

impl Bridge {
    /// A bridge of discovered devices.
    pub fn new(
        raw: Vec<(DeviceInfo, DeviceKind)>,
        temp_unit: TemperatureUnit,
        poll_interval_secs: u64,
        poll_device_delay_ms: u64,
    ) -> (bridge: Self)
        ensures
            bridge@.wf(),
            bridge@ == BridgeView::discovered(
                raw@,
                temp_unit,
                poll_interval_secs,
                poll_device_delay_ms,
            ),
    {
        let ghost all = raw@;
        let mut devices: Vec<Device> = Vec::with_capacity(raw.len());
        let mut index: StringHashMap<usize> = StringHashMap::new();
        proof {
            assert(bridged_devices(all.take(0)) =~= Seq::empty());
            assert(index@.map_values(|i: usize| i as int) =~= Map::empty());
        }
        let mut i: usize = 0;
        while i < raw.len()
            invariant
                i <= raw@.len(),
                all == raw@,
                devices@.len() == i,
                devices@.map_values(|d: Device| d@) == bridged_devices(all.take(i as int)),
                index@.map_values(|i: usize| i as int) == positions(all.take(i as int)),
            decreases raw@.len() - i,
        {
            let info = raw[i].0.clone();
            let kind = raw[i].1.clone();
            let hc_id = hc_id_for(info.device_id.as_str());
            index.insert(info.device_id.clone(), devices.len());
            let ghost before = devices@.map_values(|d: Device| d@);
            proof {
                assert(index@.map_values(|i: usize| i as int) =~= positions(
                    all.take(i as int),
                ).insert(info.device_id@, i as int));
            }
            devices.push(Device { info, kind, hc_id, retired: false });
            i = i + 1;
            proof {
                assert(all.take(i as int).drop_last() =~= all.take(i - 1));
                assert(devices@.map_values(|d: Device| d@) =~= before.push(
                    DeviceView::bridged(all[i - 1].0, all[i - 1].1),
                ));
                assert(bridged_devices(all.take(i as int)) =~= bridged_devices(
                    all.take(i - 1),
                ).push(DeviceView::bridged(all[i - 1].0, all[i - 1].1)));
            }
        }
        proof {
            assert(all.take(i as int) =~= all);
            positions_found(all);
        }
        Bridge { devices, index, temp_unit, poll_interval_secs, poll_device_delay_ms }
    }

    /// How many devices the bridge knows, retired ones included.
    pub fn device_count(&self) -> (count: usize)
        ensures
            count == self@.devices.len(),
    {
        self.devices.len()
    }

    /// How often to poll all devices, in seconds.
    pub fn poll_interval_secs(&self) -> (secs: u64)
        ensures
            secs == self@.poll_interval_secs,
    {
        self.poll_interval_secs
    }

    /// The unit that temperatures are published in.
    pub fn temp_unit(&self) -> (unit: TemperatureUnit)
        ensures
            unit == self@.temp_unit,
    {
        self.temp_unit
    }

    // -----------------------------------------------------------------------
    // Handlers
    // -----------------------------------------------------------------------

    /// What a real-time report leads to.
    pub fn handle_yolink_report(&self, report: &YolinkReport) -> (publications: Vec<Publication>)
        requires
            self@.wf(),
        ensures
            actions::contents(publications@) == self@.report_publications(
                report.device_id@,
                report.data@,
            ),
    {
        let mut publications: Vec<Publication> = Vec::new();
        let dev = match self.find_by_yolink_id(report.device_id.as_str()) {
            Some(dev) => dev,
            None => {
                assert(actions::contents(publications@) =~= Seq::empty());
                return publications;
            },
        };
        // Availability, if present in the report
        if let Some(online) = report.data.bool_at("online") {
            publications.push(Publication::Availability { hc_id: dev.hc_id.clone(), online });
        }
        // The state as a partial update
        if let Some(patch) = dev.kind.translate_state(&report.data, &self.temp_unit) {
            publications.push(Publication::Patch { hc_id: dev.hc_id.clone(), patch });
        }
        proof {
            assert(actions::contents(publications@) =~= self@.report_publications(
                report.device_id@,
                report.data@,
            ));
        }
        publications
    }

    /// What a command from HomeCore leads to.
    pub fn handle_homecore_command(&self, hc_id: &str, cmd: &Json) -> (outcome: CommandOutcome)
        requires
            self@.wf(),
        ensures
            self@.is_command_outcome(outcome, hc_id@, cmd@),
    {
        let id = match without_prefix(hc_id, "yolink_") {
            Some(id) => id,
            None => hc_id,
        };
        let dev = match self.find_by_yolink_id(id) {
            Some(dev) => dev,
            None => return CommandOutcome::UnknownDevice,
        };
        match dev.kind.translate_command(cmd) {
            Ok((method, params)) => CommandOutcome::Send {
                device: dev.info.clone(),
                method,
                params,
            },
            Err(error) => CommandOutcome::Refused(error),
        }
    }

    /// The steps of a poll: every device that is neither retired nor of a kind
    /// that is not bridged, in order.
    pub fn poll_all_devices(&self) -> (steps: Vec<PollStep>)
        ensures
            steps@ == self@.poll_steps(),
            forall|k: int|
                0 <= k < steps@.len() ==> (#[trigger] steps@[k]).device < self@.devices.len(),
    {
        let delay_ms = if self.poll_device_delay_ms == 0 {
            None
        } else {
            Some(self.poll_device_delay_ms)
        };
        let mut steps: Vec<PollStep> = Vec::new();
        let ghost devices = self@.devices;
        let mut i: usize = 0;
        while i < self.devices.len()
            invariant
                i <= self.devices@.len(),
                devices == self@.devices,
                devices.len() == self.devices@.len(),
                delay_ms == if self@.poll_device_delay_ms == 0 {
                    None
                } else {
                    Some(self@.poll_device_delay_ms)
                },
                steps@.len() == polled_positions(devices.take(i as int)).len(),
                forall|k: int|
                    0 <= k < steps@.len() ==> {
                        &&& (#[trigger] steps@[k]).device == polled_positions(
                            devices.take(i as int),
                        )[k]
                        &&& steps@[k].device < i
                        &&& steps@[k].info == devices[steps@[k].device as int].info
                        &&& steps@[k].delay_ms == delay_ms
                    },
            decreases self.devices@.len() - i,
        {
            let dev = &self.devices[i];
            proof {
                assert(devices[i as int] == dev@);
                assert(devices.take(i + 1).drop_last() =~= devices.take(i as int));
                assert(devices.take(i + 1).last() == dev@);
            }
            if !dev.retired && dev.kind.is_supported() {
                steps.push(PollStep { device: i, info: dev.info.clone(), delay_ms });
            }
            i = i + 1;
        }
        assert(devices.take(i as int) =~= devices);
        assert(steps@ =~= self@.poll_steps());
        steps
    }

    /// What a device's answer to a poll leads to.
    pub fn handle_poll_reply(&self, device: usize, data: &Json) -> (publications: Vec<Publication>)
        requires
            device < self@.devices.len(),
        ensures
            actions::contents(publications@)
                == self@.devices[device as int].snapshot_publications(data@, self@.temp_unit),
    {
        let dev = &self.devices[device];
        let ghost shown = self@.devices[device as int];
        assert(shown == dev@);
        let mut publications: Vec<Publication> = Vec::new();
        publications.push(
            Publication::Availability { hc_id: dev.hc_id.clone(), online: snapshot_online(data) },
        );
        if let Some(state) = dev.kind.translate_state(data, &self.temp_unit) {
            publications.push(Publication::State { hc_id: dev.hc_id.clone(), state });
        }
        assert(actions::contents(publications@) =~= shown.snapshot_publications(
            data@,
            self@.temp_unit,
        ));
        publications
    }

    // -----------------------------------------------------------------------
    // Lookup
    // -----------------------------------------------------------------------

    /// The device of a YoLink ID.
    pub fn find_by_yolink_id(&self, yolink_id: &str) -> (found: Option<&Device>)
        requires
            self@.wf(),
        ensures
            match found {
                Some(device) => self@.found(yolink_id@) == Some(device@),
                None => self@.found(yolink_id@) is None,
            },
    {
        match self.position_of(yolink_id) {
            Some(i) => Some(&self.devices[i]),
            None => None,
        }
    }

    /// Where the device of a YoLink ID is.
    pub fn position_of(&self, yolink_id: &str) -> (position: Option<usize>)
        requires
            self@.wf(),
        ensures
            match position {
                Some(i) => self@.index.contains_key(yolink_id@) && i == self@.index[yolink_id@] && i
                    < self@.devices.len(),
                None => !self@.index.contains_key(yolink_id@),
            },
    {
        match self.index.get(yolink_id) {
            Some(i) => Some(*i),
            None => None,
        }
    }

    /// The device at a position.
    pub fn device(&self, i: usize) -> (device: &Device)
        requires
            i < self@.devices.len(),
        ensures
            device@ == self@.devices[i as int],
    {
        &self.devices[i]
    }
}

impl Bridge {
    // -----------------------------------------------------------------------
    // Changes of the inventory
    // -----------------------------------------------------------------------

    /// Replaces a device's record and kind.
    pub(crate) fn refresh(&mut self, i: usize, info: DeviceInfo, kind: DeviceKind)
        requires
            old(self)@.wf(),
            i < old(self)@.devices.len(),
            info.device_id@ == old(self)@.devices[i as int].info.device_id@,
        ensures
            final(self)@.wf(),
            final(self)@ == old(self)@.refreshed(i as int, info, kind),
    {
        let ghost before = self@;
        let hc_id = self.devices[i].hc_id.clone();
        self.devices.set(i, Device { info, kind, hc_id, retired: false });
        proof {
            assert(self@.devices =~= before.refreshed(i as int, info, kind).devices);
            assert(self@ == before.refreshed(i as int, info, kind));
        }
    }

    /// Adds a device.
    pub(crate) fn add(&mut self, info: DeviceInfo, kind: DeviceKind)
        requires
            old(self)@.wf(),
        ensures
            final(self)@.wf(),
            final(self)@ == old(self)@.added(info, kind),
    {
        let ghost before = self@;
        let hc_id = hc_id_for(info.device_id.as_str());
        self.index.insert(info.device_id.clone(), self.devices.len());
        self.devices.push(Device { info, kind, hc_id, retired: false });
        proof {
            assert(self@.devices =~= before.added(info, kind).devices);
            assert(self@.index =~= before.added(info, kind).index);
            assert(self@ == before.added(info, kind));
        }
    }

    /// Makes a device one that its YoLink ID does not find.
    pub(crate) fn delist(&mut self, i: usize)
        requires
            old(self)@.wf(),
            i < old(self)@.devices.len(),
        ensures
            final(self)@.wf(),
            final(self)@ == old(self)@.delisted(i as int),
    {
        let id = self.devices[i].info.device_id.clone();
        self.index.remove(id.as_str());
        proof {
            assert(self@.index =~= old(self)@.delisted(i as int).index);
            assert(self@ == old(self)@.delisted(i as int));
        }
    }

    /// Makes a device one that its YoLink ID finds.
    pub(crate) fn relist(&mut self, i: usize)
        requires
            old(self)@.wf(),
            i < old(self)@.devices.len(),
            !old(self)@.devices[i as int].retired,
        ensures
            final(self)@.wf(),
            final(self)@ == old(self)@.relisted(i as int),
    {
        let id = self.devices[i].info.device_id.clone();
        self.index.insert(id, i);
        proof {
            assert(self@.index =~= old(self)@.relisted(i as int).index);
            assert(self@ == old(self)@.relisted(i as int));
        }
    }

    /// Retires a device that its YoLink ID does not find.
    pub(crate) fn retire(&mut self, i: usize)
        requires
            old(self)@.wf(),
            i < old(self)@.devices.len(),
            !old(self)@.index.contains_key(old(self)@.devices[i as int].info.device_id@)
                || old(self)@.index[old(self)@.devices[i as int].info.device_id@] != i,
        ensures
            final(self)@.wf(),
            final(self)@ == old(self)@.with_retired(i as int),
    {
        let ghost before = self@;
        let info = self.devices[i].info.clone();
        let kind = self.devices[i].kind.clone();
        let hc_id = self.devices[i].hc_id.clone();
        self.devices.set(i, Device { info, kind, hc_id, retired: true });
        proof {
            assert(self@.devices =~= before.with_retired(i as int).devices);
            assert(self@ == before.with_retired(i as int));
        }
    }
}

/// Whatever is found among discovered devices is where it is said to be.
proof fn positions_found(raw: Seq<(DeviceInfo, DeviceKind)>)
    ensures
        forall|id: Seq<char>| #[trigger]
            positions(raw).contains_key(id) ==> {
                &&& 0 <= positions(raw)[id] < raw.len()
                &&& raw[positions(raw)[id]].0.device_id@ == id
            },
    decreases raw.len(),
{
    if raw.len() > 0 {
        positions_found(raw.drop_last());
    }
}

} // verus!
