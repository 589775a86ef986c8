//! Keeping the bridge in step with the YoLink device list.
//!
//! A sync goes through the list once: known devices get their new record (and
//! are registered again if their name or type changed), new ones are registered
//! and announced. Then whatever the list no longer names is unregistered and
//! retired. Everything that needs the outside is handed out as an [`Action`];
//! its [`Reply`] takes the sync one step further.

use vstd::hash_set::StringHashSet;
use vstd::prelude::*;

use crate::actions::{Action, ActionView, Publication, PublicationView, Reply, ReplyView};
use crate::bridge;
use crate::bridge::{hc_id_for, snapshot_online, Bridge, BridgeView};
use crate::devices::{DeviceKind, DeviceState, StateView};
use crate::text::same_text;
use crate::yolink::types::DeviceInfo;

verus! {

/// What a sync is waiting for.
#[derive(Debug)]
enum SyncStage {
    /// The new registration of the known device at this position.
    Reregistering(usize),
    /// The registration of a new device.
    Registering,
    /// The subscription to its commands.
    Subscribing,
    /// Its state.
    Fetching,
    /// The publication of its availability; its state, if any, comes next.
    Announcing(Option<DeviceState>),
    /// The publication of its state.
    Showing,
    /// The removal of the device at this position.
    Unregistering(usize),
    /// Nothing.
    Finished,
}

/// The mathematical content of a [`SyncStage`].
pub enum SyncStageView {
    Reregistering(int),
    Registering,
    Subscribing,
    Fetching,
    Announcing(Option<StateView>),
    Showing,
    Unregistering(int),
    Finished,
}

impl View for SyncStage {
    type V = SyncStageView;

    closed spec fn view(&self) -> SyncStageView {
        match self {
            SyncStage::Reregistering(i) => SyncStageView::Reregistering(*i as int),
            SyncStage::Registering => SyncStageView::Registering,
            SyncStage::Subscribing => SyncStageView::Subscribing,
            SyncStage::Fetching => SyncStageView::Fetching,
            SyncStage::Announcing(state) => SyncStageView::Announcing(
                match state {
                    Some(state) => Some(state@),
                    None => None,
                },
            ),
            SyncStage::Showing => SyncStageView::Showing,
            SyncStage::Unregistering(i) => SyncStageView::Unregistering(*i as int),
            SyncStage::Finished => SyncStageView::Finished,
        }
    }
}

/// A sync under way.
pub struct InventorySync {
    bridge: Bridge,
    fresh: Vec<DeviceInfo>,
    /// The entry of `fresh` that is being worked on.
    next: usize,
    /// The IDs of all bridged devices that were listed so far.
    seen: StringHashSet,
    /// The devices that the list does not name, and how many are dealt with.
    unlisted: Vec<usize>,
    gone: usize,
    stage: SyncStage,
}

/// The mathematical content of an [`InventorySync`].
pub struct SyncView {
    pub bridge: BridgeView,
    pub fresh: Seq<DeviceInfo>,
    pub next: int,
    pub seen: Set<Seq<char>>,
    pub unlisted: Seq<int>,
    pub gone: int,
    pub stage: SyncStageView,
}

impl View for InventorySync {
    type V = SyncView;

    closed spec fn view(&self) -> SyncView {
        SyncView {
            bridge: self.bridge@,
            fresh: self.fresh@,
            next: self.next as int,
            seen: self.seen@,
            unlisted: self.unlisted@.map_values(|i: usize| i as int),
            gone: self.gone as int,
            stage: self.stage@,
        }
    }
}

/// The positions of the devices that can be found by their YoLink ID and are
/// not among the listed ones, in order; only the first `count` are considered.
pub open spec fn unlisted_positions(bridge: BridgeView, seen: Set<Seq<char>>, count: int) -> Seq<int>
    decreases count,
{
    if count <= 0 {
        Seq::empty()
    } else {
        let before = unlisted_positions(bridge, seen, count - 1);
        let id = bridge.devices[count - 1].info.device_id@;
        if bridge.index.contains_key(id) && bridge.index[id] == count - 1 && !seen.contains(id) {
            before.push(count - 1)
        } else {
            before
        }
    }
}

/// Whether a listed device differs so much from what is known of it that it has
/// to be registered again.
pub open spec fn needs_reregister(
    known: bridge::DeviceView,
    info: DeviceInfo,
    kind: DeviceKind,
) -> bool {
    known.info.name@ != info.name@ || known.kind.device_type() != kind.device_type()
}

impl SyncView {
    /// The start of a sync.
    pub open spec fn start(bridge: BridgeView, fresh: Seq<DeviceInfo>) -> SyncView {
        SyncView {
            bridge,
            fresh,
            next: 0,
            seen: Set::empty(),
            unlisted: Seq::empty(),
            gone: 0,
            stage: SyncStageView::Finished,
        }
    }

    /// The listed device that is being worked on.
    pub open spec fn current(self) -> DeviceInfo {
        self.fresh[self.next]
    }

    /// Its kind, if it is bridged.
    pub open spec fn current_kind(self) -> Option<DeviceKind> {
        DeviceKind::bridged_type(self.current().device_type@)
    }

    /// The HomeCore ID of the device that is being worked on.
    pub open spec fn current_hc_id(self) -> Seq<char> {
        bridge::homecore_id(self.current().device_id@)
    }

    /// With the current device done.
    pub open spec fn past_current(self) -> SyncView {
        SyncView { next: self.next + 1, ..self }
    }

    /// With the current device added to the bridge, and done.
    pub open spec fn with_current_added(self) -> SyncView {
        SyncView {
            bridge: self.bridge.added(self.current(), self.current_kind()->0),
            ..self.past_current()
        }
    }

    /// With the current device's new record and kind in the bridge, and done.
    pub open spec fn with_current_refreshed(self, i: int) -> SyncView {
        SyncView {
            bridge: self.bridge.refreshed(i, self.current(), self.current_kind()->0),
            ..self.past_current()
        }
    }

    /// Goes on through the list up to the next device that needs the outside,
    /// and past its end to the devices that it does not name.
    pub open spec fn visit(self) -> (SyncView, ActionView)
        decreases self.fresh.len() - self.next,
    {
        if self.next >= self.fresh.len() {
            SyncView {
                unlisted: unlisted_positions(
                    self.bridge,
                    self.seen,
                    self.bridge.devices.len() as int,
                ),
                gone: 0,
                ..self
            }.sweep()
        } else {
            match self.current_kind() {
                None => self.past_current().visit(),
                Some(kind) => {
                    let info = self.current();
                    let id = info.device_id@;
                    let noted = SyncView { seen: self.seen.insert(id), ..self };
                    if !self.bridge.index.contains_key(id) {
                        (
                            SyncView { stage: SyncStageView::Registering, ..noted },
                            ActionView::Register {
                                hc_id: bridge::homecore_id(id),
                                name: info.name@,
                                device_type: kind.device_type(),
                                kind,
                            },
                        )
                    } else {
                        let i = self.bridge.index[id];
                        let known = self.bridge.devices[i];
                        if needs_reregister(known, info, kind) {
                            (
                                SyncView { stage: SyncStageView::Reregistering(i), ..noted },
                                ActionView::Register {
                                    hc_id: known.hc_id,
                                    name: info.name@,
                                    device_type: kind.device_type(),
                                    kind,
                                },
                            )
                        } else {
                            noted.with_current_refreshed(i).visit()
                        }
                    }
                },
            }
        }
    }

    /// Goes on through the devices that the list does not name.
    pub open spec fn sweep(self) -> (SyncView, ActionView)
        decreases self.unlisted.len() - self.gone,
    {
        if self.gone >= self.unlisted.len() {
            (SyncView { stage: SyncStageView::Finished, ..self }, ActionView::Finish)
        } else {
            let i = self.unlisted[self.gone];
            let delisted = SyncView { bridge: self.bridge.delisted(i), ..self };
            if self.bridge.devices[i].retired {
                SyncView { gone: self.gone + 1, ..delisted }.sweep()
            } else {
                (
                    SyncView { stage: SyncStageView::Unregistering(i), ..delisted },
                    ActionView::Unregister { hc_id: self.bridge.devices[i].hc_id },
                )
            }
        }
    }

    /// Where a reply leads, and what is to be done next.
    pub open spec fn step(self, reply: ReplyView) -> (SyncView, ActionView) {
        match self.stage {
            SyncStageView::Reregistering(i) => if reply is Failed {
                self.past_current().visit()
            } else {
                self.with_current_refreshed(i).visit()
            },
            SyncStageView::Registering => if reply is Failed {
                self.past_current().visit()
            } else {
                (
                    SyncView { stage: SyncStageView::Subscribing, ..self },
                    ActionView::SubscribeCommands { hc_id: self.current_hc_id() },
                )
            },
            SyncStageView::Subscribing => (
                SyncView { stage: SyncStageView::Fetching, ..self },
                ActionView::FetchState { device: self.current() },
            ),
            SyncStageView::Fetching => {
                let (online, state) = match reply {
                    ReplyView::State(data) => (
                        bridge::is_online(data),
                        self.current_kind()->0.shown_state(data, self.bridge.temp_unit),
                    ),
                    _ => (false, None),
                };
                (
                    SyncView { stage: SyncStageView::Announcing(state), ..self },
                    ActionView::Publish(
                        PublicationView::Availability { hc_id: self.current_hc_id(), online },
                    ),
                )
            },
            SyncStageView::Announcing(Some(state)) => (
                SyncView { stage: SyncStageView::Showing, ..self },
                ActionView::Publish(PublicationView::State { hc_id: self.current_hc_id(), state }),
            ),
            SyncStageView::Announcing(None) => self.with_current_added().visit(),
            SyncStageView::Showing => self.with_current_added().visit(),
            SyncStageView::Unregistering(i) => if reply is Failed {
                SyncView { bridge: self.bridge.relisted(i), gone: self.gone + 1, ..self }.sweep()
            } else {
                SyncView { bridge: self.bridge.with_retired(i), gone: self.gone + 1, ..self }.sweep()
            },
            SyncStageView::Finished => (self, ActionView::Finish),
        }
    }

    /// Whether the bridge is sound, and what the sync waits for makes sense.
    pub open spec fn wf(self) -> bool {
        &&& self.bridge.wf()
        &&& 0 <= self.next <= self.fresh.len()
        &&& 0 <= self.gone <= self.unlisted.len()
        &&& forall|k: int|
            0 <= k < self.unlisted.len() ==> 0 <= #[trigger] self.unlisted[k]
                < self.bridge.devices.len()
        &&& match self.stage {
            SyncStageView::Reregistering(i) => {
                &&& self.next < self.fresh.len()
                &&& self.current_kind() is Some
                &&& self.bridge.index.contains_key(self.current().device_id@)
                &&& self.bridge.index[self.current().device_id@] == i
            },
            SyncStageView::Unregistering(i) => {
                &&& self.gone < self.unlisted.len()
                &&& self.unlisted[self.gone] == i
                &&& !self.bridge.devices[i].retired
                &&& !self.bridge.index.contains_key(self.bridge.devices[i].info.device_id@)
            },
            SyncStageView::Finished => true,
            _ => {
                &&& self.next < self.fresh.len()
                &&& self.current_kind() is Some
                &&& !self.bridge.index.contains_key(self.current().device_id@)
            },
        }
    }
}

/// A sweep leaves a sound sync sound.
pub(crate) proof fn sweep_keeps_wf(s: SyncView)
    requires
        s.bridge.wf(),
        0 <= s.next <= s.fresh.len(),
        0 <= s.gone <= s.unlisted.len(),
        forall|k: int|
            0 <= k < s.unlisted.len() ==> 0 <= #[trigger] s.unlisted[k] < s.bridge.devices.len(),
    ensures
        s.sweep().0.wf(),
    decreases s.unlisted.len() - s.gone,
{
    if s.gone < s.unlisted.len() {
        let i = s.unlisted[s.gone];
        if s.bridge.devices[i].retired {
            sweep_keeps_wf(SyncView { bridge: s.bridge.delisted(i), gone: s.gone + 1, ..s });
        }
    }
}

/// All unlisted positions are positions of devices.
proof fn unlisted_positions_in_range(bridge: BridgeView, seen: Set<Seq<char>>, count: int)
    requires
        0 <= count <= bridge.devices.len(),
    ensures
        forall|k: int|
            0 <= k < unlisted_positions(bridge, seen, count).len() ==> 0
                <= #[trigger] unlisted_positions(bridge, seen, count)[k] < count,
    decreases count,
{
    if count > 0 {
        unlisted_positions_in_range(bridge, seen, count - 1);
        let before = unlisted_positions(bridge, seen, count - 1);
        let all = unlisted_positions(bridge, seen, count);
        assert forall|k: int| 0 <= k < all.len() implies 0 <= #[trigger] all[k] < count by {
            if k < before.len() {
                assert(all[k] == before[k]);
            }
        }
    }
}

/// Going through the list leaves a sound sync sound.
pub(crate) proof fn visit_keeps_wf(s: SyncView)
    requires
        s.bridge.wf(),
        0 <= s.next <= s.fresh.len(),
        0 <= s.gone <= s.unlisted.len(),
        forall|k: int|
            0 <= k < s.unlisted.len() ==> 0 <= #[trigger] s.unlisted[k] < s.bridge.devices.len(),
    ensures
        s.visit().0.wf(),
    decreases s.fresh.len() - s.next,
{
    if s.next >= s.fresh.len() {
        let count = s.bridge.devices.len() as int;
        let unlisted = unlisted_positions(s.bridge, s.seen, count);
        unlisted_positions_in_range(s.bridge, s.seen, count);
        sweep_keeps_wf(SyncView { unlisted, gone: 0, ..s });
    } else {
        match s.current_kind() {
            None => {
                visit_keeps_wf(s.past_current());
            },
            Some(kind) => {
                let info = s.current();
                let id = info.device_id@;
                let noted = SyncView { seen: s.seen.insert(id), ..s };
                if s.bridge.index.contains_key(id) {
                    let i = s.bridge.index[id];
                    if !needs_reregister(s.bridge.devices[i], info, kind) {
                        visit_keeps_wf(noted.with_current_refreshed(i));
                    }
                }
            },
        }
    }
}

/// Every reply leaves a sound sync sound.
pub proof fn step_keeps_wf(s: SyncView, reply: ReplyView)
    requires
        s.wf(),
    ensures
        s.step(reply).0.wf(),
{
    match s.stage {
        SyncStageView::Reregistering(i) => {
            visit_keeps_wf(s.past_current());
            visit_keeps_wf(s.with_current_refreshed(i));
        },
        SyncStageView::Registering => {
            visit_keeps_wf(s.past_current());
        },
        SyncStageView::Announcing(_) => {
            visit_keeps_wf(s.with_current_added());
        },
        SyncStageView::Showing => {
            visit_keeps_wf(s.with_current_added());
        },
        SyncStageView::Unregistering(i) => {
            sweep_keeps_wf(SyncView { bridge: s.bridge.relisted(i), gone: s.gone + 1, ..s });
            sweep_keeps_wf(SyncView { bridge: s.bridge.with_retired(i), gone: s.gone + 1, ..s });
        },
        _ => {},
    }
}

impl Bridge {
    /// Starts a sync with a fresh device list.
    pub fn sync_inventory(self, fresh: Vec<DeviceInfo>) -> (started: (InventorySync, Action))
        requires
            self@.wf(),
        ensures
            (started.0@, started.1@) == SyncView::start(self@, fresh@).visit(),
            started.0@.wf(),
    {
        let mut sync = InventorySync {
            bridge: self,
            fresh,
            next: 0,
            seen: StringHashSet::new(),
            unlisted: Vec::new(),
            gone: 0,
            stage: SyncStage::Finished,
        };
        proof {
            assert(sync.unlisted@.map_values(|i: usize| i as int) =~= Seq::empty());
            visit_keeps_wf(sync@);
        }
        let action = sync.visit();
        (sync, action)
    }
}

impl InventorySync {
    /// Takes the sync one step further with what came of the last action.
    pub fn advance(&mut self, reply: Reply) -> (action: Action)
        requires
            old(self)@.wf(),
        ensures
            (final(self)@, action@) == old(self)@.step(reply@),
            final(self)@.wf(),
    {
        proof {
            step_keeps_wf(self@, reply@);
            assert(self@.next < self@.fresh.len() ==> self.next < self.fresh.len());
            assert(self@.gone < self@.unlisted.len() ==> self.gone < self.unlisted.len());
        }
        let failed = match &reply {
            Reply::Failed(_) => true,
            _ => false,
        };
        match &self.stage {
            SyncStage::Reregistering(i) => {
                let i: usize = *i;
                if failed {
                    self.next = self.next + 1;
                } else {
                    self.refresh_current(i);
                }
                self.visit()
            },
            SyncStage::Registering => {
                if failed {
                    self.next = self.next + 1;
                    self.visit()
                } else {
                    self.stage = SyncStage::Subscribing;
                    Action::SubscribeCommands { hc_id: self.current_hc_id() }
                }
            },
            SyncStage::Subscribing => {
                self.stage = SyncStage::Fetching;
                Action::FetchState { device: self.fresh[self.next].clone() }
            },
            SyncStage::Fetching => {
                let kind = self.current_kind();
                let (online, state) = match reply {
                    Reply::State(data) => (
                        snapshot_online(&data),
                        kind.translate_state(&data, &self.bridge.temp_unit()),
                    ),
                    _ => (false, None),
                };
                self.stage = SyncStage::Announcing(state);
                Action::Publish(Publication::Availability { hc_id: self.current_hc_id(), online })
            },
            SyncStage::Announcing(_) => {
                match self.take_announced() {
                    Some(state) => {
                        self.stage = SyncStage::Showing;
                        Action::Publish(Publication::State { hc_id: self.current_hc_id(), state })
                    },
                    None => {
                        self.add_current();
                        self.visit()
                    },
                }
            },
            SyncStage::Showing => {
                self.add_current();
                self.visit()
            },
            SyncStage::Unregistering(i) => {
                let i: usize = *i;
                if failed {
                    self.bridge.relist(i);
                } else {
                    self.bridge.retire(i);
                }
                self.gone = self.gone + 1;
                self.sweep()
            },
            SyncStage::Finished => Action::Finish,
        }
    }

    /// Whether the sync is over.
    pub fn is_finished(&self) -> (finished: bool)
        ensures
            finished == (self@.stage is Finished),
    {
        match self.stage {
            SyncStage::Finished => true,
            _ => false,
        }
    }

    /// Gives the bridge back.
    pub fn into_bridge(self) -> (bridge: Bridge)
        ensures
            bridge@ == self@.bridge,
    {
        self.bridge
    }

    /// Takes the state that is to be published out of the stage.
    fn take_announced(&mut self) -> (state: Option<DeviceState>)
        requires
            old(self)@.stage is Announcing,
        ensures
            old(self)@.stage == SyncStageView::Announcing(
                match state {
                    Some(state) => Some(state@),
                    None => None,
                },
            ),
            final(self)@ == (SyncView {
                stage: SyncStageView::Announcing(None),
                ..old(self)@
            }),
    {
        let mut stage = SyncStage::Announcing(None);
        std::mem::swap(&mut stage, &mut self.stage);
        match stage {
            SyncStage::Announcing(state) => state,
            _ => None,
        }
    }

    /// The HomeCore ID of the device that is being worked on.
    fn current_hc_id(&self) -> (hc_id: String)
        requires
            self@.next < self@.fresh.len(),
        ensures
            hc_id@ == self@.current_hc_id(),
    {
        hc_id_for(self.fresh[self.next].device_id.as_str())
    }

    /// The kind of the device that is being worked on.
    fn current_kind(&self) -> (kind: DeviceKind)
        requires
            self@.next < self@.fresh.len(),
            self@.current_kind() is Some,
        ensures
            kind == self@.current_kind()->0,
    {
        DeviceKind::from_yolink_type(self.fresh[self.next].device_type.as_str())
    }

    /// Puts the current device's new record and kind into the bridge.
    fn refresh_current(&mut self, i: usize)
        requires
            old(self)@.bridge.wf(),
            old(self)@.next < old(self)@.fresh.len(),
            old(self)@.current_kind() is Some,
            i < old(self)@.bridge.devices.len(),
            old(self)@.bridge.devices[i as int].info.device_id@ == old(self)@.current().device_id@,
        ensures
            final(self)@ == old(self)@.with_current_refreshed(i as int),
            final(self)@.bridge.wf(),
    {
        assert(self.next < self.fresh.len());
        let info = self.fresh[self.next].clone();
        let kind = self.current_kind();
        self.bridge.refresh(i, info, kind);
        self.next = self.next + 1;
    }

    /// Adds the current device to the bridge.
    fn add_current(&mut self)
        requires
            old(self)@.bridge.wf(),
            old(self)@.next < old(self)@.fresh.len(),
            old(self)@.current_kind() is Some,
        ensures
            final(self)@ == old(self)@.with_current_added(),
            final(self)@.bridge.wf(),
    {
        assert(self.next < self.fresh.len());
        let info = self.fresh[self.next].clone();
        let kind = self.current_kind();
        self.bridge.add(info, kind);
        self.next = self.next + 1;
    }

    /// Goes on through the list.
    fn visit(&mut self) -> (action: Action)
        requires
            old(self)@.bridge.wf(),
            old(self)@.next <= old(self)@.fresh.len(),
        ensures
            (final(self)@, action@) == old(self)@.visit(),
    {
        let ghost goal = self@.visit();
        while self.next < self.fresh.len()
            invariant
                self@.bridge.wf(),
                self@.next <= self@.fresh.len(),
                self@.visit() == goal,
                goal == old(self)@.visit(),
            decreases self@.fresh.len() - self@.next,
        {
            let kind = DeviceKind::from_yolink_type(self.fresh[self.next].device_type.as_str());
            if !kind.is_supported() {
                self.next = self.next + 1;
            } else {
                let info = self.fresh[self.next].clone();
                self.seen.insert(info.device_id.clone());
                match self.bridge.position_of(info.device_id.as_str()) {
                    None => {
                        self.stage = SyncStage::Registering;
                        return Action::Register {
                            hc_id: hc_id_for(info.device_id.as_str()),
                            name: info.name,
                            device_type: kind.homecore_device_type(),
                            kind,
                        };
                    },
                    Some(i) => {
                        let known = self.bridge.device(i);
                        let changed = !same_text(known.info.name.as_str(), info.name.as_str())
                            || !same_text(
                            known.kind.homecore_device_type(),
                            kind.homecore_device_type(),
                        );
                        if changed {
                            let hc_id = known.hc_id.clone();
                            self.stage = SyncStage::Reregistering(i);
                            return Action::Register {
                                hc_id,
                                name: info.name,
                                device_type: kind.homecore_device_type(),
                                kind,
                            };
                        }
                        self.refresh_current(i);
                    },
                }
            }
        }
        self.unlisted = self.find_unlisted();
        self.gone = 0;
        proof {
            unlisted_positions_in_range(
                self@.bridge,
                self@.seen,
                self@.bridge.devices.len() as int,
            );
        }
        self.sweep()
    }

    /// The positions of the devices that the list did not name.
    fn find_unlisted(&self) -> (unlisted: Vec<usize>)
        requires
            self@.bridge.wf(),
        ensures
            unlisted@.map_values(|i: usize| i as int) == unlisted_positions(
                self@.bridge,
                self@.seen,
                self@.bridge.devices.len() as int,
            ),
    {
        let mut unlisted: Vec<usize> = Vec::new();
        let count = self.bridge.device_count();
        let mut i: usize = 0;
        proof {
            assert(unlisted@.map_values(|i: usize| i as int) =~= Seq::empty());
        }
        while i < count
            invariant
                i <= count,
                count == self@.bridge.devices.len(),
                self@.bridge.wf(),
                unlisted@.map_values(|i: usize| i as int) == unlisted_positions(
                    self@.bridge,
                    self@.seen,
                    i as int,
                ),
            decreases count - i,
        {
            let id = self.bridge.device(i).info.device_id.as_str();
            let ghost before = unlisted@.map_values(|i: usize| i as int);
            let listed_here = match self.bridge.position_of(id) {
                Some(at) => at == i,
                None => false,
            };
            if listed_here && !self.seen.contains(id) {
                unlisted.push(i);
                proof {
                    assert(unlisted@.map_values(|i: usize| i as int) =~= before.push(i as int));
                }
            }
            i = i + 1;
        }
        unlisted
    }

    /// Goes on through the devices that the list did not name.
    fn sweep(&mut self) -> (action: Action)
        requires
            old(self)@.bridge.wf(),
            old(self)@.gone <= old(self)@.unlisted.len(),
            forall|k: int|
                0 <= k < old(self)@.unlisted.len() ==> 0 <= #[trigger] old(self)@.unlisted[k]
                    < old(self)@.bridge.devices.len(),
        ensures
            (final(self)@, action@) == old(self)@.sweep(),
    {
        let ghost goal = self@.sweep();
        while self.gone < self.unlisted.len()
            invariant
                self@.bridge.wf(),
                self@.gone <= self@.unlisted.len(),
                forall|k: int|
                    0 <= k < self@.unlisted.len() ==> 0 <= #[trigger] self@.unlisted[k]
                        < self@.bridge.devices.len(),
                self@.sweep() == goal,
                goal == old(self)@.sweep(),
            decreases self@.unlisted.len() - self@.gone,
        {
            let i = self.unlisted[self.gone];
            assert(self@.unlisted[self@.gone] == i);
            self.bridge.delist(i);
            if self.bridge.device(i).retired {
                self.gone = self.gone + 1;
            } else {
                let hc_id = self.bridge.device(i).hc_id.clone();
                self.stage = SyncStage::Unregistering(i);
                return Action::Unregister { hc_id };
            }
        }
        self.stage = SyncStage::Finished;
        Action::Finish
    }
}

} // verus!
