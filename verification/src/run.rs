//! The bridge at work: reports, commands and timers, one after the other.
//!
//! Everything that needs the outside is handed out as a [`Task`]; its [`Reply`]
//! takes the work one step further. While there is work, new events wait.

use vstd::prelude::*;

use crate::actions;
use crate::actions::{Action, ActionView, Publication, PublicationView, Reply, ReplyView};
use crate::bridge;
use crate::bridge::{Bridge, BridgeView, CommandOutcome, PollStep};
use crate::devices;
use crate::devices::CommandError;
use crate::inventory;
use crate::inventory::{InventorySync, SyncView};
use crate::json::{Json, JsonView};
use crate::yolink::types::{DeviceInfo, YolinkReport};

verus! {

/// Something that happens while the bridge is idle.
#[derive(Debug)]
pub enum Event {
    /// Real-time device report from YoLink MQTT
    Report(YolinkReport),
    /// Command from HomeCore (rule engine / user API)
    Command { hc_id: String, cmd: Json },
    /// The time of the initial state fetch has come.
    InitialFetchDue,
    /// The time of the periodic true-up has come.
    PollDue,
}

/// One thing that the surroundings are to do next.
#[derive(Debug)]
pub enum Task {
    /// Wait for the next event.
    Await,
    /// Wait a while.
    Pause { millis: u64 },
    /// Do something on either side.
    Perform(Action),
    /// Ask the YoLink API to set a device's state.
    Send { device: DeviceInfo, method: &'static str, params: Json },
    /// Tell why a command is not followed.
    Refuse(CommandError),
}

/// The mathematical content of a [`Task`].
pub enum TaskView {
    Await,
    Pause { millis: u64 },
    Perform(ActionView),
    Send { device: DeviceInfo, method: Seq<char>, params: JsonView },
    Refuse(CommandError),
}

impl View for Task {
    type V = TaskView;

    open spec fn view(&self) -> TaskView {
        match self {
            Task::Await => TaskView::Await,
            Task::Pause { millis } => TaskView::Pause { millis: *millis },
            Task::Perform(action) => TaskView::Perform(action@),
            Task::Send { device, method, params } => TaskView::Send {
                device: *device,
                method: method@,
                params: params@,
            },
            Task::Refuse(error) => TaskView::Refuse(*error),
        }
    }
}

/// A poll under way.
struct Poll {
    bridge: Bridge,
    steps: Vec<PollStep>,
    /// The step that is being worked on.
    at: usize,
    /// Whether the device list is synced when the poll is done.
    sync_after: bool,
}

/// The mathematical content of a [`Poll`].
pub struct PollView {
    pub bridge: BridgeView,
    pub steps: Seq<PollStep>,
    pub at: int,
    pub sync_after: bool,
}

impl View for Poll {
    type V = PollView;

    closed spec fn view(&self) -> PollView {
        PollView {
            bridge: self.bridge@,
            steps: self.steps@,
            at: self.at as int,
            sync_after: self.sync_after,
        }
    }
}

/// What the bridge is at.
enum RunStage {
    /// Nothing: it waits for an event.
    Idle(Bridge),
    /// Publishing what a report led to; the rest comes next.
    Reporting(Bridge, Vec<Publication>),
    /// Following or refusing a command.
    Commanding(Bridge),
    /// Waiting before the next device of a poll.
    Pausing(Poll),
    /// Asking a device of a poll for its state.
    Fetching(Poll),
    /// Publishing what it answered; the rest comes next.
    Announcing(Poll, Vec<Publication>),
    /// Asking for the device list.
    Listing(Bridge),
    /// Syncing with the device list.
    Syncing(InventorySync),
}

/// A bridge at work.
pub struct Run {
    stage: RunStage,
}

/// The mathematical content of a [`Run`].
pub enum RunView {
    Idle(BridgeView),
    Reporting(BridgeView, Seq<PublicationView>),
    Commanding(BridgeView),
    Pausing(PollView),
    Fetching(PollView),
    Announcing(PollView, Seq<PublicationView>),
    Listing(BridgeView),
    Syncing(SyncView),
}

impl View for Run {
    type V = RunView;

    closed spec fn view(&self) -> RunView {
        match self.stage {
            RunStage::Idle(bridge) => RunView::Idle(bridge@),
            RunStage::Reporting(bridge, rest) => RunView::Reporting(
                bridge@,
                actions::contents(rest@),
            ),
            RunStage::Commanding(bridge) => RunView::Commanding(bridge@),
            RunStage::Pausing(poll) => RunView::Pausing(poll@),
            RunStage::Fetching(poll) => RunView::Fetching(poll@),
            RunStage::Announcing(poll, rest) => RunView::Announcing(
                poll@,
                actions::contents(rest@),
            ),
            RunStage::Listing(bridge) => RunView::Listing(bridge@),
            RunStage::Syncing(sync) => RunView::Syncing(sync@),
        }
    }
}

impl PollView {
    /// Asks the current device for its state.
    pub open spec fn fetch(self) -> (RunView, TaskView) {
        (
            RunView::Fetching(self),
            TaskView::Perform(ActionView::FetchState { device: self.steps[self.at].info }),
        )
    }

    /// Goes on with the current device, after a pause if there is to be one.
    /// Past the last device the poll is over; a true-up goes on to the device
    /// list.
    pub open spec fn proceed(self) -> (RunView, TaskView) {
        if self.at >= self.steps.len() {
            if self.sync_after {
                (RunView::Listing(self.bridge), TaskView::Perform(ActionView::ListDevices))
            } else {
                (RunView::Idle(self.bridge), TaskView::Await)
            }
        } else {
            match self.steps[self.at].delay_ms {
                Some(millis) => (RunView::Pausing(self), TaskView::Pause { millis }),
                None => self.fetch(),
            }
        }
    }

    /// Publishes what the current device answered, and goes on to the next.
    pub open spec fn announce(self, queue: Seq<PublicationView>) -> (RunView, TaskView) {
        if queue.len() == 0 {
            PollView { at: self.at + 1, ..self }.proceed()
        } else {
            (
                RunView::Announcing(self, queue.drop_first()),
                TaskView::Perform(ActionView::Publish(queue.first())),
            )
        }
    }

    /// What an answer of the current device leads to.
    pub open spec fn publications(self, data: JsonView) -> Seq<PublicationView> {
        self.bridge.devices[self.steps[self.at].device as int].snapshot_publications(
            data,
            self.bridge.temp_unit,
        )
    }

    /// Whether this is a poll of a sound bridge.
    pub open spec fn wf(self) -> bool {
        &&& self.bridge.wf()
        &&& self.steps == self.bridge.poll_steps()
        &&& 0 <= self.at < self.steps.len()
        &&& forall|k: int|
            0 <= k < self.steps.len() ==> (#[trigger] self.steps[k]).device
                < self.bridge.devices.len()
    }
}

impl RunView {
    /// The bridge that is at work.
    pub open spec fn bridge(self) -> BridgeView {
        match self {
            RunView::Idle(bridge) => bridge,
            RunView::Reporting(bridge, _) => bridge,
            RunView::Commanding(bridge) => bridge,
            RunView::Pausing(poll) => poll.bridge,
            RunView::Fetching(poll) => poll.bridge,
            RunView::Announcing(poll, _) => poll.bridge,
            RunView::Listing(bridge) => bridge,
            RunView::Syncing(sync) => sync.bridge,
        }
    }

    /// Whether the bridge is sound, and what it is at makes sense.
    pub open spec fn wf(self) -> bool {
        match self {
            RunView::Pausing(poll) => poll.wf(),
            RunView::Fetching(poll) => poll.wf(),
            RunView::Announcing(poll, rest) => poll.wf() && rest.len() <= 1,
            RunView::Syncing(sync) => sync.wf() && !(sync.stage is Finished),
            _ => self.bridge().wf(),
        }
    }

    /// Publishes what a report led to.
    pub open spec fn report(bridge: BridgeView, queue: Seq<PublicationView>) -> (
        RunView,
        TaskView,
    ) {
        if queue.len() == 0 {
            (RunView::Idle(bridge), TaskView::Await)
        } else {
            (
                RunView::Reporting(bridge, queue.drop_first()),
                TaskView::Perform(ActionView::Publish(queue.first())),
            )
        }
    }

    /// Follows a command, or refuses it. One for an unknown device is dropped.
    pub open spec fn command(bridge: BridgeView, hc_id: Seq<char>, cmd: JsonView) -> (
        RunView,
        TaskView,
    ) {
        match bridge.found(bridge::yolink_id(hc_id)) {
            None => (RunView::Idle(bridge), TaskView::Await),
            Some(device) => (
                RunView::Commanding(bridge),
                match device.kind.commanded_state(cmd) {
                    None => TaskView::Refuse(device.kind.command_error()),
                    Some(state) => TaskView::Send {
                        device: device.info,
                        method: "setState"@,
                        params: devices::set_state_params(state),
                    },
                },
            ),
        }
    }

    /// Polls all devices.
    pub open spec fn poll(bridge: BridgeView, sync_after: bool) -> (RunView, TaskView) {
        PollView { bridge, steps: bridge.poll_steps(), at: 0, sync_after }.proceed()
    }

    /// Goes on with a sync, or is done with it.
    pub open spec fn synced(next: (SyncView, ActionView)) -> (RunView, TaskView) {
        if next.0.stage is Finished {
            (RunView::Idle(next.0.bridge), TaskView::Await)
        } else {
            (RunView::Syncing(next.0), TaskView::Perform(next.1))
        }
    }

    /// Where an event leads an idle bridge, and what is to be done about it.
    pub open spec fn react(bridge: BridgeView, event: Event) -> (RunView, TaskView) {
        match event {
            Event::Report(report) => Self::report(
                bridge,
                bridge.report_publications(report.device_id@, report.data@),
            ),
            Event::Command { hc_id, cmd } => Self::command(bridge, hc_id@, cmd@),
            Event::InitialFetchDue => Self::poll(bridge, false),
            Event::PollDue => Self::poll(bridge, true),
        }
    }

    /// Where a reply leads, and what is to be done next. What could not be
    /// published or sent is left at that; a device that does not answer a poll
    /// is passed over; without a device list there is no sync.
    pub open spec fn step(self, reply: ReplyView) -> (RunView, TaskView) {
        match self {
            RunView::Idle(_) => (self, TaskView::Await),
            RunView::Reporting(bridge, rest) => Self::report(bridge, rest),
            RunView::Commanding(bridge) => (RunView::Idle(bridge), TaskView::Await),
            RunView::Pausing(poll) => poll.fetch(),
            RunView::Fetching(poll) => match reply {
                ReplyView::State(data) => poll.announce(poll.publications(data)),
                _ => poll.announce(Seq::empty()),
            },
            RunView::Announcing(poll, rest) => poll.announce(rest),
            RunView::Listing(bridge) => match reply {
                ReplyView::Devices(list) => Self::synced(SyncView::start(bridge, list).visit()),
                _ => (RunView::Idle(bridge), TaskView::Await),
            },
            RunView::Syncing(sync) => Self::synced(sync.step(reply)),
        }
    }
}

/// Going on with a sound poll keeps it sound.
proof fn proceed_keeps_wf(poll: PollView)
    requires
        poll.bridge.wf(),
        poll.steps == poll.bridge.poll_steps(),
        0 <= poll.at <= poll.steps.len(),
        forall|k: int|
            0 <= k < poll.steps.len() ==> (#[trigger] poll.steps[k]).device
                < poll.bridge.devices.len(),
    ensures
        poll.proceed().0.wf(),
{
}

/// Every reply leaves a sound bridge at sound work.
pub proof fn step_keeps_wf(run: RunView, reply: ReplyView)
    requires
        run.wf(),
    ensures
        run.step(reply).0.wf(),
{
    match run {
        RunView::Fetching(poll) => {
            proceed_keeps_wf(PollView { at: poll.at + 1, ..poll });
        },
        RunView::Announcing(poll, _) => {
            proceed_keeps_wf(PollView { at: poll.at + 1, ..poll });
        },
        RunView::Listing(bridge) => {
            if let ReplyView::Devices(list) = reply {
                inventory::visit_keeps_wf(SyncView::start(bridge, list));
            }
        },
        RunView::Syncing(sync) => {
            inventory::step_keeps_wf(sync, reply);
        },
        _ => {},
    }
}

impl Bridge {
    /// Puts the bridge to work; it waits for its first event.
    pub fn run(self) -> (run: Run)
        requires
            self@.wf(),
        ensures
            run@ == RunView::Idle(self@),
            run@.wf(),
    {
        Run { stage: RunStage::Idle(self) }
    }
}

impl Poll {
    /// Asks the current device for its state.
    fn fetch(self) -> (next: (Run, Task))
        requires
            self@.wf(),
        ensures
            (next.0@, next.1@) == self@.fetch(),
    {
        let device = self.steps[self.at].info.clone();
        (Run { stage: RunStage::Fetching(self) }, Task::Perform(Action::FetchState { device }))
    }

    /// Goes on with the current device, or is done.
    fn proceed(self) -> (next: (Run, Task))
        requires
            0 <= self@.at <= self@.steps.len(),
            self@.at < self@.steps.len() ==> self@.wf(),
        ensures
            (next.0@, next.1@) == self@.proceed(),
    {
        if self.at >= self.steps.len() {
            if self.sync_after {
                (
                    Run { stage: RunStage::Listing(self.bridge) },
                    Task::Perform(Action::ListDevices),
                )
            } else {
                (Run { stage: RunStage::Idle(self.bridge) }, Task::Await)
            }
        } else {
            match self.steps[self.at].delay_ms {
                Some(millis) => (Run { stage: RunStage::Pausing(self) }, Task::Pause { millis }),
                None => self.fetch(),
            }
        }
    }

    /// Publishes what the current device answered, and goes on to the next.
    fn announce(self, queue: Vec<Publication>) -> (next: (Run, Task))
        requires
            self@.wf(),
        ensures
            (next.0@, next.1@) == self@.announce(actions::contents(queue@)),
    {
        let ghost shown = actions::contents(queue@);
        if queue.len() == 0 {
            assert(self.at < self.steps.len());
            let next = Poll {
                bridge: self.bridge,
                steps: self.steps,
                at: self.at + 1,
                sync_after: self.sync_after,
            };
            next.proceed()
        } else {
            let mut rest = queue;
            let first = rest.remove(0);
            assert(actions::contents(rest@) =~= shown.drop_first());
            (
                Run { stage: RunStage::Announcing(self, rest) },
                Task::Perform(Action::Publish(first)),
            )
        }
    }
}

impl Run {
    /// Whether the bridge waits for an event.
    pub fn is_idle(&self) -> (idle: bool)
        ensures
            idle == (self@ is Idle),
    {
        match self.stage {
            RunStage::Idle(_) => true,
            _ => false,
        }
    }

    /// Reacts to an event.
    pub fn react(self, event: Event) -> (next: (Run, Task))
        requires
            self@.wf(),
            self@ is Idle,
        ensures
            (next.0@, next.1@) == RunView::react(self@.bridge(), event),
            next.0@.wf(),
    {
        match self.stage {
            RunStage::Idle(bridge) => match event {
                Event::Report(report) => {
                    let queue = bridge.handle_yolink_report(&report);
                    Self::report(bridge, queue)
                },
                Event::Command { hc_id, cmd } => match bridge.handle_homecore_command(
                    hc_id.as_str(),
                    &cmd,
                ) {
                    CommandOutcome::UnknownDevice => (
                        Run { stage: RunStage::Idle(bridge) },
                        Task::Await,
                    ),
                    CommandOutcome::Refused(error) => (
                        Run { stage: RunStage::Commanding(bridge) },
                        Task::Refuse(error),
                    ),
                    CommandOutcome::Send { device, method, params } => (
                        Run { stage: RunStage::Commanding(bridge) },
                        Task::Send { device, method, params },
                    ),
                },
                Event::InitialFetchDue => Self::poll(bridge, false),
                Event::PollDue => Self::poll(bridge, true),
            },
            _ => (self, Task::Await),
        }
    }

    /// Takes the work one step further with what came of the last task.
    pub fn advance(self, reply: Reply) -> (next: (Run, Task))
        requires
            self@.wf(),
        ensures
            (next.0@, next.1@) == self@.step(reply@),
            next.0@.wf(),
    {
        proof {
            step_keeps_wf(self@, reply@);
        }
        match self.stage {
            RunStage::Idle(bridge) => (Run { stage: RunStage::Idle(bridge) }, Task::Await),
            RunStage::Reporting(bridge, rest) => Self::report(bridge, rest),
            RunStage::Commanding(bridge) => (Run { stage: RunStage::Idle(bridge) }, Task::Await),
            RunStage::Pausing(poll) => poll.fetch(),
            RunStage::Fetching(poll) => {
                let queue = match reply {
                    Reply::State(data) => {
                        poll.bridge.handle_poll_reply(poll.steps[poll.at].device, &data)
                    },
                    _ => Vec::new(),
                };
                assert(!(reply@ is State) ==> actions::contents(queue@) =~= Seq::empty());
                poll.announce(queue)
            },
            RunStage::Announcing(poll, rest) => poll.announce(rest),
            RunStage::Listing(bridge) => match reply {
                Reply::Devices(list) => {
                    let (sync, action) = bridge.sync_inventory(list);
                    Self::synced(sync, action)
                },
                _ => (Run { stage: RunStage::Idle(bridge) }, Task::Await),
            },
            RunStage::Syncing(sync) => {
                let mut sync = sync;
                let action = sync.advance(reply);
                Self::synced(sync, action)
            },
        }
    }

    /// Publishes what a report led to.
    fn report(bridge: Bridge, queue: Vec<Publication>) -> (next: (Run, Task))
        ensures
            (next.0@, next.1@) == RunView::report(bridge@, actions::contents(queue@)),
    {
        let ghost shown = actions::contents(queue@);
        if queue.len() == 0 {
            (Run { stage: RunStage::Idle(bridge) }, Task::Await)
        } else {
            let mut rest = queue;
            let first = rest.remove(0);
            assert(actions::contents(rest@) =~= shown.drop_first());
            (
                Run { stage: RunStage::Reporting(bridge, rest) },
                Task::Perform(Action::Publish(first)),
            )
        }
    }

    /// Polls all devices.
    fn poll(bridge: Bridge, sync_after: bool) -> (next: (Run, Task))
        requires
            bridge@.wf(),
        ensures
            (next.0@, next.1@) == RunView::poll(bridge@, sync_after),
            next.0@.wf(),
    {
        let steps = bridge.poll_all_devices();
        let poll = Poll { bridge, steps, at: 0, sync_after };
        proof {
            proceed_keeps_wf(poll@);
        }
        poll.proceed()
    }

    /// Goes on with a sync, or is done with it.
    fn synced(sync: InventorySync, action: Action) -> (next: (Run, Task))
        ensures
            (next.0@, next.1@) == RunView::synced((sync@, action@)),
    {
        if sync.is_finished() {
            (Run { stage: RunStage::Idle(sync.into_bridge()) }, Task::Await)
        } else {
            (Run { stage: RunStage::Syncing(sync) }, Task::Perform(action))
        }
    }
}

} // verus!
