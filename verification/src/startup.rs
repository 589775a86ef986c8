//! Bringing the plugin up: connect both sides, register every bridged device,
//! announce its state (unless the initial fetch is disabled), and hand all of
//! them to a [`Bridge`].
//!
//! Everything that needs the outside is handed out as an [`Action`]; its
//! [`Reply`] takes the start one step further. A start that fails is repeated a
//! few times.

use vstd::prelude::*;

use crate::actions::{Action, ActionView, Publication, PublicationView, Reply, ReplyView};
use crate::bridge;
use crate::bridge::{hc_id_for, snapshot_online, Bridge, BridgeView};
use crate::config::{Config, ConfigError, Endpoints, Mode, TemperatureUnit, YolinkConfig};
use crate::devices::{DeviceKind, DeviceState, StateView};
use crate::yolink::mqtt;
use crate::yolink::mqtt::topic_prefix;
use crate::yolink::types::DeviceInfo;

verus! {

// ---------------------------------------------------------------------------
// Retries
// ---------------------------------------------------------------------------

/// How often a start is tried.
pub const MAX_ATTEMPTS: u32 = 3;

/// How long to wait after a failed start, in seconds.
pub const RETRY_DELAY_SECS: u64 = 60;

/// How long to wait before the next attempt after the given one (counted from
/// 1) failed, in seconds; `None` if it was the last.
pub fn retry_delay(attempt: u32) -> (delay: Option<u64>)
    ensures
        delay == if attempt < MAX_ATTEMPTS {
            Some(RETRY_DELAY_SECS)
        } else {
            None
        },
{
    if attempt < MAX_ATTEMPTS {
        Some(RETRY_DELAY_SECS)
    } else {
        None
    }
}

// ---------------------------------------------------------------------------
// One start
// ---------------------------------------------------------------------------

/// What a start is waiting for.
#[derive(Debug)]
enum StartupStage {
    /// The access token.
    Authenticating,
    /// The home's ID.
    AskingHome,
    /// The stream of device reports.
    OpeningStream,
    /// The connection to HomeCore.
    Connecting,
    /// The device list.
    Listing,
    /// The registration of a device.
    Registering,
    /// The subscription to its commands.
    Subscribing,
    /// Its state.
    Fetching,
    /// The publication of its availability; its state, if any, comes next.
    Announcing(Option<DeviceState>),
    /// The publication of its state.
    Showing,
    /// Nothing: all devices are bridged.
    Finished,
    /// Nothing: something failed, and this is why.
    Aborted(String),
}

/// The mathematical content of a [`StartupStage`].
pub enum StartupStageView {
    Authenticating,
    AskingHome,
    OpeningStream,
    Connecting,
    Listing,
    Registering,
    Subscribing,
    Fetching,
    Announcing(Option<StateView>),
    Showing,
    Finished,
    Aborted(Seq<char>),
}

impl View for StartupStage {
    type V = StartupStageView;

    closed spec fn view(&self) -> StartupStageView {
        match self {
            StartupStage::Authenticating => StartupStageView::Authenticating,
            StartupStage::AskingHome => StartupStageView::AskingHome,
            StartupStage::OpeningStream => StartupStageView::OpeningStream,
            StartupStage::Connecting => StartupStageView::Connecting,
            StartupStage::Listing => StartupStageView::Listing,
            StartupStage::Registering => StartupStageView::Registering,
            StartupStage::Subscribing => StartupStageView::Subscribing,
            StartupStage::Fetching => StartupStageView::Fetching,
            StartupStage::Announcing(state) => StartupStageView::Announcing(
                match state {
                    Some(state) => Some(state@),
                    None => None,
                },
            ),
            StartupStage::Showing => StartupStageView::Showing,
            StartupStage::Finished => StartupStageView::Finished,
            StartupStage::Aborted(error) => StartupStageView::Aborted(error@),
        }
    }
}

/// A start under way.
pub struct Startup {
    mode: Mode,
    endpoints: Endpoints,
    temp_unit: TemperatureUnit,
    poll_interval_secs: u64,
    poll_device_delay_ms: u64,
    /// Whether devices are asked for their state as they are registered.
    fetches: bool,
    devices: Vec<DeviceInfo>,
    /// The entry of `devices` that is being worked on.
    next: usize,
    bridged: Vec<(DeviceInfo, DeviceKind)>,
    stage: StartupStage,
}

/// The mathematical content of a [`Startup`].
pub struct StartupView {
    pub mode: Mode,
    pub endpoints: Endpoints,
    pub temp_unit: TemperatureUnit,
    pub poll_interval_secs: u64,
    pub poll_device_delay_ms: u64,
    pub fetches: bool,
    pub devices: Seq<DeviceInfo>,
    pub next: int,
    pub bridged: Seq<(DeviceInfo, DeviceKind)>,
    pub stage: StartupStageView,
}

impl View for Startup {
    type V = StartupView;

    closed spec fn view(&self) -> StartupView {
        StartupView {
            mode: self.mode,
            endpoints: self.endpoints,
            temp_unit: self.temp_unit,
            poll_interval_secs: self.poll_interval_secs,
            poll_device_delay_ms: self.poll_device_delay_ms,
            fetches: self.fetches,
            devices: self.devices@,
            next: self.next as int,
            bridged: self.bridged@,
            stage: self.stage@,
        }
    }
}

/// The bridged devices of a list, in order, each with its kind.
pub open spec fn bridged_of(devices: Seq<DeviceInfo>) -> Seq<(DeviceInfo, DeviceKind)>
    decreases devices.len(),
{
    if devices.len() == 0 {
        Seq::empty()
    } else {
        let before = bridged_of(devices.drop_last());
        match DeviceKind::bridged_type(devices.last().device_type@) {
            Some(kind) => before.push((devices.last(), kind)),
            None => before,
        }
    }
}

impl StartupView {
    /// Whether this is a start with the given settings that has asked for its
    /// access token.
    pub open spec fn is_fresh(self, cfg: YolinkConfig) -> bool {
        &&& self.mode == cfg.mode
        &&& self.endpoints.are_of(cfg)
        &&& self.temp_unit == cfg.temperature_unit
        &&& self.poll_interval_secs == cfg.poll_interval_secs
        &&& self.poll_device_delay_ms == cfg.poll_device_delay_ms
        &&& self.fetches == (cfg.initial_fetch_delay_secs != 0)
        &&& self.devices == Seq::<DeviceInfo>::empty()
        &&& self.next == 0
        &&& self.bridged == Seq::<(DeviceInfo, DeviceKind)>::empty()
        &&& self.stage is Authenticating
    }

    /// The bridge of what is bridged so far.
    pub open spec fn bridge(self) -> BridgeView {
        BridgeView::discovered(
            self.bridged,
            self.temp_unit,
            self.poll_interval_secs,
            self.poll_device_delay_ms,
        )
    }

    /// The request for the access token.
    pub open spec fn authentication(self) -> ActionView {
        ActionView::Authenticate {
            token_url: self.endpoints.token_url@,
            client_id: self.endpoints.client_id@,
            client_secret: self.endpoints.client_secret@,
        }
    }

    /// The device that is being worked on.
    pub open spec fn current(self) -> DeviceInfo {
        self.devices[self.next]
    }

    /// Its kind, if it is bridged.
    pub open spec fn current_kind(self) -> Option<DeviceKind> {
        DeviceKind::bridged_type(self.current().device_type@)
    }

    /// Its HomeCore ID.
    pub open spec fn current_hc_id(self) -> Seq<char> {
        bridge::homecore_id(self.current().device_id@)
    }

    /// Starts the stream of reports of a network.
    pub open spec fn open_stream(self, network: Seq<char>) -> (StartupView, ActionView) {
        (
            StartupView { stage: StartupStageView::OpeningStream, ..self },
            ActionView::OpenEventStream {
                host: self.endpoints.mqtt_host@,
                port: self.endpoints.mqtt_port,
                topic_prefix: mqtt::namespace(self.mode, network),
            },
        )
    }

    /// Gives up for a reason.
    pub open spec fn abort(self, error: Seq<char>) -> (StartupView, ActionView) {
        (StartupView { stage: StartupStageView::Aborted(error), ..self }, ActionView::Abort(error))
    }

    /// Goes on to the next device that is bridged, or finishes.
    pub open spec fn visit(self) -> (StartupView, ActionView)
        decreases self.devices.len() - self.next,
    {
        if self.next >= self.devices.len() {
            (StartupView { stage: StartupStageView::Finished, ..self }, ActionView::Finish)
        } else {
            match self.current_kind() {
                None => StartupView { next: self.next + 1, ..self }.visit(),
                Some(kind) => (
                    StartupView { stage: StartupStageView::Registering, ..self },
                    ActionView::Register {
                        hc_id: self.current_hc_id(),
                        name: self.current().name@,
                        device_type: kind.device_type(),
                        kind,
                    },
                ),
            }
        }
    }

    /// Counts the current device among the bridged ones, and goes on.
    pub open spec fn accept(self) -> (StartupView, ActionView) {
        StartupView {
            bridged: self.bridged.push((self.current(), self.current_kind()->0)),
            next: self.next + 1,
            ..self
        }.visit()
    }

    /// Where a reply leads, and what is to be done next. Whatever fails ends the
    /// start with its error, except that a device whose state cannot be had is announced as
    /// offline. Where the initial fetch is disabled, no device is asked for its
    /// state, and none is announced.
    pub open spec fn step(self, reply: ReplyView) -> (StartupView, ActionView) {
        match self.stage {
            StartupStageView::Authenticating => if reply is Done {
                match self.mode {
                    Mode::Cloud => (
                        StartupView { stage: StartupStageView::AskingHome, ..self },
                        ActionView::GetHomeId,
                    ),
                    Mode::Local => self.open_stream(self.endpoints.net_id@),
                }
            } else {
                self.abort(reply.error())
            },
            StartupStageView::AskingHome => match reply {
                ReplyView::HomeId(id) => self.open_stream(id),
                _ => self.abort(reply.error()),
            },
            StartupStageView::OpeningStream => (
                StartupView { stage: StartupStageView::Connecting, ..self },
                ActionView::ConnectHomecore,
            ),
            StartupStageView::Connecting => if reply is Done {
                (
                    StartupView { stage: StartupStageView::Listing, ..self },
                    ActionView::ListDevices,
                )
            } else {
                self.abort(reply.error())
            },
            StartupStageView::Listing => match reply {
                ReplyView::Devices(list) => StartupView { devices: list, next: 0, ..self }.visit(),
                _ => self.abort(reply.error()),
            },
            StartupStageView::Registering => if reply is Done {
                (
                    StartupView { stage: StartupStageView::Subscribing, ..self },
                    ActionView::SubscribeCommands { hc_id: self.current_hc_id() },
                )
            } else {
                self.abort(reply.error())
            },
            StartupStageView::Subscribing => if reply is Done {
                if self.fetches {
                    (
                        StartupView { stage: StartupStageView::Fetching, ..self },
                        ActionView::FetchState { device: self.current() },
                    )
                } else {
                    self.accept()
                }
            } else {
                self.abort(reply.error())
            },
            StartupStageView::Fetching => {
                let (online, state) = match reply {
                    ReplyView::State(data) => (
                        bridge::is_online(data),
                        self.current_kind()->0.shown_state(data, self.temp_unit),
                    ),
                    _ => (false, None),
                };
                (
                    StartupView { stage: StartupStageView::Announcing(state), ..self },
                    ActionView::Publish(
                        PublicationView::Availability { hc_id: self.current_hc_id(), online },
                    ),
                )
            },
            StartupStageView::Announcing(state) => if reply is Done {
                match state {
                    Some(state) => (
                        StartupView { stage: StartupStageView::Showing, ..self },
                        ActionView::Publish(
                            PublicationView::State { hc_id: self.current_hc_id(), state },
                        ),
                    ),
                    None => self.accept(),
                }
            } else {
                self.abort(reply.error())
            },
            StartupStageView::Showing => if reply is Done {
                self.accept()
            } else {
                self.abort(reply.error())
            },
            StartupStageView::Finished => (self, ActionView::Finish),
            StartupStageView::Aborted(error) => (self, ActionView::Abort(error)),
        }
    }

    /// Whether what the start waits for makes sense, and what it has bridged so
    /// far is what the list calls for.
    pub open spec fn wf(self) -> bool {
        &&& 0 <= self.next <= self.devices.len()
        &&& self.bridged == bridged_of(self.devices.take(self.next))
        &&& match self.stage {
            StartupStageView::Registering => self.is_at_device(),
            StartupStageView::Subscribing => self.is_at_device(),
            StartupStageView::Fetching => self.is_at_device(),
            StartupStageView::Announcing(_) => self.is_at_device(),
            StartupStageView::Showing => self.is_at_device(),
            StartupStageView::Finished => self.next == self.devices.len(),
            StartupStageView::Aborted(_) => true,
            _ => self.devices.len() == 0,
        }
    }

    /// Whether a bridged device is being worked on.
    pub open spec fn is_at_device(self) -> bool {
        self.next < self.devices.len() && self.current_kind() is Some
    }
}

/// Going on to the next device keeps a start sound.
proof fn visit_keeps_wf(s: StartupView)
    requires
        0 <= s.next <= s.devices.len(),
        s.bridged == bridged_of(s.devices.take(s.next)),
    ensures
        s.visit().0.wf(),
    decreases s.devices.len() - s.next,
{
    if s.next < s.devices.len() && s.current_kind() is None {
        assert(s.devices.take(s.next + 1).drop_last() =~= s.devices.take(s.next));
        visit_keeps_wf(StartupView { next: s.next + 1, ..s });
    }
}

/// Every reply leaves a sound start sound: what it has bridged is always what
/// the part of the list that it is past calls for.
pub proof fn step_keeps_wf(s: StartupView, reply: ReplyView)
    requires
        s.wf(),
    ensures
        s.step(reply).0.wf(),
{
    match (s.stage, reply) {
        (StartupStageView::Listing, ReplyView::Devices(list)) => {
            assert(list.take(0) =~= s.devices.take(s.next));
            visit_keeps_wf(StartupView { devices: list, next: 0, ..s });
        },
        _ => {},
    }
    if s.is_at_device() {
        assert(s.devices.take(s.next + 1).drop_last() =~= s.devices.take(s.next));
        visit_keeps_wf(
            StartupView {
                bridged: s.bridged.push((s.current(), s.current_kind()->0)),
                next: s.next + 1,
                ..s
            },
        );
    }
}

/// Begins a start with checked settings.
pub fn try_start(cfg: &Config) -> (started: Result<(Startup, Action), ConfigError>)
    requires
        cfg.yolink.is_complete(),
    ensures
        started is Ok,
        started->Ok_0.0@.is_fresh(cfg.yolink),
        started->Ok_0.0@.wf(),
        started->Ok_0.1@ == started->Ok_0.0@.authentication(),
{
    let endpoints = match Endpoints::from_config(&cfg.yolink) {
        Ok(endpoints) => endpoints,
        Err(error) => return Err(error),
    };
    let action = Action::Authenticate {
        token_url: endpoints.token_url.clone(),
        client_id: endpoints.client_id.clone(),
        client_secret: endpoints.client_secret.clone(),
    };
    let startup = Startup {
        mode: cfg.yolink.mode,
        endpoints,
        temp_unit: cfg.yolink.temperature_unit,
        poll_interval_secs: cfg.yolink.poll_interval_secs,
        poll_device_delay_ms: cfg.yolink.poll_device_delay_ms,
        fetches: cfg.yolink.initial_fetch_delay().is_some(),
        devices: Vec::new(),
        next: 0,
        bridged: Vec::new(),
        stage: StartupStage::Authenticating,
    };
    assert(startup@.devices.take(0) =~= Seq::empty());
    Ok((startup, action))
}

impl Startup {
    /// Takes the start one step further with what came of the last action.
    pub fn advance(&mut self, reply: Reply) -> (action: Action)
        requires
            old(self)@.wf(),
        ensures
            (final(self)@, action@) == old(self)@.step(reply@),
            final(self)@.wf(),
    {
        proof {
            step_keeps_wf(self@, reply@);
            assert(self@.next < self@.devices.len() ==> self.next < self.devices.len());
        }
        let done = match &reply {
            Reply::Done => true,
            _ => false,
        };
        match &self.stage {
            StartupStage::Authenticating => {
                if !done {
                    return self.abort(reply.into_error());
                }
                match self.mode {
                    Mode::Cloud => {
                        self.stage = StartupStage::AskingHome;
                        Action::GetHomeId
                    },
                    Mode::Local => {
                        let net_id = self.endpoints.net_id.clone();
                        self.open_stream(net_id.as_str())
                    },
                }
            },
            StartupStage::AskingHome => match reply {
                Reply::HomeId(id) => self.open_stream(id.as_str()),
                other => self.abort(other.into_error()),
            },
            StartupStage::OpeningStream => {
                self.stage = StartupStage::Connecting;
                Action::ConnectHomecore
            },
            StartupStage::Connecting => {
                if !done {
                    return self.abort(reply.into_error());
                }
                self.stage = StartupStage::Listing;
                Action::ListDevices
            },
            StartupStage::Listing => match reply {
                Reply::Devices(list) => {
                    self.devices = list;
                    self.next = 0;
                    self.visit()
                },
                other => self.abort(other.into_error()),
            },
            StartupStage::Registering => {
                if !done {
                    return self.abort(reply.into_error());
                }
                self.stage = StartupStage::Subscribing;
                Action::SubscribeCommands { hc_id: self.current_hc_id() }
            },
            StartupStage::Subscribing => {
                if !done {
                    return self.abort(reply.into_error());
                }
                if self.fetches {
                    self.stage = StartupStage::Fetching;
                    Action::FetchState { device: self.devices[self.next].clone() }
                } else {
                    self.accept()
                }
            },
            StartupStage::Fetching => {
                let kind = self.current_kind();
                let (online, state) = match reply {
                    Reply::State(data) => (
                        snapshot_online(&data),
                        kind.translate_state(&data, &self.temp_unit),
                    ),
                    _ => (false, None),
                };
                self.stage = StartupStage::Announcing(state);
                Action::Publish(Publication::Availability { hc_id: self.current_hc_id(), online })
            },
            StartupStage::Announcing(_) => {
                if !done {
                    return self.abort(reply.into_error());
                }
                match self.take_announced() {
                    Some(state) => {
                        self.stage = StartupStage::Showing;
                        Action::Publish(Publication::State { hc_id: self.current_hc_id(), state })
                    },
                    None => self.accept(),
                }
            },
            StartupStage::Showing => {
                if !done {
                    return self.abort(reply.into_error());
                }
                self.accept()
            },
            StartupStage::Finished => Action::Finish,
            StartupStage::Aborted(error) => Action::Abort(error.clone()),
        }
    }

    /// The bridge of the devices that were registered.
    pub fn into_bridge(self) -> (bridge: Bridge)
        ensures
            bridge@.wf(),
            bridge@ == self@.bridge(),
    {
        Bridge::new(
            self.bridged,
            self.temp_unit,
            self.poll_interval_secs,
            self.poll_device_delay_ms,
        )
    }

    /// Gives up for a reason.
    fn abort(&mut self, error: String) -> (action: Action)
        ensures
            (final(self)@, action@) == old(self)@.abort(error@),
    {
        self.stage = StartupStage::Aborted(error.clone());
        Action::Abort(error)
    }

    /// Starts the stream of reports of a network.
    fn open_stream(&mut self, network: &str) -> (action: Action)
        ensures
            (final(self)@, action@) == old(self)@.open_stream(network@),
    {
        self.stage = StartupStage::OpeningStream;
        Action::OpenEventStream {
            host: self.endpoints.mqtt_host.clone(),
            port: self.endpoints.mqtt_port,
            topic_prefix: topic_prefix(self.mode, network),
        }
    }

    /// Takes the state that is to be published out of the stage.
    fn take_announced(&mut self) -> (state: Option<DeviceState>)
        requires
            old(self)@.stage is Announcing,
        ensures
            old(self)@.stage == StartupStageView::Announcing(
                match state {
                    Some(state) => Some(state@),
                    None => None,
                },
            ),
            final(self)@ == (StartupView {
                stage: StartupStageView::Announcing(None),
                ..old(self)@
            }),
    {
        let mut stage = StartupStage::Announcing(None);
        std::mem::swap(&mut stage, &mut self.stage);
        match stage {
            StartupStage::Announcing(state) => state,
            _ => None,
        }
    }

    /// The HomeCore ID of the device that is being worked on.
    fn current_hc_id(&self) -> (hc_id: String)
        requires
            self@.next < self@.devices.len(),
        ensures
            hc_id@ == self@.current_hc_id(),
    {
        hc_id_for(self.devices[self.next].device_id.as_str())
    }

    /// The kind of the device that is being worked on.
    fn current_kind(&self) -> (kind: DeviceKind)
        requires
            self@.is_at_device(),
        ensures
            kind == self@.current_kind()->0,
    {
        DeviceKind::from_yolink_type(self.devices[self.next].device_type.as_str())
    }

    /// Goes on to the next device that is bridged, or finishes.
    fn visit(&mut self) -> (action: Action)
        requires
            old(self)@.next <= old(self)@.devices.len(),
        ensures
            (final(self)@, action@) == old(self)@.visit(),
    {
        let ghost goal = self@.visit();
        while self.next < self.devices.len()
            invariant
                self@.next <= self@.devices.len(),
                self@.visit() == goal,
                goal == old(self)@.visit(),
            decreases self@.devices.len() - self@.next,
        {
            let kind = DeviceKind::from_yolink_type(self.devices[self.next].device_type.as_str());
            if kind.is_supported() {
                self.stage = StartupStage::Registering;
                return Action::Register {
                    hc_id: self.current_hc_id(),
                    name: self.devices[self.next].name.clone(),
                    device_type: kind.homecore_device_type(),
                    kind,
                };
            }
            self.next = self.next + 1;
        }
        self.stage = StartupStage::Finished;
        Action::Finish
    }

    /// Counts the current device among the bridged ones, and goes on.
    fn accept(&mut self) -> (action: Action)
        requires
            old(self)@.is_at_device(),
        ensures
            (final(self)@, action@) == old(self)@.accept(),
    {
        assert(self.next < self.devices.len());
        let info = self.devices[self.next].clone();
        let kind = self.current_kind();
        self.bridged.push((info, kind));
        self.next = self.next + 1;
        self.visit()
    }
}

} // verus!
