//! What the bridge asks its surroundings to do, and what they answer.

use vstd::prelude::*;

use crate::devices::{DeviceKind, DeviceState, StateView};
use crate::json::{Json, JsonView};
use crate::yolink::types::DeviceInfo;

verus! {

/// Something to publish to HomeCore.
#[derive(Debug)]
pub enum Publication {
    /// Whether a device can be reached.
    Availability { hc_id: String, online: bool },
    /// A device's full state, retained.
    State { hc_id: String, state: DeviceState },
    /// A change to be merged into a device's state.
    Patch { hc_id: String, patch: DeviceState },
}

/// The mathematical content of a [`Publication`].
pub enum PublicationView {
    Availability { hc_id: Seq<char>, online: bool },
    State { hc_id: Seq<char>, state: StateView },
    Patch { hc_id: Seq<char>, patch: StateView },
}

impl View for Publication {
    type V = PublicationView;

    open spec fn view(&self) -> PublicationView {
        match self {
            Publication::Availability { hc_id, online } => PublicationView::Availability {
                hc_id: hc_id@,
                online: *online,
            },
            Publication::State { hc_id, state } => PublicationView::State {
                hc_id: hc_id@,
                state: state@,
            },
            Publication::Patch { hc_id, patch } => PublicationView::Patch {
                hc_id: hc_id@,
                patch: patch@,
            },
        }
    }
}

/// A list of publications, each by its content.
pub open spec fn contents(publications: Seq<Publication>) -> Seq<PublicationView> {
    publications.map_values(|p: Publication| p@)
}

/// One thing that the surroundings are to do next.
#[derive(Debug)]
pub enum Action {
    /// Obtain an access token, and keep it fresh.
    Authenticate { token_url: String, client_id: String, client_secret: String },
    /// Ask the YoLink API for the home's ID.
    GetHomeId,
    /// Start the stream of device reports.
    OpenEventStream { host: String, port: u16, topic_prefix: String },
    /// Connect to the HomeCore broker.
    ConnectHomecore,
    /// Ask the YoLink API for the device list.
    ListDevices,
    /// Register a device with HomeCore, and publish the schema of its kind.
    Register { hc_id: String, name: String, device_type: &'static str, kind: DeviceKind },
    /// Subscribe to HomeCore's commands for a device.
    SubscribeCommands { hc_id: String },
    /// Ask the YoLink API for a device's state.
    FetchState { device: DeviceInfo },
    /// Publish something to HomeCore.
    Publish(Publication),
    /// Take a device off HomeCore.
    Unregister { hc_id: String },
    /// Nothing more: it is done.
    Finish,
    /// Nothing more: it has failed, and this is why.
    Abort(String),
}

/// The mathematical content of an [`Action`].
pub enum ActionView {
    Authenticate { token_url: Seq<char>, client_id: Seq<char>, client_secret: Seq<char> },
    GetHomeId,
    OpenEventStream { host: Seq<char>, port: u16, topic_prefix: Seq<char> },
    ConnectHomecore,
    ListDevices,
    Register { hc_id: Seq<char>, name: Seq<char>, device_type: Seq<char>, kind: DeviceKind },
    SubscribeCommands { hc_id: Seq<char> },
    FetchState { device: DeviceInfo },
    Publish(PublicationView),
    Unregister { hc_id: Seq<char> },
    Finish,
    Abort(Seq<char>),
}

impl View for Action {
    type V = ActionView;

    open spec fn view(&self) -> ActionView {
        match self {
            Action::Authenticate { token_url, client_id, client_secret } => {
                ActionView::Authenticate {
                    token_url: token_url@,
                    client_id: client_id@,
                    client_secret: client_secret@,
                }
            },
            Action::GetHomeId => ActionView::GetHomeId,
            Action::OpenEventStream { host, port, topic_prefix } => ActionView::OpenEventStream {
                host: host@,
                port: *port,
                topic_prefix: topic_prefix@,
            },
            Action::ConnectHomecore => ActionView::ConnectHomecore,
            Action::ListDevices => ActionView::ListDevices,
            Action::Register { hc_id, name, device_type, kind } => ActionView::Register {
                hc_id: hc_id@,
                name: name@,
                device_type: device_type@,
                kind: *kind,
            },
            Action::SubscribeCommands { hc_id } => ActionView::SubscribeCommands { hc_id: hc_id@ },
            Action::FetchState { device } => ActionView::FetchState { device: *device },
            Action::Publish(publication) => ActionView::Publish(publication@),
            Action::Unregister { hc_id } => ActionView::Unregister { hc_id: hc_id@ },
            Action::Finish => ActionView::Finish,
            Action::Abort(error) => ActionView::Abort(error@),
        }
    }
}

/// What came of an action.
#[derive(Debug)]
pub enum Reply {
    /// It was done.
    Done,
    /// It could not be done, and this is why.
    Failed(String),
    /// The home's ID.
    HomeId(String),
    /// The device list.
    Devices(Vec<DeviceInfo>),
    /// A device's state.
    State(Json),
}

/// The mathematical content of a [`Reply`].
pub enum ReplyView {
    Done,
    Failed(Seq<char>),
    HomeId(Seq<char>),
    Devices(Seq<DeviceInfo>),
    State(JsonView),
}

impl View for Reply {
    type V = ReplyView;

    open spec fn view(&self) -> ReplyView {
        match self {
            Reply::Done => ReplyView::Done,
            Reply::Failed(error) => ReplyView::Failed(error@),
            Reply::HomeId(id) => ReplyView::HomeId(id@),
            Reply::Devices(list) => ReplyView::Devices(list@),
            Reply::State(data) => ReplyView::State(data@),
        }
    }
}

impl ReplyView {
    /// Why a reply is not the one that was hoped for: the error that it carries,
    /// if it is a failure.
    pub open spec fn error(self) -> Seq<char> {
        match self {
            ReplyView::Failed(error) => error,
            _ => "unexpected reply"@,
        }
    }
}

impl Reply {
    /// Why this is not the reply that was hoped for.
    pub fn into_error(self) -> (error: String)
        ensures
            error@ == self@.error(),
    {
        match self {
            Reply::Failed(error) => error,
            _ => "unexpected reply".to_string(),
        }
    }
}

} // verus!
