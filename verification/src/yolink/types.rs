//! Packets and records of the YoLink API.

use vstd::prelude::*;
use vstd::string::*;

use crate::json::{Json, JsonView};
use crate::text::{joined, same_text};

verus! {

// ---------------------------------------------------------------------------
// BDDP: Basic Downlink Data Packet (client to YoLink)
// ---------------------------------------------------------------------------

/// A request to the YoLink API.
#[derive(Debug)]
pub struct Bddp<'a> {
    /// Current Unix timestamp in milliseconds
    pub time: u64,
    /// JSON-RPC method name, e.g. "Outlet.setState"
    pub method: &'a str,
    /// Caller-supplied message ID for correlation (optional)
    pub msgid: Option<String>,
    /// Target device ID (required for device-specific methods)
    pub target_device: Option<&'a str>,
    /// Per-device auth token obtained from the device list
    pub token: Option<&'a str>,
    /// Method-specific parameters
    pub params: Option<Json>,
}

/// The name of an API method.
pub open spec fn method_text(device_type: Seq<char>, suffix: Seq<char>) -> Seq<char> {
    device_type + "."@ + suffix
}

/// The name of an API method: a device type and what is asked of it.
pub fn method_name(device_type: &str, suffix: &str) -> (name: String)
    ensures
        name@ == method_text(device_type@, suffix@),
{
    joined(device_type, ".").concat(suffix)
}

// ---------------------------------------------------------------------------
// BUDP: Basic Uplink Data Packet (YoLink to client)
// ---------------------------------------------------------------------------

/// A reply of the YoLink API.
#[derive(Debug)]
pub struct Budp {
    /// "000000" = success; any other value is an error
    pub code: String,
    /// Human-readable status description
    pub desc: Option<String>,
    /// Method-specific response payload
    pub data: Option<Json>,
}

/// An error that the YoLink API replied with.
#[derive(Debug)]
pub struct ApiError {
    pub code: String,
    pub description: String,
}

impl ApiError {
    pub open spec fn text(self) -> Seq<char> {
        "YoLink API error "@ + self.code@ + " — "@ + self.description@
    }

    pub fn message(&self) -> (text: String)
        ensures
            text@ == self.text(),
    {
        joined("YoLink API error ", self.code.as_str()).concat(" — ").concat(
            self.description.as_str(),
        )
    }
}

impl Budp {
    /// Whether the reply reports success.
    pub open spec fn succeeded(self) -> bool {
        self.code@ == "000000"@
    }

    /// The payload; null where the reply has none.
    pub open spec fn payload(self) -> JsonView {
        match self.data {
            Some(data) => data@,
            None => JsonView::Null,
        }
    }

    /// The description; empty where the reply has none.
    pub open spec fn description(self) -> Seq<char> {
        match self.desc {
            Some(desc) => desc@,
            None => Seq::empty(),
        }
    }

    /// Unwrap the response data, returning an error if `code != "000000"`.
    pub fn into_data(self) -> (unwrapped: Result<Json, ApiError>)
        ensures
            match unwrapped {
                Ok(data) => self.succeeded() && data@ == self.payload(),
                Err(error) => {
                    &&& !self.succeeded()
                    &&& error.code@ == self.code@
                    &&& error.description@ == self.description()
                },
            },
    {
        if !same_text(self.code.as_str(), "000000") {
            let description = match self.desc {
                Some(desc) => desc,
                None => String::new(),
            };
            return Err(ApiError { code: self.code, description });
        }
        match self.data {
            Some(data) => Ok(data),
            None => Ok(Json::Null),
        }
    }
}

// ---------------------------------------------------------------------------
// DeviceInfo: entry in the device list response
// ---------------------------------------------------------------------------

/// A device as the YoLink API lists it.
#[derive(Debug)]
pub struct DeviceInfo {
    pub device_id: String,
    pub name: String,
    /// YoLink device type string, e.g. "Outlet", "DoorSensor", "THSensor"
    pub device_type: String,
    /// Per-device network token; required for all device-specific API calls
    pub token: String,
    /// Hub / gateway this device is paired to
    pub parent_device_id: Option<String>,
}

impl Clone for DeviceInfo {
    fn clone(&self) -> (copy: Self)
        ensures
            copy == *self,
    {
        let parent_device_id = match &self.parent_device_id {
            Some(parent) => Some(parent.clone()),
            None => None,
        };
        DeviceInfo {
            device_id: self.device_id.clone(),
            name: self.name.clone(),
            device_type: self.device_type.clone(),
            token: self.token.clone(),
            parent_device_id,
        }
    }
}

// ---------------------------------------------------------------------------
// YolinkReport: parsed real-time event from the MQTT broker
// ---------------------------------------------------------------------------

/// A real-time event of a device.
#[derive(Debug)]
pub struct YolinkReport {
    /// YoLink device ID
    pub device_id: String,
    /// Event type: "StatusChange", "Alert", "Report", etc.
    pub event: String,
    /// Raw event payload (device-type-specific)
    pub data: Json,
}

impl Clone for YolinkReport {
    fn clone(&self) -> (copy: Self)
        ensures
            copy.device_id == self.device_id,
            copy.event == self.event,
            copy.data@ == self.data@,
    {
        YolinkReport {
            device_id: self.device_id.clone(),
            event: self.event.clone(),
            data: self.data.clone(),
        }
    }
}

} // verus!
