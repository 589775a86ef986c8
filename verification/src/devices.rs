//! The device kinds, and the translation between what YoLink devices say and
//! what HomeCore understands.

use vstd::prelude::*;
use vstd::string::*;

use crate::config::TemperatureUnit;
use crate::json;
use crate::json::{Json, JsonView};
use crate::measure::{round1, round3, Conversion, Measurement, Reading};
use crate::record::Record;
use crate::text::{has_char, joined, same_text};

verus! {

// ---------------------------------------------------------------------------
// Published states
// ---------------------------------------------------------------------------

/// The value of one published attribute.
#[derive(Debug)]
pub enum AttributeValue {
    Flag(bool),
    Count(u64),
    Label(String),
    Measured(Measurement),
}

/// The mathematical content of an [`AttributeValue`].
pub enum AttributeValueView {
    Flag(bool),
    Count(u64),
    Label(Seq<char>),
    Measured(Measurement),
}

impl View for AttributeValue {
    type V = AttributeValueView;

    open spec fn view(&self) -> AttributeValueView {
        match self {
            AttributeValue::Flag(b) => AttributeValueView::Flag(*b),
            AttributeValue::Count(n) => AttributeValueView::Count(*n),
            AttributeValue::Label(s) => AttributeValueView::Label(s@),
            AttributeValue::Measured(m) => AttributeValueView::Measured(*m),
        }
    }
}

/// A state as HomeCore gets it: attributes by name.
pub type DeviceState = Record<AttributeValue>;

/// The mathematical content of a [`DeviceState`].
pub type StateView = Map<Seq<char>, AttributeValueView>;

// ---------------------------------------------------------------------------
// Device kinds
// ---------------------------------------------------------------------------

/// What a YoLink device is.
#[derive(Debug, PartialEq, Eq)]
pub enum DeviceKind {
    /// Smart outlet (relay + optional power monitoring)
    Outlet,
    /// Same hardware class as Outlet
    SmartPlug,
    /// In-wall switch
    Switch,
    /// Multi-outlet power strip
    MultiOutlet,
    /// Door/window contact sensor
    DoorSensor,
    /// PIR motion sensor
    MotionSensor,
    /// Water leak sensor
    LeakSensor,
    /// Temperature + humidity sensor
    THSensor,
    /// Vibration / shock sensor
    VibrationSensor,
    /// Smart lock
    Lock,
    /// Smart lock v2 variant
    LockV2,
    /// Siren / alarm
    Siren,
    /// Hub itself, not bridged as a device
    Hub,
    /// Anything not yet recognised
    Unknown(String),
}

impl Clone for DeviceKind {
    fn clone(&self) -> (copy: Self)
        ensures
            copy == *self,
    {
        match self {
            DeviceKind::Outlet => DeviceKind::Outlet,
            DeviceKind::SmartPlug => DeviceKind::SmartPlug,
            DeviceKind::Switch => DeviceKind::Switch,
            DeviceKind::MultiOutlet => DeviceKind::MultiOutlet,
            DeviceKind::DoorSensor => DeviceKind::DoorSensor,
            DeviceKind::MotionSensor => DeviceKind::MotionSensor,
            DeviceKind::LeakSensor => DeviceKind::LeakSensor,
            DeviceKind::THSensor => DeviceKind::THSensor,
            DeviceKind::VibrationSensor => DeviceKind::VibrationSensor,
            DeviceKind::Lock => DeviceKind::Lock,
            DeviceKind::LockV2 => DeviceKind::LockV2,
            DeviceKind::Siren => DeviceKind::Siren,
            DeviceKind::Hub => DeviceKind::Hub,
            DeviceKind::Unknown(name) => DeviceKind::Unknown(name.clone()),
        }
    }
}

/// Why a command was not translated.
#[derive(Debug)]
pub enum CommandError {
    /// The command has no boolean `on`.
    MissingOn,
    /// The command has no boolean `locked`.
    MissingLocked,
    /// The device only reports.
    ReadOnly(DeviceKind),
    /// The device is not bridged.
    NotSupported(DeviceKind),
}

impl DeviceKind {
    // -----------------------------------------------------------------------
    // Names
    // -----------------------------------------------------------------------

    /// The kind of a YoLink device type that is bridged; `None` for all others.
    pub open spec fn bridged_type(name: Seq<char>) -> Option<DeviceKind> {
        if name == "Outlet"@ {
            Some(DeviceKind::Outlet)
        } else if name == "SmartPlug"@ {
            Some(DeviceKind::SmartPlug)
        } else if name == "Switch"@ {
            Some(DeviceKind::Switch)
        } else if name == "MultiOutlet"@ {
            Some(DeviceKind::MultiOutlet)
        } else if name == "DoorSensor"@ {
            Some(DeviceKind::DoorSensor)
        } else if name == "MotionSensor"@ {
            Some(DeviceKind::MotionSensor)
        } else if name == "LeakSensor"@ {
            Some(DeviceKind::LeakSensor)
        } else if name == "THSensor"@ {
            Some(DeviceKind::THSensor)
        } else if name == "VibrationSensor"@ {
            Some(DeviceKind::VibrationSensor)
        } else if name == "Lock"@ {
            Some(DeviceKind::Lock)
        } else if name == "LockV2"@ {
            Some(DeviceKind::LockV2)
        } else if name == "Siren"@ {
            Some(DeviceKind::Siren)
        } else {
            None
        }
    }

    /// Whether this is the kind for a YoLink device type.
    pub open spec fn is_of_type(self, name: Seq<char>) -> bool {
        match Self::bridged_type(name) {
            Some(kind) => self == kind,
            None => if name == "Hub"@ {
                self is Hub
            } else {
                self is Unknown && self->Unknown_0@ == name
            },
        }
    }

    /// The kind of a YoLink device type.
    pub fn from_yolink_type(s: &str) -> (kind: Self)
        ensures
            kind.is_of_type(s@),
    {
        if same_text(s, "Outlet") {
            DeviceKind::Outlet
        } else if same_text(s, "SmartPlug") {
            DeviceKind::SmartPlug
        } else if same_text(s, "Switch") {
            DeviceKind::Switch
        } else if same_text(s, "MultiOutlet") {
            DeviceKind::MultiOutlet
        } else if same_text(s, "DoorSensor") {
            DeviceKind::DoorSensor
        } else if same_text(s, "MotionSensor") {
            DeviceKind::MotionSensor
        } else if same_text(s, "LeakSensor") {
            DeviceKind::LeakSensor
        } else if same_text(s, "THSensor") {
            DeviceKind::THSensor
        } else if same_text(s, "VibrationSensor") {
            DeviceKind::VibrationSensor
        } else if same_text(s, "Lock") {
            DeviceKind::Lock
        } else if same_text(s, "LockV2") {
            DeviceKind::LockV2
        } else if same_text(s, "Siren") {
            DeviceKind::Siren
        } else if same_text(s, "Hub") {
            DeviceKind::Hub
        } else {
            DeviceKind::Unknown(s.to_string())
        }
    }

    /// The HomeCore device type of this kind.
    pub open spec fn device_type(self) -> Seq<char> {
        match self {
            DeviceKind::Outlet => "switch"@,
            DeviceKind::SmartPlug => "switch"@,
            DeviceKind::Switch => "switch"@,
            DeviceKind::MultiOutlet => "switch"@,
            DeviceKind::DoorSensor => "contact_sensor"@,
            DeviceKind::MotionSensor => "motion_sensor"@,
            DeviceKind::LeakSensor => "water_sensor"@,
            DeviceKind::VibrationSensor => "vibration_sensor"@,
            DeviceKind::THSensor => "temperature_sensor"@,
            DeviceKind::Lock => "lock"@,
            DeviceKind::LockV2 => "lock"@,
            DeviceKind::Siren => "switch"@,
            DeviceKind::Hub => "unknown"@,
            DeviceKind::Unknown(_) => "unknown"@,
        }
    }

    /// HomeCore device_type string (matched against the device-types catalog).
    pub fn homecore_device_type(&self) -> (name: &'static str)
        ensures
            name@ == self.device_type(),
    {
        match self {
            DeviceKind::Outlet => "switch",
            DeviceKind::SmartPlug => "switch",
            DeviceKind::Switch => "switch",
            DeviceKind::MultiOutlet => "switch",
            DeviceKind::DoorSensor => "contact_sensor",
            DeviceKind::MotionSensor => "motion_sensor",
            DeviceKind::LeakSensor => "water_sensor",
            DeviceKind::VibrationSensor => "vibration_sensor",
            DeviceKind::THSensor => "temperature_sensor",
            DeviceKind::Lock => "lock",
            DeviceKind::LockV2 => "lock",
            DeviceKind::Siren => "switch",
            DeviceKind::Hub => "unknown",
            DeviceKind::Unknown(_) => "unknown",
        }
    }

    /// Whether this kind is bridged.
    pub open spec fn is_bridged(self) -> bool {
        !(self is Hub) && !(self is Unknown)
    }

    /// Whether this device kind should be registered and bridged.
    pub fn is_supported(&self) -> (supported: bool)
        ensures
            supported == self.is_bridged(),
    {
        match self {
            DeviceKind::Hub => false,
            DeviceKind::Unknown(_) => false,
            _ => true,
        }
    }

    /// Whether this is one of the relays that are switched by `on`.
    pub open spec fn is_relay(self) -> bool {
        self is Outlet || self is SmartPlug || self is Switch || self is MultiOutlet
    }

    /// Whether this is one of the locks.
    pub open spec fn is_lock(self) -> bool {
        self is Lock || self is LockV2
    }

    /// Whether this kind only reports.
    pub open spec fn is_sensor(self) -> bool {
        self is DoorSensor || self is MotionSensor || self is LeakSensor || self is THSensor
            || self is VibrationSensor
    }

    // -----------------------------------------------------------------------
    // State translation
    // -----------------------------------------------------------------------

    /// The state that a device of this kind shows with a report, in the
    /// configured temperature unit; `None` if the report has no usable shape.
    pub open spec fn shown_state(self, data: JsonView, unit: TemperatureUnit) -> Option<StateView> {
        if self.is_relay() {
            switch_state(data)
        } else {
            match self {
                DeviceKind::DoorSensor => door_state(data),
                DeviceKind::MotionSensor => Some(motion_state(data)),
                DeviceKind::LeakSensor => Some(leak_state(data)),
                DeviceKind::THSensor => th_state(data, unit),
                DeviceKind::VibrationSensor => Some(vibration_state(data)),
                DeviceKind::Lock => lock_state(data),
                DeviceKind::LockV2 => lock_state(data),
                DeviceKind::Siren => Some(siren_state(data)),
                _ => None,
            }
        }
    }

    /// Translate device data from a YoLink report or getState response into a
    /// HomeCore state.
    ///
    /// Returns `None` if the data cannot be translated (e.g. unrecognised
    /// payload shape).
    pub fn translate_state(&self, data: &Json, temp_unit: &TemperatureUnit) -> (state: Option<
        DeviceState,
    >)
        ensures
            shows(state, self.shown_state(data@, *temp_unit)),
    {
        match self {
            DeviceKind::Outlet => translate_switch(data),
            DeviceKind::SmartPlug => translate_switch(data),
            DeviceKind::Switch => translate_switch(data),
            DeviceKind::MultiOutlet => translate_multi_outlet(data),
            DeviceKind::DoorSensor => translate_door_sensor(data),
            DeviceKind::MotionSensor => translate_motion_sensor(data),
            DeviceKind::LeakSensor => translate_leak_sensor(data),
            DeviceKind::THSensor => translate_th_sensor(data, temp_unit),
            DeviceKind::VibrationSensor => translate_vibration_sensor(data),
            DeviceKind::Lock => translate_lock(data),
            DeviceKind::LockV2 => translate_lock(data),
            DeviceKind::Siren => translate_siren(data),
            DeviceKind::Hub => None,
            DeviceKind::Unknown(_) => None,
        }
    }

    // -----------------------------------------------------------------------
    // Command translation
    // -----------------------------------------------------------------------

    /// The state that a command asks a device of this kind to take, as YoLink
    /// names it; `None` if the command is not one for this kind.
    pub open spec fn commanded_state(self, cmd: JsonView) -> Option<Seq<char>> {
        if self.is_relay() || self is Siren {
            match cmd.member("on"@).as_bool() {
                Some(on) => Some(
                    if on {
                        "open"@
                    } else {
                        "close"@
                    },
                ),
                None => None,
            }
        } else if self.is_lock() {
            match cmd.member("locked"@).as_bool() {
                Some(locked) => Some(
                    if locked {
                        "lock"@
                    } else {
                        "unlock"@
                    },
                ),
                None => None,
            }
        } else {
            None
        }
    }

    /// Translate a HomeCore command payload into a YoLink API method suffix
    /// (appended to the device type, e.g. "setState") and its params object.
    pub fn translate_command(&self, cmd: &Json) -> (translated: Result<
        (&'static str, Json),
        CommandError,
    >)
        ensures
            match translated {
                Ok((method, params)) => {
                    &&& self.commanded_state(cmd@) is Some
                    &&& method@ == "setState"@
                    &&& params@ == set_state_params(self.commanded_state(cmd@)->0)
                },
                Err(error) => self.commanded_state(cmd@) is None && error == self.command_error(),
            },
    {
        match self {
            DeviceKind::Outlet => translate_on(cmd),
            DeviceKind::SmartPlug => translate_on(cmd),
            DeviceKind::Switch => translate_on(cmd),
            DeviceKind::MultiOutlet => translate_on(cmd),
            DeviceKind::Siren => translate_on(cmd),
            DeviceKind::Lock => translate_locked(cmd),
            DeviceKind::LockV2 => translate_locked(cmd),
            DeviceKind::Hub => Err(CommandError::NotSupported(self.clone())),
            DeviceKind::Unknown(_) => Err(CommandError::NotSupported(self.clone())),
            _ => Err(CommandError::ReadOnly(self.clone())),
        }
    }

    /// Why a device of this kind does not take a command that it does not take.
    pub open spec fn command_error(self) -> CommandError {
        if self.is_relay() || self is Siren {
            CommandError::MissingOn
        } else if self.is_lock() {
            CommandError::MissingLocked
        } else if self.is_sensor() {
            CommandError::ReadOnly(self)
        } else {
            CommandError::NotSupported(self)
        }
    }

    /// The kind's name in messages.
    pub open spec fn name_in_messages(self) -> Seq<char> {
        match self {
            DeviceKind::Outlet => "Outlet"@,
            DeviceKind::SmartPlug => "SmartPlug"@,
            DeviceKind::Switch => "Switch"@,
            DeviceKind::MultiOutlet => "MultiOutlet"@,
            DeviceKind::DoorSensor => "DoorSensor"@,
            DeviceKind::MotionSensor => "MotionSensor"@,
            DeviceKind::LeakSensor => "LeakSensor"@,
            DeviceKind::THSensor => "THSensor"@,
            DeviceKind::VibrationSensor => "VibrationSensor"@,
            DeviceKind::Lock => "Lock"@,
            DeviceKind::LockV2 => "LockV2"@,
            DeviceKind::Siren => "Siren"@,
            DeviceKind::Hub => "Hub"@,
            DeviceKind::Unknown(name) => "Unknown("@ + quoted_text(name@) + ")"@,
        }
    }

    /// The kind's name in messages; an unrecognised type is quoted.
    pub fn describe(&self) -> (name: String)
        ensures
            name@ == self.name_in_messages(),
    {
        match self {
            DeviceKind::Outlet => "Outlet".to_string(),
            DeviceKind::SmartPlug => "SmartPlug".to_string(),
            DeviceKind::Switch => "Switch".to_string(),
            DeviceKind::MultiOutlet => "MultiOutlet".to_string(),
            DeviceKind::DoorSensor => "DoorSensor".to_string(),
            DeviceKind::MotionSensor => "MotionSensor".to_string(),
            DeviceKind::LeakSensor => "LeakSensor".to_string(),
            DeviceKind::THSensor => "THSensor".to_string(),
            DeviceKind::VibrationSensor => "VibrationSensor".to_string(),
            DeviceKind::Lock => "Lock".to_string(),
            DeviceKind::LockV2 => "LockV2".to_string(),
            DeviceKind::Siren => "Siren".to_string(),
            DeviceKind::Hub => "Hub".to_string(),
            DeviceKind::Unknown(name) => {
                let shown = quoted(name.as_str());
                joined("Unknown(", shown.as_str()).concat(")")
            },
        }
    }
}

impl CommandError {
    pub open spec fn text(self) -> Seq<char> {
        match self {
            CommandError::MissingOn => "cmd missing boolean 'on' field"@,
            CommandError::MissingLocked => "cmd missing boolean 'locked' field"@,
            CommandError::ReadOnly(kind) => kind.name_in_messages()
                + " is read-only; commands are not supported"@,
            CommandError::NotSupported(kind) => kind.name_in_messages()
                + " is not a supported device kind"@,
        }
    }

    pub fn message(&self) -> (text: String)
        ensures
            text@ == self.text(),
    {
        match self {
            CommandError::MissingOn => "cmd missing boolean 'on' field".to_string(),
            CommandError::MissingLocked => "cmd missing boolean 'locked' field".to_string(),
            CommandError::ReadOnly(kind) => kind.describe().concat(
                " is read-only; commands are not supported",
            ),
            CommandError::NotSupported(kind) => kind.describe().concat(
                " is not a supported device kind",
            ),
        }
    }
}

/// How the standard library's debug format shows a text: in quotes, with the
/// characters that need it escaped.
pub uninterp spec fn quoted_text(text: Seq<char>) -> Seq<char>;

/// The debug format of `str`: what it writes depends on the text alone.
#[verifier::external_body]
fn quoted(text: &str) -> (shown: String)
    ensures
        shown@ == quoted_text(text@),
{
    format!("{:?}", text)
}

// ---------------------------------------------------------------------------
// Commands
// ---------------------------------------------------------------------------

/// The parameters that ask a device to take a state.
pub open spec fn set_state_params(state: Seq<char>) -> JsonView {
    JsonView::Object(seq![("state"@, JsonView::Text(state))])
}

/// Translates a command by its `on` field: YoLink uses "open" for on and
/// "close" for off.
fn translate_on(cmd: &Json) -> (translated: Result<(&'static str, Json), CommandError>)
    ensures
        match (cmd@.member("on"@).as_bool(), translated) {
            (Some(on), Ok((method, params))) => method@ == "setState"@ && params@
                == set_state_params(
                if on {
                    "open"@
                } else {
                    "close"@
                },
            ),
            (None, Err(error)) => error == CommandError::MissingOn,
            _ => false,
        },
{
    match cmd.bool_at("on") {
        Some(on) => {
            let state = if on {
                "open"
            } else {
                "close"
            };
            Ok(("setState", Json::text_object("state", state)))
        },
        None => Err(CommandError::MissingOn),
    }
}

/// Translates a command by its `locked` field.
fn translate_locked(cmd: &Json) -> (translated: Result<(&'static str, Json), CommandError>)
    ensures
        match (cmd@.member("locked"@).as_bool(), translated) {
            (Some(locked), Ok((method, params))) => method@ == "setState"@ && params@
                == set_state_params(
                if locked {
                    "lock"@
                } else {
                    "unlock"@
                },
            ),
            (None, Err(error)) => error == CommandError::MissingLocked,
            _ => false,
        },
{
    match cmd.bool_at("locked") {
        Some(locked) => {
            let state = if locked {
                "lock"
            } else {
                "unlock"
            };
            Ok(("setState", Json::text_object("state", state)))
        },
        None => Err(CommandError::MissingLocked),
    }
}

// ---------------------------------------------------------------------------
// Per-kind translation
// ---------------------------------------------------------------------------

/// Whether a translated state is the wanted one.
pub open spec fn shows(state: Option<DeviceState>, wanted: Option<StateView>) -> bool {
    match state {
        Some(s) => wanted == Some(s@),
        None => wanted is None,
    }
}

/// Relays say "open" (or "on") for on and anything else for off.
pub open spec fn says_on(state: Seq<char>) -> bool {
    state == "open"@ || state == "on"@
}

/// The text that tells a relay's state: under `state`, or else the report
/// itself (some devices nest, some don't).
pub open spec fn state_text(data: JsonView) -> Option<Seq<char>> {
    json::first_of(data.member("state"@).as_text(), data.as_text())
}

/// Battery level: nested under `state`, or else on the report itself.
pub open spec fn battery_level(data: JsonView) -> Option<u64> {
    json::first_of(data.member("state"@).member("battery"@).as_u64(), data.member("battery"@).as_u64())
}

/// The `alarm` flag: on the report itself, or else nested under `state`.
pub open spec fn alarm_flag(data: JsonView) -> Option<bool> {
    json::first_of(data.member("alarm"@).as_bool(), data.member("state"@).member("alarm"@).as_bool())
}

/// A state with an attribute added, if it has a value.
pub open spec fn with_count(state: StateView, name: Seq<char>, value: Option<u64>) -> StateView {
    match value {
        Some(n) => state.insert(name, AttributeValueView::Count(n)),
        None => state,
    }
}

/// A state with a measured attribute added, if there is a reading.
pub open spec fn with_measured(
    state: StateView,
    name: Seq<char>,
    number: Option<crate::json::JsonNumber>,
    decimals: u8,
) -> StateView {
    match number {
        Some(number) => state.insert(
            name,
            AttributeValueView::Measured(
                Measurement {
                    reading: Reading { number, conversion: Conversion::Unchanged },
                    decimals,
                },
            ),
        ),
        None => state,
    }
}

/// A relay: on or off, and what its power meter shows.
pub open spec fn switch_state(data: JsonView) -> Option<StateView> {
    match state_text(data) {
        None => None,
        Some(text) => {
            let relay = Map::empty().insert("on"@, AttributeValueView::Flag(says_on(text)));
            let power = json::first_of(
                data.member("power"@).as_number(),
                data.member("watt"@).as_number(),
            );
            let energy = data.member("electricity"@).as_number();
            Some(
                with_measured(
                    with_measured(relay, "power_w"@, power, 1),
                    "energy_kwh"@,
                    energy,
                    3,
                ),
            )
        },
    }
}

/// A door: whether it is open, under two names, and the battery.
pub open spec fn door_state(data: JsonView) -> Option<StateView> {
    match data.member("state"@).as_text() {
        None => None,
        Some(text) => {
            let open = AttributeValueView::Flag(text == "open"@);
            Some(
                with_count(
                    Map::empty().insert("open"@, open).insert("contact"@, open),
                    "battery"@,
                    battery_level(data),
                ),
            )
        },
    }
}

/// A motion sensor: `alarm: true` is motion.
pub open spec fn motion_state(data: JsonView) -> StateView {
    let motion = alarm_flag(data) == Some(true);
    with_count(
        Map::empty().insert("motion"@, AttributeValueView::Flag(motion)),
        "battery"@,
        battery_level(data),
    )
}

/// Whether a leak sensor reports water: by its `alarm` flag, or, where it has
/// none, by the state "alert".
pub open spec fn leak_flag(data: JsonView) -> bool {
    match alarm_flag(data) {
        Some(alarm) => alarm,
        None => data.member("state"@).as_text() == Some("alert"@),
    }
}

/// A leak sensor: whether there is water, under two names, and the battery.
pub open spec fn leak_state(data: JsonView) -> StateView {
    let leak = AttributeValueView::Flag(leak_flag(data));
    with_count(
        Map::empty().insert("leak"@, leak).insert("water_detected"@, leak),
        "battery"@,
        battery_level(data),
    )
}

/// A vibration sensor: `alarm: true` is vibration.
pub open spec fn vibration_state(data: JsonView) -> StateView {
    let vibration = alarm_flag(data) == Some(true);
    with_count(
        Map::empty().insert("vibration"@, AttributeValueView::Flag(vibration)),
        "battery"@,
        battery_level(data),
    )
}

/// The reported temperature.
pub open spec fn temperature_number(data: JsonView) -> Option<crate::json::JsonNumber> {
    json::first_of(
        data.member("temperature"@).as_number(),
        data.member("state"@).member("temperature"@).as_number(),
    )
}

/// The reported humidity.
pub open spec fn humidity_number(data: JsonView) -> Option<crate::json::JsonNumber> {
    json::first_of(
        data.member("humidity"@).as_number(),
        data.member("state"@).member("humidity"@).as_number(),
    )
}

/// Whether a unit's name means degrees Celsius.
pub open spec fn names_celsius(unit: Seq<char>) -> bool {
    unit.contains('C') || unit == "℃"@
}

/// Whether the report's temperature is in Celsius, which it is unless the
/// device says otherwise.
pub open spec fn reports_celsius(data: JsonView) -> bool {
    match json::first_of(
        data.member("tempUnit"@).as_text(),
        data.member("state"@).member("tempUnit"@).as_text(),
    ) {
        Some(unit) => names_celsius(unit),
        None => true,
    }
}

/// A temperature and humidity sensor, in the configured unit.
pub open spec fn th_state(data: JsonView, unit: TemperatureUnit) -> Option<StateView> {
    match (temperature_number(data), humidity_number(data)) {
        (Some(temperature), Some(humidity)) => {
            let conversion = if reports_celsius(data) {
                unit.celsius_conversion()
            } else {
                unit.fahrenheit_conversion()
            };
            let measured = Measurement {
                reading: Reading { number: temperature, conversion },
                decimals: 1,
            };
            let sensed = Map::empty().insert(
                "temperature"@,
                AttributeValueView::Measured(measured),
            ).insert("temperature_unit"@, AttributeValueView::Label(unit.short_name()));
            Some(
                with_count(
                    with_measured(sensed, "humidity_pct"@, Some(humidity), 1),
                    "battery"@,
                    battery_level(data),
                ),
            )
        },
        _ => None,
    }
}

/// The text that tells a lock's state: `state` itself, or `lock` nested in it.
pub open spec fn lock_text(data: JsonView) -> Option<Seq<char>> {
    json::first_of(data.member("state"@).as_text(), data.member("state"@).member("lock"@).as_text())
}

/// A lock: bolt, door, battery, last alert and settings, as far as reported.
pub open spec fn lock_state(data: JsonView) -> Option<StateView> {
    match lock_text(data) {
        None => None,
        Some(text) => {
            let bolt = Map::empty().insert(
                "locked"@,
                AttributeValueView::Flag(text == "locked"@),
            );
            let door = match data.member("state"@).member("door"@).as_text() {
                Some(door) => bolt.insert(
                    "door_open"@,
                    AttributeValueView::Flag(door == "open"@),
                ),
                None => bolt,
            };
            let alert = match data.member("alert"@).member("type"@).as_text() {
                Some(alert) => door.insert("last_alert"@, AttributeValueView::Label(alert)),
                None => door,
            };
            let settings = data.member("attributes"@);
            Some(
                with_count(
                    with_count(
                        with_count(
                            alert,
                            "auto_lock_secs"@,
                            settings.member("autoLock"@).as_u64(),
                        ),
                        "sound_level"@,
                        settings.member("soundLevel"@).as_u64(),
                    ),
                    "battery"@,
                    battery_level(data),
                ),
            )
        },
    }
}

/// A siren: whether it is on, and whether it alarms, which goes by whether it
/// is on where the report does not say.
pub open spec fn siren_state(data: JsonView) -> StateView {
    let on = match state_text(data) {
        Some(text) => says_on(text),
        None => false,
    };
    let alarm = match data.member("alarm"@).as_bool() {
        Some(alarm) => alarm,
        None => on,
    };
    Map::empty().insert("on"@, AttributeValueView::Flag(on)).insert(
        "alarm"@,
        AttributeValueView::Flag(alarm),
    )
}

/// YoLink uses "open" for on/active and "close" for off/inactive in relay devices.
pub fn relay_is_on(state_str: &str) -> (on: bool)
    ensures
        on == says_on(state_str@),
{
    same_text(state_str, "open") || same_text(state_str, "on")
}

/// Extract `data["state"]` as a string, or fall back to the top-level `data`
/// string (some devices nest, some don't).
fn state_str(data: &Json) -> (text: Option<&str>)
    ensures
        match text {
            Some(t) => state_text(data@) == Some(t@),
            None => state_text(data@) is None,
        },
{
    match data.text_at("state") {
        Some(text) => Some(text),
        None => data.as_text(),
    }
}

/// Battery level as a number (0-4 in YoLink, 4 = full).
fn battery(data: &Json) -> (level: Option<u64>)
    ensures
        level == battery_level(data@),
{
    match data.u64_under("state", "battery") {
        Some(level) => Some(level),
        None => data.u64_at("battery"),
    }
}

/// Adds the battery level to a state, if the report has one.
fn set_battery(out: &mut DeviceState, data: &Json)
    ensures
        final(out)@ == with_count(old(out)@, "battery"@, battery_level(data@)),
{
    if let Some(level) = battery(data) {
        out.set("battery", AttributeValue::Count(level));
    }
}

/// The `alarm` flag of a report.
fn alarm(data: &Json) -> (flag: Option<bool>)
    ensures
        flag == alarm_flag(data@),
{
    match data.bool_at("alarm") {
        Some(flag) => Some(flag),
        None => data.bool_under("state", "alarm"),
    }
}

fn translate_switch(data: &Json) -> (state: Option<DeviceState>)
    ensures
        shows(state, switch_state(data@)),
{
    let on = match state_str(data) {
        Some(text) => relay_is_on(text),
        None => return None,
    };
    let mut out: DeviceState = Record::new();
    out.set("on", AttributeValue::Flag(on));

    // Power monitoring fields (Outlet with power meter)
    let power = match data.number_at("power") {
        Some(w) => Some(w),
        None => data.number_at("watt"),
    };
    if let Some(w) = power {
        out.set("power_w", AttributeValue::Measured(round1(Reading::unchanged(w))));
    }
    if let Some(kwh) = data.number_at("electricity") {
        out.set("energy_kwh", AttributeValue::Measured(round3(Reading::unchanged(kwh))));
    }
    Some(out)
}

/// A power strip shows its overall state as a single on/off.
fn translate_multi_outlet(data: &Json) -> (state: Option<DeviceState>)
    ensures
        shows(state, switch_state(data@)),
{
    translate_switch(data)
}

fn translate_door_sensor(data: &Json) -> (state: Option<DeviceState>)
    ensures
        shows(state, door_state(data@)),
{
    let open = match data.text_at("state") {
        Some(text) => same_text(text, "open"),
        None => return None,
    };
    let mut out: DeviceState = Record::new();
    out.set("open", AttributeValue::Flag(open));
    out.set("contact", AttributeValue::Flag(open));
    set_battery(&mut out, data);
    Some(out)
}

fn translate_motion_sensor(data: &Json) -> (state: Option<DeviceState>)
    ensures
        shows(state, Some(motion_state(data@))),
{
    let motion = alarm(data).unwrap_or(false);
    let mut out: DeviceState = Record::new();
    out.set("motion", AttributeValue::Flag(motion));
    set_battery(&mut out, data);
    Some(out)
}

fn translate_leak_sensor(data: &Json) -> (state: Option<DeviceState>)
    ensures
        shows(state, Some(leak_state(data@))),
{
    let leak = match alarm(data) {
        Some(flag) => flag,
        None => match data.text_at("state") {
            Some(text) => same_text(text, "alert"),
            None => false,
        },
    };
    let mut out: DeviceState = Record::new();
    out.set("leak", AttributeValue::Flag(leak));
    out.set("water_detected", AttributeValue::Flag(leak));
    set_battery(&mut out, data);
    Some(out)
}

/// Whether the report's temperature is in Celsius.
fn is_celsius(data: &Json) -> (celsius: bool)
    ensures
        celsius == reports_celsius(data@),
{
    let unit = match data.text_at("tempUnit") {
        Some(unit) => Some(unit),
        None => data.text_under("state", "tempUnit"),
    };
    match unit {
        Some(unit) => has_char(unit, 'C') || same_text(unit, "℃"),
        None => true,
    }
}

fn translate_th_sensor(data: &Json, unit: &TemperatureUnit) -> (state: Option<DeviceState>)
    ensures
        shows(state, th_state(data@, *unit)),
{
    let temperature = match data.number_at("temperature") {
        Some(n) => Some(n),
        None => data.number_under("state", "temperature"),
    };
    let raw_temp = match temperature {
        Some(n) => n,
        None => return None,
    };
    let relative = match data.number_at("humidity") {
        Some(n) => Some(n),
        None => data.number_under("state", "humidity"),
    };
    let humidity = match relative {
        Some(n) => n,
        None => return None,
    };

    // The device reports its own unit; convert to the configured output unit.
    let temp_out = if is_celsius(data) {
        unit.from_celsius(raw_temp)
    } else {
        unit.from_fahrenheit(raw_temp)
    };

    let mut out: DeviceState = Record::new();
    out.set("temperature", AttributeValue::Measured(round1(temp_out)));
    out.set("temperature_unit", AttributeValue::Label(unit.label().to_string()));
    out.set("humidity_pct", AttributeValue::Measured(round1(Reading::unchanged(humidity))));
    set_battery(&mut out, data);
    Some(out)
}

fn translate_vibration_sensor(data: &Json) -> (state: Option<DeviceState>)
    ensures
        shows(state, Some(vibration_state(data@))),
{
    let vibration = alarm(data).unwrap_or(false);
    let mut out: DeviceState = Record::new();
    out.set("vibration", AttributeValue::Flag(vibration));
    set_battery(&mut out, data);
    Some(out)
}

fn translate_lock(data: &Json) -> (state: Option<DeviceState>)
    ensures
        shows(state, lock_state(data@)),
{
    let bolt = match data.text_at("state") {
        Some(text) => Some(text),
        None => data.text_under("state", "lock"),
    };
    let locked = match bolt {
        Some(text) => same_text(text, "locked"),
        None => return None,
    };
    let mut out: DeviceState = Record::new();
    out.set("locked", AttributeValue::Flag(locked));
    if let Some(door) = data.text_under("state", "door") {
        out.set("door_open", AttributeValue::Flag(same_text(door, "open")));
    }
    if let Some(alert) = data.text_under("alert", "type") {
        out.set("last_alert", AttributeValue::Label(alert.to_string()));
    }
    if let Some(secs) = data.u64_under("attributes", "autoLock") {
        out.set("auto_lock_secs", AttributeValue::Count(secs));
    }
    if let Some(level) = data.u64_under("attributes", "soundLevel") {
        out.set("sound_level", AttributeValue::Count(level));
    }
    set_battery(&mut out, data);
    Some(out)
}

fn translate_siren(data: &Json) -> (state: Option<DeviceState>)
    ensures
        shows(state, Some(siren_state(data@))),
{
    let on = match state_str(data) {
        Some(text) => relay_is_on(text),
        None => false,
    };
    let sounding = data.bool_at("alarm").unwrap_or(on);
    let mut out: DeviceState = Record::new();
    out.set("on", AttributeValue::Flag(on));
    out.set("alarm", AttributeValue::Flag(sounding));
    Some(out)
}

} // verus!
