//! What each YoLink device kind reports, declared rather than guessed.
//!
//! A client that only sees values has to infer each attribute's meaning from
//! its name. That inference goes wrong for `contact`: a door sensor publishes
//! it equal to `open`, so `contact: true` means the door is OPEN, the reverse of
//! the usual convention. Declaring [`BoolStates`] is what settles it.
//!
//! Only what the translators actually emit is declared: a declared attribute
//! that is never published is a control for something that does not exist.

use vstd::prelude::*;

use crate::devices::DeviceKind;
use crate::record::Record;

verus! {

/// The type of an attribute's values.
#[derive(Clone, Copy, Debug, PartialEq, Eq, Structural)]
pub enum AttributeKind {
    Bool,
    Integer,
    Float,
    Text,
}

/// One of the two states of a boolean: its name, and the words for entering it.
#[derive(Debug)]
pub struct StateLabel {
    pub label: String,
    pub verb: String,
}

/// The names of the two states of a boolean.
#[derive(Debug)]
pub struct BoolStates {
    pub when_true: StateLabel,
    pub when_false: StateLabel,
}

/// What is declared about one attribute.
#[derive(Debug)]
pub struct AttributeSchema {
    pub kind: AttributeKind,
    /// Whether commands may set it.
    pub writable: bool,
    pub label: String,
    pub unit: Option<String>,
    pub min: Option<i64>,
    pub max: Option<i64>,
    pub states: Option<BoolStates>,
}

/// What is declared about a device: its attributes by name.
#[derive(Debug)]
pub struct DeviceSchema {
    pub attributes: Record<AttributeSchema>,
}

/// The mathematical content of a [`StateLabel`].
pub struct StateLabelView {
    pub label: Seq<char>,
    pub verb: Seq<char>,
}

/// The mathematical content of a [`BoolStates`].
pub struct BoolStatesView {
    pub when_true: StateLabelView,
    pub when_false: StateLabelView,
}

/// The mathematical content of an [`AttributeSchema`].
pub struct AttributeSchemaView {
    pub kind: AttributeKind,
    pub writable: bool,
    pub label: Seq<char>,
    pub unit: Option<Seq<char>>,
    pub min: Option<i64>,
    pub max: Option<i64>,
    pub states: Option<BoolStatesView>,
}

impl View for StateLabel {
    type V = StateLabelView;

    open spec fn view(&self) -> StateLabelView {
        StateLabelView { label: self.label@, verb: self.verb@ }
    }
}

impl View for BoolStates {
    type V = BoolStatesView;

    open spec fn view(&self) -> BoolStatesView {
        BoolStatesView { when_true: self.when_true@, when_false: self.when_false@ }
    }
}

impl View for AttributeSchema {
    type V = AttributeSchemaView;

    open spec fn view(&self) -> AttributeSchemaView {
        AttributeSchemaView {
            kind: self.kind,
            writable: self.writable,
            label: self.label@,
            unit: match self.unit {
                Some(unit) => Some(unit@),
                None => None,
            },
            min: self.min,
            max: self.max,
            states: match self.states {
                Some(states) => Some(states@),
                None => None,
            },
        }
    }
}

impl BoolStates {
    /// The name of the state that a value stands for.
    pub fn get(&self, value: bool) -> (state: &StateLabel)
        ensures
            *state == if value {
                self.when_true
            } else {
                self.when_false
            },
    {
        if value {
            &self.when_true
        } else {
            &self.when_false
        }
    }
}

/// The declarations of a device, by attribute name.
pub type AttributesView = Map<Seq<char>, AttributeSchemaView>;

// ---------------------------------------------------------------------------
// What is declared
// ---------------------------------------------------------------------------

/// A read-only attribute without a unit.
pub open spec fn plain(kind: AttributeKind, label: Seq<char>) -> AttributeSchemaView {
    AttributeSchemaView {
        kind,
        writable: false,
        label,
        unit: None,
        min: None,
        max: None,
        states: None,
    }
}

/// A read-only attribute with a unit.
pub open spec fn measured(
    kind: AttributeKind,
    label: Seq<char>,
    unit: Seq<char>,
) -> AttributeSchemaView {
    AttributeSchemaView { unit: Some(unit), ..plain(kind, label) }
}

/// A boolean with names for its states.
pub open spec fn flag(
    writable: bool,
    label: Seq<char>,
    on: (Seq<char>, Seq<char>),
    off: (Seq<char>, Seq<char>),
) -> AttributeSchemaView {
    AttributeSchemaView {
        writable,
        states: Some(
            BoolStatesView {
                when_true: StateLabelView { label: on.0, verb: on.1 },
                when_false: StateLabelView { label: off.0, verb: off.1 },
            },
        ),
        ..plain(AttributeKind::Bool, label)
    }
}

/// The battery percentage.
pub open spec fn battery_percentage() -> AttributeSchemaView {
    AttributeSchemaView {
        min: Some(0),
        max: Some(100),
        ..measured(AttributeKind::Integer, "Battery"@, "%"@)
    }
}

/// A door that stands open or closed.
pub open spec fn open_or_closed(label: Seq<char>) -> AttributeSchemaView {
    flag(false, label, ("open"@, "opens"@), ("closed"@, "closes"@))
}

/// A place that is wet or dry.
pub open spec fn wet_or_dry() -> AttributeSchemaView {
    flag(false, "Water"@, ("wet"@, "detects water"@), ("dry"@, "dries out"@))
}

/// What is declared for a device kind; nothing for a kind that is not bridged.
pub open spec fn declared(kind: DeviceKind) -> Option<AttributesView> {
    if kind.is_relay() {
        Some(
            map![
                "on"@ => flag(true, "Power"@, ("on"@, "turns on"@), ("off"@, "turns off"@)),
                "power_w"@ => measured(AttributeKind::Float, "Power draw"@, "W"@),
                "energy_kwh"@ => measured(AttributeKind::Float, "Energy used"@, "kWh"@),
            ],
        )
    } else if kind.is_lock() {
        Some(
            map![
                "locked"@ => flag(true, "Lock"@, ("locked"@, "locks"@), ("unlocked"@, "unlocks"@)),
                "door_open"@ => open_or_closed("Door"@),
                "last_alert"@ => plain(AttributeKind::Text, "Last alert"@),
                "auto_lock_secs"@ => measured(AttributeKind::Integer, "Auto-lock delay"@, "s"@),
                "sound_level"@ => plain(AttributeKind::Integer, "Sound level"@),
                "battery"@ => battery_percentage(),
            ],
        )
    } else {
        match kind {
            DeviceKind::Siren => Some(
                map![
                    "on"@ => flag(
                        true,
                        "Siren"@,
                        ("sounding"@, "starts sounding"@),
                        ("silent"@, "goes silent"@),
                    ),
                ],
            ),
            DeviceKind::DoorSensor => Some(
                map![
                    "open"@ => open_or_closed("Door"@),
                    "contact"@ => open_or_closed("Contact"@),
                    "battery"@ => battery_percentage(),
                ],
            ),
            DeviceKind::MotionSensor => Some(
                map![
                    "motion"@ => flag(
                        false,
                        "Motion"@,
                        ("detecting motion"@, "detects motion"@),
                        ("clear"@, "stops detecting motion"@),
                    ),
                    "battery"@ => battery_percentage(),
                ],
            ),
            DeviceKind::LeakSensor => Some(
                map![
                    "leak"@ => wet_or_dry(),
                    "water_detected"@ => wet_or_dry(),
                    "battery"@ => battery_percentage(),
                ],
            ),
            DeviceKind::VibrationSensor => Some(
                map![
                    "vibration"@ => flag(
                        false,
                        "Vibration"@,
                        ("vibrating"@, "starts vibrating"@),
                        ("still"@, "stops vibrating"@),
                    ),
                    "battery"@ => battery_percentage(),
                ],
            ),
            DeviceKind::THSensor => Some(
                map![
                    "temperature"@ => plain(AttributeKind::Float, "Temperature"@),
                    "temperature_unit"@ => plain(AttributeKind::Text, "Temperature unit"@),
                    "humidity_pct"@ => measured(AttributeKind::Float, "Humidity"@, "%"@),
                    "battery"@ => battery_percentage(),
                ],
            ),
            _ => None,
        }
    }
}

// ---------------------------------------------------------------------------
// Building declarations
// ---------------------------------------------------------------------------

/// A read-only attribute of `kind`, labelled for display.
fn ro(kind: AttributeKind, label: &str) -> (attribute: AttributeSchema)
    ensures
        attribute@ == plain(kind, label@),
{
    AttributeSchema {
        kind,
        writable: false,
        label: label.to_string(),
        unit: None,
        min: None,
        max: None,
        states: None,
    }
}

/// A read-only attribute with a unit.
fn ro_unit(kind: AttributeKind, label: &str, unit: &str) -> (attribute: AttributeSchema)
    ensures
        attribute@ == measured(kind, label@, unit@),
{
    let mut a = ro(kind, label);
    a.unit = Some(unit.to_string());
    a
}

/// Names for the two states of a boolean.
fn states(on: (&str, &str), off: (&str, &str)) -> (named: BoolStates)
    ensures
        named@.when_true == (StateLabelView { label: on.0@, verb: on.1@ }),
        named@.when_false == (StateLabelView { label: off.0@, verb: off.1@ }),
{
    BoolStates {
        when_true: StateLabel { label: on.0.to_string(), verb: on.1.to_string() },
        when_false: StateLabel { label: off.0.to_string(), verb: off.1.to_string() },
    }
}

/// A read-only boolean whose two states have names.
fn ro_bool(label: &str, on: (&str, &str), off: (&str, &str)) -> (attribute: AttributeSchema)
    ensures
        attribute@ == flag(false, label@, (on.0@, on.1@), (off.0@, off.1@)),
{
    let mut a = ro(AttributeKind::Bool, label);
    a.states = Some(states(on, off));
    a
}

/// A writable boolean whose two states have names.
fn rw_bool(label: &str, on: (&str, &str), off: (&str, &str)) -> (attribute: AttributeSchema)
    ensures
        attribute@ == flag(true, label@, (on.0@, on.1@), (off.0@, off.1@)),
{
    let mut a = ro_bool(label, on, off);
    a.writable = true;
    a
}

/// The battery attribute of every battery-powered device, declared as a
/// percentage.
fn battery() -> (attribute: AttributeSchema)
    ensures
        attribute@ == battery_percentage(),
{
    let mut a = ro_unit(AttributeKind::Integer, "Battery", "%");
    a.min = Some(0);
    a.max = Some(100);
    a
}

/// The schema for a device kind, or `None` for the kinds that are not bridged
/// at all.
pub fn schema_for(kind: &DeviceKind) -> (schema: Option<DeviceSchema>)
    ensures
        match schema {
            Some(s) => declared(*kind) == Some(s.attributes@),
            None => declared(*kind) is None,
        },
{
    let mut a: Record<AttributeSchema> = Record::new();
    match kind {
        // The relay kinds: `on` is what commands set. Only outlets with a power
        // meter publish the other two.
        DeviceKind::Outlet | DeviceKind::SmartPlug | DeviceKind::Switch
        | DeviceKind::MultiOutlet => {
            a.set("on", rw_bool("Power", ("on", "turns on"), ("off", "turns off")));
            a.set("power_w", ro_unit(AttributeKind::Float, "Power draw", "W"));
            a.set("energy_kwh", ro_unit(AttributeKind::Float, "Energy used", "kWh"));
        },
        DeviceKind::Siren => {
            a.set(
                "on",
                rw_bool("Siren", ("sounding", "starts sounding"), ("silent", "goes silent")),
            );
        },
        DeviceKind::DoorSensor => {
            a.set("open", ro_bool("Door", ("open", "opens"), ("closed", "closes")));
            // `contact` is published equal to `open`: true means the door is OPEN.
            a.set("contact", ro_bool("Contact", ("open", "opens"), ("closed", "closes")));
            a.set("battery", battery());
        },
        DeviceKind::MotionSensor => {
            a.set(
                "motion",
                ro_bool(
                    "Motion",
                    ("detecting motion", "detects motion"),
                    ("clear", "stops detecting motion"),
                ),
            );
            a.set("battery", battery());
        },
        DeviceKind::LeakSensor => {
            // Both names are published, carrying the same reading.
            a.set("leak", ro_bool("Water", ("wet", "detects water"), ("dry", "dries out")));
            a.set(
                "water_detected",
                ro_bool("Water", ("wet", "detects water"), ("dry", "dries out")),
            );
            a.set("battery", battery());
        },
        DeviceKind::VibrationSensor => {
            a.set(
                "vibration",
                ro_bool(
                    "Vibration",
                    ("vibrating", "starts vibrating"),
                    ("still", "stops vibrating"),
                ),
            );
            a.set("battery", battery());
        },
        DeviceKind::THSensor => {
            a.set("temperature", ro(AttributeKind::Float, "Temperature"));
            // The unit the reading is in, as configured: text, not a number.
            a.set("temperature_unit", ro(AttributeKind::Text, "Temperature unit"));
            a.set("humidity_pct", ro_unit(AttributeKind::Float, "Humidity", "%"));
            a.set("battery", battery());
        },
        DeviceKind::Lock | DeviceKind::LockV2 => {
            a.set("locked", rw_bool("Lock", ("locked", "locks"), ("unlocked", "unlocks")));
            // The bolt and the door are different things: a lock can be thrown
            // while the door stands open.
            a.set("door_open", ro_bool("Door", ("open", "opens"), ("closed", "closes")));
            a.set("last_alert", ro(AttributeKind::Text, "Last alert"));
            a.set("auto_lock_secs", ro_unit(AttributeKind::Integer, "Auto-lock delay", "s"));
            a.set("sound_level", ro(AttributeKind::Integer, "Sound level"));
            a.set("battery", battery());
        },
        DeviceKind::Hub | DeviceKind::Unknown(_) => {
            return None;
        },
    }
    Some(DeviceSchema { attributes: a })
}

} // verus!
