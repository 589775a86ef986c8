//! Declarations, published states and commands agree with each other.

use vstd::prelude::*;

use crate::config::TemperatureUnit;
use crate::devices;
use crate::devices::{AttributeValueView, DeviceKind};
use crate::json::{JsonNumber, JsonView};
use crate::measure::Conversion;
use crate::record;
use crate::schema;
use crate::schema::{AttributeKind, AttributeSchema, AttributeSchemaView, BoolStates};

verus! {

/// The names of attributes differ in length or in their first character.
pub(crate) proof fn attribute_names_differ()
    ensures
        "on"@.len() == 2 && "on"@[0] == 'o',
        "alarm"@.len() == 5 && "alarm"@[0] == 'a',
        "open"@.len() == 4 && "open"@[0] == 'o',
        "contact"@.len() == 7 && "contact"@[0] == 'c',
        "motion"@.len() == 6 && "motion"@[0] == 'm',
        "leak"@.len() == 4 && "leak"@[0] == 'l',
        "water_detected"@.len() == 14 && "water_detected"@[0] == 'w',
        "vibration"@.len() == 9 && "vibration"@[0] == 'v',
        "temperature"@.len() == 11 && "temperature"@[0] == 't',
        "temperature_unit"@.len() == 16 && "temperature_unit"@[0] == 't',
        "humidity_pct"@.len() == 12 && "humidity_pct"@[0] == 'h',
        "battery"@.len() == 7 && "battery"@[0] == 'b',
        "power_w"@.len() == 7 && "power_w"@[0] == 'p',
        "energy_kwh"@.len() == 10 && "energy_kwh"@[0] == 'e',
        "locked"@.len() == 6 && "locked"@[0] == 'l',
        "door_open"@.len() == 9 && "door_open"@[0] == 'd',
        "last_alert"@.len() == 10 && "last_alert"@[0] == 'l',
        "auto_lock_secs"@.len() == 14 && "auto_lock_secs"@[0] == 'a',
        "sound_level"@.len() == 11 && "sound_level"@[0] == 's',
{
    reveal_strlit("on");
    reveal_strlit("alarm");
    reveal_strlit("open");
    reveal_strlit("contact");
    reveal_strlit("motion");
    reveal_strlit("leak");
    reveal_strlit("water_detected");
    reveal_strlit("vibration");
    reveal_strlit("temperature");
    reveal_strlit("temperature_unit");
    reveal_strlit("humidity_pct");
    reveal_strlit("battery");
    reveal_strlit("power_w");
    reveal_strlit("energy_kwh");
    reveal_strlit("locked");
    reveal_strlit("door_open");
    reveal_strlit("last_alert");
    reveal_strlit("auto_lock_secs");
    reveal_strlit("sound_level");
}

/// Exactly the bridged kinds are declared.
pub proof fn every_bridged_kind_is_declared(kind: DeviceKind)
    ensures
        schema::declared(kind) is Some <==> kind.is_bridged(),
{
}

/// Every declared boolean names both of its states, and not by the same name.
pub proof fn every_boolean_names_both_of_its_states(kind: DeviceKind, name: Seq<char>)
    requires
        schema::declared(kind) is Some,
        schema::declared(kind)->0.contains_key(name),
        schema::declared(kind)->0[name].kind is Bool,
    ensures
        ({
            let attribute = schema::declared(kind)->0[name];
            &&& attribute.states is Some
            &&& attribute.states->0.when_true.label.len() > 0
            &&& attribute.states->0.when_false.label.len() > 0
            &&& attribute.states->0.when_true.label != attribute.states->0.when_false.label
        }),
{
    reveal_strlit("on");
    reveal_strlit("off");
    reveal_strlit("sounding");
    reveal_strlit("silent");
    reveal_strlit("open");
    reveal_strlit("closed");
    reveal_strlit("detecting motion");
    reveal_strlit("clear");
    reveal_strlit("wet");
    reveal_strlit("dry");
    reveal_strlit("vibrating");
    reveal_strlit("still");
    reveal_strlit("locked");
    reveal_strlit("unlocked");
    assert("wet"@[0] != "dry"@[0]);
}

/// Nothing is declared writable but `on` and `locked`, and whatever is declared
/// writable can be commanded: any command that has a boolean under that name is
/// accepted.
pub proof fn nothing_is_writable_that_commands_cannot_set(
    kind: DeviceKind,
    name: Seq<char>,
    cmd: JsonView,
)
    requires
        schema::declared(kind) is Some,
        schema::declared(kind)->0.contains_key(name),
        schema::declared(kind)->0[name].writable,
    ensures
        name == "on"@ || name == "locked"@,
        cmd.member(name).as_bool() is Some ==> kind.commanded_state(cmd) is Some,
{
}

/// Whatever a command can set is declared writable.
pub proof fn whatever_commands_set_is_writable(kind: DeviceKind, cmd: JsonView)
    requires
        kind.commanded_state(cmd) is Some,
    ensures
        schema::declared(kind) is Some,
        exists|name: Seq<char>|
            #[trigger] schema::declared(kind)->0.contains_key(name)
                && schema::declared(kind)->0[name].writable && cmd.member(name).as_bool() is Some,
{
    attribute_names_differ();
    let attributes = schema::declared(kind)->0;
    if kind.is_lock() {
        assert(attributes.contains_key("locked"@));
    } else {
        assert(attributes.contains_key("on"@));
    }
}

/// Sensors, and kinds that are not bridged, take no command at all.
pub proof fn sensors_take_no_command(kind: DeviceKind, cmd: JsonView)
    requires
        kind.is_sensor() || !kind.is_bridged(),
    ensures
        kind.commanded_state(cmd) is None,
{
}

/// A relay or siren that takes the state which a command asks for, and reports
/// it, shows `on` as the command had it.
pub proof fn commanded_relay_state_is_what_reports_show(
    kind: DeviceKind,
    cmd: JsonView,
    unit: TemperatureUnit,
)
    requires
        kind.is_relay() || kind is Siren,
        kind.commanded_state(cmd) is Some,
    ensures
        ({
            let report = devices::set_state_params(kind.commanded_state(cmd)->0);
            let shown = kind.shown_state(report, unit);
            &&& shown is Some
            &&& shown->0.contains_key("on"@)
            &&& shown->0["on"@] == AttributeValueView::Flag(cmd.member("on"@).as_bool()->0)
        }),
{
    attribute_names_differ();
    reveal_strlit("close");
    let state = kind.commanded_state(cmd)->0;
    assert("close"@.len() == 5);
    let members = seq![("state"@, JsonView::Text(state))];
    assert(members.drop_last() =~= Seq::empty());
    reveal_with_fuel(record::named_map, 2);
    assert(devices::set_state_params(state).member("state"@) == JsonView::Text(state));
}

/// A door sensor publishes `contact` equal to `open`, and both are declared to
/// mean "open" when true and "closed" when false.
pub proof fn contact_is_declared_the_way_it_is_published(data: JsonView)
    ensures
        devices::door_state(data) is Some ==> {
            let state = devices::door_state(data)->0;
            &&& state.contains_key("open"@)
            &&& state.contains_key("contact"@)
            &&& state["contact"@] == state["open"@]
            &&& state["open"@] == AttributeValueView::Flag(
                data.member("state"@).as_text() == Some("open"@),
            )
        },
        ({
            let attributes = schema::declared(DeviceKind::DoorSensor)->0;
            let contact = attributes["contact"@].states->0;
            &&& contact == attributes["open"@].states->0
            &&& contact.when_true.label == "open"@
            &&& contact.when_false.label == "closed"@
        }),
{
    attribute_names_differ();
}

/// A leak sensor publishes the same reading under both of its names.
pub proof fn leak_is_published_under_both_names(data: JsonView)
    ensures
        ({
            let state = devices::leak_state(data);
            &&& state.contains_key("leak"@)
            &&& state.contains_key("water_detected"@)
            &&& state["leak"@] == state["water_detected"@]
        }),
{
    attribute_names_differ();
}

/// Temperatures are always published in the configured unit: the unit's label
/// goes with them, and the reading is converted exactly if the device reports
/// in the other unit.
pub proof fn temperatures_are_published_in_the_configured_unit(
    data: JsonView,
    unit: TemperatureUnit,
)
    requires
        devices::th_state(data, unit) is Some,
    ensures
        ({
            let state = devices::th_state(data, unit)->0;
            let reading = state["temperature"@]->Measured_0.reading;
            &&& state["temperature_unit"@] == AttributeValueView::Label(unit.short_name())
            &&& state["temperature"@] is Measured
            &&& Some(reading.number) == devices::temperature_number(data)
            &&& reading.conversion == match (devices::reports_celsius(data), unit) {
                (true, TemperatureUnit::F) => Conversion::CelsiusToFahrenheit,
                (false, TemperatureUnit::C) => Conversion::FahrenheitToCelsius,
                _ => Conversion::Unchanged,
            }
        }),
{
    attribute_names_differ();
}

/// Whether a published value is of a declared type.
pub open spec fn is_of_kind(value: AttributeValueView, kind: AttributeKind) -> bool {
    match kind {
        AttributeKind::Bool => value is Flag,
        AttributeKind::Integer => value is Count,
        AttributeKind::Float => value is Measured,
        AttributeKind::Text => value is Label,
    }
}

/// What a device publishes is declared, and with a value of the declared type;
/// only a siren's `alarm` is published without being declared.
pub proof fn whatever_is_published_is_declared(
    kind: DeviceKind,
    data: JsonView,
    unit: TemperatureUnit,
    name: Seq<char>,
)
    requires
        kind.shown_state(data, unit) is Some,
        kind.shown_state(data, unit)->0.contains_key(name),
    ensures
        schema::declared(kind) is Some,
        schema::declared(kind)->0.contains_key(name) || (kind is Siren && name == "alarm"@),
        schema::declared(kind)->0.contains_key(name) ==> is_of_kind(
            kind.shown_state(data, unit)->0[name],
            schema::declared(kind)->0[name].kind,
        ),
{
    attribute_names_differ();
}

/// The names of report members differ in length or in their first character.
proof fn member_names_differ()
    ensures
        "state"@.len() == 5 && "state"@[0] == 's',
        "power"@.len() == 5 && "power"@[0] == 'p',
        "electricity"@.len() == 11 && "electricity"@[0] == 'e',
        "battery"@.len() == 7 && "battery"@[0] == 'b',
        "temperature"@.len() == 11 && "temperature"@[0] == 't',
        "humidity"@.len() == 8 && "humidity"@[0] == 'h',
        "alert"@.len() == 5 && "alert"@[0] == 'a',
        "attributes"@.len() == 10 && "attributes"@[0] == 'a',
        "lock"@.len() == 4 && "lock"@[0] == 'l',
        "door"@.len() == 4 && "door"@[0] == 'd',
        "type"@.len() == 4 && "type"@[0] == 't',
        "autoLock"@.len() == 8 && "autoLock"@[0] == 'a',
        "soundLevel"@.len() == 10 && "soundLevel"@[0] == 's',
{
    reveal_strlit("state");
    reveal_strlit("power");
    reveal_strlit("electricity");
    reveal_strlit("battery");
    reveal_strlit("temperature");
    reveal_strlit("humidity");
    reveal_strlit("alert");
    reveal_strlit("attributes");
    reveal_strlit("lock");
    reveal_strlit("door");
    reveal_strlit("type");
    reveal_strlit("autoLock");
    reveal_strlit("soundLevel");
}

/// An object with one member more.
pub open spec fn with_member(object: JsonView, name: Seq<char>, value: JsonView) -> JsonView {
    JsonView::Object(object->Object_0.push((name, value)))
}

/// What an object with one member more has under each name.
proof fn with_member_shows(object: JsonView, name: Seq<char>, value: JsonView)
    requires
        object is Object,
    ensures
        with_member(object, name, value) is Object,
        with_member(object, name, value).member(name) == value,
        forall|other: Seq<char>|
            other != name ==> #[trigger] with_member(object, name, value).member(other)
                == object.member(other),
{
    record::named_map_push(object->Object_0, name, value);
}

/// A report of a device that says everything about itself on one level.
pub open spec fn flat_report() -> JsonView {
    let zero = JsonView::Number(JsonNumber::PosInt(0));
    let r0 = JsonView::Object(Seq::empty());
    let r1 = with_member(r0, "state"@, JsonView::Text("open"@));
    let r2 = with_member(r1, "power"@, zero);
    let r3 = with_member(r2, "electricity"@, zero);
    let r4 = with_member(r3, "battery"@, zero);
    let r5 = with_member(r4, "temperature"@, zero);
    with_member(r5, "humidity"@, zero)
}

/// A report of a lock that says everything about itself.
pub open spec fn lock_report() -> JsonView {
    let zero = JsonView::Number(JsonNumber::PosInt(0));
    let empty = JsonView::Object(Seq::empty());
    let bolt = with_member(
        with_member(empty, "lock"@, JsonView::Text("locked"@)),
        "door"@,
        JsonView::Text("open"@),
    );
    let alert = with_member(empty, "type"@, JsonView::Text("DoorOpenAlarm"@));
    let settings = with_member(with_member(empty, "autoLock"@, zero), "soundLevel"@, zero);
    let r1 = with_member(empty, "state"@, bolt);
    let r2 = with_member(r1, "battery"@, zero);
    let r3 = with_member(r2, "alert"@, alert);
    with_member(r3, "attributes"@, settings)
}

/// What the flat report has.
proof fn flat_report_shows()
    ensures
        flat_report().member("state"@) == JsonView::Text("open"@),
        flat_report().member("power"@) == JsonView::Number(JsonNumber::PosInt(0)),
        flat_report().member("electricity"@) == JsonView::Number(JsonNumber::PosInt(0)),
        flat_report().member("battery"@) == JsonView::Number(JsonNumber::PosInt(0)),
        flat_report().member("temperature"@) == JsonView::Number(JsonNumber::PosInt(0)),
        flat_report().member("humidity"@) == JsonView::Number(JsonNumber::PosInt(0)),
{
    member_names_differ();
    let zero = JsonView::Number(JsonNumber::PosInt(0));
    let r0 = JsonView::Object(Seq::empty());
    let r1 = with_member(r0, "state"@, JsonView::Text("open"@));
    let r2 = with_member(r1, "power"@, zero);
    let r3 = with_member(r2, "electricity"@, zero);
    let r4 = with_member(r3, "battery"@, zero);
    let r5 = with_member(r4, "temperature"@, zero);
    with_member_shows(r0, "state"@, JsonView::Text("open"@));
    with_member_shows(r1, "power"@, zero);
    with_member_shows(r2, "electricity"@, zero);
    with_member_shows(r3, "battery"@, zero);
    with_member_shows(r4, "temperature"@, zero);
    with_member_shows(r5, "humidity"@, zero);
}

/// What the lock's report has.
proof fn lock_report_shows()
    ensures
        lock_report().member("state"@).as_text() is None,
        lock_report().member("state"@).member("lock"@) == JsonView::Text("locked"@),
        lock_report().member("state"@).member("door"@) == JsonView::Text("open"@),
        lock_report().member("battery"@) == JsonView::Number(JsonNumber::PosInt(0)),
        lock_report().member("alert"@).member("type"@) == JsonView::Text("DoorOpenAlarm"@),
        lock_report().member("attributes"@).member("autoLock"@) == JsonView::Number(
            JsonNumber::PosInt(0),
        ),
        lock_report().member("attributes"@).member("soundLevel"@) == JsonView::Number(
            JsonNumber::PosInt(0),
        ),
{
    member_names_differ();
    let zero = JsonView::Number(JsonNumber::PosInt(0));
    let empty = JsonView::Object(Seq::empty());
    let half = with_member(empty, "lock"@, JsonView::Text("locked"@));
    let bolt = with_member(half, "door"@, JsonView::Text("open"@));
    with_member_shows(empty, "lock"@, JsonView::Text("locked"@));
    with_member_shows(half, "door"@, JsonView::Text("open"@));
    let alert = with_member(empty, "type"@, JsonView::Text("DoorOpenAlarm"@));
    with_member_shows(empty, "type"@, JsonView::Text("DoorOpenAlarm"@));
    let delay = with_member(empty, "autoLock"@, zero);
    let settings = with_member(delay, "soundLevel"@, zero);
    with_member_shows(empty, "autoLock"@, zero);
    with_member_shows(delay, "soundLevel"@, zero);
    let r1 = with_member(empty, "state"@, bolt);
    let r2 = with_member(r1, "battery"@, zero);
    let r3 = with_member(r2, "alert"@, alert);
    with_member_shows(empty, "state"@, bolt);
    with_member_shows(r1, "battery"@, zero);
    with_member_shows(r2, "alert"@, alert);
    with_member_shows(r3, "attributes"@, settings);
}

/// Every declared attribute is one that the device can publish: some report
/// leads to a state that has it.
pub proof fn every_declared_attribute_is_published(
    kind: DeviceKind,
    unit: TemperatureUnit,
    name: Seq<char>,
)
    requires
        schema::declared(kind) is Some,
        schema::declared(kind)->0.contains_key(name),
    ensures
        exists|data: JsonView|
            (#[trigger] kind.shown_state(data, unit)) is Some && kind.shown_state(
                data,
                unit,
            )->0.contains_key(name),
{
    attribute_names_differ();
    if kind.is_lock() {
        lock_report_shows();
        assert(kind.shown_state(lock_report(), unit)->0.contains_key(name));
    } else {
        flat_report_shows();
        assert(kind.shown_state(flat_report(), unit)->0.contains_key(name));
    }
}

/// What is declared under a name is the same for every kind that declares it:
/// its type, its label and its unit go by the name. Only the label of `on` tells
/// a siren from a relay. A range is declared for the battery alone.
pub proof fn declarations_go_by_the_name(kind: DeviceKind, name: Seq<char>)
    requires
        schema::declared(kind) is Some,
        schema::declared(kind)->0.contains_key(name),
    ensures
        ({
            let a = schema::declared(kind)->0[name];
            &&& a.kind is Bool <==> a.states is Some
            &&& a.min == if name == "battery"@ {
                Some(0i64)
            } else {
                None
            }
            &&& a.max == if name == "battery"@ {
                Some(100i64)
            } else {
                None
            }
            &&& name == "power_w"@ ==> a.kind is Float && a.label == "Power draw"@ && a.unit
                == Some("W"@)
            &&& name == "energy_kwh"@ ==> a.kind is Float && a.label == "Energy used"@ && a.unit
                == Some("kWh"@)
            &&& name == "battery"@ ==> a.kind is Integer && a.label == "Battery"@ && a.unit == Some(
                "%"@,
            )
            &&& name == "temperature"@ ==> a.kind is Float && a.label == "Temperature"@
                && a.unit is None
            &&& name == "temperature_unit"@ ==> a.kind is Text && a.label == "Temperature unit"@
                && a.unit is None
            &&& name == "humidity_pct"@ ==> a.kind is Float && a.label == "Humidity"@ && a.unit
                == Some("%"@)
            &&& name == "last_alert"@ ==> a.kind is Text && a.label == "Last alert"@
                && a.unit is None
            &&& name == "auto_lock_secs"@ ==> a.kind is Integer && a.label == "Auto-lock delay"@
                && a.unit == Some("s"@)
            &&& name == "sound_level"@ ==> a.kind is Integer && a.label == "Sound level"@
                && a.unit is None
            &&& a.kind is Bool ==> a.unit is None
            &&& a.writable <==> name == "on"@ || name == "locked"@
        }),
{
    attribute_names_differ();
}

/// Whether an attribute is a boolean with the given label, and with the given
/// names and verbs for its two states.
pub open spec fn is_bool_of(
    attribute: AttributeSchemaView,
    label: Seq<char>,
    on: (Seq<char>, Seq<char>),
    off: (Seq<char>, Seq<char>),
) -> bool {
    &&& attribute.kind is Bool
    &&& attribute.label == label
    &&& attribute.states is Some
    &&& attribute.states->0.when_true.label == on.0
    &&& attribute.states->0.when_true.verb == on.1
    &&& attribute.states->0.when_false.label == off.0
    &&& attribute.states->0.when_false.verb == off.1
}

/// What each declared boolean is called, and what its two states are called.
pub proof fn booleans_are_called(kind: DeviceKind, name: Seq<char>)
    requires
        schema::declared(kind) is Some,
        schema::declared(kind)->0.contains_key(name),
    ensures
        ({
            let a = schema::declared(kind)->0[name];
            let open = ("open"@, "opens"@);
            let closed = ("closed"@, "closes"@);
            let wet = ("wet"@, "detects water"@);
            let dry = ("dry"@, "dries out"@);
            &&& name == "on"@ && kind is Siren ==> is_bool_of(
                a,
                "Siren"@,
                ("sounding"@, "starts sounding"@),
                ("silent"@, "goes silent"@),
            )
            &&& name == "on"@ && !(kind is Siren) ==> is_bool_of(
                a,
                "Power"@,
                ("on"@, "turns on"@),
                ("off"@, "turns off"@),
            )
            &&& name == "locked"@ ==> is_bool_of(
                a,
                "Lock"@,
                ("locked"@, "locks"@),
                ("unlocked"@, "unlocks"@),
            )
            &&& name == "open"@ ==> is_bool_of(a, "Door"@, open, closed)
            &&& name == "door_open"@ ==> is_bool_of(a, "Door"@, open, closed)
            &&& name == "contact"@ ==> is_bool_of(a, "Contact"@, open, closed)
            &&& name == "leak"@ || name == "water_detected"@ ==> is_bool_of(a, "Water"@, wet, dry)
            &&& name == "motion"@ ==> is_bool_of(
                a,
                "Motion"@,
                ("detecting motion"@, "detects motion"@),
                ("clear"@, "stops detecting motion"@),
            )
            &&& name == "vibration"@ ==> is_bool_of(
                a,
                "Vibration"@,
                ("vibrating"@, "starts vibrating"@),
                ("still"@, "stops vibrating"@),
            )
        }),
{
    attribute_names_differ();
}

/// Which attributes each kind declares.
pub proof fn kinds_declare_their_attributes(kind: DeviceKind, name: Seq<char>)
    requires
        schema::declared(kind) is Some,
    ensures
        schema::declared(kind)->0.contains_key(name) <==> match kind {
            DeviceKind::Outlet | DeviceKind::SmartPlug | DeviceKind::Switch
            | DeviceKind::MultiOutlet => name == "on"@ || name == "power_w"@ || name
                == "energy_kwh"@,
            DeviceKind::Siren => name == "on"@,
            DeviceKind::DoorSensor => name == "open"@ || name == "contact"@ || name == "battery"@,
            DeviceKind::MotionSensor => name == "motion"@ || name == "battery"@,
            DeviceKind::LeakSensor => name == "leak"@ || name == "water_detected"@ || name
                == "battery"@,
            DeviceKind::VibrationSensor => name == "vibration"@ || name == "battery"@,
            DeviceKind::THSensor => name == "temperature"@ || name == "temperature_unit"@ || name
                == "humidity_pct"@ || name == "battery"@,
            DeviceKind::Lock | DeviceKind::LockV2 => name == "locked"@ || name == "door_open"@
                || name == "last_alert"@ || name == "auto_lock_secs"@ || name == "sound_level"@
                || name == "battery"@,
            _ => false,
        },
{
}

/// Declarations show exactly what they hold.
pub proof fn declarations_show_what_they_hold(attribute: AttributeSchema, states: BoolStates)
    ensures
        attribute@.kind == attribute.kind,
        attribute@.writable == attribute.writable,
        attribute@.label == attribute.label@,
        attribute@.min == attribute.min,
        attribute@.max == attribute.max,
        match attribute.unit {
            Some(unit) => attribute@.unit == Some(unit@),
            None => attribute@.unit is None,
        },
        match attribute.states {
            Some(named) => attribute@.states == Some(named@),
            None => attribute@.states is None,
        },
        states@.when_true.label == states.when_true.label@,
        states@.when_true.verb == states.when_true.verb@,
        states@.when_false.label == states.when_false.label@,
        states@.when_false.verb == states.when_false.verb@,
{
}

} // verus!
