//! What each kind of device shows of its reports, member by member.

use vstd::prelude::*;

use crate::config::TemperatureUnit;
use crate::devices;
use crate::devices::{AttributeValueView, DeviceKind, DeviceState, StateView};
use crate::json::{JsonNumber, JsonView};
use crate::laws::declarations;
use crate::measure::{Conversion, Measurement, Reading};

verus! {

/// Whether an attribute is shown as a flag of the given value.
pub open spec fn flag_is(state: StateView, name: Seq<char>, value: bool) -> bool {
    state.contains_key(name) && state[name] == AttributeValueView::Flag(value)
}

/// Whether an attribute is shown as a whole number exactly where there is one.
pub open spec fn count_is(state: StateView, name: Seq<char>, value: Option<u64>) -> bool {
    match value {
        Some(n) => state.contains_key(name) && state[name] == AttributeValueView::Count(n),
        None => !state.contains_key(name),
    }
}

/// Whether an attribute is shown as a number that is only rounded, exactly where
/// there is one.
pub open spec fn rounded_is(
    state: StateView,
    name: Seq<char>,
    value: Option<JsonNumber>,
    decimals: u8,
) -> bool {
    match value {
        Some(number) => {
            &&& state.contains_key(name)
            &&& state[name] == AttributeValueView::Measured(
                Measurement {
                    reading: Reading { number, conversion: Conversion::Unchanged },
                    decimals,
                },
            )
        },
        None => !state.contains_key(name),
    }
}

/// A motion sensor shows motion as its `alarm` says: the one of the report
/// itself, or else the one under `state`; without either there is no motion. It
/// always shows something, and nothing else but the battery.
pub proof fn motion_follows_the_alarm(data: JsonView, unit: TemperatureUnit)
    ensures
        ({
            let shown = DeviceKind::MotionSensor.shown_state(data, unit);
            &&& shown is Some
            &&& match (
                data.member("alarm"@).as_bool(),
                data.member("state"@).member("alarm"@).as_bool(),
            ) {
                (Some(own), _) => flag_is(shown->0, "motion"@, own),
                (None, Some(nested)) => flag_is(shown->0, "motion"@, nested),
                (None, None) => flag_is(shown->0, "motion"@, false),
            }
            &&& forall|name: Seq<char>| #[trigger]
                shown->0.contains_key(name) ==> name == "motion"@ || name == "battery"@
        }),
{
    declarations::attribute_names_differ();
}

/// A vibration sensor shows vibration as its `alarm` says, in the same way.
pub proof fn vibration_follows_the_alarm(data: JsonView, unit: TemperatureUnit)
    ensures
        ({
            let shown = DeviceKind::VibrationSensor.shown_state(data, unit);
            &&& shown is Some
            &&& match (
                data.member("alarm"@).as_bool(),
                data.member("state"@).member("alarm"@).as_bool(),
            ) {
                (Some(own), _) => flag_is(shown->0, "vibration"@, own),
                (None, Some(nested)) => flag_is(shown->0, "vibration"@, nested),
                (None, None) => flag_is(shown->0, "vibration"@, false),
            }
            &&& forall|name: Seq<char>| #[trigger]
                shown->0.contains_key(name) ==> name == "vibration"@ || name == "battery"@
        }),
{
    declarations::attribute_names_differ();
}

/// A leak sensor shows water, under both names, as its `alarm` says; without an
/// alarm, exactly if its state is "alert".
pub proof fn leaks_follow_the_alarm(data: JsonView, unit: TemperatureUnit)
    ensures
        ({
            let shown = DeviceKind::LeakSensor.shown_state(data, unit);
            let wet = match (
                data.member("alarm"@).as_bool(),
                data.member("state"@).member("alarm"@).as_bool(),
                data.member("state"@).as_text(),
            ) {
                (Some(own), _, _) => own,
                (None, Some(nested), _) => nested,
                (None, None, Some(text)) => text == "alert"@,
                (None, None, None) => false,
            };
            &&& shown is Some
            &&& flag_is(shown->0, "leak"@, wet)
            &&& flag_is(shown->0, "water_detected"@, wet)
            &&& forall|name: Seq<char>| #[trigger]
                shown->0.contains_key(name) ==> name == "leak"@ || name == "water_detected"@ || name
                    == "battery"@
        }),
{
    declarations::attribute_names_differ();
}

/// A door sensor shows its door as open exactly if its state is "open", under
/// both names, and shows nothing at all exactly if its state is no text.
pub proof fn doors_follow_their_state(data: JsonView, unit: TemperatureUnit)
    ensures
        ({
            let shown = DeviceKind::DoorSensor.shown_state(data, unit);
            match data.member("state"@).as_text() {
                None => shown is None,
                Some(text) => {
                    &&& shown is Some
                    &&& flag_is(shown->0, "open"@, text == "open"@)
                    &&& flag_is(shown->0, "contact"@, text == "open"@)
                    &&& forall|name: Seq<char>| #[trigger]
                        shown->0.contains_key(name) ==> name == "open"@ || name == "contact"@
                            || name == "battery"@
                },
            }
        }),
{
    declarations::attribute_names_differ();
}

/// A battery-powered device that shows anything shows its battery level exactly
/// if it reports a whole one: under `state`, or else on the report itself.
pub proof fn battery_levels_are_shown_as_reported(
    kind: DeviceKind,
    data: JsonView,
    unit: TemperatureUnit,
)
    requires
        kind is DoorSensor || kind is MotionSensor || kind is LeakSensor || kind is VibrationSensor
            || kind is THSensor || kind is Lock || kind is LockV2,
        kind.shown_state(data, unit) is Some,
    ensures
        ({
            let nested = data.member("state"@).member("battery"@).as_u64();
            let own = data.member("battery"@).as_u64();
            let level = match nested {
                Some(n) => Some(n),
                None => own,
            };
            count_is(kind.shown_state(data, unit)->0, "battery"@, level)
        }),
{
    declarations::attribute_names_differ();
}

/// A relay is on exactly if its state says "open" or "on"; the state is the text
/// under `state`, or else the report itself. Without such a text it shows
/// nothing. Power is the number under `power`, or else under `watt`, to one
/// decimal place; energy is the one under `electricity`, to three.
pub proof fn relays_follow_their_state(kind: DeviceKind, data: JsonView, unit: TemperatureUnit)
    requires
        kind is Outlet || kind is SmartPlug || kind is Switch || kind is MultiOutlet,
    ensures
        ({
            let shown = kind.shown_state(data, unit);
            let text = match data.member("state"@).as_text() {
                Some(text) => Some(text),
                None => data.as_text(),
            };
            let power = match data.member("power"@).as_number() {
                Some(number) => Some(number),
                None => data.member("watt"@).as_number(),
            };
            match text {
                None => shown is None,
                Some(text) => {
                    &&& shown is Some
                    &&& flag_is(shown->0, "on"@, text == "open"@ || text == "on"@)
                    &&& rounded_is(shown->0, "power_w"@, power, 1)
                    &&& rounded_is(
                        shown->0,
                        "energy_kwh"@,
                        data.member("electricity"@).as_number(),
                        3,
                    )
                    &&& forall|name: Seq<char>| #[trigger]
                        shown->0.contains_key(name) ==> name == "on"@ || name == "power_w"@ || name
                            == "energy_kwh"@
                },
            }
        }),
{
    declarations::attribute_names_differ();
}

/// A siren is on exactly if its state says "open" or "on"; its alarm is what the
/// report says, or else goes with whether it is on. It always shows both, and
/// nothing else.
pub proof fn sirens_follow_their_state(data: JsonView, unit: TemperatureUnit)
    ensures
        ({
            let shown = DeviceKind::Siren.shown_state(data, unit);
            let on = match (data.member("state"@).as_text(), data.as_text()) {
                (Some(text), _) => text == "open"@ || text == "on"@,
                (None, Some(text)) => text == "open"@ || text == "on"@,
                (None, None) => false,
            };
            &&& shown is Some
            &&& flag_is(shown->0, "on"@, on)
            &&& match data.member("alarm"@).as_bool() {
                Some(alarm) => flag_is(shown->0, "alarm"@, alarm),
                None => flag_is(shown->0, "alarm"@, on),
            }
            &&& forall|name: Seq<char>| #[trigger]
                shown->0.contains_key(name) ==> name == "on"@ || name == "alarm"@
        }),
{
    declarations::attribute_names_differ();
}

/// A temperature sensor shows something exactly if it reports both a temperature
/// and a humidity, each on the report itself or else under `state`. Humidity is
/// only rounded. The temperature is labelled with the configured unit and
/// converted to it: a device whose unit has a C in its name, is "℃" or is not
/// given reports in Celsius, every other in Fahrenheit.
pub proof fn temperatures_are_shown_in_the_configured_unit(data: JsonView, unit: TemperatureUnit)
    ensures
        ({
            let shown = DeviceKind::THSensor.shown_state(data, unit);
            let nested = data.member("state"@);
            let temperature = match data.member("temperature"@).as_number() {
                Some(number) => Some(number),
                None => nested.member("temperature"@).as_number(),
            };
            let humidity = match data.member("humidity"@).as_number() {
                Some(number) => Some(number),
                None => nested.member("humidity"@).as_number(),
            };
            let celsius = match (
                data.member("tempUnit"@).as_text(),
                nested.member("tempUnit"@).as_text(),
            ) {
                (Some(text), _) => text.contains('C') || text == "℃"@,
                (None, Some(text)) => text.contains('C') || text == "℃"@,
                (None, None) => true,
            };
            match (temperature, humidity) {
                (Some(number), Some(_)) => {
                    &&& shown is Some
                    &&& rounded_is(shown->0, "humidity_pct"@, humidity, 1)
                    &&& shown->0.contains_key("temperature"@)
                    &&& shown->0["temperature"@] == AttributeValueView::Measured(
                        Measurement {
                            reading: Reading {
                                number,
                                conversion: match (celsius, unit) {
                                    (true, TemperatureUnit::C) => Conversion::Unchanged,
                                    (true, TemperatureUnit::F) => Conversion::CelsiusToFahrenheit,
                                    (false, TemperatureUnit::C) => Conversion::FahrenheitToCelsius,
                                    (false, TemperatureUnit::F) => Conversion::Unchanged,
                                },
                            },
                            decimals: 1,
                        },
                    )
                    &&& shown->0.contains_key("temperature_unit"@)
                    &&& shown->0["temperature_unit"@] == AttributeValueView::Label(
                        match unit {
                            TemperatureUnit::C => "C"@,
                            TemperatureUnit::F => "F"@,
                        },
                    )
                    &&& forall|name: Seq<char>| #[trigger]
                        shown->0.contains_key(name) ==> name == "temperature"@ || name
                            == "temperature_unit"@ || name == "humidity_pct"@ || name
                            == "battery"@
                },
                _ => shown is None,
            }
        }),
{
    declarations::attribute_names_differ();
}

/// A lock is locked exactly if its state says "locked"; the state is the text
/// under `state`, or else the `lock` in it, and without one nothing is shown.
/// The door is open exactly if `door` says "open". The last alert is the alert's
/// type, and the two settings are the whole numbers among the attributes.
pub proof fn locks_follow_their_state(kind: DeviceKind, data: JsonView, unit: TemperatureUnit)
    requires
        kind is Lock || kind is LockV2,
    ensures
        ({
            let shown = kind.shown_state(data, unit);
            let nested = data.member("state"@);
            let settings = data.member("attributes"@);
            let text = match nested.as_text() {
                Some(text) => Some(text),
                None => nested.member("lock"@).as_text(),
            };
            match text {
                None => shown is None,
                Some(text) => {
                    &&& shown is Some
                    &&& flag_is(shown->0, "locked"@, text == "locked"@)
                    &&& match nested.member("door"@).as_text() {
                        Some(door) => flag_is(shown->0, "door_open"@, door == "open"@),
                        None => !shown->0.contains_key("door_open"@),
                    }
                    &&& match data.member("alert"@).member("type"@).as_text() {
                        Some(alert) => shown->0.contains_key("last_alert"@)
                            && shown->0["last_alert"@] == AttributeValueView::Label(alert),
                        None => !shown->0.contains_key("last_alert"@),
                    }
                    &&& count_is(
                        shown->0,
                        "auto_lock_secs"@,
                        settings.member("autoLock"@).as_u64(),
                    )
                    &&& count_is(
                        shown->0,
                        "sound_level"@,
                        settings.member("soundLevel"@).as_u64(),
                    )
                    &&& forall|name: Seq<char>| #[trigger]
                        shown->0.contains_key(name) ==> name == "locked"@ || name == "door_open"@
                            || name == "last_alert"@ || name == "auto_lock_secs"@ || name
                            == "sound_level"@ || name == "battery"@
                },
            }
        }),
{
    declarations::attribute_names_differ();
}

/// Kinds that are not bridged show nothing.
pub proof fn unbridged_kinds_show_nothing(kind: DeviceKind, data: JsonView, unit: TemperatureUnit)
    requires
        kind is Hub || kind is Unknown,
    ensures
        kind.shown_state(data, unit) is None,
{
}

/// Only temperature sensors show different states under different units.
pub proof fn only_temperatures_depend_on_the_unit(
    kind: DeviceKind,
    data: JsonView,
    a: TemperatureUnit,
    b: TemperatureUnit,
)
    requires
        !(kind is THSensor),
    ensures
        kind.shown_state(data, a) == kind.shown_state(data, b),
{
}

/// A translation shows a state exactly if there is one to be shown, and that one.
pub proof fn translations_are_what_is_shown(state: Option<DeviceState>, wanted: Option<StateView>)
    ensures
        devices::shows(state, wanted) <==> match (state, wanted) {
            (Some(translated), Some(shown)) => translated@ == shown,
            (None, None) => true,
            _ => false,
        },
{
}

} // verus!
