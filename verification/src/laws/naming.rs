//! Names: of device types, kinds, modes and units.

use vstd::prelude::*;

use crate::config::{Config, ConfigError, Endpoints, Mode, TemperatureUnit};
use crate::devices::{CommandError, DeviceKind};
use crate::startup;
use crate::yolink::types;
use crate::yolink::types::{ApiError, Budp};

verus! {

/// The names of device types differ from each other.
proof fn type_names_differ()
    ensures
        "Outlet"@.len() == 6 && "Outlet"@[0] == 'O',
        "SmartPlug"@.len() == 9 && "SmartPlug"@[0] == 'S',
        "Switch"@.len() == 6 && "Switch"@[0] == 'S',
        "MultiOutlet"@.len() == 11 && "MultiOutlet"@[0] == 'M',
        "DoorSensor"@.len() == 10 && "DoorSensor"@[0] == 'D',
        "MotionSensor"@.len() == 12 && "MotionSensor"@[0] == 'M',
        "LeakSensor"@.len() == 10 && "LeakSensor"@[0] == 'L',
        "THSensor"@.len() == 8 && "THSensor"@[0] == 'T',
        "VibrationSensor"@.len() == 15 && "VibrationSensor"@[0] == 'V',
        "Lock"@.len() == 4 && "Lock"@[0] == 'L',
        "LockV2"@.len() == 6 && "LockV2"@[0] == 'L',
        "Siren"@.len() == 5 && "Siren"@[0] == 'S',
        "Hub"@.len() == 3 && "Hub"@[0] == 'H',
{
    reveal_strlit("Outlet");
    reveal_strlit("SmartPlug");
    reveal_strlit("Switch");
    reveal_strlit("MultiOutlet");
    reveal_strlit("DoorSensor");
    reveal_strlit("MotionSensor");
    reveal_strlit("LeakSensor");
    reveal_strlit("THSensor");
    reveal_strlit("VibrationSensor");
    reveal_strlit("Lock");
    reveal_strlit("LockV2");
    reveal_strlit("Siren");
    reveal_strlit("Hub");
}

/// Every type has exactly one kind, and every kind but the unknown one exactly
/// one type; an unknown kind keeps the name of its type.
pub proof fn types_and_kinds_go_together(kind: DeviceKind, name: Seq<char>)
    requires
        kind.is_of_type(name),
    ensures
        kind is Outlet <==> name == "Outlet"@,
        kind is SmartPlug <==> name == "SmartPlug"@,
        kind is Switch <==> name == "Switch"@,
        kind is MultiOutlet <==> name == "MultiOutlet"@,
        kind is DoorSensor <==> name == "DoorSensor"@,
        kind is MotionSensor <==> name == "MotionSensor"@,
        kind is LeakSensor <==> name == "LeakSensor"@,
        kind is THSensor <==> name == "THSensor"@,
        kind is VibrationSensor <==> name == "VibrationSensor"@,
        kind is Lock <==> name == "Lock"@,
        kind is LockV2 <==> name == "LockV2"@,
        kind is Siren <==> name == "Siren"@,
        kind is Hub <==> name == "Hub"@,
        kind is Unknown ==> kind->Unknown_0@ == name,
{
    type_names_differ();
}

/// A type is bridged exactly if its kind is neither the hub nor unknown, and as
/// that kind.
pub proof fn bridged_types_have_bridged_kinds(kind: DeviceKind, name: Seq<char>)
    requires
        kind.is_of_type(name),
    ensures
        kind.is_bridged() <==> !(kind is Hub || kind is Unknown),
        DeviceKind::bridged_type(name) == if kind is Hub || kind is Unknown {
            None
        } else {
            Some(kind)
        },
        forall|other: DeviceKind|
            DeviceKind::bridged_type(name) == Some(other) ==> #[trigger] other.is_of_type(name),
{
    type_names_differ();
}

/// A kind goes by the name of its type in messages; an unrecognised one is
/// quoted.
pub proof fn kinds_go_by_their_type(kind: DeviceKind, name: Seq<char>)
    requires
        kind.is_of_type(name),
    ensures
        kind.name_in_messages() == if kind is Unknown {
            "Unknown("@ + crate::devices::quoted_text(name) + ")"@
        } else {
            name
        },
{
    type_names_differ();
}

/// The HomeCore type that devices of a YoLink type are registered as.
pub proof fn types_are_registered_as(kind: DeviceKind, name: Seq<char>)
    requires
        kind.is_of_type(name),
    ensures
        name == "DoorSensor"@ ==> kind.device_type() == "contact_sensor"@,
        name == "MotionSensor"@ ==> kind.device_type() == "motion_sensor"@,
        name == "LeakSensor"@ ==> kind.device_type() == "water_sensor"@,
        name == "VibrationSensor"@ ==> kind.device_type() == "vibration_sensor"@,
        name == "THSensor"@ ==> kind.device_type() == "temperature_sensor"@,
        name == "Outlet"@ || name == "SmartPlug"@ || name == "Switch"@ || name == "MultiOutlet"@
            || name == "Siren"@ ==> kind.device_type() == "switch"@,
        name == "Lock"@ || name == "LockV2"@ ==> kind.device_type() == "lock"@,
        !kind.is_bridged() ==> kind.device_type() == "unknown"@,
{
    type_names_differ();
}

/// What a refusal says: what is missing from the command, or what the device is.
pub proof fn refusals_say_why(error: CommandError)
    ensures
        match error {
            CommandError::MissingOn => error.text() == "cmd missing boolean 'on' field"@,
            CommandError::MissingLocked => error.text() == "cmd missing boolean 'locked' field"@,
            CommandError::ReadOnly(kind) => error.text() == kind.name_in_messages()
                + " is read-only; commands are not supported"@,
            CommandError::NotSupported(kind) => error.text() == kind.name_in_messages()
                + " is not a supported device kind"@,
        },
{
}

/// A mode is named by exactly one text, and a unit by its letter in either case.
pub proof fn settings_name_modes_and_units(name: Seq<char>)
    ensures
        Mode::named(name) == Some(Mode::Cloud) <==> name == "cloud"@,
        Mode::named(name) == Some(Mode::Local) <==> name == "local"@,
        TemperatureUnit::named(name) == Some(TemperatureUnit::C) <==> name == "c"@ || name == "C"@,
        TemperatureUnit::named(name) == Some(TemperatureUnit::F) <==> name == "f"@ || name == "F"@,
{
    reveal_strlit("cloud");
    reveal_strlit("local");
    assert("cloud"@[0] == 'c');
    assert("local"@[0] == 'l');
    reveal_strlit("c");
    reveal_strlit("C");
    reveal_strlit("f");
    reveal_strlit("F");
    assert("c"@[0] == 'c');
    assert("C"@[0] == 'C');
    assert("f"@[0] == 'f');
    assert("F"@[0] == 'F');
}

/// Settings are complete exactly if they have the section of their mode; the
/// other section does not matter.
pub proof fn complete_settings_have_their_section(cfg: Config)
    ensures
        cfg.yolink.mode is Cloud ==> (cfg.yolink.is_complete() <==> cfg.yolink.cloud is Some),
        cfg.yolink.mode is Local ==> (cfg.yolink.is_complete() <==> cfg.yolink.local is Some),
        ConfigError::MissingCloudSection.text()
            == "[yolink.cloud] section is required when mode = \"cloud\""@,
        ConfigError::MissingLocalSection.text()
            == "[yolink.local] section is required when mode = \"local\""@,
{
}

/// The endpoints of complete settings, told from the section of their mode: the
/// API and its tokens, the broker, and whom to connect as.
pub proof fn endpoints_follow_the_section(endpoints: Endpoints, cfg: Config)
    requires
        cfg.yolink.is_complete(),
        endpoints.are_of(cfg.yolink),
    ensures
        match cfg.yolink.mode {
            Mode::Cloud => {
                let section = cfg.yolink.cloud->0;
                &&& endpoints.api_base_url@ == section.api_url@
                &&& endpoints.token_url@ == section.api_url@ + "/open/yolink/token"@
                &&& endpoints.mqtt_host@ == section.mqtt_host@
                &&& endpoints.mqtt_port == section.mqtt_port
                &&& endpoints.client_id@ == section.uaid@
                &&& endpoints.client_secret@ == section.secret_key@
                &&& endpoints.net_id@.len() == 0
            },
            Mode::Local => {
                let section = cfg.yolink.local->0;
                let base = "http://"@ + section.hub_ip@ + ":"@ + crate::text::decimal_digits(
                    section.api_port as nat,
                );
                &&& endpoints.api_base_url@ == base
                &&& endpoints.token_url@ == base + "/open/yolink/token"@
                &&& endpoints.mqtt_host@ == section.hub_ip@
                &&& endpoints.mqtt_port == section.mqtt_port
                &&& endpoints.client_id@ == section.client_id@
                &&& endpoints.client_secret@ == section.client_secret@
                &&& endpoints.net_id@ == section.net_id@
            },
        },
{
}

/// A reply of the API succeeded exactly if its code is "000000"; what is missing
/// of it is null or empty. An error shows its code and its description.
pub proof fn api_replies_are_read_by_their_code(reply: Budp, error: ApiError)
    ensures
        reply.succeeded() <==> reply.code@ == "000000"@,
        reply.data is Some ==> reply.payload() == reply.data->0@,
        reply.data is None ==> reply.payload() == crate::json::JsonView::Null,
        reply.desc is Some ==> reply.description() == reply.desc->0@,
        reply.desc is None ==> reply.description().len() == 0,
        error.text() == "YoLink API error "@ + error.code@ + " — "@ + error.description@,
{
}

/// A start is tried three times, a minute apart.
pub proof fn starts_are_tried_three_times()
    ensures
        startup::MAX_ATTEMPTS == 3,
        startup::RETRY_DELAY_SECS == 60,
{
}

/// A method's name is the device type, a dot, and what is asked of the device:
/// both are left when the other is taken off.
pub proof fn methods_are_named_by_type(device_type: Seq<char>, suffix: Seq<char>)
    ensures
        ({
            let name = types::method_text(device_type, suffix);
            let count = device_type.len() as int;
            &&& name.len() == count + 1 + suffix.len()
            &&& name.subrange(0, count) == device_type
            &&& name[count] == '.'
            &&& name.skip(count + 1) == suffix
        }),
{
    reveal_strlit(".");
    let name = types::method_text(device_type, suffix);
    let count = device_type.len() as int;
    assert(name.subrange(0, count) =~= device_type);
    assert(name.skip(count + 1) =~= suffix);
}

} // verus!
