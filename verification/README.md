# hc-yolink

Bridges YoLink smart-home devices into HomeCore, through a YS1606 hub on the
local network or through the vendor's cloud.

The decisions are a library verified with Verus; the program around it talks to
the YoLink API, to both MQTT brokers and to the settings file.

- `src/` is the library: settings and endpoints, the translation of device
  reports and commands, the declarations of what each device kind publishes, the
  MQTT topics, the report stream's sessions, the timers, the start, the bridge's
  event loop, and the sync with the device list. Sessions, start, loop and sync
  are state machines: they hand out what is to be done and take what came of it.
- `src/laws/` states what holds of the library as a whole.
- `app/` is the program.
- `tests/` runs the library.

## Supported device types

| YoLink device | HomeCore device type |
|---|---|
| DoorSensor | `contact_sensor` |
| MotionSensor | `motion_sensor` |
| LeakSensor | `water_sensor` |
| VibrationSensor | `vibration_sensor` |
| THSensor | `temperature_sensor` |
| Outlet / SmartPlug / Switch / MultiOutlet | `switch` |
| Lock / LockV2 | `lock` |
| Siren | `switch` |

## Settings

The program reads the file named on its command line, `config/config.toml` by
default.

- `mode`: `"local"` (with a YS1606 hub) or `"cloud"`
- `hub_ip`: the hub's address (local mode only)
- `poll_interval_secs`: background state refresh interval
- `initial_fetch_delay_secs`: delay before the background state fetch that
  follows a start. Above 0, a start also asks each device for its state as it
  registers it. 0 disables both: states then come from reports and the periodic
  refresh
- `temperature_unit`: `"c"` or `"f"`

## What is not verified

Parsing JSON and random UUIDs come from the `serde_json` and `uuid` crates, and
the debug format of texts from the standard library; the contracts of these
calls are believed. Temperatures are converted and readings rounded in floating
point by the program: the library says which number, which conversion and how
many decimal places.
