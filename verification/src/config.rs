//! The plugin's settings, and the endpoints that follow from them.

use vstd::prelude::*;
use vstd::string::*;

use crate::json::JsonNumber;
use crate::measure::{Conversion, Reading};
use crate::text::{decimal, joined, same_text};

verus! {

// ---------------------------------------------------------------------------
// Top level
// ---------------------------------------------------------------------------

/// All settings.
#[derive(Debug)]
pub struct Config {
    pub homecore: HomecoreConfig,
    pub yolink: YolinkConfig,
}

impl Clone for Config {
    fn clone(&self) -> (copy: Self)
        ensures
            copy == *self,
    {
        Config { homecore: self.homecore.clone(), yolink: self.yolink.clone() }
    }
}

/// What can be wrong with settings that could be read.
#[derive(Clone, Copy, Debug, PartialEq, Eq, Structural)]
pub enum ConfigError {
    MissingCloudSection,
    MissingLocalSection,
}

impl ConfigError {
    pub open spec fn text(self) -> Seq<char> {
        match self {
            ConfigError::MissingCloudSection => "[yolink.cloud] section is required when mode = \"cloud\""@,
            ConfigError::MissingLocalSection => "[yolink.local] section is required when mode = \"local\""@,
        }
    }

    pub fn message(&self) -> (text: String)
        ensures
            text@ == self.text(),
    {
        match self {
            ConfigError::MissingCloudSection => {
                "[yolink.cloud] section is required when mode = \"cloud\"".to_string()
            },
            ConfigError::MissingLocalSection => {
                "[yolink.local] section is required when mode = \"local\"".to_string()
            },
        }
    }
}

impl Config {
    /// Checks that the section for the chosen mode is there.
    pub fn validate(&self) -> (checked: Result<(), ConfigError>)
        ensures
            match checked {
                Ok(()) => self.yolink.is_complete(),
                Err(ConfigError::MissingCloudSection) => self.yolink.mode is Cloud
                    && self.yolink.cloud is None,
                Err(ConfigError::MissingLocalSection) => self.yolink.mode is Local
                    && self.yolink.local is None,
            },
    {
        match self.yolink.mode {
            Mode::Cloud => {
                if self.yolink.cloud.is_none() {
                    return Err(ConfigError::MissingCloudSection);
                }
            },
            Mode::Local => {
                if self.yolink.local.is_none() {
                    return Err(ConfigError::MissingLocalSection);
                }
            },
        }
        Ok(())
    }
}

// ---------------------------------------------------------------------------
// HomeCore broker connection
// ---------------------------------------------------------------------------

/// How to reach the HomeCore broker.
#[derive(Debug)]
pub struct HomecoreConfig {
    pub broker_host: String,
    pub broker_port: u16,
    pub plugin_id: String,
    pub password: String,
}

impl Clone for HomecoreConfig {
    fn clone(&self) -> (copy: Self)
        ensures
            copy == *self,
    {
        HomecoreConfig {
            broker_host: self.broker_host.clone(),
            broker_port: self.broker_port,
            plugin_id: self.plugin_id.clone(),
            password: self.password.clone(),
        }
    }
}

pub fn default_broker_host() -> (host: String)
    ensures
        host@ == "127.0.0.1"@,
{
    "127.0.0.1".to_string()
}

pub fn default_broker_port() -> (port: u16)
    ensures
        port == 1883,
{
    1883
}

pub fn default_plugin_id() -> (id: String)
    ensures
        id@ == "plugin.yolink"@,
{
    "plugin.yolink".to_string()
}

// ---------------------------------------------------------------------------
// YoLink settings
// ---------------------------------------------------------------------------

/// Where the devices are reached: through the vendor's cloud, or through a hub
/// on the local network.
#[derive(Clone, Copy, Debug, PartialEq, Eq, Structural)]
pub enum Mode {
    Cloud,
    Local,
}

impl Mode {
    /// The mode that a setting's text names.
    pub open spec fn named(text: Seq<char>) -> Option<Mode> {
        if text == "cloud"@ {
            Some(Mode::Cloud)
        } else if text == "local"@ {
            Some(Mode::Local)
        } else {
            None
        }
    }

    /// Reads the `mode` setting.
    pub fn from_setting(text: &str) -> (mode: Option<Mode>)
        ensures
            mode == Mode::named(text@),
    {
        if same_text(text, "cloud") {
            Some(Mode::Cloud)
        } else if same_text(text, "local") {
            Some(Mode::Local)
        } else {
            None
        }
    }
}

/// Display unit for temperatures reported to HomeCore.
///
/// YoLink devices report their own unit in the `tempUnit` field; readings are
/// always converted to the configured unit before they are published.
#[derive(Clone, Copy, Debug, PartialEq, Eq, Structural)]
pub enum TemperatureUnit {
    /// Degrees Celsius
    C,
    /// Degrees Fahrenheit (default)
    F,
}

impl Default for TemperatureUnit {
    fn default() -> (unit: Self)
        ensures
            unit == TemperatureUnit::F,
    {
        TemperatureUnit::F
    }
}

impl TemperatureUnit {
    /// What makes a Celsius value one of this unit.
    pub open spec fn celsius_conversion(self) -> Conversion {
        match self {
            TemperatureUnit::C => Conversion::Unchanged,
            TemperatureUnit::F => Conversion::CelsiusToFahrenheit,
        }
    }

    /// What makes a Fahrenheit value one of this unit.
    pub open spec fn fahrenheit_conversion(self) -> Conversion {
        match self {
            TemperatureUnit::C => Conversion::FahrenheitToCelsius,
            TemperatureUnit::F => Conversion::Unchanged,
        }
    }

    pub open spec fn short_name(self) -> Seq<char> {
        match self {
            TemperatureUnit::C => "C"@,
            TemperatureUnit::F => "F"@,
        }
    }

    /// The unit that a setting's text names, in either letter case.
    pub open spec fn named(text: Seq<char>) -> Option<TemperatureUnit> {
        if text == "c"@ || text == "C"@ {
            Some(TemperatureUnit::C)
        } else if text == "f"@ || text == "F"@ {
            Some(TemperatureUnit::F)
        } else {
            None
        }
    }

    /// Reads the `temperature_unit` setting.
    pub fn from_setting(text: &str) -> (unit: Option<TemperatureUnit>)
        ensures
            unit == TemperatureUnit::named(text@),
    {
        if same_text(text, "c") || same_text(text, "C") {
            Some(TemperatureUnit::C)
        } else if same_text(text, "f") || same_text(text, "F") {
            Some(TemperatureUnit::F)
        } else {
            None
        }
    }

    /// Convert a Celsius value to the target unit.
    pub fn from_celsius(&self, c: JsonNumber) -> (reading: Reading)
        ensures
            reading == (Reading { number: c, conversion: self.celsius_conversion() }),
    {
        let conversion = match self {
            TemperatureUnit::C => Conversion::Unchanged,
            TemperatureUnit::F => Conversion::CelsiusToFahrenheit,
        };
        Reading { number: c, conversion }
    }

    /// Convert a Fahrenheit value to the target unit.
    pub fn from_fahrenheit(&self, f: JsonNumber) -> (reading: Reading)
        ensures
            reading == (Reading { number: f, conversion: self.fahrenheit_conversion() }),
    {
        let conversion = match self {
            TemperatureUnit::F => Conversion::Unchanged,
            TemperatureUnit::C => Conversion::FahrenheitToCelsius,
        };
        Reading { number: f, conversion }
    }

    /// Short label used in published states, `"F"` or `"C"`.
    pub fn label(&self) -> (label: &'static str)
        ensures
            label@ == self.short_name(),
    {
        match self {
            TemperatureUnit::C => "C",
            TemperatureUnit::F => "F",
        }
    }
}

/// Settings of the YoLink side.
#[derive(Debug)]
pub struct YolinkConfig {
    pub mode: Mode,
    /// How often to poll all devices for a full state refresh (seconds).
    /// MQTT events are the primary delivery mechanism; this is a safety true-up.
    pub poll_interval_secs: u64,
    /// Delay between individual device polls (milliseconds), against the hub's
    /// rate limit.
    pub poll_device_delay_ms: u64,
    /// Delay before the initial background state fetch (seconds). Gives the
    /// YoLink MQTT connection time to stabilize before adding HTTP load to the
    /// hub. 0 disables the fetch, the one at registration included (rely on
    /// MQTT reports and the periodic poll).
    pub initial_fetch_delay_secs: u64,
    /// Unit used when publishing temperature values to HomeCore.
    pub temperature_unit: TemperatureUnit,
    pub cloud: Option<CloudConfig>,
    pub local: Option<LocalConfig>,
}

impl Clone for YolinkConfig {
    fn clone(&self) -> (copy: Self)
        ensures
            copy == *self,
    {
        let cloud = match &self.cloud {
            Some(section) => Some(section.clone()),
            None => None,
        };
        let local = match &self.local {
            Some(section) => Some(section.clone()),
            None => None,
        };
        YolinkConfig {
            mode: self.mode,
            poll_interval_secs: self.poll_interval_secs,
            poll_device_delay_ms: self.poll_device_delay_ms,
            initial_fetch_delay_secs: self.initial_fetch_delay_secs,
            temperature_unit: self.temperature_unit,
            cloud,
            local,
        }
    }
}

impl YolinkConfig {
    /// Whether the section for the chosen mode is there.
    pub open spec fn is_complete(self) -> bool {
        match self.mode {
            Mode::Cloud => self.cloud is Some,
            Mode::Local => self.local is Some,
        }
    }

    /// How long to wait, in seconds, before the initial background state fetch;
    /// `None` if there is to be none.
    pub fn initial_fetch_delay(&self) -> (delay: Option<u64>)
        ensures
            delay == if self.initial_fetch_delay_secs == 0 {
                None
            } else {
                Some(self.initial_fetch_delay_secs)
            },
    {
        if self.initial_fetch_delay_secs == 0 {
            None
        } else {
            Some(self.initial_fetch_delay_secs)
        }
    }
}

pub fn default_poll_interval() -> (secs: u64)
    ensures
        secs == 3600,
{
    3600
}

pub fn default_poll_device_delay_ms() -> (millis: u64)
    ensures
        millis == 1000,
{
    1000
}

pub fn default_initial_fetch_delay_secs() -> (secs: u64)
    ensures
        secs == 10,
{
    10
}

// ---------------------------------------------------------------------------
// Cloud mode (YS1603 / YS1605)
// ---------------------------------------------------------------------------

/// Access through the vendor's cloud.
#[derive(Debug)]
pub struct CloudConfig {
    /// User Access Credential ID
    pub uaid: String,
    /// UAC secret key
    pub secret_key: String,
    pub api_url: String,
    pub mqtt_host: String,
    pub mqtt_port: u16,
}

impl Clone for CloudConfig {
    fn clone(&self) -> (copy: Self)
        ensures
            copy == *self,
    {
        CloudConfig {
            uaid: self.uaid.clone(),
            secret_key: self.secret_key.clone(),
            api_url: self.api_url.clone(),
            mqtt_host: self.mqtt_host.clone(),
            mqtt_port: self.mqtt_port,
        }
    }
}

pub fn default_cloud_api_url() -> (url: String)
    ensures
        url@ == "https://api.yosmart.com"@,
{
    "https://api.yosmart.com".to_string()
}

pub fn default_cloud_mqtt_host() -> (host: String)
    ensures
        host@ == "mqtt.api.yosmart.com"@,
{
    "mqtt.api.yosmart.com".to_string()
}

pub fn default_cloud_mqtt_port() -> (port: u16)
    ensures
        port == 8003,
{
    8003
}

// ---------------------------------------------------------------------------
// Local mode (YS1606 Local Hub only)
// ---------------------------------------------------------------------------

/// Access through a hub on the local network.
#[derive(Debug)]
pub struct LocalConfig {
    /// Local IP address (or hostname) of the YS1606 hub on the LAN
    pub hub_ip: String,
    pub client_id: String,
    pub client_secret: String,
    /// Network ID, required for local hub access
    pub net_id: String,
    /// HTTP port of the local hub's API server
    pub api_port: u16,
    /// MQTT port of the local hub's broker
    pub mqtt_port: u16,
}

impl Clone for LocalConfig {
    fn clone(&self) -> (copy: Self)
        ensures
            copy == *self,
    {
        LocalConfig {
            hub_ip: self.hub_ip.clone(),
            client_id: self.client_id.clone(),
            client_secret: self.client_secret.clone(),
            net_id: self.net_id.clone(),
            api_port: self.api_port,
            mqtt_port: self.mqtt_port,
        }
    }
}

pub fn default_local_api_port() -> (port: u16)
    ensures
        port == 1080,
{
    1080
}

pub fn default_local_mqtt_port() -> (port: u16)
    ensures
        port == 18080,
{
    18080
}

// ---------------------------------------------------------------------------
// Resolved endpoint bundle
// ---------------------------------------------------------------------------

/// Where to connect and as whom, resolved from the settings of one mode.
#[derive(Debug)]
pub struct Endpoints {
    pub token_url: String,
    pub api_base_url: String,
    pub mqtt_host: String,
    pub mqtt_port: u16,
    pub client_id: String,
    pub client_secret: String,
    /// Local hub Net ID (local mode only; empty string for cloud mode).
    pub net_id: String,
}

impl Clone for Endpoints {
    fn clone(&self) -> (copy: Self)
        ensures
            copy == *self,
    {
        Endpoints {
            token_url: self.token_url.clone(),
            api_base_url: self.api_base_url.clone(),
            mqtt_host: self.mqtt_host.clone(),
            mqtt_port: self.mqtt_port,
            client_id: self.client_id.clone(),
            client_secret: self.client_secret.clone(),
            net_id: self.net_id.clone(),
        }
    }
}

impl Endpoints {
    /// The base URL of a local hub's API server.
    pub open spec fn local_base_url(local: LocalConfig) -> Seq<char> {
        "http://"@ + local.hub_ip@ + ":"@ + crate::text::decimal_digits(local.api_port as nat)
    }

    /// Whether these are the endpoints of a cloud section.
    pub open spec fn are_of_cloud(self, cloud: CloudConfig) -> bool {
        &&& self.token_url@ == cloud.api_url@ + "/open/yolink/token"@
        &&& self.api_base_url@ == cloud.api_url@
        &&& self.mqtt_host@ == cloud.mqtt_host@
        &&& self.mqtt_port == cloud.mqtt_port
        &&& self.client_id@ == cloud.uaid@
        &&& self.client_secret@ == cloud.secret_key@
        &&& self.net_id@ == Seq::<char>::empty()
    }

    /// Whether these are the endpoints of a local section.
    pub open spec fn are_of_local(self, local: LocalConfig) -> bool {
        &&& self.token_url@ == Self::local_base_url(local) + "/open/yolink/token"@
        &&& self.api_base_url@ == Self::local_base_url(local)
        &&& self.mqtt_host@ == local.hub_ip@
        &&& self.mqtt_port == local.mqtt_port
        &&& self.client_id@ == local.client_id@
        &&& self.client_secret@ == local.client_secret@
        &&& self.net_id@ == local.net_id@
    }

    /// Whether these are the endpoints that `cfg` asks for.
    pub open spec fn are_of(self, cfg: YolinkConfig) -> bool {
        match cfg.mode {
            Mode::Cloud => cfg.cloud is Some && self.are_of_cloud(cfg.cloud->0),
            Mode::Local => cfg.local is Some && self.are_of_local(cfg.local->0),
        }
    }

    /// Resolves the endpoints of checked settings.
    pub fn from_config(cfg: &YolinkConfig) -> (resolved: Result<Self, ConfigError>)
        requires
            cfg.is_complete(),
        ensures
            resolved is Ok,
            resolved->Ok_0.are_of(*cfg),
    {
        match cfg.mode {
            Mode::Cloud => match &cfg.cloud {
                Some(c) => Ok(
                    Endpoints {
                        token_url: joined(c.api_url.as_str(), "/open/yolink/token"),
                        api_base_url: c.api_url.clone(),
                        mqtt_host: c.mqtt_host.clone(),
                        mqtt_port: c.mqtt_port,
                        client_id: c.uaid.clone(),
                        client_secret: c.secret_key.clone(),
                        net_id: String::new(),
                    },
                ),
                None => Err(ConfigError::MissingCloudSection),
            },
            Mode::Local => match &cfg.local {
                Some(l) => {
                    let port = decimal(l.api_port as u64);
                    let base = joined("http://", l.hub_ip.as_str()).concat(":").concat(port.as_str());
                    Ok(
                        Endpoints {
                            token_url: joined(base.as_str(), "/open/yolink/token"),
                            api_base_url: base,
                            mqtt_host: l.hub_ip.clone(),
                            mqtt_port: l.mqtt_port,
                            client_id: l.client_id.clone(),
                            client_secret: l.client_secret.clone(),
                            net_id: l.net_id.clone(),
                        },
                    )
                },
                None => Err(ConfigError::MissingLocalSection),
            },
        }
    }
}

} // verus!
