//! Runtime configuration: what can be set, and what holds where it is not.
use vstd::prelude::*;

use crate::text::{trim_text, trimmed};

verus! {

/// The larger of two numbers.
pub open spec fn at_least(value: u64, least: u64) -> u64 {
    if value < least {
        least
    } else {
        value
    }
}

/// The larger of two numbers.
pub fn raise_to(value: u64, least: u64) -> (raised: u64)
    ensures
        raised == at_least(value, least),
{
    if value < least {
        least
    } else {
        value
    }
}

/// HTTPS status dashboard: read-only, behind Basic authentication.
#[derive(Debug, Clone)]
pub struct HttpConfig {
    pub enabled: bool,
    /// Address of the plain listener, which only redirects.
    pub http_bind: String,
    /// Address of the TLS listener.
    pub https_bind: String,
    pub cert_path: String,
    pub key_path: String,
    /// File with the line `web:<bcrypt hash>`.
    pub auth_path: String,
    /// Number of recent log lines that are kept.
    pub log_buffer_lines: usize,
}

/// Whether the dashboard runs where nothing is set.
pub fn default_http_enabled() -> (enabled: bool)
    ensures
        enabled,
{
    true
}

/// The plain listener's address where none is set.
pub fn default_http_bind() -> (bind: String)
    ensures
        bind@ == "0.0.0.0:80"@,
{
    "0.0.0.0:80".to_owned()
}

/// The TLS listener's address where none is set.
pub fn default_https_bind() -> (bind: String)
    ensures
        bind@ == "0.0.0.0:443"@,
{
    "0.0.0.0:443".to_owned()
}

/// The certificate file where none is set.
pub fn default_cert_path() -> (path: String)
    ensures
        path@ == "/etc/rs_pool/tls/cert.pem"@,
{
    "/etc/rs_pool/tls/cert.pem".to_owned()
}

/// The key file where none is set.
pub fn default_key_path() -> (path: String)
    ensures
        path@ == "/etc/rs_pool/tls/key.pem"@,
{
    "/etc/rs_pool/tls/key.pem".to_owned()
}

/// The password file where none is set.
pub fn default_auth_path() -> (path: String)
    ensures
        path@ == "/etc/rs_pool/http_auth"@,
{
    "/etc/rs_pool/http_auth".to_owned()
}

/// The number of log lines kept where none is set.
pub fn default_log_buffer_lines() -> (lines: usize)
    ensures
        lines == 500,
{
    500
}

impl HttpConfig {
    /// Whether every setting has the value that holds where it is not set.
    pub open spec fn is_default(self) -> bool {
        &&& self.enabled
        &&& self.http_bind@ == "0.0.0.0:80"@
        &&& self.https_bind@ == "0.0.0.0:443"@
        &&& self.cert_path@ == "/etc/rs_pool/tls/cert.pem"@
        &&& self.key_path@ == "/etc/rs_pool/tls/key.pem"@
        &&& self.auth_path@ == "/etc/rs_pool/http_auth"@
        &&& self.log_buffer_lines == 500
    }
}

impl Default for HttpConfig {
    fn default() -> (config: Self)
        ensures
            config.is_default(),
    {
        HttpConfig {
            enabled: default_http_enabled(),
            http_bind: default_http_bind(),
            https_bind: default_https_bind(),
            cert_path: default_cert_path(),
            key_path: default_key_path(),
            auth_path: default_auth_path(),
            log_buffer_lines: default_log_buffer_lines(),
        }
    }
}

/// The serial port of the RS485 bus.
#[derive(Debug, Clone)]
pub struct SerialConfig {
    pub device: String,
    pub baud: u32,
}

/// The Modbus master: relay board and pump.
#[derive(Debug, Clone, Copy, PartialEq, Eq, Structural)]
pub struct ModbusConfig {
    pub enabled: bool,
    /// Address of the relay board.
    pub relay_addr: u8,
    /// Address of the pump.
    pub pump_addr: u8,
    /// Seconds between reads of an idle relay board.
    pub relay_poll_secs: u64,
    /// Seconds between reads of the pump.
    pub pump_poll_secs: u64,
    /// Milliseconds that a reply may take.
    pub response_timeout_ms: u64,
    /// Milliseconds between two frames.
    pub inter_frame_ms: u64,
    /// Largest `spd` demand.
    pub spd_max: u16,
}

/// Whether the Modbus master runs where nothing is set.
pub fn default_modbus_enabled() -> (enabled: bool)
    ensures
        enabled,
{
    true
}

/// The relay board's address where none is set.
pub fn default_relay_addr() -> (addr: u8)
    ensures
        addr == 0x01,
{
    0x01
}

/// The pump's address where none is set.
pub fn default_pump_addr() -> (addr: u8)
    ensures
        addr == 0x15,
{
    0x15
}

/// The relay poll period in seconds where none is set.
pub fn default_relay_poll_secs() -> (secs: u64)
    ensures
        secs == 30,
{
    30
}

/// The pump poll period in seconds where none is set.
pub fn default_pump_poll_secs() -> (secs: u64)
    ensures
        secs == 8,
{
    8
}

/// The reply timeout in milliseconds where none is set.
pub fn default_response_timeout_ms() -> (ms: u64)
    ensures
        ms == 1000,
{
    1000
}

/// The gap between frames in milliseconds where none is set.
pub fn default_inter_frame_ms() -> (ms: u64)
    ensures
        ms == 50,
{
    50
}

/// The largest `spd` demand where none is set.
pub fn default_spd_max() -> (spd_max: u16)
    ensures
        spd_max == 35,
{
    35
}

impl Default for ModbusConfig {
    fn default() -> (config: Self)
        ensures
            config == (ModbusConfig {
                enabled: true,
                relay_addr: 0x01,
                pump_addr: 0x15,
                relay_poll_secs: 30,
                pump_poll_secs: 8,
                response_timeout_ms: 1000,
                inter_frame_ms: 50,
                spd_max: 35,
            }),
    {
        ModbusConfig {
            enabled: default_modbus_enabled(),
            relay_addr: default_relay_addr(),
            pump_addr: default_pump_addr(),
            relay_poll_secs: default_relay_poll_secs(),
            pump_poll_secs: default_pump_poll_secs(),
            response_timeout_ms: default_response_timeout_ms(),
            inter_frame_ms: default_inter_frame_ms(),
            spd_max: default_spd_max(),
        }
    }
}

/// The MQTT broker and its topics.
#[derive(Debug, Clone)]
pub struct MqttConfig {
    /// Empty where MQTT is off.
    pub host: String,
    pub port: u16,
    pub client_id: String,
    pub command_topic: String,
    pub status_topic: String,
    pub connected_topic: String,
}

/// Periods that belong to no single part.
#[derive(Debug, Clone, Copy, PartialEq, Eq, Structural)]
pub struct TimingConfig {
    /// Seconds between ticks of the debug heartbeat.
    pub heartbeat_secs: u64,
    /// Seconds between status publishes.
    pub status_interval_secs: u64,
}

impl TimingConfig {
    /// Seconds between ticks of the debug heartbeat: at least one.
    pub fn heartbeat_period_secs(&self) -> (secs: u64)
        ensures
            secs == at_least(self.heartbeat_secs, 1),
    {
        raise_to(self.heartbeat_secs, 1)
    }

    /// Seconds between status publishes: at least one.
    pub fn status_period_secs(&self) -> (secs: u64)
        ensures
            secs == at_least(self.status_interval_secs, 1),
    {
        raise_to(self.status_interval_secs, 1)
    }
}

/// The status period in seconds where none is set.
pub fn default_status_interval_secs() -> (secs: u64)
    ensures
        secs == 4,
{
    4
}

/// The file that the commanded settings are kept in.
#[derive(Debug, Clone)]
pub struct PersistConfig {
    pub path: String,
}

/// The settings file where none is set.
pub fn default_persist_path() -> (path: String)
    ensures
        path@ == "/var/lib/rs_pool/state.json"@,
{
    "/var/lib/rs_pool/state.json".to_owned()
}

impl Default for PersistConfig {
    fn default() -> (config: Self)
        ensures
            config.path@ == "/var/lib/rs_pool/state.json"@,
    {
        PersistConfig { path: default_persist_path() }
    }
}

/// Water temperature: the converter, its sampling, and the divert valve. The thermistor's
/// constants, which are not whole numbers, stand with the conversion that uses them.
#[derive(Debug, Clone)]
pub struct TempConfig {
    pub enabled: bool,
    pub i2c_device: String,
    pub i2c_address: u8,
    /// Single-ended input, 0 to 3.
    pub channel: u8,
    pub poll_interval_secs: u64,
    pub sample_count: u8,
    pub sample_delay_ms: u64,
    /// Seconds after a change of the divert valve before a reading counts.
    pub settle_secs: u64,
    /// Number of the divert valve's relay, from 1. On selects the spa.
    pub divert_relay: u8,
    /// Lowest raw reading that is converted.
    pub raw_min: i16,
    /// Highest raw reading that is converted.
    pub raw_max: i16,
}

/// Whether water temperature is read where nothing is set.
pub fn default_temp_enabled() -> (enabled: bool)
    ensures
        enabled,
{
    true
}

/// The I2C device where none is set.
pub fn default_i2c_device() -> (device: String)
    ensures
        device@ == "/dev/i2c-1"@,
{
    "/dev/i2c-1".to_owned()
}

/// The converter's address where none is set.
pub fn default_i2c_address() -> (address: u8)
    ensures
        address == 0x48,
{
    0x48
}

/// The temperature poll period in seconds where none is set.
pub fn default_poll_interval_secs() -> (secs: u64)
    ensures
        secs == 4,
{
    4
}

/// The number of samples per reading where none is set.
pub fn default_sample_count() -> (count: u8)
    ensures
        count == 5,
{
    5
}

/// The delay between samples in milliseconds where none is set.
pub fn default_sample_delay_ms() -> (ms: u64)
    ensures
        ms == 10,
{
    10
}

/// The settling time in seconds where none is set.
pub fn default_settle_secs() -> (secs: u64)
    ensures
        secs == 90,
{
    90
}

/// The divert valve's relay where none is set.
pub fn default_divert_relay() -> (relay: u8)
    ensures
        relay == 7,
{
    7
}

/// The lowest raw reading where none is set.
pub fn default_raw_min() -> (raw: i16)
    ensures
        raw == 80,
{
    80
}

/// The highest raw reading where none is set.
pub fn default_raw_max() -> (raw: i16)
    ensures
        raw == 32600,
{
    32600
}

impl TempConfig {
    /// Whether every setting has the value that holds where it is not set.
    pub open spec fn is_default(self) -> bool {
        &&& self.enabled
        &&& self.i2c_device@ == "/dev/i2c-1"@
        &&& self.i2c_address == 0x48
        &&& self.channel == 0
        &&& self.poll_interval_secs == 4
        &&& self.sample_count == 5
        &&& self.sample_delay_ms == 10
        &&& self.settle_secs == 90
        &&& self.divert_relay == 7
        &&& self.raw_min == 80
        &&& self.raw_max == 32600
    }

    /// Seconds between readings: at least one.
    pub fn poll_period_secs(&self) -> (secs: u64)
        ensures
            secs == at_least(self.poll_interval_secs, 1),
    {
        raise_to(self.poll_interval_secs, 1)
    }
}

impl Default for TempConfig {
    fn default() -> (config: Self)
        ensures
            config.is_default(),
    {
        TempConfig {
            enabled: default_temp_enabled(),
            i2c_device: default_i2c_device(),
            i2c_address: default_i2c_address(),
            channel: 0,
            poll_interval_secs: default_poll_interval_secs(),
            sample_count: default_sample_count(),
            sample_delay_ms: default_sample_delay_ms(),
            settle_secs: default_settle_secs(),
            divert_relay: default_divert_relay(),
            raw_min: default_raw_min(),
            raw_max: default_raw_max(),
        }
    }
}

/// The configuration of the controller.
#[derive(Debug, Clone)]
pub struct Config {
    pub serial: SerialConfig,
    pub mqtt: MqttConfig,
    pub timing: TimingConfig,
    pub persist: PersistConfig,
    pub temp: TempConfig,
    pub modbus: ModbusConfig,
    pub http: HttpConfig,
}

impl Config {
    /// Whether this is the built-in configuration.
    pub open spec fn is_built_in(self) -> bool {
        &&& self.serial.device@ == "/dev/serial0"@
        &&& self.serial.baud == 9600
        &&& self.mqtt.host@ == Seq::<char>::empty()
        &&& self.mqtt.port == 1883
        &&& self.mqtt.client_id@ == "rs_pool"@
        &&& self.mqtt.command_topic@ == "pool/command"@
        &&& self.mqtt.status_topic@ == "pool/status"@
        &&& self.mqtt.connected_topic@ == "pool/connected"@
        &&& self.timing == (TimingConfig { heartbeat_secs: 5, status_interval_secs: 4 })
        &&& self.persist.path@ == "/var/lib/rs_pool/state.json"@
        &&& self.temp.is_default()
        &&& self.modbus == (ModbusConfig {
            enabled: true,
            relay_addr: 0x01,
            pump_addr: 0x15,
            relay_poll_secs: 30,
            pump_poll_secs: 8,
            response_timeout_ms: 1000,
            inter_frame_ms: 50,
            spd_max: 35,
        })
        &&& self.http.is_default()
    }

    /// Whether MQTT is on: the broker's host is more than white space.
    #[must_use]
    pub fn mqtt_enabled(&self) -> (enabled: bool)
        ensures
            enabled == (trimmed(self.mqtt.host@).len() > 0),
    {
        let host = trim_text(self.mqtt.host.as_str());
        host.as_str().unicode_len() > 0
    }
}

impl Default for Config {
    fn default() -> (config: Self)
        ensures
            config.is_built_in(),
    {
        Config {
            serial: SerialConfig { device: "/dev/serial0".to_owned(), baud: 9600 },
            mqtt: MqttConfig {
                host: String::new(),
                port: 1883,
                client_id: "rs_pool".to_owned(),
                command_topic: "pool/command".to_owned(),
                status_topic: "pool/status".to_owned(),
                connected_topic: "pool/connected".to_owned(),
            },
            timing: TimingConfig {
                heartbeat_secs: 5,
                status_interval_secs: default_status_interval_secs(),
            },
            persist: PersistConfig::default(),
            temp: TempConfig::default(),
            modbus: ModbusConfig::default(),
            http: HttpConfig::default(),
        }
    }
}

/// What came of reading the configuration file.
#[derive(Debug)]
pub enum ConfigFile {
    Loaded(Config),
    /// There is no such file.
    Missing,
    /// The file is there, but it cannot be read or parsed.
    Unusable,
}

/// The configuration to run with: the file's, or the built-in one where there is no file. `None`
/// where the file is unusable: the controller then does not start.
pub fn startup_config(file: ConfigFile) -> (config: Option<Config>)
    ensures
        match file {
            ConfigFile::Loaded(loaded) => config == Some(loaded),
            ConfigFile::Missing => config matches Some(built_in) && built_in.is_built_in(),
            ConfigFile::Unusable => config is None,
        },
{
    match file {
        ConfigFile::Loaded(loaded) => Some(loaded),
        ConfigFile::Missing => Some(Config::default()),
        ConfigFile::Unusable => None,
    }
}

/// MQTT is off in the built-in configuration, which names no broker.
pub proof fn law_built_in_config_has_no_mqtt(config: Config)
    requires
        config.is_built_in(),
    ensures
        trimmed(config.mqtt.host@).len() == 0,
{
}

/// A value that is raised to a least one is at least both, and is one of the two.
pub proof fn law_raised(value: u64, least: u64)
    ensures
        at_least(value, least) >= value,
        at_least(value, least) >= least,
        at_least(value, least) == value || at_least(value, least) == least,
{
}

/// The built-in configuration, setting by setting.
pub proof fn law_built_in_settings(config: Config)
    requires
        config.is_built_in(),
    ensures
        config.serial.device@ == "/dev/serial0"@,
        config.serial.baud == 9600,
        config.mqtt.host@.len() == 0,
        config.mqtt.port == 1883,
        config.mqtt.client_id@ == "rs_pool"@,
        config.mqtt.command_topic@ == "pool/command"@,
        config.mqtt.status_topic@ == "pool/status"@,
        config.mqtt.connected_topic@ == "pool/connected"@,
        config.timing.heartbeat_secs == 5,
        config.timing.status_interval_secs == 4,
        config.persist.path@ == "/var/lib/rs_pool/state.json"@,
        config.temp.enabled,
        config.temp.i2c_device@ == "/dev/i2c-1"@,
        config.temp.i2c_address == 0x48,
        config.temp.channel == 0,
        config.temp.poll_interval_secs == 4,
        config.temp.sample_count == 5,
        config.temp.sample_delay_ms == 10,
        config.temp.settle_secs == 90,
        config.temp.divert_relay == 7,
        config.temp.raw_min == 80,
        config.temp.raw_max == 32600,
        config.modbus.enabled,
        config.modbus.relay_addr == 0x01,
        config.modbus.pump_addr == 0x15,
        config.modbus.relay_poll_secs == 30,
        config.modbus.pump_poll_secs == 8,
        config.modbus.response_timeout_ms == 1000,
        config.modbus.inter_frame_ms == 50,
        config.modbus.spd_max == 35,
        config.http.enabled,
        config.http.http_bind@ == "0.0.0.0:80"@,
        config.http.https_bind@ == "0.0.0.0:443"@,
        config.http.cert_path@ == "/etc/rs_pool/tls/cert.pem"@,
        config.http.key_path@ == "/etc/rs_pool/tls/key.pem"@,
        config.http.auth_path@ == "/etc/rs_pool/http_auth"@,
        config.http.log_buffer_lines == 500,
{
}

/// The water temperature settings and the dashboard settings that hold where none are set are those
/// of the built-in configuration.
pub proof fn law_default_parts(config: Config, temp: TempConfig, http: HttpConfig)
    requires
        config.is_built_in(),
        temp.is_default(),
        http.is_default(),
    ensures
        temp.enabled == config.temp.enabled,
        temp.i2c_device@ == config.temp.i2c_device@,
        temp.i2c_address == config.temp.i2c_address,
        temp.channel == config.temp.channel,
        temp.poll_interval_secs == config.temp.poll_interval_secs,
        temp.sample_count == config.temp.sample_count,
        temp.sample_delay_ms == config.temp.sample_delay_ms,
        temp.settle_secs == config.temp.settle_secs,
        temp.divert_relay == config.temp.divert_relay,
        temp.raw_min == config.temp.raw_min,
        temp.raw_max == config.temp.raw_max,
        http.enabled == config.http.enabled,
        http.http_bind@ == config.http.http_bind@,
        http.https_bind@ == config.http.https_bind@,
        http.cert_path@ == config.http.cert_path@,
        http.key_path@ == config.http.key_path@,
        http.auth_path@ == config.http.auth_path@,
        http.log_buffer_lines == config.http.log_buffer_lines,
{
}

} // verus!
