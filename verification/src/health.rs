//! Health of the subsystems, for the status dashboard.
use vstd::prelude::*;

use crate::json::{
    int_entry, integer_number, json_entry, new_object, no_entries, object_value, put_bool, put_uint,
    JsonEntry,
};

verus! {

/// A point in time of the standard library's monotonic clock.
#[verifier::external_type_specification]
#[verifier::external_body]
pub struct ExInstant(std::time::Instant);

/// `std::time::Instant::now`: the present time. Which time that is depends on the clock, so nothing
/// is said of it here; see [`clock_reading`].
#[verifier::external_body]
fn clock_now() -> (now: std::time::Instant)
{
    std::time::Instant::now()
}

/// `std::time::Instant::elapsed` in whole seconds. How many have passed depends on the clock, so
/// nothing is said of them here; see [`measured_seconds`].
#[verifier::external_body]
fn seconds_since(start: &std::time::Instant) -> (secs: u64)
{
    start.elapsed().as_secs()
}

/// Whether `at` is a time that the clock has shown.
pub closed spec fn clock_reading(at: std::time::Instant) -> bool {
    call_ensures(clock_now, (), at)
}

/// Whether `secs` is the whole seconds that the clock has shown to have passed since `start`.
pub closed spec fn measured_seconds(start: std::time::Instant, secs: u64) -> bool {
    call_ensures(seconds_since, (&start,), secs)
}

/// Which subsystems are on, and which of them work.
#[derive(Debug, Clone, Copy)]
pub struct HealthState {
    pub mqtt_enabled: bool,
    pub mqtt_connected: bool,
    pub temp_enabled: bool,
    pub temp_ok: bool,
    pub modbus_enabled: bool,
    pub modbus_ok: bool,
    pub started_at: std::time::Instant,
}

impl HealthState {
    /// The members of the health object, with this uptime.
    pub open spec fn health_entries(self, uptime_secs: u64) -> Map<Seq<char>, JsonEntry> {
        no_entries().insert("mqtt_enabled"@, JsonEntry::Bool(self.mqtt_enabled)).insert(
            "mqtt_connected"@,
            JsonEntry::Bool(self.mqtt_connected),
        ).insert("temp_enabled"@, JsonEntry::Bool(self.temp_enabled)).insert(
            "temp_ok"@,
            JsonEntry::Bool(self.temp_ok),
        ).insert("modbus_enabled"@, JsonEntry::Bool(self.modbus_enabled)).insert(
            "modbus_ok"@,
            JsonEntry::Bool(self.modbus_ok),
        ).insert("uptime_secs"@, int_entry(uptime_secs as int))
    }

    /// Health at the start, which is now: nothing works yet.
    #[must_use]
    pub fn new(mqtt_enabled: bool, temp_enabled: bool, modbus_enabled: bool) -> (health: Self)
        ensures
            health == (HealthState {
                mqtt_enabled,
                mqtt_connected: false,
                temp_enabled,
                temp_ok: false,
                modbus_enabled,
                modbus_ok: false,
                started_at: health.started_at,
            }),
            clock_reading(health.started_at),
    {
        HealthState {
            mqtt_enabled,
            mqtt_connected: false,
            temp_enabled,
            temp_ok: false,
            modbus_enabled,
            modbus_ok: false,
            started_at: clock_now(),
        }
    }

    /// The health object with a given uptime.
    #[must_use]
    pub fn to_json_at(&self, uptime_secs: u64) -> (health: serde_json::Value)
        ensures
            json_entry(health) == JsonEntry::Object(self.health_entries(uptime_secs)),
    {
        let mut map = new_object();
        put_bool(&mut map, "mqtt_enabled", self.mqtt_enabled);
        put_bool(&mut map, "mqtt_connected", self.mqtt_connected);
        put_bool(&mut map, "temp_enabled", self.temp_enabled);
        put_bool(&mut map, "temp_ok", self.temp_ok);
        put_bool(&mut map, "modbus_enabled", self.modbus_enabled);
        put_bool(&mut map, "modbus_ok", self.modbus_ok);
        put_uint(&mut map, "uptime_secs", uptime_secs);
        object_value(map)
    }

    /// The health object, with the seconds since the start as its uptime.
    #[must_use]
    pub fn to_json(&self) -> (health: serde_json::Value)
        ensures
            exists|uptime_secs: u64| #[trigger]
                measured_seconds(self.started_at, uptime_secs) && json_entry(health)
                    == JsonEntry::Object(self.health_entries(uptime_secs)),
    {
        let uptime_secs: u64 = seconds_since(&self.started_at);
        proof {
            lemma_clock_claims(self.started_at, uptime_secs);
        }
        self.to_json_at(uptime_secs)
    }
}

proof fn lemma_health_keys()
    ensures
        "mqtt_enabled"@.len() == 12 && "mqtt_enabled"@[0] == 'm',
        "mqtt_connected"@.len() == 14 && "mqtt_connected"@[1] == 'q',
        "temp_enabled"@.len() == 12 && "temp_enabled"@[0] == 't',
        "temp_ok"@.len() == 7,
        "modbus_enabled"@.len() == 14 && "modbus_enabled"@[1] == 'o',
        "modbus_ok"@.len() == 9,
        "uptime_secs"@.len() == 11,
{
    reveal_strlit("mqtt_enabled");
    reveal_strlit("mqtt_connected");
    reveal_strlit("temp_enabled");
    reveal_strlit("temp_ok");
    reveal_strlit("modbus_enabled");
    reveal_strlit("modbus_ok");
    reveal_strlit("uptime_secs");
}

/// The health object tells of each subsystem whether it is on and whether it works, each under its
/// own key, and the uptime as a number. There are no other members.
pub proof fn law_health_members(health: HealthState, uptime_secs: u64, key: Seq<char>)
    ensures
        ({
            let shown = health.health_entries(uptime_secs);
            &&& shown.contains_pair("mqtt_enabled"@, JsonEntry::Bool(health.mqtt_enabled))
            &&& shown.contains_pair("mqtt_connected"@, JsonEntry::Bool(health.mqtt_connected))
            &&& shown.contains_pair("temp_enabled"@, JsonEntry::Bool(health.temp_enabled))
            &&& shown.contains_pair("temp_ok"@, JsonEntry::Bool(health.temp_ok))
            &&& shown.contains_pair("modbus_enabled"@, JsonEntry::Bool(health.modbus_enabled))
            &&& shown.contains_pair("modbus_ok"@, JsonEntry::Bool(health.modbus_ok))
            &&& shown.contains_pair(
                "uptime_secs"@,
                JsonEntry::Number(integer_number(uptime_secs as int)),
            )
            &&& shown.contains_key(key) ==> key == "mqtt_enabled"@ || key == "mqtt_connected"@ || key
                == "temp_enabled"@ || key == "temp_ok"@ || key == "modbus_enabled"@ || key
                == "modbus_ok"@ || key == "uptime_secs"@
        }),
{
    lemma_health_keys();
}

/// A reading of the clock is what the clock gave, and so are the seconds that it measured.
proof fn lemma_clock_claims(at: std::time::Instant, secs: u64)
    ensures
        clock_reading(at) <==> call_ensures(clock_now, (), at),
        measured_seconds(at, secs) <==> call_ensures(seconds_since, (&at,), secs),
{
}

} // verus!
