use rs_pool::config::{startup_config, Config, ConfigFile, TimingConfig};
use rs_pool::health::HealthState;
use rs_pool::log_buffer::{clock_text, logs_json, FieldVisitor, LogBuffer};
use rs_pool::persist::{document, load_into, PersistedState, StateFile};
use rs_pool::state::{
    encode_spd, migrate_spd, pack_relays, Command, CommandedState, PoolState,
};
use rs_pool::supervisor::{must_stop, SupervisorEvent, TaskEnd, TaskPlan};
use rs_pool::text::{
    decimal, parse_i32, signed_decimal, split_once, strip_prefix, trim_text, two_digits,
};
use rs_pool::warn::{WarnLimit, WARN_INTERVAL_NS};

#[test]
fn persistence_roundtrip() {
    let mut state = PoolState::default();
    state.commanded.mode = 1;
    state.commanded.set_speed = encode_spd(25, 35);
    state.commanded.set_pool_temp = 72;
    state.commanded.set_spa_temp = 100;
    state.commanded.relays = pack_relays([true, false, true, false, false, false, false, false]);
    state.measured.rpm = 9999;
    state.measured.ip = "should-not-persist".into();

    let saved = document(&state);
    assert_eq!(saved, PersistedState::from(&state.commanded));
    assert_eq!(CommandedState::from(saved), state.commanded);

    let mut loaded = PoolState::default();
    assert!(!load_into(&mut loaded, StateFile::Loaded(saved)));
    assert_eq!(loaded.commanded, state.commanded);
    assert_eq!(loaded.measured.rpm, 0);
    assert!(loaded.measured.ip.is_empty());
}

#[test]
fn load_missing_keeps_defaults() {
    for file in [StateFile::Missing, StateFile::Corrupt, StateFile::Unreadable] {
        let mut state = PoolState::default();
        assert!(!load_into(&mut state, file));
        assert_eq!(state.commanded, CommandedState::default());
    }
}

#[test]
fn load_migrates_legacy_spd_and_rewrites() {
    let legacy = PersistedState {
        mode: 0,
        set_speed: 32_750,
        set_spa_temp: 104,
        set_pool_temp: 70,
        relays: 0,
    };
    let mut state = PoolState::default();
    assert!(load_into(&mut state, StateFile::Loaded(legacy)));
    assert_eq!(state.commanded.set_speed, migrate_spd(32_750));
    assert_eq!(state.commanded.set_speed, 35);

    let reloaded = document(&state);
    assert_eq!(reloaded.set_speed, 35);
    assert!(!load_into(&mut state, StateFile::Loaded(reloaded)));
}

#[test]
fn log_ring_keeps_the_newest() {
    let mut buffer = LogBuffer::new(3);
    for i in 0..5 {
        buffer.push(format!("line {i}"));
    }
    assert_eq!(buffer.snapshot(None), ["line 2", "line 3", "line 4"]);
    assert_eq!(buffer.snapshot(Some(2)), ["line 3", "line 4"]);
    assert_eq!(buffer.snapshot(Some(9)), ["line 2", "line 3", "line 4"]);
    assert!(buffer.snapshot(Some(0)).is_empty());
    buffer.set_capacity(2);
    assert_eq!(buffer.snapshot(None), ["line 3", "line 4"]);
    buffer.set_capacity(4);
    buffer.push("line 5".to_string());
    assert_eq!(buffer.snapshot(None), ["line 3", "line 4", "line 5"]);
    buffer.set_capacity(0);
    assert_eq!(buffer.snapshot(None), ["line 5"]);
}

#[test]
fn log_ring_has_room_for_one() {
    let mut buffer = LogBuffer::new(0);
    buffer.push("a".to_string());
    buffer.push("b".to_string());
    assert_eq!(buffer.snapshot(None), ["b"]);
}

#[test]
fn log_object() {
    let logs = logs_json(vec!["a".to_string(), "b".to_string()]);
    assert_eq!(logs.to_string(), r#"{"lines":["a","b"]}"#);
    assert_eq!(logs_json(Vec::new()).to_string(), r#"{"lines":[]}"#);
}

#[test]
fn log_lines() {
    let mut event = FieldVisitor::new();
    assert_eq!(event.line("01:02:03", "INFO", "rs_pool"), "01:02:03 INFO rs_pool");
    event.record_str("device", "/dev/serial0");
    assert_eq!(
        event.line("01:02:03", "INFO", "rs_pool"),
        "01:02:03 INFO rs_pool device=/dev/serial0"
    );
    event.record_debug("baud", "9600");
    event.record_str("message", "open");
    assert_eq!(
        event.line("01:02:03", "WARN", "rs_pool"),
        "01:02:03 WARN rs_pool: open device=/dev/serial0 baud=9600"
    );
}

#[test]
fn log_messages_are_unquoted() {
    let message = |debug: &str| {
        let mut event = FieldVisitor::new();
        event.record_debug("message", debug);
        event.message
    };
    assert_eq!(message("plain"), "plain");
    assert_eq!(message(r#""quoted""#), "quoted");
    assert_eq!(message(r#""say \"hi\"\nnow""#), "say \"hi\"\nnow");
    assert_eq!(message(r#"""#), "\"");
    assert_eq!(message(r#""""#), "");
    assert_eq!(message(r#""open"#), "\"open");
    assert_eq!(message(r#""a\\nb""#), "a\\\nb");
}

#[test]
fn clock_texts() {
    assert_eq!(clock_text(Some(0)), "00:00:00");
    assert_eq!(clock_text(Some(86_399)), "23:59:59");
    assert_eq!(clock_text(Some(86_400 + 3_661)), "01:01:01");
    assert_eq!(clock_text(None), "unknown");
}

#[test]
fn health_object() {
    let mut health = HealthState::new(true, false, true);
    health.modbus_ok = true;
    let v = health.to_json_at(42);
    assert_eq!(
        v.to_string(),
        r#"{"modbus_enabled":true,"modbus_ok":true,"mqtt_connected":false,"mqtt_enabled":true,"temp_enabled":false,"temp_ok":false,"uptime_secs":42}"#
    );
    let now = health.to_json();
    assert_eq!(now.as_object().unwrap().len(), 7);
    assert!(now["uptime_secs"].as_u64().unwrap() < 20);
    assert_eq!(now["modbus_ok"], true);
}

#[test]
fn built_in_configuration() {
    let cfg = Config::default();
    assert!(cfg.temp.enabled);
    assert_eq!(cfg.temp.i2c_address, 0x48);
    assert_eq!(cfg.temp.divert_relay, 7);
    assert_eq!(cfg.temp.settle_secs, 90);
    assert!(cfg.modbus.enabled);
    assert_eq!(cfg.modbus.relay_addr, 0x01);
    assert_eq!(cfg.modbus.pump_addr, 0x15);
    assert_eq!(cfg.modbus.relay_poll_secs, 30);
    assert_eq!(cfg.modbus.pump_poll_secs, 8);
    assert_eq!(cfg.modbus.spd_max, 35);
    assert!(cfg.http.enabled);
    assert_eq!(cfg.http.http_bind, "0.0.0.0:80");
    assert_eq!(cfg.http.https_bind, "0.0.0.0:443");
    assert_eq!(cfg.http.log_buffer_lines, 500);
    assert!(!cfg.mqtt_enabled());
}

#[test]
fn mqtt_needs_a_host() {
    let mut cfg = Config::default();
    cfg.mqtt.host = " \t\u{3000}\n".to_string();
    assert!(!cfg.mqtt_enabled());
    cfg.mqtt.host = " broker ".to_string();
    assert!(cfg.mqtt_enabled());
}

#[test]
fn startup_configurations() {
    let mut cfg = Config::default();
    cfg.serial.baud = 19_200;
    let loaded = startup_config(ConfigFile::Loaded(cfg)).unwrap();
    assert_eq!(loaded.serial.baud, 19_200);
    let built_in = startup_config(ConfigFile::Missing).unwrap();
    assert_eq!(built_in.serial.baud, 9600);
    assert!(startup_config(ConfigFile::Unusable).is_none());
}

#[test]
fn periods_are_at_least_a_second() {
    let timing = TimingConfig { heartbeat_secs: 0, status_interval_secs: 0 };
    assert_eq!(timing.heartbeat_period_secs(), 1);
    assert_eq!(timing.status_period_secs(), 1);
    let cfg = Config::default();
    assert_eq!(cfg.timing.heartbeat_period_secs(), 5);
    assert_eq!(cfg.timing.status_period_secs(), 4);
    assert_eq!(cfg.temp.poll_period_secs(), 4);
}

#[test]
fn task_plan() {
    let mut cfg = Config::default();
    assert_eq!(
        TaskPlan::of(&cfg),
        TaskPlan { mqtt: false, temp: true, modbus: true, http: true }
    );
    cfg.mqtt.host = "broker".to_string();
    cfg.temp.enabled = false;
    cfg.modbus.enabled = false;
    cfg.http.enabled = false;
    let plan = TaskPlan::of(&cfg);
    assert_eq!(plan, TaskPlan { mqtt: true, temp: false, modbus: false, http: false });
    let health = plan.initial_health();
    assert!(health.mqtt_enabled && !health.temp_enabled && !health.modbus_enabled);
    assert!(!health.mqtt_connected && !health.temp_ok && !health.modbus_ok);
}

#[test]
fn supervisor_stops() {
    assert!(!must_stop(SupervisorEvent::ShutdownFlag(Some(false))));
    assert!(must_stop(SupervisorEvent::ShutdownFlag(Some(true))));
    assert!(must_stop(SupervisorEvent::ShutdownFlag(None)));
    assert!(!must_stop(SupervisorEvent::Commanded(Some(Command::Ping))));
    assert!(must_stop(SupervisorEvent::Commanded(Some(Command::Shutdown))));
    assert!(must_stop(SupervisorEvent::Commanded(None)));
    assert!(!must_stop(SupervisorEvent::TaskEnded(TaskEnd::Finished)));
    assert!(!must_stop(SupervisorEvent::TaskEnded(TaskEnd::Cancelled)));
    assert!(must_stop(SupervisorEvent::TaskEnded(TaskEnd::Failed)));
}

#[test]
fn warnings_are_spaced() {
    let mut limit = WarnLimit::new();
    assert!(limit.pass(5));
    assert!(!limit.pass(6));
    assert!(!limit.pass(4 + WARN_INTERVAL_NS));
    assert!(limit.pass(5 + WARN_INTERVAL_NS));
    assert!(!limit.pass(6 + WARN_INTERVAL_NS));
}

#[test]
fn text_helpers() {
    assert_eq!(decimal(0), "0");
    assert_eq!(decimal(u64::MAX), u64::MAX.to_string());
    assert_eq!(signed_decimal(i32::MIN), i32::MIN.to_string());
    assert_eq!(two_digits(7), "07");
    assert_eq!(two_digits(123), "123");
    for s in ["", "+", "-", "0", "-0", "+7", "2147483647", "2147483648", "-2147483648",
        "-2147483649", "00000000000000000012", "99999999999999999999", "1x", " 1"] {
        assert_eq!(parse_i32(s), s.parse::<i32>().ok());
    }
    for s in ["", "  ", "a", " a b ", "\u{2003}x\u{85}", "\u{200B}x"] {
        assert_eq!(trim_text(s), s.trim());
    }
    assert_eq!(strip_prefix("Basic x", "Basic "), Some("x".to_string()));
    assert_eq!(strip_prefix("Bas", "Basic "), None);
    assert_eq!(split_once("a:b:c", ':'), Some(("a".to_string(), "b:c".to_string())));
    assert_eq!(split_once("abc", ':'), None);
}

#[test]
fn uptime_counts_from_the_start() {
    let mut health = HealthState::new(false, false, false);
    health.started_at -= std::time::Duration::from_secs(2);
    let uptime = health.to_json()["uptime_secs"].as_u64().unwrap();
    assert!((2..22).contains(&uptime));
}
