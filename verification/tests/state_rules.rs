use rs_pool::double::clamped_whole;
use rs_pool::state::{
    decode_spd, encode_spd, migrate_spd, pack_relays, relay_name, unpack_relays, wakes_publisher,
    ActiveLoop, CommandedState, PoolState, PublishHint, DEFAULT_SPD_MAX, STATUS_VERSION,
};
use serde_json::{Number, Value};

fn json(text: &str) -> Value {
    serde_json::from_str(text).unwrap()
}

fn number(value: f64) -> Number {
    Number::from_f64(value).unwrap()
}

fn record(state: &mut PoolState, loop_: ActiveLoop, temp_f: f64, delta: f64) -> PublishHint {
    let moved = match state.active_water_temp(loop_) {
        Some(previous) => (previous.as_f64().unwrap() - temp_f).abs() >= delta,
        None => true,
    };
    state.set_water_temp_f(loop_, number(temp_f), moved)
}

#[test]
fn spd_encode_boundaries() {
    assert_eq!(encode_spd(0, DEFAULT_SPD_MAX), 0);
    assert_eq!(encode_spd(1, DEFAULT_SPD_MAX), 1);
    assert_eq!(encode_spd(10, DEFAULT_SPD_MAX), 10);
    assert_eq!(encode_spd(35, DEFAULT_SPD_MAX), 35);
    assert_eq!(encode_spd(36, DEFAULT_SPD_MAX), 35);
    assert_eq!(encode_spd(100, DEFAULT_SPD_MAX), 35);
    assert_eq!(encode_spd(-1, DEFAULT_SPD_MAX), 0);
    assert_eq!(encode_spd(20, 10), 10);
}

#[test]
fn spd_encode_extremes() {
    assert_eq!(encode_spd(i32::MAX, u16::MAX), u16::MAX);
    assert_eq!(encode_spd(70_000, 0), 35);
    assert_eq!(encode_spd(i32::MIN, 0), 0);
    assert_eq!(decode_spd(100, 0), 35);
    assert_eq!(decode_spd(100, 200), 100);
}

#[test]
fn spd_decode_roundtrip() {
    for spd in [0, 1, 10, 35] {
        assert_eq!(
            decode_spd(encode_spd(spd, DEFAULT_SPD_MAX), DEFAULT_SPD_MAX),
            spd
        );
    }
}

#[test]
fn migrate_spd_divides_legacy_words() {
    assert_eq!(migrate_spd(0), 0);
    assert_eq!(migrate_spd(10), 10);
    assert_eq!(migrate_spd(35), 35);
    assert_eq!(migrate_spd(36), 0);
    assert_eq!(migrate_spd(655), 1);
    assert_eq!(migrate_spd(6_550), 10);
    assert_eq!(migrate_spd(32_750), 35);
    assert_eq!(migrate_spd(0xFFFF), 35);
}

#[test]
fn migration_settles() {
    for word in 0..=u16::MAX {
        let migrated = migrate_spd(word);
        assert!(migrated <= 35);
        assert_eq!(migrate_spd(migrated), migrated);
    }
}

#[test]
fn relay_pack_unpack() {
    let bits = [true, false, true, false, false, true, false, true];
    let packed = pack_relays(bits);
    assert_eq!(packed, 0b1010_0101);
    assert_eq!(unpack_relays(packed), bits);
}

#[test]
fn every_relay_byte_survives_unpacking() {
    for byte in 0..=255_u8 {
        assert_eq!(pack_relays(unpack_relays(byte)), byte);
    }
}

#[test]
fn relay_names() {
    for channel in 0..8 {
        assert_eq!(relay_name(channel), format!("r{}", channel + 1));
    }
}

#[test]
fn partial_command_only_present_keys() {
    let mut state = PoolState::default();
    assert_eq!(state.commanded.set_pool_temp, 70);
    assert_eq!(state.commanded.set_spa_temp, 104);
    assert_eq!(state.commanded.mode, 0);

    let changed = state
        .apply_command_json(&json(r#"{"spt": 72, "r1": 1}"#), DEFAULT_SPD_MAX)
        .unwrap();
    assert!(changed);
    assert_eq!(state.commanded.set_pool_temp, 72);
    assert_eq!(state.commanded.set_spa_temp, 104);
    assert_eq!(state.commanded.mode, 0);
    assert!(unpack_relays(state.commanded.relays)[0]);
    assert!(!unpack_relays(state.commanded.relays)[1]);
    assert!(state.update_relays);
    assert!(!state.update_pump);
}

#[test]
fn partial_command_spd_sets_update_pump() {
    let mut state = PoolState::default();
    let changed = state
        .apply_command_json(&json(r#"{"spd": 10, "m": 1}"#), DEFAULT_SPD_MAX)
        .unwrap();
    assert!(changed);
    assert_eq!(state.commanded.set_speed, encode_spd(10, DEFAULT_SPD_MAX));
    assert_eq!(state.commanded.mode, 1);
    assert!(state.update_pump);
}

#[test]
fn mid_object_failure_leaves_state_unchanged() {
    let mut state = PoolState::default();
    state.commanded.mode = 0;
    state.commanded.set_pool_temp = 70;
    let err = state
        .apply_command_json(&json(r#"{"m": 1, "r1": "nope"}"#), DEFAULT_SPD_MAX)
        .unwrap_err();
    assert!(err.contains("r1"), "unexpected error: {err}");
    assert_eq!(
        state.commanded.mode, 0,
        "mode must not commit on mid-object failure"
    );
    assert_eq!(state.commanded.set_pool_temp, 70);
    assert!(!state.update_relays);
    assert!(!state.update_pump);
}

#[test]
fn spd_noop_does_not_set_dirty() {
    let mut state = PoolState::default();
    state.commanded.set_speed = encode_spd(10, DEFAULT_SPD_MAX);
    let changed = state
        .apply_command_json(&json(r#"{"spd": 10}"#), DEFAULT_SPD_MAX)
        .unwrap();
    assert!(!changed);
    assert!(
        !state.update_pump,
        "identical spd must not dirty; continuous poll refreshes demand"
    );
    assert_eq!(state.commanded.set_speed, encode_spd(10, DEFAULT_SPD_MAX));
}

#[test]
fn relay_key_sets_dirty_even_if_unchanged() {
    let mut state = PoolState::default();
    state.commanded.relays = pack_relays([true, false, false, false, false, false, false, false]);
    let changed = state
        .apply_command_json(&json(r#"{"r1": 1}"#), DEFAULT_SPD_MAX)
        .unwrap();
    assert!(!changed);
    assert!(state.update_relays);
    assert!(unpack_relays(state.commanded.relays)[0]);
}

#[test]
fn apply_command_never_clears_dirty_flags() {
    let mut state = PoolState {
        update_pump: true,
        update_relays: true,
        ..Default::default()
    };
    let changed = state
        .apply_command_json(&json(r#"{"spt": 71}"#), DEFAULT_SPD_MAX)
        .unwrap();
    assert!(changed);
    assert!(
        state.update_pump,
        "relay/temp-only command must not clear update_pump"
    );
    assert!(
        state.update_relays,
        "temp-only command must not clear update_relays"
    );
}

#[test]
fn apply_command_noop_when_unchanged() {
    let mut state = PoolState::default();
    let changed = state
        .apply_command_json(&json(r#"{"spt": 70}"#), DEFAULT_SPD_MAX)
        .unwrap();
    assert!(!changed);
}

#[test]
fn command_is_idempotent() {
    let command = json(r#"{"m": 1, "spd": 99, "sst": 101, "spt": 71, "r2": true, "r7": "1"}"#);
    let mut state = PoolState::default();
    assert!(state.apply_command_json(&command, 35).unwrap());
    let after = state.commanded;
    assert_eq!(after.set_speed, 35);
    assert!(!state.apply_command_json(&command, 35).unwrap());
    assert_eq!(state.commanded, after);
}

#[test]
fn empty_command_changes_nothing() {
    let mut state = PoolState::default();
    assert!(!state.apply_command_json(&json("{}"), 35).unwrap());
    assert!(!state.apply_command_json(&json(r#"{"v": 3, "x": []}"#), 35).unwrap());
    assert_eq!(state.commanded, CommandedState::default());
    assert!(!state.update_pump && !state.update_relays);
}

#[test]
fn command_values_of_every_kind() {
    let mut state = PoolState::default();
    let command = json(r#"{"m": true, "spd": "12", "sst": 99.9, "spt": -5000000000}"#);
    assert!(state.apply_command_json(&command, 35).unwrap());
    assert_eq!(state.commanded.mode, 1);
    assert_eq!(state.commanded.set_speed, 12);
    assert_eq!(state.commanded.set_spa_temp, 99);
    assert_eq!(state.commanded.set_pool_temp, i32::MIN);
    let command = json(r#"{"m": "+3", "sst": -1.9, "spt": 1e300, "spd": -7}"#);
    assert!(state.apply_command_json(&command, 35).unwrap());
    assert_eq!(state.commanded.mode, 3);
    assert_eq!(state.commanded.set_spa_temp, -1);
    assert_eq!(state.commanded.set_pool_temp, i32::MAX);
    assert_eq!(state.commanded.set_speed, 0);
    let command = json(
        r#"{"r1": "true", "r2": "True", "r3": "TRUE", "r4": 0.5, "r5": 2.5, "r6": -1, "r7": false, "r8": "0"}"#,
    );
    assert!(state.apply_command_json(&command, 35).unwrap());
    assert_eq!(
        unpack_relays(state.commanded.relays),
        [true, true, true, false, true, true, false, false]
    );
    let command = json(r#"{"r1": "false", "r2": "False", "r3": "FALSE", "r8": "1"}"#);
    assert!(state.apply_command_json(&command, 35).unwrap());
    assert_eq!(
        unpack_relays(state.commanded.relays),
        [false, false, false, false, true, true, false, true]
    );
}

#[test]
fn command_refusals() {
    let refusal = |text: &str| {
        let mut state = PoolState::default();
        let err = state.apply_command_json(&json(text), 35).unwrap_err();
        assert_eq!(state.commanded, CommandedState::default());
        err
    };
    assert_eq!(refusal("[1,2]"), "command payload must be a JSON object");
    assert_eq!(refusal("3"), "command payload must be a JSON object");
    assert_eq!(refusal(r#"{"m": null}"#), "m must be an integer");
    assert_eq!(refusal(r#"{"m": " 1"}"#), "m must be an integer");
    assert_eq!(refusal(r#"{"spd": "fast"}"#), "spd must be an integer");
    assert_eq!(refusal(r#"{"sst": []}"#), "sst must be an integer");
    assert_eq!(refusal(r#"{"spt": "2147483648"}"#), "spt must be an integer");
    assert_eq!(refusal(r#"{"spt": {}}"#), "spt must be an integer");
    assert_eq!(refusal(r#"{"r8": "yes"}"#), "r8 must be 0/1");
    assert_eq!(refusal(r#"{"r3": null}"#), "r3 must be 0/1");
    assert_eq!(
        refusal(r#"{"r3": null, "r2": {}, "spt": "x", "m": "y"}"#),
        "m must be an integer"
    );
}

#[test]
fn publish_hint_rpm_is_silent() {
    let mut state = PoolState::default();
    let hint = state.set_rpm(2400, PublishHint::Immediate);
    assert_eq!(hint, PublishHint::Silent);
    assert_eq!(state.measured.rpm, 2400);

    let hint = state.set_watt(900, PublishHint::Immediate);
    assert_eq!(hint, PublishHint::Immediate);
}

#[test]
fn only_immediate_hints_wake_the_publisher() {
    assert!(wakes_publisher(PublishHint::Immediate));
    assert!(!wakes_publisher(PublishHint::Silent));
}

#[test]
fn status_json_shape_and_keys() {
    let mut state = PoolState::default();
    state.commanded.set_speed = encode_spd(25, DEFAULT_SPD_MAX);
    state.commanded.relays = pack_relays([true, false, false, false, false, false, false, false]);
    state.measured.ip = "192.168.1.10".into();
    state.measured.rpm = 1234;

    let status = state.to_status_json();
    let obj = status.as_object().unwrap();
    for key in [
        "ip", "rpm", "spd", "watt", "m", "st", "pt", "sst", "spt", "v", "at", "r1", "r2", "r3",
        "r4", "r5", "r6", "r7", "r8",
    ] {
        assert!(obj.contains_key(key), "missing key {key}");
    }
    assert_eq!(obj.len(), 19);
    assert_eq!(obj["spd"], Value::from(25));
    assert!(obj["r1"].is_null(), "r1 null before first Modbus read");
    assert!(obj["r2"].is_null());
    assert_eq!(obj["v"], Value::from(STATUS_VERSION));
    assert_eq!(obj["ip"], Value::from("192.168.1.10"));
    assert_eq!(obj["rpm"], Value::from(1234));
    assert_eq!(obj["spt"], Value::from(70));
    assert_eq!(obj["sst"], Value::from(104));
    assert!(obj["st"].is_null(), "default spa_temp must be JSON null");
    assert!(obj["pt"].is_null(), "default pool_temp must be JSON null");
}

#[test]
fn status_json_relays_from_measured_only() {
    let mut state = PoolState::default();
    state.commanded.relays = pack_relays([true, false, false, false, false, false, false, false]);
    let status = state.to_status_json();
    assert!(status["r1"].is_null());
    state.measured.relay_status = Some(pack_relays([
        false, true, false, false, false, false, true, false,
    ]));
    let status = state.to_status_json();
    assert_eq!(status["r1"], Value::from(0), "must not echo commanded r1");
    assert_eq!(status["r2"], Value::from(1));
    assert_eq!(status["r7"], Value::from(1));
    assert_eq!(status["r8"], Value::from(0));
    state.commanded.relays = 0xFF;
    assert_eq!(state.to_status_json(), status);
}

#[test]
fn status_payload_text() {
    let mut state = PoolState::default();
    state.measured.air_temp = 81;
    state.measured.watt = 950;
    state.measured.spa_temp = Some(number(101.5));
    state.measured.relay_status = Some(0b1000_0001);
    assert_eq!(
        state.status_payload().unwrap(),
        r#"{"at":81.0,"ip":"","m":0,"pt":null,"r1":1,"r2":0,"r3":0,"r4":0,"r5":0,"r6":0,"r7":0,"r8":1,"rpm":0,"spd":0,"spt":70,"sst":104,"st":101.5,"v":1,"watt":950}"#
    );
}

#[test]
fn active_loop_follows_measured_r7_when_present() {
    let mut state = PoolState::default();
    state.commanded.mode = 1;
    assert_eq!(state.active_loop(7), ActiveLoop::Pool);
    state.commanded.relays = pack_relays([false, false, false, false, false, false, true, false]);
    assert_eq!(state.active_loop(7), ActiveLoop::Spa);
    state.measured.relay_status = Some(0);
    assert_eq!(state.active_loop(7), ActiveLoop::Pool);
    state.measured.relay_status = Some(pack_relays([
        false, false, false, false, false, false, true, false,
    ]));
    assert_eq!(state.active_loop(7), ActiveLoop::Spa);
}

#[test]
fn divert_relay_numbers_are_clamped() {
    assert_eq!(ActiveLoop::from_relays(0b0000_0001, 0), ActiveLoop::Spa);
    assert_eq!(ActiveLoop::from_relays(0b0000_0001, 1), ActiveLoop::Spa);
    assert_eq!(ActiveLoop::from_relays(0b1000_0000, 8), ActiveLoop::Spa);
    assert_eq!(ActiveLoop::from_relays(0b1000_0000, 200), ActiveLoop::Spa);
    assert_eq!(ActiveLoop::from_relays(0b0111_1111, 200), ActiveLoop::Pool);
    assert_eq!(ActiveLoop::from_mode(0), ActiveLoop::Pool);
    assert_eq!(ActiveLoop::from_mode(-1), ActiveLoop::Spa);
}

#[test]
fn r7_switch_clears_active_retains_inactive() {
    let mut state = PoolState::default();
    state.measured.pool_temp = Some(number(78.0));
    state.measured.spa_temp = Some(number(102.0));

    let hint = state.on_active_loop_changed(ActiveLoop::Spa);
    assert_eq!(hint, PublishHint::Immediate);
    assert!(state.water_temp_settling);
    assert!(state.measured.spa_temp.is_none());
    assert_eq!(state.measured.spa_temp, None);
    assert_eq!(state.measured.pool_temp, Some(number(78.0)));

    let status = state.to_status_json();
    assert!(status["st"].is_null());
    assert_eq!(status["pt"], Value::from(78.0));
    assert!(!state.water_temp_ok(ActiveLoop::Spa));
    assert!(!state.water_temp_ok(ActiveLoop::Pool));
}

#[test]
fn settle_blocks_writes_then_allows() {
    let mut state = PoolState::default();
    state.on_active_loop_changed(ActiveLoop::Pool);
    let hint = record(&mut state, ActiveLoop::Pool, 75.0, 0.1);
    assert_eq!(hint, PublishHint::Silent);
    assert!(state.measured.pool_temp.is_none());

    state.end_settling();
    let hint = record(&mut state, ActiveLoop::Pool, 75.0, 0.1);
    assert_eq!(hint, PublishHint::Immediate);
    assert_eq!(state.measured.pool_temp, Some(number(75.0)));
    assert!(state.water_temp_ok(ActiveLoop::Pool));
}

#[test]
fn publish_hysteresis_and_clear() {
    let mut state = PoolState::default();
    state.end_settling();
    assert_eq!(
        record(&mut state, ActiveLoop::Pool, 70.0, 0.1),
        PublishHint::Immediate
    );
    assert_eq!(
        record(&mut state, ActiveLoop::Pool, 70.05, 0.1),
        PublishHint::Silent
    );
    assert_eq!(
        record(&mut state, ActiveLoop::Pool, 70.2, 0.1),
        PublishHint::Immediate
    );
    assert_eq!(
        state.clear_water_temp(ActiveLoop::Pool),
        PublishHint::Immediate
    );
    assert!(state.measured.pool_temp.is_none());
    assert_eq!(
        state.clear_water_temp(ActiveLoop::Pool),
        PublishHint::Silent
    );
    let status = state.to_status_json();
    assert!(status["pt"].is_null());
}

#[test]
fn whole_part_of_a_double() {
    let doubles = [
        0.0,
        -0.0,
        0.999_999,
        -0.5,
        1.0,
        -1.0,
        1.5,
        -2.75,
        71.9,
        f64::MIN_POSITIVE,
        5e-324,
        4_503_599_627_370_495.5,
        4_503_599_627_370_496.0,
        9_007_199_254_740_993.0,
        -9_007_199_254_740_992.0,
        9_223_372_036_854_774_784.0,
        9_223_372_036_854_775_808.0,
        -9_223_372_036_854_775_808.0,
        -9_223_372_036_854_777_856.0,
        1.8e19,
        1e300,
        -1e300,
        f64::MAX,
        f64::INFINITY,
        f64::NEG_INFINITY,
        f64::NAN,
    ];
    for double in doubles {
        assert_eq!(clamped_whole(double.to_bits()), double as i64, "{double}");
    }
    assert_eq!(clamped_whole(71.9_f64.to_bits()), 71);
    assert_eq!(clamped_whole((-2.75_f64).to_bits()), -2);
    assert_eq!(clamped_whole(1e300_f64.to_bits()), i64::MAX);
    assert_eq!(clamped_whole(f64::NEG_INFINITY.to_bits()), i64::MIN);
    assert_eq!(clamped_whole(f64::NAN.to_bits()), 0);
}

#[test]
fn commands_take_the_whole_part_of_a_number() {
    let mut state = PoolState::default();
    let value = json(
        r#"{"m":2.99,"spd":12.5,"sst":-1e300,"spt":71.9,"r1":0.5,"r2":-1.5,"r3":1e-9,"r4":1e300}"#,
    );
    assert!(state.apply_command_json(&value, 35).unwrap());
    assert_eq!(state.commanded.mode, 2);
    assert_eq!(state.commanded.set_speed, 12);
    assert_eq!(state.commanded.set_spa_temp, i32::MIN);
    assert_eq!(state.commanded.set_pool_temp, 71);
    assert_eq!(state.commanded.relays, 0b1010);
}
