use rs_pool::command::CommandFields;
use rs_pool::health::HealthState;
use rs_pool::json::JsonField;
use rs_pool::mqtt::{
    connected_payload, draft_command, draft_fields, finish_command, parse_command_payload, LinkAction, MqttLink,
    Session, SessionAction, SessionEvent, SessionOutcome, COALESCE_MS, MAX_COMMAND_PAYLOAD_BYTES,
};
use rs_pool::state::{encode_spd, CommandedState, PoolState, DEFAULT_SPD_MAX};
use serde_json::Value;

fn health() -> HealthState {
    HealthState::new(true, true, true)
}

#[test]
fn parse_command_partial_json() {
    let raw = br#"{"m":0,"spt":72,"r1":1}"#;
    let value = parse_command_payload(raw).unwrap();
    let mut state = PoolState::default();
    assert!(state.apply_command_json(&value, DEFAULT_SPD_MAX).unwrap());
    assert_eq!(state.commanded.set_pool_temp, 72);
    assert_eq!(state.commanded.mode, 0);
    assert_eq!(state.commanded.relays & 1, 1);
}

#[test]
fn parse_command_rejects_non_object() {
    let value = parse_command_payload(b"[1,2]").unwrap();
    let mut state = PoolState::default();
    assert!(state.apply_command_json(&value, DEFAULT_SPD_MAX).is_err());
}

#[test]
fn parse_command_rejects_oversized_payload() {
    let mut raw = br#"{"m":0,"pad":""#.to_vec();
    raw.extend(std::iter::repeat(b'x').take(MAX_COMMAND_PAYLOAD_BYTES));
    raw.extend_from_slice(br#""}"#);
    assert!(raw.len() > MAX_COMMAND_PAYLOAD_BYTES);
    let err = parse_command_payload(&raw).unwrap_err();
    assert!(err.contains("too large"), "unexpected error: {err}");
    assert_eq!(err, "command payload too large (4112 > 4096 bytes)");
}

#[test]
fn parse_command_accepts_the_longest_payload() {
    let mut raw = br#"{"pad":""#.to_vec();
    raw.extend(std::iter::repeat(b'x').take(MAX_COMMAND_PAYLOAD_BYTES - 10));
    raw.extend_from_slice(br#""}"#);
    assert_eq!(raw.len(), MAX_COMMAND_PAYLOAD_BYTES);
    assert!(parse_command_payload(&raw).is_ok());
}

#[test]
fn parse_command_reports_the_parse_error() {
    let err = parse_command_payload(b"{\"m\":").unwrap_err();
    let expected = serde_json::from_slice::<Value>(b"{\"m\":").unwrap_err().to_string();
    assert_eq!(err, expected);
}

#[test]
fn status_payload_includes_encoded_spd() {
    let mut state = PoolState::default();
    state.commanded.set_speed = encode_spd(25, DEFAULT_SPD_MAX);
    let payload = state.status_payload().unwrap();
    let v: Value = serde_json::from_str(&payload).unwrap();
    assert_eq!(v["spd"], Value::from(encode_spd(25, DEFAULT_SPD_MAX)));
}

#[test]
fn handle_command_noop_still_succeeds() {
    let mut state = PoolState::default();
    let draft = draft_command(&state, br#"{"spt":70}"#, DEFAULT_SPD_MAX)
        .expect("noop command must succeed");
    assert!(!draft.changed);
    let done = finish_command(&mut state, &draft, Ok(())).unwrap();
    assert!(!done.changed);
    assert!(!done.wake_bus);
    assert_eq!(state.commanded, CommandedState::default());
}

#[test]
fn handle_command_persist_failure_leaves_state_unchanged() {
    let mut state = PoolState::default();
    assert_eq!(state.commanded.mode, 0);
    let draft = draft_command(&state, br#"{"m":1}"#, DEFAULT_SPD_MAX).unwrap();
    assert!(draft.changed);
    let err = finish_command(&mut state, &draft, Err("disk full".to_string()))
        .expect_err("persist failure must return Err");
    assert!(err.contains("persist failed"), "unexpected error: {err}");
    assert_eq!(err, "persist failed: disk full");
    assert_eq!(
        state.commanded.mode, 0,
        "in-memory state must not commit when persist fails"
    );
}

#[test]
fn drafted_command_takes_effect() {
    let mut state = PoolState::default();
    state.measured.rpm = 700;
    let draft = draft_command(&state, br#"{"spd":12,"r2":1}"#, 35).unwrap();
    assert_eq!(state.commanded, CommandedState::default());
    let done = finish_command(&mut state, &draft, Ok(())).unwrap();
    assert!(done.changed && done.wake_bus);
    assert_eq!(state.commanded.set_speed, 12);
    assert_eq!(state.commanded.relays, 2);
    assert!(state.update_pump && state.update_relays);
    assert_eq!(state.measured.rpm, 700);
}

#[test]
fn drafts_on_plain_members() {
    let fields = CommandFields {
        m: Some(JsonField::Text("2".to_string())),
        spd: Some(JsonField::Number { integer: Some(40), double: Some(40f64.to_bits()) }),
        sst: None,
        spt: Some(JsonField::Number { integer: None, double: Some(71.9f64.to_bits()) }),
        relays: [
            Some(JsonField::Bool(true)),
            None,
            None,
            None,
            None,
            None,
            Some(JsonField::Text("TRUE".to_string())),
            None,
        ],
    };
    let draft = draft_fields(&PoolState::default(), &fields, 35).unwrap();
    assert_eq!(
        draft.commanded,
        CommandedState {
            mode: 2,
            set_speed: 35,
            set_spa_temp: 104,
            set_pool_temp: 71,
            relays: 0b0100_0001,
        }
    );
    assert!(draft.changed && draft.update_pump && draft.update_relays);
    let refused = CommandFields { sst: Some(JsonField::Array), ..fields };
    assert_eq!(
        draft_fields(&PoolState::default(), &refused, 35).unwrap_err(),
        "sst must be an integer"
    );
    let out_of_range = CommandFields {
        m: Some(JsonField::Number { integer: None, double: None }),
        ..refused
    };
    assert_eq!(
        draft_fields(&PoolState::default(), &out_of_range, 35).unwrap_err(),
        "m out of range"
    );
}

#[test]
fn unsaved_noop_still_takes_effect() {
    let mut state = PoolState::default();
    let draft = draft_command(&state, br#"{"r1":0}"#, 35).unwrap();
    assert!(!draft.changed);
    let done = finish_command(&mut state, &draft, Err("disk full".to_string())).unwrap();
    assert!(!done.changed && done.wake_bus);
    assert!(state.update_relays);
}

#[test]
fn marks_set_since_the_draft_survive() {
    let mut state = PoolState::default();
    let draft = draft_command(&state, br#"{"spt":75}"#, 35).unwrap();
    state.update_pump = true;
    state.update_relays = true;
    finish_command(&mut state, &draft, Ok(())).unwrap();
    assert!(state.update_pump && state.update_relays);
    assert_eq!(state.commanded.set_pool_temp, 75);
}

#[test]
fn refused_commands_are_not_drafted() {
    let state = PoolState::default();
    assert_eq!(
        draft_command(&state, b"[]", 35).unwrap_err(),
        "command payload must be a JSON object"
    );
    assert_eq!(
        draft_command(&state, br#"{"m":"x"}"#, 35).unwrap_err(),
        "m must be an integer"
    );
    assert!(draft_command(&state, b"nonsense", 35).is_err());
    assert!(draft_command(&state, &[b' '; 5000], 35).unwrap_err().contains("too large"));
}

#[test]
fn reconnect_delays_double_up_to_the_longest() {
    let mut link = MqttLink::new(false);
    let mut health = health();
    let lost = SessionOutcome::Disconnected { ever_connected: false };
    for ms in [500, 1000, 2000, 4000, 8000, 16_000, 30_000, 30_000] {
        assert_eq!(link.action, LinkAction::Connect);
        link.on_session_end(lost, false, &mut health);
        assert_eq!(link.action, LinkAction::Sleep { ms });
        link.on_sleep_over(false);
    }
    health.mqtt_connected = true;
    link.on_session_end(
        SessionOutcome::Disconnected { ever_connected: true },
        false,
        &mut health,
    );
    assert!(!health.mqtt_connected);
    assert_eq!(link.action, LinkAction::Sleep { ms: 500 });
    link.on_sleep_over(false);
    link.on_session_end(lost, false, &mut health);
    assert_eq!(link.action, LinkAction::Sleep { ms: 1000 });
}

#[test]
fn link_stops_for_shutdown() {
    let mut health = health();
    assert_eq!(MqttLink::new(true).action, LinkAction::Stop);
    let mut link = MqttLink::new(false);
    health.mqtt_connected = true;
    link.on_session_end(SessionOutcome::Shutdown, true, &mut health);
    assert_eq!(link.action, LinkAction::Stop);
    assert!(health.mqtt_connected);
    let mut link = MqttLink::new(false);
    link.on_session_end(
        SessionOutcome::Disconnected { ever_connected: true },
        true,
        &mut health,
    );
    assert_eq!(link.action, LinkAction::Stop);
    let mut link = MqttLink::new(false);
    link.on_session_end(
        SessionOutcome::Disconnected { ever_connected: true },
        false,
        &mut health,
    );
    link.on_sleep_over(true);
    assert_eq!(link.action, LinkAction::Stop);
}

#[test]
fn session_events() {
    let mut session = Session::new();
    let mut health = health();
    let poll = SessionAction::Poll;
    assert_eq!(session.on_event(SessionEvent::Heartbeat, &mut health), poll);
    assert_eq!(session.on_event(SessionEvent::StatusNotified, &mut health), poll);
    assert_eq!(session.on_event(SessionEvent::Other, &mut health), poll);
    assert_eq!(
        session.on_event(SessionEvent::Shutdown(true), &mut health),
        SessionAction::EndShutdown { announce: false }
    );
    assert_eq!(
        session.on_event(SessionEvent::Lost, &mut health),
        SessionAction::End { ever_connected: false }
    );
    assert!(!health.mqtt_connected);
    assert_eq!(
        session.on_event(SessionEvent::ConnAck, &mut health),
        SessionAction::Subscribe
    );
    assert!(session.connected && health.mqtt_connected);
    let forced = SessionAction::PublishStatus { force: true };
    assert_eq!(session.on_event(SessionEvent::Subscribed(true), &mut health), forced);
    assert_eq!(
        session.on_event(SessionEvent::Message { command_topic: false }, &mut health),
        poll
    );
    assert_eq!(
        session.on_event(SessionEvent::Message { command_topic: true }, &mut health),
        SessionAction::HandleCommand
    );
    let handled = |changed| SessionEvent::CommandHandled { changed };
    assert_eq!(session.on_event(handled(Some(true)), &mut health), forced);
    assert_eq!(session.on_event(handled(Some(false)), &mut health), poll);
    assert_eq!(session.on_event(handled(None), &mut health), poll);
    assert_eq!(session.on_event(SessionEvent::Heartbeat, &mut health), forced);
    assert_eq!(
        session.on_event(SessionEvent::StatusNotified, &mut health),
        SessionAction::PublishStatus { force: false }
    );
    assert_eq!(session.on_event(SessionEvent::Shutdown(false), &mut health), poll);
    assert_eq!(
        session.on_event(SessionEvent::Shutdown(true), &mut health),
        SessionAction::EndShutdown { announce: true }
    );
    assert_eq!(
        session.on_event(SessionEvent::Subscribed(false), &mut health),
        SessionAction::End { ever_connected: true }
    );
    assert!(!health.mqtt_connected);
    assert_eq!(
        session.on_event(SessionEvent::Lost, &mut health),
        SessionAction::End { ever_connected: true }
    );
}

#[test]
fn duplicate_status_is_skipped_unless_forced() {
    let mut session = Session::new();
    let mut state = PoolState::default();
    let payload = session.due_payload(&state, false).unwrap().unwrap();
    assert_eq!(payload, state.status_payload().unwrap());
    session.on_published(payload.clone());
    assert_eq!(session.due_payload(&state, false).unwrap(), None);
    assert_eq!(session.due_payload(&state, true).unwrap(), Some(payload.clone()));
    assert!(!session.is_due(&payload, false));
    state.measured.watt = 1;
    assert!(session.due_payload(&state, false).unwrap().is_some());
}

#[test]
fn local_address_is_noted_once() {
    let mut state = PoolState::default();
    state.note_ip("10.0.0.2".to_string());
    state.note_ip("10.0.0.3".to_string());
    assert_eq!(state.measured.ip, "10.0.0.2");
}

#[test]
fn connected_payloads() {
    assert_eq!(connected_payload(true), "1");
    assert_eq!(connected_payload(false), "0");
    assert_eq!(COALESCE_MS, 75);
}
