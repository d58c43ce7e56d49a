use rs_pool::modbus::crc::{append_crc, check_crc, crc16, high_byte, low_byte, word_of};
use rs_pool::modbus::divert_relays_for_temp;
use rs_pool::modbus::pump::{
    apply_spd, build_get_status, build_go, build_read_sensor, build_set_demand, build_stop,
    check_ack, demand_from_spd, parse_sensor_le, parse_status, rpm_from_sensor, SpeedOrder,
    DEMAND_MODE_SPEED, FC_GO, SENSOR_AMB_TEMP, SENSOR_RPM, SENSOR_SHAFT_WATTS, STATUS_OFF,
    STATUS_RUNNING,
};
use rs_pool::modbus::relay::{
    build_read_coils, build_write_coil, check_write_ack, parse_coil_status,
};
use rs_pool::modbus::rtu::{build_request, hex_preview, RtuError};
use rs_pool::state::PoolState;

fn message<T: std::fmt::Debug>(result: Result<T, RtuError>) -> String {
    result.unwrap_err().message()
}

#[test]
fn crc_known_read_coils_request() {
    let body = [0x01_u8, 0x01, 0x00, 0x00, 0x00, 0x08];
    let crc = crc16(&body);
    assert_eq!(crc, 0xCC3D);
    let mut frame = body.to_vec();
    append_crc(&mut frame);
    assert_eq!(frame, [0x01, 0x01, 0x00, 0x00, 0x00, 0x08, 0x3D, 0xCC]);
    assert!(check_crc(&frame));
}

#[test]
fn crc_rejects_corrupt() {
    let mut frame = vec![0x01, 0x01, 0x00, 0x00, 0x00, 0x08, 0x3D, 0xCC];
    assert!(check_crc(&frame));
    frame[3] ^= 0x01;
    assert!(!check_crc(&frame));
}

#[test]
fn crc_detects_every_changed_byte() {
    let good = build_set_demand(0x15, DEMAND_MODE_SPEED, 5416);
    for at in 0..good.len() {
        for flip in 1..=255_u8 {
            let mut frame = good.clone();
            frame[at] ^= flip;
            assert!(!check_crc(&frame));
        }
    }
}

#[test]
fn crc_of_nothing_and_short_frames() {
    assert_eq!(crc16(&[]), 0xFFFF);
    assert!(!check_crc(&[]));
    assert!(!check_crc(&[0xFF]));
    assert!(!check_crc(&[0xFF, 0xFF]));
    let mut empty = Vec::new();
    append_crc(&mut empty);
    assert_eq!(empty, [0xFF, 0xFF]);
    assert!(!check_crc(&empty));
}

#[test]
fn words_and_bytes() {
    assert_eq!(low_byte(0x1234), 0x34);
    assert_eq!(high_byte(0x1234), 0x12);
    assert_eq!(word_of(0x34, 0x12), 0x1234);
    assert_eq!(word_of(0xFF, 0xFF), 0xFFFF);
}

#[test]
fn reexports_frame_builders() {
    assert!(check_crc(&build_read_coils(1)));
    assert!(check_crc(&build_go(0x15)));
}

#[test]
fn divert_prefers_measured() {
    let mut state = PoolState::default();
    state.commanded.relays = 0;
    assert_eq!(divert_relays_for_temp(&state), 0);
    state.measured.relay_status = Some(0b0100_0000); // r7
    assert_eq!(divert_relays_for_temp(&state), 0b0100_0000);
}

#[test]
fn demand_from_spd_maps_rpm_times_four() {
    assert_eq!(demand_from_spd(0, 35), 0);
    assert_eq!(demand_from_spd(1, 35), 2400);
    assert_eq!(demand_from_spd(35, 35), 13_800);
    assert_eq!(demand_from_spd(25, 35), 10_444);
    assert_eq!(demand_from_spd(10, 35), 5416);
    assert_eq!(demand_from_spd(20, 35), 8768);
}

#[test]
fn demand_edges() {
    assert_eq!(demand_from_spd(36, 35), 13_800);
    assert_eq!(demand_from_spd(u16::MAX, 35), 13_800);
    assert_eq!(demand_from_spd(35, 0), 13_800);
    assert_eq!(demand_from_spd(1, 1), 13_800);
    assert_eq!(demand_from_spd(0, 1), 0);
    assert_eq!(demand_from_spd(u16::MAX, u16::MAX), 13_800);
    assert_eq!(demand_from_spd(1, u16::MAX), 2400);
}

#[test]
fn demand_never_falls_as_spd_rises() {
    for max in [0_u16, 1, 2, 10, 35, 100] {
        for spd in 0..120_u16 {
            assert!(demand_from_spd(spd, max) <= demand_from_spd(spd + 1, max));
        }
    }
}

#[test]
fn rpm_from_sensor_divides_by_four() {
    assert_eq!(rpm_from_sensor(0), 0);
    assert_eq!(rpm_from_sensor(2400), 600);
    assert_eq!(rpm_from_sensor(5416), 1354);
    assert_eq!(rpm_from_sensor(13_800), 3450);
}

#[test]
fn demand_frame_le_spd_10() {
    let frame = build_set_demand(0x15, DEMAND_MODE_SPEED, demand_from_spd(10, 35));
    assert_eq!(&frame[..6], &[0x15, 0x44, 0x20, 0x00, 0x28, 0x15]);
    assert!(check_crc(&frame));
}

#[test]
fn demand_frame_spd_35() {
    let frame = build_set_demand(0x15, DEMAND_MODE_SPEED, demand_from_spd(35, 35));
    assert_eq!(&frame[4..6], &[0xE8, 0x35]);
}

#[test]
fn status_and_sensor_request_frames() {
    let st = build_get_status(0x15);
    assert_eq!(&st[..3], &[0x15, 0x43, 0x20]);
    assert!(check_crc(&st));
    let sens = build_read_sensor(0x15, SENSOR_RPM);
    assert_eq!(&sens[..5], &[0x15, 0x45, 0x20, 0x00, 0x00]);
    assert!(check_crc(&sens));
}

#[test]
fn stop_and_go_frames() {
    let go = build_go(0x15);
    assert_eq!(&go[..3], &[0x15, 0x41, 0x20]);
    assert!(check_crc(&go));
    let stop = build_stop(0x15);
    assert_eq!(&stop[..3], &[0x15, 0x42, 0x20]);
    assert!(check_crc(&stop));
}

#[test]
fn sensor_le_parse_fixes_esp_bug() {
    let mut resp = vec![0x15, 0x45, 0x10, 0x00, SENSOR_RPM, 0x34, 0x12];
    append_crc(&mut resp);
    assert_eq!(parse_sensor_le(&resp, 0x15).unwrap(), 0x1234);
}

#[test]
fn sensor_words_round_trip() {
    for word in [0_u16, 1, 255, 256, 0x1234, 0xFFFF] {
        for sensor in [SENSOR_RPM, SENSOR_AMB_TEMP, SENSOR_SHAFT_WATTS] {
            let mut resp = vec![0x15, 0x45, 0x10, 0x00, sensor, low_byte(word), high_byte(word)];
            append_crc(&mut resp);
            assert_eq!(parse_sensor_le(&resp, 0x15).unwrap(), word);
        }
    }
}

#[test]
fn status_parse() {
    let mut resp = vec![0x15, 0x43, 0x10, STATUS_RUNNING];
    append_crc(&mut resp);
    assert_eq!(parse_status(&resp, 0x15).unwrap(), STATUS_RUNNING);
}

#[test]
fn ack_mismatch_rejected() {
    let mut resp = vec![0x15, 0x43, 0x00, STATUS_OFF];
    append_crc(&mut resp);
    assert!(parse_status(&resp, 0x15).is_err());
}

#[test]
fn pump_reply_errors() {
    assert_eq!(
        message(check_ack(&[0x15, 0x41, 0x10], 0x15, FC_GO)),
        "short / empty response (3 bytes)"
    );
    assert_eq!(
        message(check_ack(&[0x16, 0x41, 0x10, 0, 0], 0x15, FC_GO)),
        "unexpected response: addr 16 != 15"
    );
    assert_eq!(
        message(check_ack(&[0x15, 0xC1, 0x10, 0, 0], 0x15, FC_GO)),
        "unexpected response: fc C1 != 41"
    );
    assert_eq!(
        message(check_ack(&[0x15, 0x41, 0x0A, 0, 0], 0x15, FC_GO)),
        "unexpected response: ack 0A, expected 10"
    );
    assert!(check_ack(&[0x15, 0x41, 0x10, 0, 0], 0x15, FC_GO).is_ok());
    assert_eq!(
        message(parse_status(&[0x15, 0x43, 0x10, 0, 0], 0x15)),
        "short / empty response (5 bytes)"
    );
    assert_eq!(
        message(parse_sensor_le(&[0x15, 0x45, 0x10, 0, 0, 0, 0, 0], 0x15)),
        "short / empty response (8 bytes)"
    );
}

#[test]
fn speed_orders() {
    let stop = SpeedOrder { demand: 0, stop: true };
    assert_eq!(apply_spd(0, STATUS_RUNNING, false), Some(stop));
    assert_eq!(apply_spd(0, STATUS_OFF, true), Some(stop));
    assert_eq!(apply_spd(0, STATUS_OFF, false), None);
    let go = SpeedOrder { demand: 2400, stop: false };
    assert_eq!(apply_spd(2400, STATUS_OFF, false), Some(go));
    assert_eq!(apply_spd(2400, STATUS_RUNNING, true), Some(go));
    assert_eq!(apply_spd(2400, STATUS_RUNNING, false), None);
}

#[test]
fn read_frame_esp_style() {
    let frame = build_read_coils(0x01);
    assert_eq!(&frame[..6], &[0x01, 0x01, 0x00, 0xFF, 0x00, 0x01]);
    assert!(check_crc(&frame));
}

#[test]
fn write_single_coil_r4_on() {
    let frame = build_write_coil(0x01, 3, true);
    assert_eq!(&frame[..6], &[0x01, 0x05, 0x00, 0x03, 0xFF, 0x00]);
    assert!(check_crc(&frame));
}

#[test]
fn write_single_coil_off() {
    let frame = build_write_coil(0x01, 0, false);
    assert_eq!(&frame[..6], &[0x01, 0x05, 0x00, 0x00, 0x00, 0x00]);
    assert!(check_crc(&frame));
}

#[test]
fn write_single_coil_masks_the_channel() {
    assert_eq!(build_write_coil(0x01, 11, true), build_write_coil(0x01, 3, true));
}

#[test]
fn parse_coil_status_ok() {
    let mut resp = vec![0x01, 0x01, 0x01, 0x0C];
    append_crc(&mut resp);
    assert_eq!(parse_coil_status(&resp, 0x01).unwrap(), 0x0C);
}

#[test]
fn relay_reply_errors() {
    assert_eq!(
        message(parse_coil_status(&[0x01, 0x01, 0x01, 0x0C, 0x00], 0x01)),
        "short / empty response (5 bytes)"
    );
    assert_eq!(
        message(parse_coil_status(&[0x02, 0x01, 0x01, 0x0C, 0, 0], 0x01)),
        "unexpected response: addr 02 != 01"
    );
    assert_eq!(
        message(parse_coil_status(&[0x01, 0x81, 0x01, 0x0C, 0, 0], 0x01)),
        "unexpected response: fc 81, expected 01"
    );
    assert_eq!(
        message(parse_coil_status(&[0x01, 0x01, 0x00, 0x0C, 0, 0], 0x01)),
        "unexpected response: byte count 0"
    );
    assert!(check_write_ack(&[0x01, 0x05]).is_ok());
    assert_eq!(
        message(check_write_ack(&[0x01, 0x85, 0x02])),
        "unexpected response: write ack fc Some(85)"
    );
    assert_eq!(
        message(check_write_ack(&[0x01])),
        "unexpected response: write ack fc None"
    );
}

#[test]
fn build_request_appends_crc_le() {
    let frame = build_request(0x01, 0x01, &[0x00, 0x00, 0x00, 0x08]);
    assert_eq!(&frame[..6], &[0x01, 0x01, 0x00, 0x00, 0x00, 0x08]);
    let crc = crc16(&frame[..6]);
    assert_eq!(frame[6], (crc & 0xFF) as u8);
    assert_eq!(frame[7], (crc >> 8) as u8);
}

#[test]
fn hex_preview_pairs() {
    assert_eq!(hex_preview(&[]), "");
    assert_eq!(hex_preview(&[0x0A]), "0A");
    assert_eq!(hex_preview(&[0x01, 0xFF, 0x00]), "01 FF 00");
}

#[test]
fn bus_error_messages() {
    assert_eq!(RtuError::Io("gone".to_string()).message(), "serial I/O: gone");
    assert_eq!(RtuError::Port("busy".to_string()).message(), "serial port: busy");
    assert_eq!(RtuError::Timeout(500).message(), "response timeout after 500ms");
    assert_eq!(RtuError::Timeout(1000).message(), "response timeout after 1s");
    assert_eq!(RtuError::Timeout(1500).message(), "response timeout after 1.5s");
    assert_eq!(RtuError::Crc.message(), "CRC mismatch");
    assert_eq!(RtuError::Short(2).message(), "short / empty response (2 bytes)");
    assert_eq!(
        RtuError::Unexpected("odd".to_string()).message(),
        "unexpected response: odd"
    );
}
