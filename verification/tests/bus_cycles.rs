use rs_pool::config::ModbusConfig;
use rs_pool::health::HealthState;
use rs_pool::modbus::crc::{append_crc, check_crc, high_byte, low_byte};
use rs_pool::modbus::master::{BusMaster, BusTimings, MasterAction, MasterEvent, OPEN_RETRY_SECS};
use rs_pool::modbus::pump::{
    build_get_status, build_go, build_read_sensor, build_set_demand, build_stop, PumpCycle,
    PumpReadings, SENSOR_AMB_TEMP, SENSOR_RPM, SENSOR_SHAFT_WATTS, STATUS_OFF, STATUS_RUNNING,
};
use rs_pool::modbus::relay::{build_read_coils, build_write_coil, BusStep, RelayCycle};
use rs_pool::modbus::rtu::{ReadEvent, Receiver, RtuError};
use rs_pool::modbus::service::{BusService, ServiceReport, ServiceStep};
use rs_pool::state::{PoolState, PublishHint};

const MS: u64 = 1_000_000;

fn framed(bytes: &[u8]) -> Vec<u8> {
    let mut frame = bytes.to_vec();
    append_crc(&mut frame);
    frame
}

fn relay_board(frame: &[u8], relays: &mut u8) -> Vec<u8> {
    assert!(check_crc(frame));
    if frame[1] == 0x05 {
        let bit = 1 << frame[3];
        if frame[4] == 0xFF {
            *relays |= bit;
        } else {
            *relays &= !bit;
        }
        frame.to_vec()
    } else {
        framed(&[frame[0], 0x01, 0x01, *relays])
    }
}

fn pump(frame: &[u8], status: &mut u8, demand: &mut u16) -> Vec<u8> {
    assert!(check_crc(frame));
    match frame[1] {
        0x41 => {
            *status = STATUS_RUNNING;
            framed(&[0x15, 0x41, 0x10])
        }
        0x42 => {
            *status = STATUS_OFF;
            framed(&[0x15, 0x42, 0x10])
        }
        0x43 => framed(&[0x15, 0x43, 0x10, *status]),
        0x44 => {
            *demand = u16::from(frame[4]) + 256 * u16::from(frame[5]);
            framed(&[0x15, 0x44, 0x10])
        }
        _ => {
            let word: u16 = match frame[4] {
                0x00 => *demand,
                0x08 => 81,
                _ => 950,
            };
            framed(&[
                0x15,
                0x45,
                0x10,
                0x00,
                frame[4],
                low_byte(word),
                high_byte(word),
            ])
        }
    }
}

fn run_relay(
    cycle: &mut RelayCycle,
    mut answer: impl FnMut(&[u8]) -> Result<Vec<u8>, RtuError>,
) -> Vec<Vec<u8>> {
    let mut sent = Vec::new();
    loop {
        match cycle.step() {
            BusStep::Transact { frame, .. } => {
                let reply = answer(&frame);
                sent.push(frame);
                cycle.on_reply(reply);
            }
            BusStep::Pause => cycle.on_pause(),
            BusStep::Finished => return sent,
        }
    }
}

fn run_pump(
    cycle: &mut PumpCycle,
    mut answer: impl FnMut(&[u8]) -> Result<Vec<u8>, RtuError>,
) -> Vec<Vec<u8>> {
    let mut sent = Vec::new();
    loop {
        match cycle.step() {
            BusStep::Transact { frame, .. } => {
                let reply = answer(&frame);
                sent.push(frame);
                cycle.on_reply(reply);
            }
            BusStep::Pause => cycle.on_pause(),
            BusStep::Finished => return sent,
        }
    }
}

#[test]
fn relay_read_cycle_sends_one_frame() {
    let mut relays = 0b0100_0001;
    let mut cycle = RelayCycle::new(1, 0, false);
    assert!(!cycle.has_result());
    let sent = run_relay(&mut cycle, |frame| Ok(relay_board(frame, &mut relays)));
    assert_eq!(sent, [build_read_coils(1)]);
    assert_eq!(cycle.finish().unwrap().unwrap(), 0b0100_0001);
}

#[test]
fn relay_write_cycle_writes_all_and_reads_back() {
    let mut relays = 0xFF;
    let mut cycle = RelayCycle::new(1, 0b1010_0101, true);
    let sent = run_relay(&mut cycle, |frame| Ok(relay_board(frame, &mut relays)));
    let mut expected = Vec::new();
    for channel in 0..8_u8 {
        expected.push(build_write_coil(1, channel, 0b1010_0101 & (1 << channel) != 0));
    }
    expected.push(build_read_coils(1));
    assert_eq!(sent, expected);
    assert_eq!(relays, 0b1010_0101);
    assert_eq!(cycle.finish().unwrap().unwrap(), 0b1010_0101);
}

#[test]
fn relay_mismatch_is_retried_once() {
    let mut reads = 0;
    let mut cycle = RelayCycle::new(1, 0x0F, true);
    let sent = run_relay(&mut cycle, |frame| {
        if frame[1] == 0x05 {
            Ok(frame.to_vec())
        } else {
            reads += 1;
            Ok(framed(&[1, 1, 1, if reads == 1 { 0x07 } else { 0x0F }]))
        }
    });
    assert_eq!(sent.len(), 18);
    assert_eq!(cycle.finish().unwrap().unwrap(), 0x0F);

    let mut cycle = RelayCycle::new(1, 0x0F, true);
    let sent = run_relay(&mut cycle, |frame| {
        if frame[1] == 0x05 {
            Ok(frame.to_vec())
        } else {
            Ok(framed(&[1, 1, 1, 0x07]))
        }
    });
    assert_eq!(sent.len(), 18);
    assert_eq!(cycle.finish().unwrap().unwrap(), 0x07);
}

#[test]
fn relay_cycle_ends_with_the_first_error() {
    let mut cycle = RelayCycle::new(1, 0x0F, true);
    let mut count = 0;
    let sent = run_relay(&mut cycle, |frame| {
        count += 1;
        if count == 3 {
            Err(RtuError::Timeout(100))
        } else {
            Ok(frame.to_vec())
        }
    });
    assert_eq!(sent.len(), 3);
    assert_eq!(
        cycle.finish().unwrap().unwrap_err().message(),
        "response timeout after 100ms"
    );

    let mut cycle = RelayCycle::new(1, 0x0F, true);
    let sent = run_relay(&mut cycle, |_| Ok(framed(&[1, 0x85, 2])));
    assert_eq!(sent.len(), 1);
    assert_eq!(
        cycle.finish().unwrap().unwrap_err().message(),
        "unexpected response: write ack fc Some(85)"
    );

    let mut cycle = RelayCycle::new(1, 0x0F, false);
    run_relay(&mut cycle, |_| Ok(framed(&[2, 1, 1, 0])));
    assert!(cycle.finish().unwrap().is_err());
}

#[test]
fn pump_cycle_drives_and_reads() {
    let (mut status, mut demand) = (STATUS_OFF, 0);
    let mut cycle = PumpCycle::new(0x15, 10, 35, true);
    let sent = run_pump(&mut cycle, |frame| Ok(pump(frame, &mut status, &mut demand)));
    assert_eq!(
        sent,
        [
            build_set_demand(0x15, 0, 5416),
            build_go(0x15),
            build_get_status(0x15),
            build_read_sensor(0x15, SENSOR_SHAFT_WATTS),
            build_read_sensor(0x15, SENSOR_RPM),
            build_read_sensor(0x15, SENSOR_AMB_TEMP),
        ]
    );
    assert_eq!((status, demand), (STATUS_RUNNING, 5416));
    assert!(cycle.is_over());
    assert_eq!(
        cycle.readings(),
        PumpReadings {
            rpm: Some(1354),
            watt: Some(950),
            air_temp: Some(81),
            actuated: true
        }
    );
}

#[test]
fn pump_refresh_is_not_an_actuation() {
    let (mut status, mut demand) = (STATUS_RUNNING, 5416);
    let mut cycle = PumpCycle::new(0x15, 10, 35, false);
    let sent = run_pump(&mut cycle, |frame| Ok(pump(frame, &mut status, &mut demand)));
    assert_eq!(sent.len(), 6);
    assert_eq!(sent[0], build_set_demand(0x15, 0, 5416));
    assert_eq!(sent[1], build_go(0x15));
    assert!(!cycle.readings().actuated);
}

#[test]
fn pump_forced_stop() {
    let (mut status, mut demand) = (STATUS_RUNNING, 5416);
    let mut cycle = PumpCycle::new(0x15, 0, 35, true);
    let sent = run_pump(&mut cycle, |frame| Ok(pump(frame, &mut status, &mut demand)));
    assert_eq!(sent.len(), 6);
    assert_eq!(sent[0], build_set_demand(0x15, 0, 0));
    assert_eq!(sent[1], build_stop(0x15));
    assert_eq!((status, demand), (STATUS_OFF, 0));
    assert!(cycle.readings().actuated);
}

#[test]
fn idle_pump_is_left_alone_or_stopped() {
    let (mut status, mut demand) = (STATUS_OFF, 0);
    let mut cycle = PumpCycle::new(0x15, 0, 35, false);
    let sent = run_pump(&mut cycle, |frame| Ok(pump(frame, &mut status, &mut demand)));
    assert_eq!(sent.len(), 4);
    assert!(!cycle.readings().actuated);

    let (mut status, mut demand) = (STATUS_RUNNING, 5416);
    let mut cycle = PumpCycle::new(0x15, 0, 35, false);
    let sent = run_pump(&mut cycle, |frame| Ok(pump(frame, &mut status, &mut demand)));
    assert_eq!(sent.len(), 6);
    assert_eq!(sent[4], build_set_demand(0x15, 0, 0));
    assert_eq!(sent[5], build_stop(0x15));
    assert!(cycle.readings().actuated);
    assert_eq!(status, STATUS_OFF);

    let mut cycle = PumpCycle::new(0x15, 0, 35, false);
    let sent = run_pump(&mut cycle, |_| Err(RtuError::Timeout(100)));
    assert_eq!(sent.len(), 6);
    assert_eq!(
        cycle.readings(),
        PumpReadings {
            rpm: None,
            watt: None,
            air_temp: None,
            actuated: false
        }
    );
}

#[test]
fn silent_pump_gets_every_frame() {
    let mut cycle = PumpCycle::new(0x15, 10, 35, true);
    let sent = run_pump(&mut cycle, |_| Err(RtuError::Crc));
    assert_eq!(sent.len(), 6);
    assert!(!cycle.readings().actuated);
}

fn run_service(
    service: &mut BusService,
    state: &mut PoolState,
    mut answer: impl FnMut(&[u8]) -> Result<Vec<u8>, RtuError>,
) -> Vec<ServiceReport> {
    let mut reports = Vec::new();
    loop {
        match service.step() {
            ServiceStep::Transact { frame, .. } => {
                let reply = answer(&frame);
                service.on_reply(reply);
            }
            ServiceStep::Pause => service.on_pause(),
            ServiceStep::Report => reports.push(service.report(state)),
            ServiceStep::Finished => return reports,
        }
    }
}

#[test]
fn service_brings_devices_to_the_commanded_state() {
    let config = ModbusConfig::default();
    let mut state = PoolState::default();
    state.commanded.relays = 0b0000_1001;
    state.commanded.set_speed = 10;
    state.update_relays = true;
    state.update_pump = true;
    let (mut relays, mut status, mut demand) = (0, STATUS_OFF, 0);
    let mut service = BusService::new(&config, &state, true, true);
    let reports = run_service(&mut service, &mut state, |frame| {
        Ok(if frame[0] == 1 {
            relay_board(frame, &mut relays)
        } else {
            pump(frame, &mut status, &mut demand)
        })
    });
    assert_eq!(reports.len(), 2);
    assert!(reports.iter().all(|r| r.hint == PublishHint::Immediate && r.fault.is_none()));
    assert!(!state.update_relays && !state.update_pump);
    assert_eq!(state.measured.relay_status, Some(0b0000_1001));
    assert_eq!(state.measured.rpm, 1354);
    assert_eq!(state.measured.watt, 950);
    assert_eq!(state.measured.air_temp, 81);
    assert_eq!((relays, status, demand), (0b0000_1001, STATUS_RUNNING, 5416));

    let mut service = BusService::new(&config, &state, true, true);
    let reports = run_service(&mut service, &mut state, |frame| {
        Ok(if frame[0] == 1 {
            relay_board(frame, &mut relays)
        } else {
            pump(frame, &mut status, &mut demand)
        })
    });
    assert!(reports.iter().all(|r| r.hint == PublishHint::Silent && r.fault.is_none()));
}

#[test]
fn command_during_service_stays_unsent() {
    let config = ModbusConfig::default();
    let mut state = PoolState::default();
    state.update_relays = true;
    state.update_pump = true;
    let (mut relays, mut status, mut demand) = (0, STATUS_OFF, 0);
    let mut service = BusService::new(&config, &state, true, true);
    state.commanded.relays = 1;
    state.commanded.set_speed = 5;
    run_service(&mut service, &mut state, |frame| {
        Ok(if frame[0] == 1 {
            relay_board(frame, &mut relays)
        } else {
            pump(frame, &mut status, &mut demand)
        })
    });
    assert!(state.update_relays && state.update_pump);
}

#[test]
fn failed_service_keeps_marks() {
    let config = ModbusConfig::default();
    let mut state = PoolState::default();
    state.update_relays = true;
    state.update_pump = true;
    let mut service = BusService::new(&config, &state, true, true);
    let reports = run_service(&mut service, &mut state, |_| Err(RtuError::Timeout(1000)));
    assert_eq!(reports.len(), 2);
    assert_eq!(
        reports[0].fault.as_ref().unwrap().message(),
        "response timeout after 1s"
    );
    assert_eq!(reports[0].hint, PublishHint::Silent);
    assert!(reports[1].fault.is_none());
    assert_eq!(reports[1].hint, PublishHint::Silent);
    assert!(state.update_relays && state.update_pump);
    assert_eq!(state.measured.relay_status, None);
}

#[test]
fn relay_mismatch_keeps_mark_and_publishes_measured() {
    let config = ModbusConfig::default();
    let mut state = PoolState::default();
    state.commanded.relays = 0x0F;
    state.update_relays = true;
    let mut service = BusService::new(&config, &state, true, false);
    let reports = run_service(&mut service, &mut state, |frame| {
        Ok(if frame[1] == 0x05 {
            frame.to_vec()
        } else {
            framed(&[1, 1, 1, 0x07])
        })
    });
    assert_eq!(reports.len(), 1);
    assert_eq!(reports[0].hint, PublishHint::Immediate);
    assert!(state.update_relays);
    assert_eq!(state.measured.relay_status, Some(0x07));
}

#[test]
fn service_of_nothing_is_over() {
    let config = ModbusConfig::default();
    let mut state = PoolState::default();
    let mut service = BusService::new(&config, &state, false, false);
    assert!(matches!(service.step(), ServiceStep::Finished));
    let report = service.report(&mut state);
    assert_eq!(report.hint, PublishHint::Silent);
}

#[test]
fn service_caps_the_speed() {
    let config = ModbusConfig {
        spd_max: 20,
        ..ModbusConfig::default()
    };
    let mut state = PoolState::default();
    state.commanded.set_speed = 35;
    let service = BusService::new(&config, &state, false, true);
    match service.step() {
        ServiceStep::Transact { frame, min_len } => {
            assert_eq!(frame, build_set_demand(0x15, 0, 13_800));
            assert_eq!(min_len, 5);
        }
        other => panic!("unexpected step {other:?}"),
    }
}

#[test]
fn reply_ends_with_silence() {
    let reply = framed(&[1, 1, 1, 0x0C]);
    let mut rx = Receiver::new(6, 1000, 50, 0);
    assert_eq!(rx.poll(0), Some(50 * MS));
    rx.on_read(ReadEvent::Bytes(reply[..4].to_vec()), MS);
    assert_eq!(rx.poll(2 * MS), Some(50 * MS));
    rx.on_read(ReadEvent::Bytes(Vec::new()), 60 * MS);
    rx.on_read(ReadEvent::Bytes(reply[4..].to_vec()), 61 * MS);
    rx.on_read(ReadEvent::Bytes(Vec::new()), 110 * MS);
    assert!(rx.poll(110 * MS).is_some());
    rx.on_read(ReadEvent::Bytes(Vec::new()), 111 * MS);
    assert_eq!(rx.poll(111 * MS), None);
    assert_eq!(rx.finish().unwrap(), reply);
}

#[test]
fn reply_ends_with_a_read_timeout() {
    let reply = framed(&[1, 1, 1, 0x0C]);
    let mut rx = Receiver::new(6, 1000, 50, 0);
    rx.on_read(ReadEvent::TimedOut, 10 * MS);
    assert!(rx.poll(11 * MS).is_some());
    rx.on_read(ReadEvent::Bytes(reply.clone()), 12 * MS);
    rx.on_read(ReadEvent::TimedOut, 62 * MS);
    assert_eq!(rx.poll(63 * MS), None);
    assert_eq!(rx.finish().unwrap(), reply);
}

#[test]
fn reply_deadline() {
    let mut rx = Receiver::new(6, 100, 50, 7);
    assert_eq!(rx.poll(99 * MS), Some(MS + 7));
    rx.on_read(ReadEvent::Bytes(vec![1, 1]), 99 * MS);
    assert_eq!(rx.poll(100 * MS + 7), None);
    assert_eq!(rx.finish().unwrap_err().message(), "response timeout after 100ms");

    let reply = framed(&[1, 1, 1, 0x0C]);
    let mut rx = Receiver::new(6, 100, 50, 0);
    rx.on_read(ReadEvent::Bytes(reply.clone()), 99 * MS);
    assert_eq!(rx.poll(100 * MS), None);
    assert_eq!(rx.finish().unwrap(), reply);
}

#[test]
fn exception_reply_ends_at_once() {
    let reply = framed(&[1, 0x85, 2]);
    let mut rx = Receiver::new(8, 1000, 50, 0);
    rx.on_read(ReadEvent::Bytes(reply.clone()), MS);
    assert_eq!(rx.poll(2 * MS), None);
    assert_eq!(rx.finish().unwrap_err().message(), "short / empty response (5 bytes)");

    let mut rx = Receiver::new(5, 1000, 50, 0);
    rx.on_read(ReadEvent::Bytes(reply.clone()), MS);
    assert_eq!(rx.finish().unwrap(), reply);
}

#[test]
fn reply_faults() {
    let mut rx = Receiver::new(4, 1000, 50, 0);
    rx.on_read(ReadEvent::Bytes(vec![1, 2, 3, 4]), MS);
    rx.on_read(ReadEvent::TimedOut, 51 * MS);
    assert_eq!(rx.finish().unwrap_err().message(), "CRC mismatch");

    let mut rx = Receiver::new(4, 1000, 50, 0);
    rx.on_read(ReadEvent::Failed("gone".to_string()), MS);
    assert_eq!(rx.poll(2 * MS), None);
    assert_eq!(rx.finish().unwrap_err().message(), "serial I/O: gone");

    let rx = Receiver::new(4, 1000, 50, 0);
    assert_eq!(rx.finish().unwrap_err().message(), "short / empty response (0 bytes)");
}

#[test]
fn master_boot_and_polls() {
    let config = ModbusConfig::default();
    let mut state = PoolState::default();
    let mut health = HealthState::new(true, true, true);
    let mut master = BusMaster::start(&config, &mut state);
    assert!(state.update_relays && state.update_pump);
    assert_eq!(master.action, MasterAction::Open);
    master.on_event(MasterEvent::OpenFailed, &mut health);
    assert_eq!(master.action, MasterAction::RetryWait);
    assert_eq!(master.open_failures, 1);
    assert!(!health.modbus_ok);
    master.on_event(MasterEvent::RetryElapsed, &mut health);
    assert_eq!(master.action, MasterAction::Open);
    master.on_event(MasterEvent::Opened, &mut health);
    assert!(health.modbus_ok);
    assert_eq!(master.open_failures, 0);
    assert_eq!(master.action, MasterAction::Service { relay: true, pump: true });
    master.on_event(MasterEvent::Serviced, &mut health);
    assert_eq!(master.action, MasterAction::Wait);
    master.on_event(
        MasterEvent::Notified { update_relays: false, update_pump: false },
        &mut health,
    );
    assert_eq!(master.action, MasterAction::Wait);
    master.on_event(
        MasterEvent::Notified { update_relays: true, update_pump: false },
        &mut health,
    );
    assert_eq!(master.action, MasterAction::Service { relay: true, pump: false });
    master.on_event(MasterEvent::Serviced, &mut health);
    master.on_event(MasterEvent::RelayTick, &mut health);
    assert_eq!(master.action, MasterAction::Service { relay: true, pump: false });
    master.on_event(MasterEvent::Serviced, &mut health);
    master.on_event(MasterEvent::PumpTick, &mut health);
    assert_eq!(master.action, MasterAction::Service { relay: false, pump: true });
    master.on_event(MasterEvent::Serviced, &mut health);
    master.on_event(MasterEvent::Shutdown(false), &mut health);
    assert_eq!(master.action, MasterAction::Wait);
    master.on_event(MasterEvent::Shutdown(true), &mut health);
    assert_eq!(master.action, MasterAction::Stop);
    master.on_event(MasterEvent::RelayTick, &mut health);
    assert_eq!(master.action, MasterAction::Stop);
    assert_eq!(OPEN_RETRY_SECS, 5);
}

#[test]
fn master_stops_while_waiting_to_retry() {
    let config = ModbusConfig::default();
    let mut state = PoolState::default();
    let mut health = HealthState::new(true, true, true);
    let mut master = BusMaster::start(&config, &mut state);
    master.on_event(MasterEvent::OpenFailed, &mut health);
    master.on_event(MasterEvent::Shutdown(false), &mut health);
    assert_eq!(master.action, MasterAction::Open);
    master.on_event(MasterEvent::OpenFailed, &mut health);
    master.on_event(MasterEvent::Shutdown(true), &mut health);
    assert_eq!(master.action, MasterAction::Stop);
}

#[test]
fn disabled_master_does_nothing() {
    let config = ModbusConfig {
        enabled: false,
        ..ModbusConfig::default()
    };
    let mut state = PoolState::default();
    let master = BusMaster::start(&config, &mut state);
    assert_eq!(master.action, MasterAction::Stop);
    assert!(!state.update_relays && !state.update_pump);
}

#[test]
fn bus_timings_have_floors() {
    let low = ModbusConfig {
        response_timeout_ms: 0,
        inter_frame_ms: 0,
        relay_poll_secs: 0,
        pump_poll_secs: 0,
        ..ModbusConfig::default()
    };
    assert_eq!(
        BusTimings::of(&low),
        BusTimings {
            response_timeout_ms: 100,
            inter_frame_ms: 10,
            relay_poll_secs: 1,
            pump_poll_secs: 1
        }
    );
    assert_eq!(
        BusTimings::of(&ModbusConfig::default()),
        BusTimings {
            response_timeout_ms: 1000,
            inter_frame_ms: 50,
            relay_poll_secs: 30,
            pump_poll_secs: 8
        }
    );
}
