//! The variable-speed pump: its frames, and the cycle that drives and reads it.
//!
//! | Function code | Purpose | Payload |
//! |---------------|---------|---------|
//! | 0x43 | status | `20` |
//! | 0x45 | sensor | `20 00 <sensor>` |
//! | 0x44 | demand | `20 <mode> <low> <high>`, RPM times four in mode 0 |
//! | 0x41 | go | `20` |
//! | 0x42 | stop | `20` |
//!
//! The third byte of a reply is `10`. Sensor words have their low byte first; the RPM word is RPM
//! times four, like the demand.
use vstd::prelude::*;

use crate::modbus::crc::{
    bytes_word, crc_ok, high_byte, law_word_bytes, law_word_bytes_round_trip, low_byte, with_crc,
    word_bytes, word_of,
};
use crate::modbus::relay::{wrong_address, wrong_address_text, BusStep, BusStepView};
use crate::modbus::rtu::{
    build_request, law_request_bytes, law_requests_check, outcome, request_frame, RtuError, RtuFault,
};
use crate::state::{spd_limit, DEFAULT_SPD_MAX};
use crate::text::{hex_byte, hex_byte_text};

verus! {

pub const PUMP_ACK_SEND: u8 = 0x20;

pub const PUMP_ACK_RESP: u8 = 0x10;

pub const FC_GO: u8 = 0x41;

pub const FC_STOP: u8 = 0x42;

pub const FC_GET_STATUS: u8 = 0x43;

pub const FC_SET_DEMAND: u8 = 0x44;

pub const FC_READ_SENSOR: u8 = 0x45;

pub const SENSOR_RPM: u8 = 0x00;

pub const SENSOR_AMB_TEMP: u8 = 0x08;

pub const SENSOR_SHAFT_WATTS: u8 = 0x0A;

pub const STATUS_OFF: u8 = 0x00;

pub const STATUS_RUNNING: u8 = 0x0B;

/// Status that stands for one that is not known.
pub const STATUS_UNKNOWN: u8 = 0xFF;

/// The demand mode in which the demand word is RPM times four.
pub const DEMAND_MODE_SPEED: u8 = 0x00;

const DEMAND_RPM_MIN: u32 = 600;

const DEMAND_RPM_MAX: u32 = 3450;

/// Fewest bytes of a reply to a demand, a go or a stop.
pub const ACK_REPLY_LEN: usize = 5;

/// Fewest bytes of a reply to a status request.
pub const STATUS_REPLY_LEN: usize = 6;

/// Fewest bytes of a reply to a sensor request.
pub const SENSOR_REPLY_LEN: usize = 9;

/// The shaft speed for an `spd` demand of at least 1: 600 RPM for 1, 3450 RPM for the limit, and
/// in proportion between them, rounded down.
pub open spec fn demand_rpm(spd: u16, spd_max: u16) -> int {
    let max = spd_limit(spd_max);
    let capped = if spd <= max {
        spd
    } else {
        max
    };
    if max <= 1 {
        3450
    } else {
        600 + (capped - 1) * 2850 / (max - 1)
    }
}

/// The demand word for an `spd` demand: 0 for 0, else RPM times four.
pub open spec fn demand_word(spd: u16, spd_max: u16) -> int {
    if spd == 0 {
        0
    } else {
        demand_rpm(spd, spd_max) * 4
    }
}

proof fn lemma_demand_range(spd: u16, spd_max: u16)
    requires
        spd > 0,
    ensures
        600 <= demand_rpm(spd, spd_max) <= 3450,
{
    let max = spd_limit(spd_max);
    let capped: int = if spd <= max {
        spd as int
    } else {
        max as int
    };
    if max > 1 {
        let parts: int = max - 1;
        assert(0 <= (capped - 1) * 2850 / parts <= 2850) by (nonlinear_arith)
            requires
                1 <= capped <= parts + 1,
                parts >= 1,
        ;
    }
}

/// A demand of 0 stops the pump, and any other demand asks for 600 to 3450 RPM: 600 RPM for 1
/// where there is a scale, 3450 RPM for the limit and all above it.
pub proof fn law_demand_range(spd: u16, spd_max: u16)
    ensures
        demand_word(spd, spd_max) == 0 <==> spd == 0,
        spd > 0 ==> 2400 <= demand_word(spd, spd_max) <= 13800,
        spd >= spd_limit(spd_max) ==> demand_word(spd, spd_max) == 13800,
        spd == 1 && spd_limit(spd_max) > 1 ==> demand_word(spd, spd_max) == 2400,
{
    if spd > 0 {
        lemma_demand_range(spd, spd_max);
        let max = spd_limit(spd_max);
        if spd >= max && max > 1 {
            let parts: int = max - 1;
            assert(parts * 2850 / parts == 2850) by (nonlinear_arith)
                requires
                    parts >= 1,
            ;
        }
        if spd == 1 && max > 1 {
            let parts: int = max - 1;
            assert(0int * 2850 / parts == 0) by (nonlinear_arith)
                requires
                    parts >= 1,
            ;
        }
    }
}

/// A larger `spd` demand never asks for a lower speed.
pub proof fn law_demand_monotone(low: u16, high: u16, spd_max: u16)
    requires
        low <= high,
    ensures
        demand_word(low, spd_max) <= demand_word(high, spd_max),
{
    if low > 0 {
        let max = spd_limit(spd_max);
        let a: int = if low <= max {
            low as int
        } else {
            max as int
        };
        let b: int = if high <= max {
            high as int
        } else {
            max as int
        };
        if max > 1 {
            let parts: int = max - 1;
            assert((a - 1) * 2850 / parts <= (b - 1) * 2850 / parts) by (nonlinear_arith)
                requires
                    1 <= a <= b,
                    parts >= 1,
            ;
        }
    } else if high > 0 {
        lemma_demand_range(high, spd_max);
    }
}

/// The demand word for an MQTT `spd` demand: RPM times four.
#[must_use]
pub fn demand_from_spd(spd: u16, spd_max: u16) -> (demand: u16)
    ensures
        demand == demand_word(spd, spd_max),
{
    if spd == 0 {
        return 0;
    }
    let max: u16 = if spd_max == 0 {
        DEFAULT_SPD_MAX
    } else {
        spd_max
    };
    let capped: u16 = if spd <= max {
        spd
    } else {
        max
    };
    proof {
        lemma_demand_range(spd, spd_max);
    }
    let rpm: u32 = if max <= 1 {
        DEMAND_RPM_MAX
    } else {
        assert((capped - 1) * 2850 <= 65535 * 2850) by (nonlinear_arith)
            requires
                1 <= capped <= 65535,
        ;
        assert(0 <= (capped - 1) * 2850) by (nonlinear_arith)
            requires
                1 <= capped,
        ;
        let scaled: u32 = (capped as u32 - 1) * (DEMAND_RPM_MAX - DEMAND_RPM_MIN);
        DEMAND_RPM_MIN + scaled / (max as u32 - 1)
    };
    assert(rpm == demand_rpm(spd, spd_max));
    (rpm * 4) as u16
}

/// The speed in RPM for a sensor word, which is RPM times four.
#[must_use]
pub fn rpm_from_sensor(raw: u16) -> (rpm: u16)
    ensures
        rpm == raw / 4,
{
    raw / 4
}

/// The frame that asks for the pump status.
pub open spec fn get_status_frame(addr: u8) -> Seq<u8> {
    request_frame(addr, FC_GET_STATUS, seq![PUMP_ACK_SEND])
}

/// The frame that asks for a sensor.
pub open spec fn read_sensor_frame(addr: u8, sensor_id: u8) -> Seq<u8> {
    request_frame(addr, FC_READ_SENSOR, seq![PUMP_ACK_SEND, 0x00, sensor_id])
}

/// The frame that sets the demand, low byte first.
pub open spec fn set_demand_frame(addr: u8, mode: u8, demand: u16) -> Seq<u8> {
    request_frame(addr, FC_SET_DEMAND, seq![PUMP_ACK_SEND, mode] + word_bytes(demand))
}

/// The frame that starts the pump.
pub open spec fn go_frame(addr: u8) -> Seq<u8> {
    request_frame(addr, FC_GO, seq![PUMP_ACK_SEND])
}

/// The frame that stops the pump.
pub open spec fn stop_frame(addr: u8) -> Seq<u8> {
    request_frame(addr, FC_STOP, seq![PUMP_ACK_SEND])
}

/// Builds the status request.
#[must_use]
pub fn build_get_status(addr: u8) -> (frame: Vec<u8>)
    ensures
        frame@ == get_status_frame(addr),
{
    let payload: [u8; 1] = [PUMP_ACK_SEND];
    assert(payload@ =~= seq![PUMP_ACK_SEND]);
    build_request(addr, FC_GET_STATUS, payload.as_slice())
}

/// Builds the request for a sensor.
#[must_use]
pub fn build_read_sensor(addr: u8, sensor_id: u8) -> (frame: Vec<u8>)
    ensures
        frame@ == read_sensor_frame(addr, sensor_id),
{
    let payload: [u8; 3] = [PUMP_ACK_SEND, 0x00, sensor_id];
    assert(payload@ =~= seq![PUMP_ACK_SEND, 0x00, sensor_id]);
    build_request(addr, FC_READ_SENSOR, payload.as_slice())
}

/// Builds the request that sets the demand, low byte first.
#[must_use]
pub fn build_set_demand(addr: u8, mode: u8, demand: u16) -> (frame: Vec<u8>)
    ensures
        frame@ == set_demand_frame(addr, mode, demand),
{
    let payload: [u8; 4] = [PUMP_ACK_SEND, mode, low_byte(demand), high_byte(demand)];
    assert(payload@ =~= seq![PUMP_ACK_SEND, mode] + word_bytes(demand));
    build_request(addr, FC_SET_DEMAND, payload.as_slice())
}

/// Builds the request that starts the pump.
#[must_use]
pub fn build_go(addr: u8) -> (frame: Vec<u8>)
    ensures
        frame@ == go_frame(addr),
{
    let payload: [u8; 1] = [PUMP_ACK_SEND];
    assert(payload@ =~= seq![PUMP_ACK_SEND]);
    build_request(addr, FC_GO, payload.as_slice())
}

/// Builds the request that stops the pump.
#[must_use]
pub fn build_stop(addr: u8) -> (frame: Vec<u8>)
    ensures
        frame@ == stop_frame(addr),
{
    let payload: [u8; 1] = [PUMP_ACK_SEND];
    assert(payload@ =~= seq![PUMP_ACK_SEND]);
    build_request(addr, FC_STOP, payload.as_slice())
}

/// Whether a reply to function `fc` acknowledges it, or why not.
pub open spec fn pump_ack(reply: Seq<u8>, addr: u8, fc: u8) -> Result<(), RtuFault> {
    if reply.len() < 5 {
        Err(RtuFault::Short(reply.len()))
    } else if reply[0] != addr {
        Err(RtuFault::Unexpected(wrong_address_text(reply[0], addr)))
    } else if reply[1] != fc {
        Err(
            RtuFault::Unexpected(
                "fc "@ + hex_byte_text(reply[1]) + " != "@ + hex_byte_text(fc),
            ),
        )
    } else if reply[2] != PUMP_ACK_RESP {
        Err(RtuFault::Unexpected("ack "@ + hex_byte_text(reply[2]) + ", expected 10"@))
    } else {
        Ok(())
    }
}

/// Checks that a reply to function `fc` acknowledges it.
pub fn check_ack(resp: &[u8], addr: u8, fc: u8) -> (ack: Result<(), RtuError>)
    ensures
        outcome(ack) == pump_ack(resp@, addr, fc),
{
    if resp.len() < 5 {
        return Err(RtuError::Short(resp.len()));
    }
    if resp[0] != addr {
        return Err(RtuError::Unexpected(wrong_address(resp[0], addr)));
    }
    if resp[1] != fc {
        let mut text = "fc ".to_owned();
        let got = hex_byte(resp[1]);
        text.append(got.as_str());
        text.append(" != ");
        let wanted = hex_byte(fc);
        text.append(wanted.as_str());
        return Err(RtuError::Unexpected(text));
    }
    if resp[2] != PUMP_ACK_RESP {
        let mut text = "ack ".to_owned();
        let got = hex_byte(resp[2]);
        text.append(got.as_str());
        text.append(", expected 10");
        return Err(RtuError::Unexpected(text));
    }
    Ok(())
}

/// What a reply to a status request says.
pub open spec fn pump_status(reply: Seq<u8>, addr: u8) -> Result<u8, RtuFault> {
    match pump_ack(reply, addr, FC_GET_STATUS) {
        Err(fault) => Err(fault),
        Ok(_) => if reply.len() < 6 {
            Err(RtuFault::Short(reply.len()))
        } else {
            Ok(reply[3])
        },
    }
}

/// Parses a reply to a status request into the status byte.
pub fn parse_status(resp: &[u8], addr: u8) -> (status: Result<u8, RtuError>)
    ensures
        outcome(status) == pump_status(resp@, addr),
{
    match check_ack(resp, addr, FC_GET_STATUS) {
        Err(error) => Err(error),
        Ok(()) => if resp.len() < 6 {
            Err(RtuError::Short(resp.len()))
        } else {
            Ok(resp[3])
        },
    }
}

/// What a reply to a sensor request says.
pub open spec fn sensor_word(reply: Seq<u8>, addr: u8) -> Result<u16, RtuFault> {
    match pump_ack(reply, addr, FC_READ_SENSOR) {
        Err(fault) => Err(fault),
        Ok(_) => if reply.len() < 9 {
            Err(RtuFault::Short(reply.len()))
        } else {
            Ok(bytes_word(reply[5], reply[6]))
        },
    }
}

/// Parses a reply to a sensor request into its word: address, function code, acknowledgement,
/// page, sensor, low byte, high byte, checksum.
pub fn parse_sensor_le(resp: &[u8], addr: u8) -> (value: Result<u16, RtuError>)
    ensures
        outcome(value) == sensor_word(resp@, addr),
{
    match check_ack(resp, addr, FC_READ_SENSOR) {
        Err(error) => Err(error),
        Ok(()) => if resp.len() < 9 {
            Err(RtuError::Short(resp.len()))
        } else {
            Ok(word_of(resp[5], resp[6]))
        },
    }
}

/// The word that a pump puts into a sensor reply, low byte first, is the word that is read.
pub proof fn law_sensor_word_round_trip(addr: u8, page: u8, sensor_id: u8, word: u16)
    ensures
        sensor_word(
            with_crc(
                seq![addr, FC_READ_SENSOR, PUMP_ACK_RESP, page, sensor_id] + word_bytes(word),
            ),
            addr,
        ) == Ok::<u16, RtuFault>(word),
{
    law_word_bytes_round_trip(word);
}

/// What is sent to bring the pump to a demand: the demand, and then a go or a stop.
#[derive(Debug, Clone, Copy, PartialEq, Eq, Structural)]
pub struct SpeedOrder {
    pub demand: u16,
    /// Whether a stop follows the demand, else a go.
    pub stop: bool,
}

/// What is to be sent for a demand: for 0 a stop, unless the pump is known to be off; else a go,
/// unless the pump is known to be running. With `force` it is sent whatever the pump does.
pub open spec fn speed_order(demand: u16, pump_status: u8, force: bool) -> Option<SpeedOrder> {
    if demand == 0 && (force || pump_status != STATUS_OFF) {
        Some(SpeedOrder { demand: 0, stop: true })
    } else if demand != 0 && (force || pump_status != STATUS_RUNNING) {
        Some(SpeedOrder { demand, stop: false })
    } else {
        None
    }
}

/// What is to be sent to apply a demand, if anything.
#[must_use]
pub fn apply_spd(demand: u16, pump_status: u8, force: bool) -> (order: Option<SpeedOrder>)
    ensures
        order == speed_order(demand, pump_status, force),
{
    if demand == 0 {
        if force || pump_status != STATUS_OFF {
            Some(SpeedOrder { demand: 0, stop: true })
        } else {
            None
        }
    } else if force || pump_status != STATUS_RUNNING {
        Some(SpeedOrder { demand, stop: false })
    } else {
        None
    }
}

/// What a pump cycle has found out.
#[derive(Debug, Clone, Copy, PartialEq, Eq, Structural)]
pub struct PumpReadings {
    pub rpm: Option<u16>,
    pub watt: Option<u16>,
    pub air_temp: Option<u16>,
    /// A demand, go or stop was acknowledged that is worth telling about.
    pub actuated: bool,
}

/// Where a pump cycle stands. Each request is followed by the gap between frames, but for the last
/// one of the order that stops an idle pump.
#[derive(Debug, Clone, Copy, PartialEq, Eq, Structural)]
pub enum PumpPhase {
    Demand,
    DemandGap,
    Run,
    RunGap,
    Status,
    StatusGap,
    Watts,
    WattsGap,
    Rpm,
    RpmGap,
    Air,
    AirGap,
    IdleDemand,
    IdleGap,
    IdleStop,
    Done,
}

/// A cycle on the pump. With `force`, or while the pump is to run, it sends the demand and a go or
/// a stop. It then reads the status and the sensors, each as far as the pump answers. A pump that
/// is to be off, and is not known to be, is then stopped.
#[derive(Debug)]
pub struct PumpCycle {
    addr: u8,
    spd: u16,
    demand: u16,
    force: bool,
    phase: PumpPhase,
    acked: bool,
    status: Option<u8>,
    readings: PumpReadings,
}

/// What a [`PumpCycle`] holds.
pub struct PumpCycleView {
    pub addr: u8,
    pub spd: u16,
    pub demand: u16,
    pub force: bool,
    pub phase: PumpPhase,
    /// Whether a frame of the current order was acknowledged.
    pub acked: bool,
    pub status: Option<u8>,
    pub readings: PumpReadings,
}

/// Whether a reply acknowledges function `fc`.
pub open spec fn acknowledged(reply: Result<Seq<u8>, RtuFault>, addr: u8, fc: u8) -> bool {
    reply matches Ok(bytes) && pump_ack(bytes, addr, fc) is Ok
}

/// The status in a reply, if it holds one.
pub open spec fn status_in(reply: Result<Seq<u8>, RtuFault>, addr: u8) -> Option<u8> {
    match reply {
        Ok(bytes) => match pump_status(bytes, addr) {
            Ok(status) => Some(status),
            Err(_) => None,
        },
        Err(_) => None,
    }
}

/// The sensor word in a reply, if it holds one.
pub open spec fn sensor_in(reply: Result<Seq<u8>, RtuFault>, addr: u8) -> Option<u16> {
    match reply {
        Ok(bytes) => match sensor_word(bytes, addr) {
            Ok(word) => Some(word),
            Err(_) => None,
        },
        Err(_) => None,
    }
}

/// The speed in RPM for a sensor word, if there is one.
pub open spec fn rpm_of(word: Option<u16>) -> Option<u16> {
    match word {
        Some(raw) => Some(raw / 4),
        None => None,
    }
}

impl PumpCycleView {
    /// A cycle that is about to start.
    pub open spec fn started(addr: u8, spd: u16, spd_max: u16, force: bool) -> PumpCycleView {
        PumpCycleView {
            addr,
            spd,
            demand: demand_word(spd, spd_max) as u16,
            force,
            phase: if force || spd > 0 {
                PumpPhase::Demand
            } else {
                PumpPhase::Status
            },
            acked: false,
            status: None,
            readings: PumpReadings { rpm: None, watt: None, air_temp: None, actuated: false },
        }
    }

    /// What is to be done next.
    pub open spec fn step(self) -> BusStepView {
        match self.phase {
            PumpPhase::Demand => BusStepView::Transact {
                frame: set_demand_frame(self.addr, DEMAND_MODE_SPEED, self.demand),
                min_len: ACK_REPLY_LEN as nat,
            },
            PumpPhase::Run => BusStepView::Transact {
                frame: if self.demand == 0 {
                    stop_frame(self.addr)
                } else {
                    go_frame(self.addr)
                },
                min_len: ACK_REPLY_LEN as nat,
            },
            PumpPhase::Status => BusStepView::Transact {
                frame: get_status_frame(self.addr),
                min_len: STATUS_REPLY_LEN as nat,
            },
            PumpPhase::Watts => BusStepView::Transact {
                frame: read_sensor_frame(self.addr, SENSOR_SHAFT_WATTS),
                min_len: SENSOR_REPLY_LEN as nat,
            },
            PumpPhase::Rpm => BusStepView::Transact {
                frame: read_sensor_frame(self.addr, SENSOR_RPM),
                min_len: SENSOR_REPLY_LEN as nat,
            },
            PumpPhase::Air => BusStepView::Transact {
                frame: read_sensor_frame(self.addr, SENSOR_AMB_TEMP),
                min_len: SENSOR_REPLY_LEN as nat,
            },
            PumpPhase::IdleDemand => BusStepView::Transact {
                frame: set_demand_frame(self.addr, DEMAND_MODE_SPEED, 0),
                min_len: ACK_REPLY_LEN as nat,
            },
            PumpPhase::IdleStop => BusStepView::Transact {
                frame: stop_frame(self.addr),
                min_len: ACK_REPLY_LEN as nat,
            },
            PumpPhase::Done => BusStepView::Finished,
            _ => BusStepView::Pause,
        }
    }

    /// The cycle after the reply to its frame.
    pub open spec fn after_reply(self, reply: Result<Seq<u8>, RtuFault>) -> PumpCycleView {
        match self.phase {
            PumpPhase::Demand => PumpCycleView {
                phase: PumpPhase::DemandGap,
                acked: acknowledged(reply, self.addr, FC_SET_DEMAND),
                ..self
            },
            PumpPhase::Run => {
                let acked = self.acked || acknowledged(
                    reply,
                    self.addr,
                    if self.demand == 0 {
                        FC_STOP
                    } else {
                        FC_GO
                    },
                );
                PumpCycleView {
                    phase: PumpPhase::RunGap,
                    acked,
                    readings: PumpReadings { actuated: acked && self.force, ..self.readings },
                    ..self
                }
            },
            PumpPhase::Status => PumpCycleView {
                phase: PumpPhase::StatusGap,
                status: status_in(reply, self.addr),
                ..self
            },
            PumpPhase::Watts => PumpCycleView {
                phase: PumpPhase::WattsGap,
                readings: PumpReadings { watt: sensor_in(reply, self.addr), ..self.readings },
                ..self
            },
            PumpPhase::Rpm => PumpCycleView {
                phase: PumpPhase::RpmGap,
                readings: PumpReadings {
                    rpm: rpm_of(sensor_in(reply, self.addr)),
                    ..self.readings
                },
                ..self
            },
            PumpPhase::Air => PumpCycleView {
                phase: PumpPhase::AirGap,
                readings: PumpReadings { air_temp: sensor_in(reply, self.addr), ..self.readings },
                ..self
            },
            PumpPhase::IdleDemand => PumpCycleView {
                phase: PumpPhase::IdleGap,
                acked: acknowledged(reply, self.addr, FC_SET_DEMAND),
                ..self
            },
            PumpPhase::IdleStop => {
                let acked = self.acked || acknowledged(reply, self.addr, FC_STOP);
                PumpCycleView {
                    phase: PumpPhase::Done,
                    acked,
                    readings: PumpReadings {
                        actuated: acked || self.readings.actuated,
                        ..self.readings
                    },
                    ..self
                }
            },
            _ => self,
        }
    }

    /// Whether a pump that is to be off has to be stopped once more: it is not known to be off.
    pub open spec fn must_stop(self) -> bool {
        !self.force && self.spd == 0 && self.status != Some(STATUS_OFF)
    }

    /// The cycle after a pause.
    pub open spec fn after_pause(self) -> PumpCycleView {
        let next = match self.phase {
            PumpPhase::DemandGap => PumpPhase::Run,
            PumpPhase::RunGap => PumpPhase::Status,
            PumpPhase::StatusGap => PumpPhase::Watts,
            PumpPhase::WattsGap => PumpPhase::Rpm,
            PumpPhase::RpmGap => PumpPhase::Air,
            PumpPhase::AirGap => if self.must_stop() {
                PumpPhase::IdleDemand
            } else {
                PumpPhase::Done
            },
            PumpPhase::IdleGap => PumpPhase::IdleStop,
            other => other,
        };
        PumpCycleView { phase: next, ..self }
    }

    /// The cycle at its next frame, or at its end: past the pause, if one is due.
    pub open spec fn ready(self) -> PumpCycleView {
        if self.step() == BusStepView::Pause {
            self.after_pause()
        } else {
            self
        }
    }
}

impl View for PumpCycle {
    type V = PumpCycleView;

    closed spec fn view(&self) -> PumpCycleView {
        PumpCycleView {
            addr: self.addr,
            spd: self.spd,
            demand: self.demand,
            force: self.force,
            phase: self.phase,
            acked: self.acked,
            status: self.status,
            readings: self.readings,
        }
    }
}

fn reply_acknowledges(reply: &Result<Vec<u8>, RtuError>, addr: u8, fc: u8) -> (acked: bool)
    ensures
        acked == acknowledged(outcome(*reply), addr, fc),
{
    match reply {
        Ok(bytes) => check_ack(bytes.as_slice(), addr, fc).is_ok(),
        Err(_) => false,
    }
}

fn reply_status(reply: &Result<Vec<u8>, RtuError>, addr: u8) -> (status: Option<u8>)
    ensures
        status == status_in(outcome(*reply), addr),
{
    match reply {
        Ok(bytes) => match parse_status(bytes.as_slice(), addr) {
            Ok(status) => Some(status),
            Err(_) => None,
        },
        Err(_) => None,
    }
}

fn reply_sensor(reply: &Result<Vec<u8>, RtuError>, addr: u8) -> (word: Option<u16>)
    ensures
        word == sensor_in(outcome(*reply), addr),
{
    match reply {
        Ok(bytes) => match parse_sensor_le(bytes.as_slice(), addr) {
            Ok(word) => Some(word),
            Err(_) => None,
        },
        Err(_) => None,
    }
}

impl PumpCycle {
    /// Starts a cycle for the pump at `addr`. `force` says that the demand has yet to be sent.
    pub fn new(addr: u8, spd: u16, spd_max: u16, force: bool) -> (cycle: Self)
        ensures
            cycle@ == PumpCycleView::started(addr, spd, spd_max, force),
    {
        let phase = if force || spd > 0 {
            PumpPhase::Demand
        } else {
            PumpPhase::Status
        };
        PumpCycle {
            addr,
            spd,
            demand: demand_from_spd(spd, spd_max),
            force,
            phase,
            acked: false,
            status: None,
            readings: PumpReadings { rpm: None, watt: None, air_temp: None, actuated: false },
        }
    }

    /// What is to be done next.
    pub fn step(&self) -> (step: BusStep)
        ensures
            step@ == self@.step(),
    {
        match self.phase {
            PumpPhase::Demand => BusStep::Transact {
                frame: build_set_demand(self.addr, DEMAND_MODE_SPEED, self.demand),
                min_len: ACK_REPLY_LEN,
            },
            PumpPhase::Run => {
                let stop = match apply_spd(self.demand, STATUS_UNKNOWN, true) {
                    Some(order) => order.stop,
                    None => false,
                };
                let frame = if stop {
                    build_stop(self.addr)
                } else {
                    build_go(self.addr)
                };
                BusStep::Transact { frame, min_len: ACK_REPLY_LEN }
            },
            PumpPhase::Status => BusStep::Transact {
                frame: build_get_status(self.addr),
                min_len: STATUS_REPLY_LEN,
            },
            PumpPhase::Watts => BusStep::Transact {
                frame: build_read_sensor(self.addr, SENSOR_SHAFT_WATTS),
                min_len: SENSOR_REPLY_LEN,
            },
            PumpPhase::Rpm => BusStep::Transact {
                frame: build_read_sensor(self.addr, SENSOR_RPM),
                min_len: SENSOR_REPLY_LEN,
            },
            PumpPhase::Air => BusStep::Transact {
                frame: build_read_sensor(self.addr, SENSOR_AMB_TEMP),
                min_len: SENSOR_REPLY_LEN,
            },
            PumpPhase::IdleDemand => BusStep::Transact {
                frame: build_set_demand(self.addr, DEMAND_MODE_SPEED, 0),
                min_len: ACK_REPLY_LEN,
            },
            PumpPhase::IdleStop => BusStep::Transact {
                frame: build_stop(self.addr),
                min_len: ACK_REPLY_LEN,
            },
            PumpPhase::Done => BusStep::Finished,
            _ => BusStep::Pause,
        }
    }

    /// Takes in the reply to the frame that was sent.
    pub fn on_reply(&mut self, reply: Result<Vec<u8>, RtuError>)
        ensures
            final(self)@ == old(self)@.after_reply(outcome(reply)),
    {
        match self.phase {
            PumpPhase::Demand => {
                self.acked = reply_acknowledges(&reply, self.addr, FC_SET_DEMAND);
                self.phase = PumpPhase::DemandGap;
            },
            PumpPhase::Run => {
                let fc: u8 = if self.demand == 0 {
                    FC_STOP
                } else {
                    FC_GO
                };
                let acked = reply_acknowledges(&reply, self.addr, fc);
                self.acked = self.acked || acked;
                self.readings.actuated = self.acked && self.force;
                self.phase = PumpPhase::RunGap;
            },
            PumpPhase::Status => {
                self.status = reply_status(&reply, self.addr);
                self.phase = PumpPhase::StatusGap;
            },
            PumpPhase::Watts => {
                self.readings.watt = reply_sensor(&reply, self.addr);
                self.phase = PumpPhase::WattsGap;
            },
            PumpPhase::Rpm => {
                self.readings.rpm = match reply_sensor(&reply, self.addr) {
                    Some(raw) => Some(rpm_from_sensor(raw)),
                    None => None,
                };
                self.phase = PumpPhase::RpmGap;
            },
            PumpPhase::Air => {
                self.readings.air_temp = reply_sensor(&reply, self.addr);
                self.phase = PumpPhase::AirGap;
            },
            PumpPhase::IdleDemand => {
                self.acked = reply_acknowledges(&reply, self.addr, FC_SET_DEMAND);
                self.phase = PumpPhase::IdleGap;
            },
            PumpPhase::IdleStop => {
                let acked = reply_acknowledges(&reply, self.addr, FC_STOP);
                self.acked = self.acked || acked;
                self.readings.actuated = self.acked || self.readings.actuated;
                self.phase = PumpPhase::Done;
            },
            _ => {},
        }
    }

    /// Takes in that a pause is over.
    pub fn on_pause(&mut self)
        ensures
            final(self)@ == old(self)@.after_pause(),
    {
        match self.phase {
            PumpPhase::DemandGap => {
                self.phase = PumpPhase::Run;
            },
            PumpPhase::RunGap => {
                self.phase = PumpPhase::Status;
            },
            PumpPhase::StatusGap => {
                self.phase = PumpPhase::Watts;
            },
            PumpPhase::WattsGap => {
                self.phase = PumpPhase::Rpm;
            },
            PumpPhase::RpmGap => {
                self.phase = PumpPhase::Air;
            },
            PumpPhase::AirGap => {
                let off = match self.status {
                    Some(status) => status == STATUS_OFF,
                    None => false,
                };
                if !self.force && self.spd == 0 && !off {
                    self.phase = PumpPhase::IdleDemand;
                } else {
                    self.phase = PumpPhase::Done;
                }
            },
            PumpPhase::IdleGap => {
                self.phase = PumpPhase::IdleStop;
            },
            _ => {},
        }
    }

    /// Whether the cycle is over.
    pub fn is_over(&self) -> (yes: bool)
        ensures
            yes == (self@.phase == PumpPhase::Done),
    {
        self.phase == PumpPhase::Done
    }

    /// What the cycle has found out.
    pub fn readings(&self) -> (readings: PumpReadings)
        ensures
            readings == self@.readings,
    {
        self.readings
    }
}

/// The cycle after a run of replies, one to each frame, with the pauses passed.
pub open spec fn pump_run(
    start: PumpCycleView,
    replies: Seq<Result<Seq<u8>, RtuFault>>,
) -> PumpCycleView
    decreases replies.len(),
{
    if replies.len() == 0 {
        start
    } else {
        pump_run(start, replies.drop_last()).after_reply(replies.last()).ready()
    }
}

proof fn lemma_pump_run_step(
    start: PumpCycleView,
    replies: Seq<Result<Seq<u8>, RtuFault>>,
    k: int,
)
    requires
        0 < k <= replies.len(),
    ensures
        pump_run(start, replies.take(k)) == pump_run(start, replies.take(k - 1)).after_reply(
            replies[k - 1],
        ).ready(),
{
    assert(replies.take(k).drop_last() == replies.take(k - 1));
}

/// A cycle that drives the pump is over after six replies: to the demand, to a go or a stop, to the
/// status request and to three sensor requests. What it finds out of each does not depend on the
/// others, and it counts as actuated where it was forced and the demand or the go or stop was
/// acknowledged.
pub proof fn law_driving_cycle(
    addr: u8,
    spd: u16,
    spd_max: u16,
    force: bool,
    replies: Seq<Result<Seq<u8>, RtuFault>>,
)
    requires
        force || spd > 0,
        replies.len() == 6,
    ensures
        ({
            let end = pump_run(PumpCycleView::started(addr, spd, spd_max, force), replies);
            let run_fc = if spd == 0 {
                FC_STOP
            } else {
                FC_GO
            };
            &&& end.phase == PumpPhase::Done
            &&& end.readings == (PumpReadings {
                rpm: rpm_of(sensor_in(replies[4], addr)),
                watt: sensor_in(replies[3], addr),
                air_temp: sensor_in(replies[5], addr),
                actuated: force && (acknowledged(replies[0], addr, FC_SET_DEMAND) || acknowledged(
                    replies[1],
                    addr,
                    run_fc,
                )),
            })
        }),
{
    let start = PumpCycleView::started(addr, spd, spd_max, force);
    law_demand_range(spd, spd_max);
    assert(replies.take(0) =~= Seq::<Result<Seq<u8>, RtuFault>>::empty());
    lemma_pump_run_step(start, replies, 1);
    lemma_pump_run_step(start, replies, 2);
    lemma_pump_run_step(start, replies, 3);
    lemma_pump_run_step(start, replies, 4);
    lemma_pump_run_step(start, replies, 5);
    lemma_pump_run_step(start, replies, 6);
    assert(replies.take(6) == replies);
}

/// The frame that a cycle which drives the pump sends after `k` replies.
pub open spec fn driving_frame(addr: u8, spd: u16, spd_max: u16, k: int) -> Seq<u8> {
    if k == 0 {
        set_demand_frame(addr, DEMAND_MODE_SPEED, demand_word(spd, spd_max) as u16)
    } else if k == 1 {
        if spd == 0 {
            stop_frame(addr)
        } else {
            go_frame(addr)
        }
    } else if k == 2 {
        get_status_frame(addr)
    } else if k == 3 {
        read_sensor_frame(addr, SENSOR_SHAFT_WATTS)
    } else if k == 4 {
        read_sensor_frame(addr, SENSOR_RPM)
    } else {
        read_sensor_frame(addr, SENSOR_AMB_TEMP)
    }
}

/// A cycle that drives the pump sends the same frames in the same order whatever the pump answers:
/// a step that fails keeps none of the others back.
pub proof fn law_driving_frames(
    addr: u8,
    spd: u16,
    spd_max: u16,
    force: bool,
    replies: Seq<Result<Seq<u8>, RtuFault>>,
    k: int,
)
    requires
        force || spd > 0,
        replies.len() == 6,
        0 <= k < 6,
    ensures
        pump_run(
            PumpCycleView::started(addr, spd, spd_max, force),
            replies.take(k),
        ).step() matches BusStepView::Transact { frame, .. } && frame == driving_frame(
            addr,
            spd,
            spd_max,
            k,
        ),
{
    let start = PumpCycleView::started(addr, spd, spd_max, force);
    lemma_driving_phase(addr, spd, spd_max, force, replies, k);
    law_demand_range(spd, spd_max);
    assert(start.demand == demand_word(spd, spd_max));
}

proof fn lemma_driving_phase(
    addr: u8,
    spd: u16,
    spd_max: u16,
    force: bool,
    replies: Seq<Result<Seq<u8>, RtuFault>>,
    k: int,
)
    requires
        force || spd > 0,
        replies.len() == 6,
        0 <= k < 6,
    ensures
        ({
            let start = PumpCycleView::started(addr, spd, spd_max, force);
            let reached = pump_run(start, replies.take(k));
            &&& reached.addr == addr && reached.demand == start.demand
            &&& reached.phase == if k == 0 {
                PumpPhase::Demand
            } else if k == 1 {
                PumpPhase::Run
            } else if k == 2 {
                PumpPhase::Status
            } else if k == 3 {
                PumpPhase::Watts
            } else if k == 4 {
                PumpPhase::Rpm
            } else {
                PumpPhase::Air
            }
        }),
    decreases k,
{
    let start = PumpCycleView::started(addr, spd, spd_max, force);
    if k == 0 {
        assert(replies.take(0) =~= Seq::<Result<Seq<u8>, RtuFault>>::empty());
    } else {
        lemma_driving_phase(addr, spd, spd_max, force, replies, k - 1);
        lemma_pump_run_step(start, replies, k);
    }
}

/// A cycle on a pump that is to be off, and has been told so, reads the status and three sensors,
/// and is then over if the pump says that it is off. If not, it sends a demand of 0 and a stop.
pub proof fn law_idle_cycle(
    addr: u8,
    spd_max: u16,
    replies: Seq<Result<Seq<u8>, RtuFault>>,
)
    requires
        replies.len() == 6,
    ensures
        ({
            let start = PumpCycleView::started(addr, 0, spd_max, false);
            let read = pump_run(start, replies.take(4));
            let seen = PumpReadings {
                rpm: rpm_of(sensor_in(replies[2], addr)),
                watt: sensor_in(replies[1], addr),
                air_temp: sensor_in(replies[3], addr),
                actuated: false,
            };
            let off = status_in(replies[0], addr) == Some(STATUS_OFF);
            &&& read.readings == seen
            &&& off ==> read.phase == PumpPhase::Done
            &&& !off ==> read.step() == (BusStepView::Transact {
                frame: set_demand_frame(addr, DEMAND_MODE_SPEED, 0),
                min_len: ACK_REPLY_LEN as nat,
            })
            &&& !off ==> pump_run(start, replies.take(5)).step() == (BusStepView::Transact {
                frame: stop_frame(addr),
                min_len: ACK_REPLY_LEN as nat,
            })
            &&& !off ==> pump_run(start, replies).phase == PumpPhase::Done
            &&& !off ==> pump_run(start, replies).readings == (PumpReadings {
                actuated: acknowledged(replies[4], addr, FC_SET_DEMAND) || acknowledged(
                    replies[5],
                    addr,
                    FC_STOP,
                ),
                ..seen
            })
        }),
{
    let start = PumpCycleView::started(addr, 0, spd_max, false);
    let status = status_in(replies[0], addr);
    let watt = sensor_in(replies[1], addr);
    let rpm = rpm_of(sensor_in(replies[2], addr));
    let air_temp = sensor_in(replies[3], addr);
    assert(replies.take(0) =~= Seq::<Result<Seq<u8>, RtuFault>>::empty());
    lemma_pump_run_step(start, replies, 1);
    let first = PumpCycleView { phase: PumpPhase::Watts, status, ..start };
    assert(pump_run(start, replies.take(1)) == first);
    lemma_pump_run_step(start, replies, 2);
    let second = PumpCycleView {
        phase: PumpPhase::Rpm,
        readings: PumpReadings { watt, ..first.readings },
        ..first
    };
    assert(pump_run(start, replies.take(2)) == second);
    lemma_pump_run_step(start, replies, 3);
    let third = PumpCycleView {
        phase: PumpPhase::Air,
        readings: PumpReadings { rpm, ..second.readings },
        ..second
    };
    assert(pump_run(start, replies.take(3)) == third);
    lemma_pump_run_step(start, replies, 4);
    let fourth = PumpCycleView {
        phase: if status == Some(STATUS_OFF) {
            PumpPhase::Done
        } else {
            PumpPhase::IdleDemand
        },
        readings: PumpReadings { air_temp, ..third.readings },
        ..third
    };
    assert(pump_run(start, replies.take(4)) == fourth);
    if status != Some(STATUS_OFF) {
        lemma_pump_run_step(start, replies, 5);
        let fifth = PumpCycleView {
            phase: PumpPhase::IdleStop,
            acked: acknowledged(replies[4], addr, FC_SET_DEMAND),
            ..fourth
        };
        assert(pump_run(start, replies.take(5)) == fifth);
        lemma_pump_run_step(start, replies, 6);
        assert(replies.take(6) == replies);
    }
}

proof fn lemma_over_stays_over(
    start: PumpCycleView,
    replies: Seq<Result<Seq<u8>, RtuFault>>,
    k: int,
)
    requires
        0 <= k <= replies.len(),
        pump_run(start, replies.take(k)).phase == PumpPhase::Done,
    ensures
        pump_run(start, replies).phase == PumpPhase::Done,
    decreases replies.len() - k,
{
    if k == replies.len() {
        assert(replies.take(k) == replies);
    } else {
        lemma_pump_run_step(start, replies, k + 1);
        lemma_over_stays_over(start, replies, k + 1);
    }
}

/// A cycle on the pump sends at most six frames: once it has had six replies it is over, whatever
/// they were.
pub proof fn law_pump_cycle_ends(
    addr: u8,
    spd: u16,
    spd_max: u16,
    force: bool,
    replies: Seq<Result<Seq<u8>, RtuFault>>,
)
    requires
        replies.len() >= 6,
    ensures
        pump_run(PumpCycleView::started(addr, spd, spd_max, force), replies).phase
            == PumpPhase::Done,
{
    let start = PumpCycleView::started(addr, spd, spd_max, force);
    let six = replies.take(6);
    if force || spd > 0 {
        law_driving_cycle(addr, spd, spd_max, force, six);
    } else {
        law_idle_cycle(addr, spd_max, six);
        if pump_run(start, six.take(4)).phase == PumpPhase::Done {
            lemma_over_stays_over(start, six, 4);
        }
    }
    lemma_over_stays_over(start, replies, 6);
}

/// The demand asks for a speed on the straight line from 600 RPM for 1 to 3450 RPM for the limit,
/// rounded down, and is that speed times four; the limit is `spd_max`, or 35 for 0. A demand above
/// the limit asks for the speed of the limit, and so does any demand where the limit is 1; 0 asks
/// for 0.
pub proof fn law_demand_on_the_line(spd: u16, spd_max: u16)
    ensures
        ({
            let limit = if spd_max == 0 {
                35int
            } else {
                spd_max as int
            };
            let demand = demand_word(spd, spd_max);
            let above = demand / 4 - 600;
            &&& spd == 0 ==> demand == 0
            &&& demand % 4 == 0
            &&& 1 <= spd <= limit && limit > 1 ==> above * (limit - 1) <= (spd - 1) * 2850 < (above
                + 1) * (limit - 1)
            &&& spd > 0 && spd >= limit ==> demand == 13800
        }),
{
    if spd > 0 {
        let max = spd_limit(spd_max);
        lemma_demand_range(spd, spd_max);
        law_demand_range(spd, spd_max);
        if 1 <= spd <= max && max > 1 {
            let parts: int = max - 1;
            let scaled: int = (spd - 1) * 2850;
            let above: int = scaled / parts;
            assert(above * parts <= scaled < (above + 1) * parts) by (nonlinear_arith)
                requires
                    above == scaled / parts,
                    parts >= 1,
                    scaled >= 0,
            ;
            assert(demand_word(spd, spd_max) / 4 - 600 == above);
        }
    }
}

/// Every byte of the requests to the pump in its place. All start with the address, the function
/// code and `20`, and end with their checksum.
pub proof fn law_pump_frame_bytes(addr: u8, sensor_id: u8, mode: u8, demand: u16)
    ensures
        ({
            let frame = go_frame(addr);
            frame.len() == 5 && frame[0] == addr && frame[1] == 0x41 && frame[2] == 0x20 && crc_ok(
                frame,
            )
        }),
        ({
            let frame = stop_frame(addr);
            frame.len() == 5 && frame[0] == addr && frame[1] == 0x42 && frame[2] == 0x20 && crc_ok(
                frame,
            )
        }),
        ({
            let frame = get_status_frame(addr);
            frame.len() == 5 && frame[0] == addr && frame[1] == 0x43 && frame[2] == 0x20 && crc_ok(
                frame,
            )
        }),
        ({
            let frame = set_demand_frame(addr, mode, demand);
            frame.len() == 8 && frame[0] == addr && frame[1] == 0x44 && frame[2] == 0x20 && frame[3]
                == mode && frame[4] + 256 * frame[5] == demand && crc_ok(frame)
        }),
        ({
            let frame = read_sensor_frame(addr, sensor_id);
            frame.len() == 7 && frame[0] == addr && frame[1] == 0x45 && frame[2] == 0x20 && frame[3]
                == 0x00 && frame[4] == sensor_id && crc_ok(frame)
        }),
{
    let short = seq![0x20u8];
    let sensor = seq![0x20u8, 0x00, sensor_id];
    let speed = seq![0x20u8, mode] + word_bytes(demand);
    law_request_bytes(addr, 0x41, short);
    law_request_bytes(addr, 0x42, short);
    law_request_bytes(addr, 0x43, short);
    law_request_bytes(addr, 0x44, speed);
    law_request_bytes(addr, 0x45, sensor);
    law_requests_check(addr, 0x41, short);
    law_requests_check(addr, 0x42, short);
    law_requests_check(addr, 0x43, short);
    law_requests_check(addr, 0x44, speed);
    law_requests_check(addr, 0x45, sensor);
    assert(short[0] == 0x20);
    assert(sensor[0] == 0x20 && sensor[1] == 0x00 && sensor[2] == sensor_id);
    assert(speed[0] == 0x20 && speed[1] == mode && speed[2] == word_bytes(demand)[0] && speed[3]
        == word_bytes(demand)[1]);
    law_word_bytes(demand);
}

/// A reply acknowledges a function exactly where it has five bytes or more, comes from the pump
/// that was asked, repeats the function code, and has `10` as its third byte. Else it is refused:
/// a short one for its length, any other for the first of these that fails.
pub proof fn law_pump_acknowledges(reply: Seq<u8>, addr: u8, fc: u8)
    ensures
        pump_ack(reply, addr, fc) is Ok <==> reply.len() >= 5 && reply[0] == addr && reply[1] == fc
            && reply[2] == 0x10,
        reply.len() < 5 ==> pump_ack(reply, addr, fc) == Err::<(), RtuFault>(
            RtuFault::Short(reply.len()),
        ),
        reply.len() >= 5 && reply[0] != addr ==> pump_ack(reply, addr, fc) == Err::<(), RtuFault>(
            RtuFault::Unexpected("addr "@ + hex_byte_text(reply[0]) + " != "@ + hex_byte_text(addr)),
        ),
        reply.len() >= 5 && reply[0] == addr && reply[1] != fc ==> pump_ack(reply, addr, fc)
            == Err::<(), RtuFault>(
            RtuFault::Unexpected("fc "@ + hex_byte_text(reply[1]) + " != "@ + hex_byte_text(fc)),
        ),
        reply.len() >= 5 && reply[0] == addr && reply[1] == fc && reply[2] != 0x10 ==> pump_ack(
            reply,
            addr,
            fc,
        ) == Err::<(), RtuFault>(
            RtuFault::Unexpected("ack "@ + hex_byte_text(reply[2]) + ", expected 10"@),
        ),
        acknowledged(Ok(reply), addr, fc) <==> reply.len() >= 5 && reply[0] == addr && reply[1]
            == fc && reply[2] == 0x10,
        forall|fault: RtuFault| !#[trigger] acknowledged(Err(fault), addr, fc),
{
}

/// A status reply is one of six bytes or more that acknowledges function `43`, and gives its fourth
/// byte.
pub proof fn law_status_reply(reply: Seq<u8>, addr: u8, status: u8)
    ensures
        ({
            let good = reply.len() >= 6 && reply[0] == addr && reply[1] == 0x43 && reply[2] == 0x10;
            &&& pump_status(reply, addr) == Ok::<u8, RtuFault>(status) <==> good && reply[3]
                == status
            &&& reply.len() < 5 || (reply.len() == 5 && pump_ack(reply, addr, 0x43) is Ok)
                ==> pump_status(reply, addr) == Err::<u8, RtuFault>(RtuFault::Short(reply.len()))
            &&& status_in(Ok(reply), addr) == Some(status) <==> good && reply[3] == status
        }),
        pump_ack(reply, addr, 0x43) matches Err(fault) ==> pump_status(reply, addr) == Err::<
            u8,
            RtuFault,
        >(fault),
        forall|fault: RtuFault| #[trigger] status_in(Err(fault), addr) is None,
{
}

/// A sensor reply is one of nine bytes or more that acknowledges function `45`, and gives the word
/// whose low byte is the sixth byte and whose high byte is the seventh. A speed is a quarter of its
/// word, rounded down.
pub proof fn law_sensor_reply(reply: Seq<u8>, addr: u8, word: u16)
    ensures
        ({
            let good = reply.len() >= 9 && reply[0] == addr && reply[1] == 0x45 && reply[2] == 0x10;
            &&& sensor_word(reply, addr) == Ok::<u16, RtuFault>(word) <==> good && reply[5] + 256
                * reply[6] == word
            &&& 5 <= reply.len() < 9 && pump_ack(reply, addr, 0x45) is Ok ==> sensor_word(
                reply,
                addr,
            ) == Err::<u16, RtuFault>(RtuFault::Short(reply.len()))
            &&& sensor_in(Ok(reply), addr) == Some(word) <==> good && reply[5] + 256 * reply[6]
                == word
        }),
        pump_ack(reply, addr, 0x45) matches Err(fault) ==> sensor_word(reply, addr) == Err::<
            u16,
            RtuFault,
        >(fault),
        forall|fault: RtuFault| #[trigger] sensor_in(Err(fault), addr) is None,
        rpm_of(Some(word)) matches Some(rpm) && 4 * rpm <= word < 4 * rpm + 4,
        rpm_of(None) is None,
{
}

/// A demand is sent unless the pump is known to do already what it asks for: to be off (`00`) for
/// 0, to run (`0B`) for any other. With `force` it is always sent. A stop follows it exactly where
/// the demand is 0.
pub proof fn law_speed_orders(demand: u16, pump_status: u8, force: bool)
    ensures
        speed_order(demand, pump_status, force) is None <==> !force && pump_status == if demand
            == 0 {
            0x00u8
        } else {
            0x0B
        },
        speed_order(demand, pump_status, force) matches Some(order) ==> order.demand == demand && (
        order.stop <==> demand == 0),
{
}

/// The frames of a cycle that drives the pump, byte by byte, and the fewest bytes of their replies:
/// the demand word for the speed in mode 0; a go, or a stop for 0; the status; and the sensors `0A`
/// for power, `00` for speed and `08` for the air temperature.
pub proof fn law_driving_frame_bytes(
    addr: u8,
    spd: u16,
    spd_max: u16,
    force: bool,
    replies: Seq<Result<Seq<u8>, RtuFault>>,
)
    requires
        force || spd > 0,
        replies.len() == 6,
    ensures
        ({
            let start = PumpCycleView::started(addr, spd, spd_max, force);
            &&& pump_run(start, replies.take(0)).step() matches BusStepView::Transact {
                frame,
                min_len,
            } && min_len == 5 && frame.len() == 8 && frame[0] == addr && frame[1] == 0x44
                && frame[2] == 0x20 && frame[3] == 0x00 && frame[4] + 256 * frame[5]
                == demand_word(spd, spd_max)
            &&& pump_run(start, replies.take(1)).step() matches BusStepView::Transact {
                frame,
                min_len,
            } && min_len == 5 && frame.len() == 5 && frame[0] == addr && (if spd == 0 {
                frame[1] == 0x42
            } else {
                frame[1] == 0x41
            })
            &&& pump_run(start, replies.take(2)).step() matches BusStepView::Transact {
                frame,
                min_len,
            } && min_len == 6 && frame.len() == 5 && frame[0] == addr && frame[1] == 0x43
            &&& pump_run(start, replies.take(3)).step() matches BusStepView::Transact {
                frame,
                min_len,
            } && min_len == 9 && frame.len() == 7 && frame[0] == addr && frame[1] == 0x45
                && frame[4] == 0x0A
            &&& pump_run(start, replies.take(4)).step() matches BusStepView::Transact {
                frame,
                min_len,
            } && min_len == 9 && frame.len() == 7 && frame[0] == addr && frame[1] == 0x45
                && frame[4] == 0x00
            &&& pump_run(start, replies.take(5)).step() matches BusStepView::Transact {
                frame,
                min_len,
            } && min_len == 9 && frame.len() == 7 && frame[0] == addr && frame[1] == 0x45
                && frame[4] == 0x08
        }),
{
    let demand = demand_word(spd, spd_max) as u16;
    law_demand_range(spd, spd_max);
    lemma_driving_phase(addr, spd, spd_max, force, replies, 0);
    lemma_driving_phase(addr, spd, spd_max, force, replies, 1);
    lemma_driving_phase(addr, spd, spd_max, force, replies, 2);
    lemma_driving_phase(addr, spd, spd_max, force, replies, 3);
    lemma_driving_phase(addr, spd, spd_max, force, replies, 4);
    lemma_driving_phase(addr, spd, spd_max, force, replies, 5);
    law_pump_frame_bytes(addr, 0x0A, 0x00, demand);
    law_pump_frame_bytes(addr, 0x00, 0x00, demand);
    law_pump_frame_bytes(addr, 0x08, 0x00, demand);
}

/// The frames of a cycle on a pump that is to be off, and has been told so: the status and the
/// sensors, as for a pump that is driven; and, where the pump does not say that it is off (`00`), a
/// demand of 0 and a stop.
pub proof fn law_idle_frame_bytes(
    addr: u8,
    spd_max: u16,
    replies: Seq<Result<Seq<u8>, RtuFault>>,
)
    requires
        replies.len() == 6,
    ensures
        ({
            let start = PumpCycleView::started(addr, 0, spd_max, false);
            let off = status_in(replies[0], addr) == Some(0x00u8);
            &&& start.step() matches BusStepView::Transact { frame, min_len } && min_len == 6
                && frame.len() == 5 && frame[0] == addr && frame[1] == 0x43
            &&& pump_run(start, replies.take(1)).step() matches BusStepView::Transact {
                frame,
                min_len,
            } && min_len == 9 && frame[0] == addr && frame[1] == 0x45 && frame[4] == 0x0A
            &&& pump_run(start, replies.take(2)).step() matches BusStepView::Transact {
                frame,
                min_len,
            } && min_len == 9 && frame[0] == addr && frame[1] == 0x45 && frame[4] == 0x00
            &&& pump_run(start, replies.take(3)).step() matches BusStepView::Transact {
                frame,
                min_len,
            } && min_len == 9 && frame[0] == addr && frame[1] == 0x45 && frame[4] == 0x08
            &&& off ==> pump_run(start, replies.take(4)).step() == BusStepView::Finished
            &&& !off ==> (pump_run(start, replies.take(4)).step() matches BusStepView::Transact {
                frame,
                min_len,
            } && min_len == 5 && frame.len() == 8 && frame[0] == addr && frame[1] == 0x44
                && frame[3] == 0x00 && frame[4] == 0x00 && frame[5] == 0x00)
            &&& !off ==> (pump_run(start, replies.take(5)).step() matches BusStepView::Transact {
                frame,
                min_len,
            } && min_len == 5 && frame.len() == 5 && frame[0] == addr && frame[1] == 0x42)
        }),
{
    let start = PumpCycleView::started(addr, 0, spd_max, false);
    law_idle_cycle(addr, spd_max, replies);
    assert(replies.take(0) =~= Seq::<Result<Seq<u8>, RtuFault>>::empty());
    lemma_pump_run_step(start, replies, 1);
    lemma_pump_run_step(start, replies, 2);
    lemma_pump_run_step(start, replies, 3);
    law_pump_frame_bytes(addr, 0x0A, 0x00, 0);
    law_pump_frame_bytes(addr, 0x00, 0x00, 0);
    law_pump_frame_bytes(addr, 0x08, 0x00, 0);
}

/// A pump that is driven runs at what was asked for: the word in the demand frame is read back by
/// the speed sensor as the RPM that the demand stands for.
pub proof fn law_demand_reads_back(spd: u16, spd_max: u16)
    requires
        spd > 0,
    ensures
        rpm_of(Some(demand_word(spd, spd_max) as u16)) matches Some(rpm) && 600 <= rpm <= 3450
            && 4 * rpm == demand_word(spd, spd_max),
{
    lemma_demand_range(spd, spd_max);
}

/// No two frames of a cycle follow each other without the gap between them: after each reply the
/// cycle pauses, but for the reply to the stop that ends it, and after a pause a frame follows or
/// the cycle is over.
pub proof fn law_pump_gaps(cycle: PumpCycleView, reply: Result<Seq<u8>, RtuFault>)
    ensures
        cycle.step() is Transact && cycle.phase != PumpPhase::IdleStop ==> cycle.after_reply(
            reply,
        ).step() is Pause,
        cycle.phase == PumpPhase::IdleStop ==> cycle.after_reply(reply).step() is Finished,
        cycle.step() is Pause ==> !(cycle.after_pause().step() is Pause),
        cycle.step() is Finished ==> cycle.after_reply(reply) == cycle && cycle.after_pause()
            == cycle,
{
}

} // verus!
