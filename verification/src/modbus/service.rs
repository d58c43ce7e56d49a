//! One service of the bus: a relay cycle, a pump cycle, or one after the other, and what they
//! change in the state.
use vstd::prelude::*;

use crate::config::ModbusConfig;
use crate::modbus::pump::{
    demand_word, law_demand_range, law_pump_frame_bytes, PumpCycle, PumpCycleView, PumpPhase,
    PumpReadings,
};
use crate::modbus::relay::{
    law_relay_frame_bytes, BusStep, BusStepView, RelayCycle, RelayCycleView,
};
use crate::modbus::rtu::{outcome, RtuError, RtuFault};
use crate::state::{
    law_relay_bits, relay_on, spd_limit, MeasuredState, PoolState, PublishHint, DEFAULT_SPD_MAX,
};

verus! {

/// What a service of the bus goes by: the state as it was when the service began.
#[derive(Debug, Clone, Copy, PartialEq, Eq, Structural)]
pub struct BusSnapshot {
    pub update_relays: bool,
    pub update_pump: bool,
    pub relays: u8,
    pub set_speed: u16,
}

impl BusSnapshot {
    /// What a service goes by in a given state.
    pub open spec fn taken(state: PoolState) -> BusSnapshot {
        BusSnapshot {
            update_relays: state.update_relays,
            update_pump: state.update_pump,
            relays: state.commanded.relays,
            set_speed: state.commanded.set_speed,
        }
    }

    /// Notes what a service goes by.
    pub fn of(state: &PoolState) -> (snapshot: Self)
        ensures
            snapshot == BusSnapshot::taken(*state),
    {
        BusSnapshot {
            update_relays: state.update_relays,
            update_pump: state.update_pump,
            relays: state.commanded.relays,
            set_speed: state.commanded.set_speed,
        }
    }
}

impl PoolState {
    /// The state once the relay board has reported `measured`. The relays no longer count as
    /// unsent where they were written, still are the commanded ones, and are what was reported.
    pub open spec fn with_relay_status(self, snapshot: BusSnapshot, measured: u8) -> PoolState {
        PoolState {
            measured: MeasuredState { relay_status: Some(measured), ..self.measured },
            update_relays: self.update_relays && !(snapshot.update_relays && self.commanded.relays
                == snapshot.relays && measured == snapshot.relays),
            ..self
        }
    }

    /// Whether a relay report is published at once: it follows a write, or it differs from the
    /// report before it.
    pub open spec fn relay_status_hint(self, snapshot: BusSnapshot, measured: u8) -> PublishHint {
        if snapshot.update_relays || self.measured.relay_status != Some(measured) {
            PublishHint::Immediate
        } else {
            PublishHint::Silent
        }
    }

    /// Takes in what the relay board has reported.
    pub fn record_relay_status(&mut self, snapshot: &BusSnapshot, measured: u8) -> (hint:
        PublishHint)
        ensures
            *final(self) == old(self).with_relay_status(*snapshot, measured),
            hint == old(self).relay_status_hint(*snapshot, measured),
    {
        let same = match self.measured.relay_status {
            Some(previous) => previous == measured,
            None => false,
        };
        self.measured.relay_status = Some(measured);
        if snapshot.update_relays && self.commanded.relays == snapshot.relays && measured
            == snapshot.relays {
            self.update_relays = false;
        }
        if snapshot.update_relays || !same {
            PublishHint::Immediate
        } else {
            PublishHint::Silent
        }
    }

    /// The state once a pump cycle has found out `readings`. What was not read stays. The speed no
    /// longer counts as unsent where it was to be sent, was acknowledged, and still is the
    /// commanded one.
    pub open spec fn with_pump_readings(
        self,
        snapshot: BusSnapshot,
        readings: PumpReadings,
    ) -> PoolState {
        PoolState {
            measured: MeasuredState {
                rpm: match readings.rpm {
                    Some(rpm) => rpm,
                    None => self.measured.rpm,
                },
                watt: match readings.watt {
                    Some(watt) => watt,
                    None => self.measured.watt,
                },
                air_temp: match readings.air_temp {
                    Some(air_temp) => air_temp,
                    None => self.measured.air_temp,
                },
                ..self.measured
            },
            update_pump: self.update_pump && !(snapshot.update_pump && readings.actuated
                && self.commanded.set_speed == snapshot.set_speed),
            ..self
        }
    }

    /// Whether pump readings are published at once: the pump was actuated, or its power or the air
    /// temperature changed. The speed alone is no reason.
    pub open spec fn pump_readings_hint(self, readings: PumpReadings) -> PublishHint {
        if readings.actuated || (readings.watt is Some && readings.watt != Some(self.measured.watt))
            || (readings.air_temp is Some && readings.air_temp != Some(self.measured.air_temp)) {
            PublishHint::Immediate
        } else {
            PublishHint::Silent
        }
    }

    /// Takes in what a pump cycle has found out.
    pub fn record_pump_readings(&mut self, snapshot: &BusSnapshot, readings: &PumpReadings) -> (hint:
        PublishHint)
        ensures
            *final(self) == old(self).with_pump_readings(*snapshot, *readings),
            hint == old(self).pump_readings_hint(*readings),
    {
        let mut hint = PublishHint::Silent;
        if snapshot.update_pump && readings.actuated && self.commanded.set_speed
            == snapshot.set_speed {
            self.update_pump = false;
        }
        if let Some(rpm) = readings.rpm {
            let _silent = self.set_rpm(rpm, PublishHint::Silent);
        }
        if let Some(watt) = readings.watt {
            let previous: u16 = self.measured.watt;
            let wake = self.set_watt(watt, PublishHint::Immediate);
            if watt != previous {
                hint = wake;
            }
        }
        if let Some(air_temp) = readings.air_temp {
            if air_temp != self.measured.air_temp {
                hint = PublishHint::Immediate;
            }
            self.measured.air_temp = air_temp;
        }
        if readings.actuated {
            hint = PublishHint::Immediate;
        }
        hint
    }
}

/// What the owner of the bus does next in a service.
#[derive(Debug)]
pub enum ServiceStep {
    /// Send the frame and receive a reply of at least `min_len` bytes.
    Transact { frame: Vec<u8>, min_len: usize },
    /// Wait for the gap between frames.
    Pause,
    /// Let the service change the state.
    Report,
    /// The service is over.
    Finished,
}

/// What a [`ServiceStep`] holds.
pub enum ServiceStepView {
    Transact { frame: Seq<u8>, min_len: nat },
    Pause,
    Report,
    Finished,
}

impl View for ServiceStep {
    type V = ServiceStepView;

    open spec fn view(&self) -> ServiceStepView {
        match *self {
            ServiceStep::Transact { frame, min_len } => ServiceStepView::Transact {
                frame: frame@,
                min_len: min_len as nat,
            },
            ServiceStep::Pause => ServiceStepView::Pause,
            ServiceStep::Report => ServiceStepView::Report,
            ServiceStep::Finished => ServiceStepView::Finished,
        }
    }
}

/// What a cycle of a service came to.
#[derive(Debug)]
pub struct ServiceReport {
    /// Whether the status publisher is to be woken.
    pub hint: PublishHint,
    /// What went wrong with the relay board, if anything did.
    pub fault: Option<RtuError>,
}

#[derive(Debug)]
enum Stage {
    Relay(RelayCycle),
    Pump(PumpCycle),
    Over,
}

/// The part of a service that is under way.
pub enum StageView {
    Relay(RelayCycleView),
    Pump(PumpCycleView),
    Over,
}

/// A service of the bus.
#[derive(Debug)]
pub struct BusService {
    config: ModbusConfig,
    snapshot: BusSnapshot,
    do_pump: bool,
    stage: Stage,
}

/// What a [`BusService`] holds.
pub struct BusServiceView {
    pub config: ModbusConfig,
    pub snapshot: BusSnapshot,
    pub do_pump: bool,
    pub stage: StageView,
}

/// The pump cycle of a service: with the commanded speed, at most the limit.
pub open spec fn service_pump_cycle(config: ModbusConfig, snapshot: BusSnapshot) -> PumpCycleView {
    PumpCycleView::started(
        config.pump_addr,
        if snapshot.set_speed <= spd_limit(config.spd_max) {
            snapshot.set_speed
        } else {
            spd_limit(config.spd_max)
        },
        config.spd_max,
        snapshot.update_pump,
    )
}

/// The relay cycle of a service: relays that are unsent are written, else they are only read.
pub open spec fn service_relay_cycle(
    config: ModbusConfig,
    snapshot: BusSnapshot,
) -> RelayCycleView {
    RelayCycleView::started(config.relay_addr, snapshot.relays, snapshot.update_relays)
}

impl BusServiceView {
    /// A service that is about to start.
    pub open spec fn started(
        config: ModbusConfig,
        snapshot: BusSnapshot,
        do_relay: bool,
        do_pump: bool,
    ) -> BusServiceView {
        BusServiceView {
            config,
            snapshot,
            do_pump,
            stage: if do_relay {
                StageView::Relay(service_relay_cycle(config, snapshot))
            } else if do_pump {
                StageView::Pump(service_pump_cycle(config, snapshot))
            } else {
                StageView::Over
            },
        }
    }

    /// What is to be done next.
    pub open spec fn step(self) -> ServiceStepView {
        let cycle_step = match self.stage {
            StageView::Relay(cycle) => cycle.step(),
            StageView::Pump(cycle) => cycle.step(),
            StageView::Over => BusStepView::Finished,
        };
        match cycle_step {
            BusStepView::Transact { frame, min_len } => ServiceStepView::Transact {
                frame,
                min_len,
            },
            BusStepView::Pause => ServiceStepView::Pause,
            BusStepView::Finished => if self.stage == StageView::Over {
                ServiceStepView::Finished
            } else {
                ServiceStepView::Report
            },
        }
    }

    /// The service after the reply to its frame.
    pub open spec fn after_reply(self, reply: Result<Seq<u8>, RtuFault>) -> BusServiceView {
        BusServiceView {
            stage: match self.stage {
                StageView::Relay(cycle) => StageView::Relay(cycle.after_reply(reply)),
                StageView::Pump(cycle) => StageView::Pump(cycle.after_reply(reply)),
                StageView::Over => StageView::Over,
            },
            ..self
        }
    }

    /// The service after a pause.
    pub open spec fn after_pause(self) -> BusServiceView {
        BusServiceView {
            stage: match self.stage {
                StageView::Relay(cycle) => StageView::Relay(cycle.after_pause()),
                StageView::Pump(cycle) => StageView::Pump(cycle.after_pause()),
                StageView::Over => StageView::Over,
            },
            ..self
        }
    }

    /// The service after a report: the pump follows the relay board where it is due.
    pub open spec fn after_report(self) -> BusServiceView {
        BusServiceView {
            stage: match self.stage {
                StageView::Relay(cycle) => if cycle.result is None {
                    self.stage
                } else if self.do_pump {
                    StageView::Pump(service_pump_cycle(self.config, self.snapshot))
                } else {
                    StageView::Over
                },
                StageView::Pump(cycle) => if cycle.phase == PumpPhase::Done {
                    StageView::Over
                } else {
                    self.stage
                },
                StageView::Over => StageView::Over,
            },
            ..self
        }
    }

    /// The state after a report. A cycle that is not over, or failed, leaves it as it was.
    pub open spec fn reported(self, state: PoolState) -> PoolState {
        match self.stage {
            StageView::Relay(cycle) => match cycle.result {
                Some(Ok(measured)) => state.with_relay_status(self.snapshot, measured),
                _ => state,
            },
            StageView::Pump(cycle) => if cycle.phase == PumpPhase::Done {
                state.with_pump_readings(self.snapshot, cycle.readings)
            } else {
                state
            },
            StageView::Over => state,
        }
    }

    /// Whether a report is published at once.
    pub open spec fn report_hint(self, state: PoolState) -> PublishHint {
        match self.stage {
            StageView::Relay(cycle) => match cycle.result {
                Some(Ok(measured)) => state.relay_status_hint(self.snapshot, measured),
                _ => PublishHint::Silent,
            },
            StageView::Pump(cycle) => if cycle.phase == PumpPhase::Done {
                state.pump_readings_hint(cycle.readings)
            } else {
                PublishHint::Silent
            },
            StageView::Over => PublishHint::Silent,
        }
    }

    /// What a report says went wrong.
    pub open spec fn report_fault(self) -> Option<RtuFault> {
        match self.stage {
            StageView::Relay(cycle) => match cycle.result {
                Some(Err(fault)) => Some(fault),
                _ => None,
            },
            _ => None,
        }
    }
}

impl View for BusService {
    type V = BusServiceView;

    closed spec fn view(&self) -> BusServiceView {
        BusServiceView {
            config: self.config,
            snapshot: self.snapshot,
            do_pump: self.do_pump,
            stage: match self.stage {
                Stage::Relay(cycle) => StageView::Relay(cycle@),
                Stage::Pump(cycle) => StageView::Pump(cycle@),
                Stage::Over => StageView::Over,
            },
        }
    }
}

fn start_pump(config: &ModbusConfig, snapshot: &BusSnapshot) -> (cycle: PumpCycle)
    ensures
        cycle@ == service_pump_cycle(*config, *snapshot),
{
    let limit: u16 = if config.spd_max == 0 {
        DEFAULT_SPD_MAX
    } else {
        config.spd_max
    };
    let spd: u16 = if snapshot.set_speed <= limit {
        snapshot.set_speed
    } else {
        limit
    };
    PumpCycle::new(config.pump_addr, spd, config.spd_max, snapshot.update_pump)
}

impl BusService {
    /// Starts a service of the relay board, the pump, or both, by the state of the moment.
    pub fn new(config: &ModbusConfig, state: &PoolState, do_relay: bool, do_pump: bool) -> (service:
        Self)
        ensures
            service@ == BusServiceView::started(
                *config,
                BusSnapshot::taken(*state),
                do_relay,
                do_pump,
            ),
    {
        let snapshot = BusSnapshot::of(state);
        let stage = if do_relay {
            Stage::Relay(
                RelayCycle::new(config.relay_addr, snapshot.relays, snapshot.update_relays),
            )
        } else if do_pump {
            Stage::Pump(start_pump(config, &snapshot))
        } else {
            Stage::Over
        };
        BusService { config: *config, snapshot, do_pump, stage }
    }

    /// What is to be done next.
    pub fn step(&self) -> (step: ServiceStep)
        ensures
            step@ == self@.step(),
    {
        let cycle_step = match &self.stage {
            Stage::Relay(cycle) => cycle.step(),
            Stage::Pump(cycle) => cycle.step(),
            Stage::Over => {
                return ServiceStep::Finished;
            },
        };
        match cycle_step {
            BusStep::Transact { frame, min_len } => ServiceStep::Transact { frame, min_len },
            BusStep::Pause => ServiceStep::Pause,
            BusStep::Finished => ServiceStep::Report,
        }
    }

    /// Takes in the reply to the frame that was sent.
    pub fn on_reply(&mut self, reply: Result<Vec<u8>, RtuError>)
        ensures
            final(self)@ == old(self)@.after_reply(outcome(reply)),
    {
        match &mut self.stage {
            Stage::Relay(cycle) => cycle.on_reply(reply),
            Stage::Pump(cycle) => cycle.on_reply(reply),
            Stage::Over => {},
        }
    }

    /// Takes in that a pause is over.
    pub fn on_pause(&mut self)
        ensures
            final(self)@ == old(self)@.after_pause(),
    {
        match &mut self.stage {
            Stage::Relay(cycle) => cycle.on_pause(),
            Stage::Pump(cycle) => cycle.on_pause(),
            Stage::Over => {},
        }
    }

    /// Puts what the cycle that has ended came to into the state, and goes on to the next one.
    pub fn report(&mut self, state: &mut PoolState) -> (report: ServiceReport)
        ensures
            final(self)@ == old(self)@.after_report(),
            *final(state) == old(self)@.reported(*old(state)),
            report.hint == old(self)@.report_hint(*old(state)),
            match report.fault {
                Some(error) => old(self)@.report_fault() == Some(error@),
                None => old(self)@.report_fault() is None,
            },
    {
        let mut stage = Stage::Over;
        std::mem::swap(&mut stage, &mut self.stage);
        match stage {
            Stage::Relay(cycle) => {
                if !cycle.has_result() {
                    self.stage = Stage::Relay(cycle);
                    return ServiceReport { hint: PublishHint::Silent, fault: None };
                }
                if self.do_pump {
                    self.stage = Stage::Pump(start_pump(&self.config, &self.snapshot));
                }
                match cycle.finish() {
                    Some(Ok(measured)) => {
                        let hint = state.record_relay_status(&self.snapshot, measured);
                        ServiceReport { hint, fault: None }
                    },
                    Some(Err(error)) => ServiceReport {
                        hint: PublishHint::Silent,
                        fault: Some(error),
                    },
                    None => ServiceReport { hint: PublishHint::Silent, fault: None },
                }
            },
            Stage::Pump(cycle) => {
                if !cycle.is_over() {
                    self.stage = Stage::Pump(cycle);
                    return ServiceReport { hint: PublishHint::Silent, fault: None };
                }
                let readings = cycle.readings();
                let hint = state.record_pump_readings(&self.snapshot, &readings);
                ServiceReport { hint, fault: None }
            },
            Stage::Over => ServiceReport { hint: PublishHint::Silent, fault: None },
        }
    }
}

/// A service never changes what is commanded, and never marks anything as unsent: only a command
/// does.
pub proof fn law_service_keeps_commands(service: BusServiceView, state: PoolState)
    ensures
        ({
            let after = service.reported(state);
            &&& after.commanded == state.commanded
            &&& after.update_relays ==> state.update_relays
            &&& after.update_pump ==> state.update_pump
            &&& after.water_temp_settling == state.water_temp_settling
            &&& after.measured.spa_temp == state.measured.spa_temp
            &&& after.measured.pool_temp == state.measured.pool_temp
        }),
{
}

/// Relays stop counting as unsent only once the board reports exactly the commanded ones.
pub proof fn law_relays_unsent_until_confirmed(service: BusServiceView, state: PoolState)
    requires
        state.update_relays,
        !service.reported(state).update_relays,
    ensures
        service.snapshot.update_relays,
        service.reported(state).measured.relay_status == Some(state.commanded.relays),
{
}

/// The speed stops counting as unsent only once the pump has acknowledged the commanded one.
pub proof fn law_speed_unsent_until_acknowledged(service: BusServiceView, state: PoolState)
    requires
        state.update_pump,
        !service.reported(state).update_pump,
    ensures
        service.snapshot.update_pump,
        service.snapshot.set_speed == state.commanded.set_speed,
        service.stage matches StageView::Pump(cycle) && cycle.readings.actuated,
{
}

/// A command that comes while the bus is serviced stays unsent: where the commanded relays or the
/// commanded speed are no longer those that the service began with, they keep their mark.
pub proof fn law_later_command_stays_unsent(service: BusServiceView, state: PoolState)
    ensures
        state.commanded.relays != service.snapshot.relays ==> service.reported(
            state,
        ).update_relays == state.update_relays,
        state.commanded.set_speed != service.snapshot.set_speed ==> service.reported(
            state,
        ).update_pump == state.update_pump,
{
}

/// A relay cycle that fails changes nothing, so the next service tries again.
pub proof fn law_failed_relay_cycle_changes_nothing(service: BusServiceView, state: PoolState)
    requires
        service.report_fault() is Some,
    ensures
        service.reported(state) == state,
        service.report_hint(state) == PublishHint::Silent,
{
}

/// Relays that were written and come back as commanded are sent: their mark goes, and the report is
/// published.
pub proof fn law_confirmed_relays_are_sent(
    service: BusServiceView,
    state: PoolState,
    cycle: RelayCycleView,
)
    requires
        service.stage == StageView::Relay(cycle),
        service.snapshot.update_relays,
        state.commanded.relays == service.snapshot.relays,
        cycle.result == Some(Ok::<u8, RtuFault>(state.commanded.relays)),
    ensures
        !service.reported(state).update_relays,
        service.report_hint(state) == PublishHint::Immediate,
{
}

/// A speed that was to be sent and was acknowledged is sent: its mark goes, and the report is
/// published.
pub proof fn law_acknowledged_speed_is_sent(
    service: BusServiceView,
    state: PoolState,
    cycle: PumpCycleView,
)
    requires
        service.stage == StageView::Pump(cycle),
        cycle.phase == PumpPhase::Done,
        cycle.readings.actuated,
        service.snapshot.update_pump,
        state.commanded.set_speed == service.snapshot.set_speed,
    ensures
        !service.reported(state).update_pump,
        service.report_hint(state) == PublishHint::Immediate,
{
}

/// A service that is due for both devices starts with the relay board.
pub proof fn law_relay_board_comes_first(
    config: ModbusConfig,
    snapshot: BusSnapshot,
    do_pump: bool,
)
    ensures
        BusServiceView::started(config, snapshot, true, do_pump).stage == StageView::Relay(
            service_relay_cycle(config, snapshot),
        ),
{
}

/// Where the pump is due too, its cycle follows that of the relay board, whether or not the relay
/// board answered.
pub proof fn law_pump_follows_relay_board(service: BusServiceView, cycle: RelayCycleView)
    requires
        service.stage == StageView::Relay(cycle),
        cycle.result is Some,
        service.do_pump,
    ensures
        service.after_report().stage == StageView::Pump(
            service_pump_cycle(service.config, service.snapshot),
        ),
{
}

/// A new speed reading alone is no reason to publish.
pub proof fn law_rpm_alone_is_not_published(state: PoolState, readings: PumpReadings)
    requires
        !readings.actuated,
        readings.watt is None || readings.watt == Some(state.measured.watt),
        readings.air_temp is None || readings.air_temp == Some(state.measured.air_temp),
    ensures
        state.pump_readings_hint(readings) == PublishHint::Silent,
{
}

/// A step of a service is seen as what is to be done.
pub proof fn law_service_step_views(frame: Vec<u8>, min_len: usize)
    ensures
        (ServiceStep::Transact { frame, min_len })@ == (ServiceStepView::Transact {
            frame: frame@,
            min_len: min_len as nat,
        }),
        ServiceStep::Pause@ == ServiceStepView::Pause,
        ServiceStep::Report@ == ServiceStepView::Report,
        ServiceStep::Finished@ == ServiceStepView::Finished,
{
}

/// A service goes by what is commanded and unsent when it begins.
pub proof fn law_snapshot(state: PoolState)
    ensures
        BusSnapshot::taken(state).relays == state.commanded.relays,
        BusSnapshot::taken(state).set_speed == state.commanded.set_speed,
        BusSnapshot::taken(state).update_relays == state.update_relays,
        BusSnapshot::taken(state).update_pump == state.update_pump,
{
}

/// The relay board's report becomes the feedback. The relays lose their mark exactly where they
/// were unsent when the service began, are what the board reports, and have not been commanded
/// otherwise since; nothing else changes. The report is published at once unless it repeats the one
/// before it and follows no write.
pub proof fn law_relay_report(state: PoolState, snapshot: BusSnapshot, measured: u8)
    ensures
        ({
            let after = state.with_relay_status(snapshot, measured);
            &&& after.measured.relay_status == Some(measured)
            &&& after.update_relays <==> state.update_relays && !(snapshot.update_relays && measured
                == snapshot.relays && state.commanded.relays == snapshot.relays)
            &&& after.commanded == state.commanded
            &&& after.update_pump == state.update_pump
            &&& after.water_temp_settling == state.water_temp_settling
            &&& after.measured.rpm == state.measured.rpm
            &&& after.measured.watt == state.measured.watt
            &&& after.measured.air_temp == state.measured.air_temp
            &&& after.measured.spa_temp == state.measured.spa_temp
            &&& after.measured.pool_temp == state.measured.pool_temp
            &&& after.measured.ip == state.measured.ip
            &&& state.relay_status_hint(snapshot, measured) == PublishHint::Silent
                <==> !snapshot.update_relays && state.measured.relay_status == Some(measured)
        }),
{
}

/// Each reading of the pump replaces the one before it, speed, power and air temperature each its
/// own, and one that is missing leaves it. The speed setting loses its mark exactly where it was
/// unsent when the service began, was acknowledged, and has not been commanded otherwise since;
/// nothing else changes. The readings are published at once exactly where the pump was actuated, or
/// its power or the air temperature is another.
pub proof fn law_pump_report(state: PoolState, snapshot: BusSnapshot, readings: PumpReadings)
    ensures
        ({
            let after = state.with_pump_readings(snapshot, readings);
            &&& readings.rpm matches Some(rpm) ==> after.measured.rpm == rpm
            &&& readings.rpm is None ==> after.measured.rpm == state.measured.rpm
            &&& readings.watt matches Some(watt) ==> after.measured.watt == watt
            &&& readings.watt is None ==> after.measured.watt == state.measured.watt
            &&& readings.air_temp matches Some(air) ==> after.measured.air_temp == air
            &&& readings.air_temp is None ==> after.measured.air_temp == state.measured.air_temp
            &&& after.update_pump <==> state.update_pump && !(snapshot.update_pump
                && readings.actuated && state.commanded.set_speed == snapshot.set_speed)
            &&& after.commanded == state.commanded
            &&& after.update_relays == state.update_relays
            &&& after.water_temp_settling == state.water_temp_settling
            &&& after.measured.relay_status == state.measured.relay_status
            &&& after.measured.spa_temp == state.measured.spa_temp
            &&& after.measured.pool_temp == state.measured.pool_temp
            &&& after.measured.ip == state.measured.ip
            &&& state.pump_readings_hint(readings) == PublishHint::Immediate <==> readings.actuated
                || after.measured.watt != state.measured.watt || after.measured.air_temp
                != state.measured.air_temp
        }),
{
}

/// The relay cycle of a service is one for the relay board, with the relays of the moment, and it
/// writes exactly where they are unsent: its first frame is then a write of channel 0, else a read.
pub proof fn law_service_relay_cycle(config: ModbusConfig, snapshot: BusSnapshot, do_pump: bool)
    ensures
        ({
            let service = BusServiceView::started(config, snapshot, true, do_pump);
            &&& service.stage matches StageView::Relay(cycle) && cycle.addr == config.relay_addr
                && cycle.commanded == snapshot.relays && cycle.write == snapshot.update_relays
                && !cycle.retried && cycle.result is None
            &&& service.step() matches ServiceStepView::Transact { frame, .. } && frame[0]
                == config.relay_addr && (if snapshot.update_relays {
                frame[1] == 0x05 && frame[3] == 0 && (frame[4] == 0xFF <==> snapshot.relays & 0x01
                    != 0)
            } else {
                frame[1] == 0x01
            })
        }),
{
    law_relay_frame_bytes(config.relay_addr, 0, relay_on(snapshot.relays, 0));
    law_relay_bits(snapshot.relays, 0);
}

/// The pump cycle of a service is one for the pump, with the speed of the moment or the limit, if
/// that is less, and it is forced exactly where the speed is unsent. The demand that it sends is
/// that of the commanded speed.
pub proof fn law_service_pump_cycle(config: ModbusConfig, snapshot: BusSnapshot)
    ensures
        ({
            let service = BusServiceView::started(config, snapshot, false, true);
            let limit = if config.spd_max == 0 {
                35
            } else {
                config.spd_max as int
            };
            &&& service.stage matches StageView::Pump(cycle) && cycle.addr == config.pump_addr
                && cycle.spd <= limit && cycle.spd <= snapshot.set_speed && (cycle.spd == limit
                || cycle.spd == snapshot.set_speed) && cycle.force == snapshot.update_pump
                && cycle.demand == demand_word(snapshot.set_speed, config.spd_max)
            &&& service.step() matches ServiceStepView::Transact { frame, .. } && frame[0]
                == config.pump_addr && (if snapshot.update_pump || snapshot.set_speed > 0 {
                frame[1] == 0x44 && frame[3] == 0x00 && frame[4] + 256 * frame[5] == demand_word(
                    snapshot.set_speed,
                    config.spd_max,
                )
            } else {
                frame[1] == 0x43
            })
        }),
{
    let limit = spd_limit(config.spd_max);
    let spd = if snapshot.set_speed <= limit {
        snapshot.set_speed
    } else {
        limit
    };
    law_demand_range(spd, config.spd_max);
    law_demand_range(snapshot.set_speed, config.spd_max);
    law_pump_frame_bytes(
        config.pump_addr,
        0,
        0x00,
        demand_word(spd, config.spd_max) as u16,
    );
}

/// A service does what its cycle does: it sends the frame that the cycle sends, pauses when the
/// cycle pauses, reports when the cycle is over, and hands every reply and every pause to it. Once
/// all cycles are over it is finished.
pub proof fn law_service_runs_its_cycle(
    service: BusServiceView,
    reply: Result<Seq<u8>, RtuFault>,
)
    ensures
        service.stage matches StageView::Relay(cycle) ==> ({
            &&& service.after_reply(reply).stage == StageView::Relay(cycle.after_reply(reply))
            &&& service.after_pause().stage == StageView::Relay(cycle.after_pause())
            &&& cycle.step() matches BusStepView::Transact { frame, min_len } ==> service.step()
                == (ServiceStepView::Transact { frame, min_len })
            &&& cycle.step() == BusStepView::Pause <==> service.step() == ServiceStepView::Pause
            &&& cycle.step() == BusStepView::Finished <==> service.step()
                == ServiceStepView::Report
        }),
        service.stage matches StageView::Pump(cycle) ==> ({
            &&& service.after_reply(reply).stage == StageView::Pump(cycle.after_reply(reply))
            &&& service.after_pause().stage == StageView::Pump(cycle.after_pause())
            &&& cycle.step() matches BusStepView::Transact { frame, min_len } ==> service.step()
                == (ServiceStepView::Transact { frame, min_len })
            &&& cycle.step() == BusStepView::Pause <==> service.step() == ServiceStepView::Pause
            &&& cycle.step() == BusStepView::Finished <==> service.step()
                == ServiceStepView::Report
        }),
        service.stage == StageView::Over <==> service.step() == ServiceStepView::Finished,
        service.after_reply(reply).snapshot == service.snapshot,
        service.after_reply(reply).config == service.config,
        service.after_reply(reply).do_pump == service.do_pump,
        service.after_pause().snapshot == service.snapshot,
        service.after_pause().config == service.config,
        service.after_pause().do_pump == service.do_pump,
        service.after_report().snapshot == service.snapshot,
        service.after_report().config == service.config,
        service.after_report().do_pump == service.do_pump,
{
}

/// What a report comes to. A relay cycle that ended well changes the state by its status, one that
/// failed tells of its fault and changes nothing, and a pump cycle that is over changes the state by
/// its readings. After it the service goes on to the pump, if that is due and has not been serviced,
/// and is else over. A cycle that is not over is left alone.
pub proof fn law_reports(service: BusServiceView, state: PoolState)
    ensures
        match service.stage {
            StageView::Relay(cycle) => match cycle.result {
                Some(Ok(measured)) => {
                    &&& service.reported(state) == state.with_relay_status(
                        service.snapshot,
                        measured,
                    )
                    &&& service.report_hint(state) == state.relay_status_hint(
                        service.snapshot,
                        measured,
                    )
                    &&& service.report_fault() is None
                    &&& service.after_report().stage is Pump <==> service.do_pump
                    &&& service.after_report().stage is Over <==> !service.do_pump
                },
                Some(Err(fault)) => {
                    &&& service.reported(state) == state
                    &&& service.report_hint(state) == PublishHint::Silent
                    &&& service.report_fault() == Some(fault)
                    &&& service.after_report().stage is Pump <==> service.do_pump
                    &&& service.after_report().stage is Over <==> !service.do_pump
                },
                None => {
                    &&& service.reported(state) == state
                    &&& service.report_hint(state) == PublishHint::Silent
                    &&& service.report_fault() is None
                    &&& service.after_report() == service
                },
            },
            StageView::Pump(cycle) => {
                &&& service.report_fault() is None
                &&& cycle.phase == PumpPhase::Done ==> service.reported(state)
                    == state.with_pump_readings(service.snapshot, cycle.readings)
                    && service.report_hint(state) == state.pump_readings_hint(cycle.readings)
                    && service.after_report().stage == StageView::Over
                &&& cycle.phase != PumpPhase::Done ==> service.reported(state) == state
                    && service.report_hint(state) == PublishHint::Silent && service.after_report()
                    == service
            },
            StageView::Over => {
                &&& service.reported(state) == state
                &&& service.report_hint(state) == PublishHint::Silent
                &&& service.report_fault() is None
                &&& service.after_report() == service
            },
        },
{
}

/// A service that is due for nothing is over at once, and none begins with the pump where the relay
/// board is due.
pub proof fn law_service_starts(
    config: ModbusConfig,
    snapshot: BusSnapshot,
    do_relay: bool,
    do_pump: bool,
)
    ensures
        ({
            let service = BusServiceView::started(config, snapshot, do_relay, do_pump);
            &&& service.stage is Relay <==> do_relay
            &&& service.stage is Pump <==> do_pump && !do_relay
            &&& service.stage is Over <==> !do_pump && !do_relay
            &&& service.config == config
            &&& service.snapshot == snapshot
            &&& service.do_pump == do_pump
        }),
{
}

} // verus!
