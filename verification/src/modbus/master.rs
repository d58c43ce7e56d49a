//! The owner of the bus: when the port is opened, and when which device is serviced.
use vstd::prelude::*;

use crate::config::{at_least, raise_to, ModbusConfig};
use crate::health::HealthState;
use crate::state::PoolState;

verus! {

/// Seconds between two attempts to open the port.
pub const OPEN_RETRY_SECS: u64 = 5;

/// The times that the bus runs by.
#[derive(Debug, Clone, Copy, PartialEq, Eq, Structural)]
pub struct BusTimings {
    pub response_timeout_ms: u64,
    pub inter_frame_ms: u64,
    pub relay_poll_secs: u64,
    pub pump_poll_secs: u64,
}

impl BusTimings {
    /// The configured times, raised to what the bus needs: 100 ms for a reply, 10 ms between
    /// frames, and a second between polls.
    pub fn of(config: &ModbusConfig) -> (timings: Self)
        ensures
            timings == (BusTimings {
                response_timeout_ms: at_least(config.response_timeout_ms, 100),
                inter_frame_ms: at_least(config.inter_frame_ms, 10),
                relay_poll_secs: at_least(config.relay_poll_secs, 1),
                pump_poll_secs: at_least(config.pump_poll_secs, 1),
            }),
    {
        BusTimings {
            response_timeout_ms: raise_to(config.response_timeout_ms, 100),
            inter_frame_ms: raise_to(config.inter_frame_ms, 10),
            relay_poll_secs: raise_to(config.relay_poll_secs, 1),
            pump_poll_secs: raise_to(config.pump_poll_secs, 1),
        }
    }
}

/// What the owner of the bus does.
#[derive(Debug, Clone, Copy, PartialEq, Eq, Structural)]
pub enum MasterAction {
    /// Open the port.
    Open,
    /// Wait before the port is tried again.
    RetryWait,
    /// Wait for something to do.
    Wait,
    /// Service the relay board, the pump, or both.
    Service { relay: bool, pump: bool },
    /// Stop.
    Stop,
}

/// What the owner of the bus learns.
#[derive(Debug, Clone, Copy, PartialEq, Eq, Structural)]
pub enum MasterEvent {
    Opened,
    OpenFailed,
    /// The shutdown flag was set to this.
    Shutdown(bool),
    /// The wait before the next attempt is over.
    RetryElapsed,
    /// Someone has commanded something; this is unsent now.
    Notified { update_relays: bool, update_pump: bool },
    /// The relay board is due.
    RelayTick,
    /// The pump is due.
    PumpTick,
    /// The service is done.
    Serviced,
}

/// The owner of the bus.
#[derive(Debug, Clone, Copy, PartialEq, Eq, Structural)]
pub struct BusMaster {
    pub action: MasterAction,
    /// The first service, of both devices, is still to come.
    pub boot_pending: bool,
    /// Failed attempts to open the port since the last that succeeded.
    pub open_failures: u32,
}

impl BusMaster {
    /// The owner at the start. It stops at once where the bus is off.
    pub open spec fn started(enabled: bool) -> BusMaster {
        BusMaster {
            action: if enabled {
                MasterAction::Open
            } else {
                MasterAction::Stop
            },
            boot_pending: true,
            open_failures: 0,
        }
    }

    /// The owner once it has learned of `event`.
    pub open spec fn after(self, event: MasterEvent) -> BusMaster {
        match (self.action, event) {
            (MasterAction::Open, MasterEvent::Opened) => BusMaster {
                action: if self.boot_pending {
                    MasterAction::Service { relay: true, pump: true }
                } else {
                    MasterAction::Wait
                },
                boot_pending: false,
                open_failures: 0,
            },
            (MasterAction::Open, MasterEvent::OpenFailed) => BusMaster {
                action: MasterAction::RetryWait,
                open_failures: if self.open_failures < u32::MAX {
                    (self.open_failures + 1) as u32
                } else {
                    u32::MAX
                },
                ..self
            },
            (MasterAction::RetryWait, MasterEvent::Shutdown(stop)) => BusMaster {
                action: if stop {
                    MasterAction::Stop
                } else {
                    MasterAction::Open
                },
                ..self
            },
            (MasterAction::RetryWait, MasterEvent::RetryElapsed) => BusMaster {
                action: MasterAction::Open,
                ..self
            },
            (MasterAction::Wait, MasterEvent::Shutdown(stop)) => BusMaster {
                action: if stop {
                    MasterAction::Stop
                } else {
                    MasterAction::Wait
                },
                ..self
            },
            (MasterAction::Wait, MasterEvent::Notified { update_relays, update_pump }) => BusMaster {
                action: if update_relays || update_pump {
                    MasterAction::Service { relay: update_relays, pump: update_pump }
                } else {
                    MasterAction::Wait
                },
                ..self
            },
            (MasterAction::Wait, MasterEvent::RelayTick) => BusMaster {
                action: MasterAction::Service { relay: true, pump: false },
                ..self
            },
            (MasterAction::Wait, MasterEvent::PumpTick) => BusMaster {
                action: MasterAction::Service { relay: false, pump: true },
                ..self
            },
            (MasterAction::Service { .. }, MasterEvent::Serviced) => BusMaster {
                action: MasterAction::Wait,
                ..self
            },
            _ => self,
        }
    }

    /// What health says of the bus once the owner has learned of `event`.
    pub open spec fn modbus_ok_after(self, event: MasterEvent, ok: bool) -> bool {
        match (self.action, event) {
            (MasterAction::Open, MasterEvent::Opened) => true,
            (MasterAction::Open, MasterEvent::OpenFailed) => false,
            _ => ok,
        }
    }

    /// Starts the owner. Where the bus is on, all that is commanded counts as unsent, so that the
    /// devices are brought to it.
    pub fn start(config: &ModbusConfig, state: &mut PoolState) -> (master: Self)
        ensures
            master == BusMaster::started(config.enabled),
            config.enabled ==> *final(state) == (PoolState {
                update_relays: true,
                update_pump: true,
                ..*old(state)
            }),
            !config.enabled ==> *final(state) == *old(state),
    {
        if config.enabled {
            state.update_relays = true;
            state.update_pump = true;
            BusMaster { action: MasterAction::Open, boot_pending: true, open_failures: 0 }
        } else {
            BusMaster { action: MasterAction::Stop, boot_pending: true, open_failures: 0 }
        }
    }

    /// Learns of `event`.
    pub fn on_event(&mut self, event: MasterEvent, health: &mut HealthState)
        ensures
            *final(self) == old(self).after(event),
            *final(health) == (HealthState {
                modbus_ok: old(self).modbus_ok_after(event, old(health).modbus_ok),
                ..*old(health)
            }),
    {
        match (self.action, event) {
            (MasterAction::Open, MasterEvent::Opened) => {
                health.modbus_ok = true;
                self.open_failures = 0;
                if self.boot_pending {
                    self.boot_pending = false;
                    self.action = MasterAction::Service { relay: true, pump: true };
                } else {
                    self.action = MasterAction::Wait;
                }
            },
            (MasterAction::Open, MasterEvent::OpenFailed) => {
                self.open_failures = self.open_failures.saturating_add(1);
                health.modbus_ok = false;
                self.action = MasterAction::RetryWait;
            },
            (MasterAction::RetryWait, MasterEvent::Shutdown(stop)) => {
                self.action = if stop {
                    MasterAction::Stop
                } else {
                    MasterAction::Open
                };
            },
            (MasterAction::RetryWait, MasterEvent::RetryElapsed) => {
                self.action = MasterAction::Open;
            },
            (MasterAction::Wait, MasterEvent::Shutdown(stop)) => {
                if stop {
                    self.action = MasterAction::Stop;
                }
            },
            (MasterAction::Wait, MasterEvent::Notified { update_relays, update_pump }) => {
                if update_relays || update_pump {
                    self.action = MasterAction::Service {
                        relay: update_relays,
                        pump: update_pump,
                    };
                }
            },
            (MasterAction::Wait, MasterEvent::RelayTick) => {
                self.action = MasterAction::Service { relay: true, pump: false };
            },
            (MasterAction::Wait, MasterEvent::PumpTick) => {
                self.action = MasterAction::Service { relay: false, pump: true };
            },
            (MasterAction::Service { .. }, MasterEvent::Serviced) => {
                self.action = MasterAction::Wait;
            },
            _ => {},
        }
    }
}

/// The owner after a run of events.
pub open spec fn master_run(enabled: bool, events: Seq<MasterEvent>) -> BusMaster
    decreases events.len(),
{
    if events.len() == 0 {
        BusMaster::started(enabled)
    } else {
        master_run(enabled, events.drop_last()).after(events.last())
    }
}

/// The owner never gives up: where the bus is on, it stops only for a shutdown.
pub proof fn law_master_stops_only_for_shutdown(events: Seq<MasterEvent>)
    requires
        forall|i: int| 0 <= i < events.len() ==> (#[trigger] events[i]) != MasterEvent::Shutdown(true),
    ensures
        master_run(true, events).action != MasterAction::Stop,
    decreases events.len(),
{
    if events.len() > 0 {
        assert forall|i: int| 0 <= i < events.drop_last().len() implies (
        #[trigger] events.drop_last()[i]) != MasterEvent::Shutdown(true) by {
            assert(events[i] != MasterEvent::Shutdown(true));
        }
        law_master_stops_only_for_shutdown(events.drop_last());
        assert(events[events.len() - 1] != MasterEvent::Shutdown(true));
    }
}

/// Once stopped, the owner stays stopped. Where the bus is off, that is from the start.
pub proof fn law_stopped_master_stays_stopped(master: BusMaster, event: MasterEvent)
    requires
        master.action == MasterAction::Stop,
    ensures
        master.after(event) == master,
{
}

/// No device is serviced, and nothing is waited for, before the port has been opened; once it has
/// been opened it is not opened again.
pub proof fn law_master_opens_port_once(events: Seq<MasterEvent>)
    ensures
        ({
            let master = master_run(true, events);
            &&& master.boot_pending ==> master.action == MasterAction::Open || master.action
                == MasterAction::RetryWait || master.action == MasterAction::Stop
            &&& !master.boot_pending ==> master.action != MasterAction::Open && master.action
                != MasterAction::RetryWait
        }),
    decreases events.len(),
{
    if events.len() > 0 {
        law_master_opens_port_once(events.drop_last());
    }
}

/// The first thing that follows the opening of the port is a service of both devices.
pub proof fn law_boot_services_both(events: Seq<MasterEvent>)
    ensures
        ({
            let before = master_run(true, events);
            before.action == MasterAction::Open ==> before.after(MasterEvent::Opened).action == (
            MasterAction::Service { relay: true, pump: true })
        }),
{
    law_master_opens_port_once(events);
}

/// The owner starts by opening the port, or stops at once where the bus is off.
pub proof fn law_master_start(enabled: bool)
    ensures
        enabled ==> BusMaster::started(enabled).action == MasterAction::Open,
        !enabled ==> BusMaster::started(enabled).action == MasterAction::Stop,
        BusMaster::started(enabled).boot_pending,
        BusMaster::started(enabled).open_failures == 0,
{
}

/// A port that cannot be opened is tried again after a wait, however often that happens; the
/// failures are counted, and opening the port clears the count. Health follows: it is good from the
/// opening of the port on, and bad from a failure on, and nothing else changes it.
pub proof fn law_master_opening(master: BusMaster, event: MasterEvent, ok: bool)
    requires
        master.action == MasterAction::Open,
    ensures
        master.after(MasterEvent::OpenFailed).action == MasterAction::RetryWait,
        master.open_failures < u32::MAX ==> master.after(MasterEvent::OpenFailed).open_failures
            == master.open_failures + 1,
        master.open_failures == u32::MAX ==> master.after(MasterEvent::OpenFailed).open_failures
            == u32::MAX,
        master.after(MasterEvent::OpenFailed).boot_pending == master.boot_pending,
        master.after(MasterEvent::OpenFailed).after(MasterEvent::RetryElapsed).action
            == MasterAction::Open,
        master.after(MasterEvent::OpenFailed).after(MasterEvent::Shutdown(true)).action
            == MasterAction::Stop,
        master.after(MasterEvent::OpenFailed).after(MasterEvent::Shutdown(false)).action
            == MasterAction::Open,
        master.boot_pending ==> master.after(MasterEvent::Opened).action == (
        MasterAction::Service { relay: true, pump: true }),
        !master.boot_pending ==> master.after(MasterEvent::Opened).action == MasterAction::Wait,
        master.after(MasterEvent::Opened).open_failures == 0,
        !master.after(MasterEvent::Opened).boot_pending,
        master.modbus_ok_after(MasterEvent::Opened, ok),
        !master.modbus_ok_after(MasterEvent::OpenFailed, ok),
        event != MasterEvent::Opened && event != MasterEvent::OpenFailed ==> master.modbus_ok_after(
            event,
            ok,
        ) == ok && master.after(event) == master,
{
}

/// While it waits, the owner services exactly what is due: the relay board for its tick, the pump
/// for its tick, and for a notification whatever is unsent. It stops for a shutdown, and goes on
/// waiting for anything else. Health does not change.
pub proof fn law_master_waiting(
    master: BusMaster,
    event: MasterEvent,
    update_relays: bool,
    update_pump: bool,
    ok: bool,
)
    requires
        master.action == MasterAction::Wait,
    ensures
        master.after(MasterEvent::RelayTick).action == (MasterAction::Service {
            relay: true,
            pump: false,
        }),
        master.after(MasterEvent::PumpTick).action == (MasterAction::Service {
            relay: false,
            pump: true,
        }),
        ({
            let after = master.after(MasterEvent::Notified { update_relays, update_pump });
            &&& update_relays || update_pump ==> after.action == (MasterAction::Service {
                relay: update_relays,
                pump: update_pump,
            })
            &&& !update_relays && !update_pump ==> after.action == MasterAction::Wait
        }),
        master.after(MasterEvent::Shutdown(true)).action == MasterAction::Stop,
        master.after(MasterEvent::Shutdown(false)).action == MasterAction::Wait,
        event == MasterEvent::Opened || event == MasterEvent::OpenFailed || event
            == MasterEvent::RetryElapsed || event == MasterEvent::Serviced ==> master.after(event)
            == master,
        master.after(event).open_failures == master.open_failures,
        master.after(event).boot_pending == master.boot_pending,
        master.modbus_ok_after(event, ok) == ok,
{
}

/// A service goes on until it is done, and then the owner waits; while it waits five seconds to try
/// the port again, it minds only the end of that wait and the shutdown flag. Neither changes health.
pub proof fn law_master_busy(master: BusMaster, event: MasterEvent, ok: bool)
    requires
        master.action is Service || master.action == MasterAction::RetryWait,
    ensures
        OPEN_RETRY_SECS == 5,
        master.action is Service ==> master.after(MasterEvent::Serviced).action
            == MasterAction::Wait,
        master.action is Service && event != MasterEvent::Serviced ==> master.after(event) == master,
        master.action == MasterAction::RetryWait && event != MasterEvent::RetryElapsed
            && !(event is Shutdown) ==> master.after(event) == master,
        master.action == MasterAction::RetryWait && event == MasterEvent::RetryElapsed
            ==> master.after(event).action == MasterAction::Open,
        master.action == MasterAction::RetryWait && event == MasterEvent::Shutdown(true)
            ==> master.after(event).action == MasterAction::Stop,
        master.action == MasterAction::RetryWait && event == MasterEvent::Shutdown(false)
            ==> master.after(event).action == MasterAction::Open,
        master.after(event).open_failures == master.open_failures,
        master.after(event).boot_pending == master.boot_pending,
        master.modbus_ok_after(event, ok) == ok,
{
}

} // verus!
