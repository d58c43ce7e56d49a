//! The supervisor: which tasks run, and what ends the controller.
use vstd::prelude::*;

use crate::config::Config;
use crate::health::{clock_reading, HealthState};
use crate::state::Command;
use crate::text::{is_white_space, law_trimmed, trimmed};

verus! {

/// Which of the optional tasks run.
#[derive(Debug, Clone, Copy, PartialEq, Eq, Structural)]
pub struct TaskPlan {
    pub mqtt: bool,
    pub temp: bool,
    pub modbus: bool,
    pub http: bool,
}

impl TaskPlan {
    /// The tasks that a configuration asks for: MQTT where a broker is named, the others where
    /// they are on.
    pub open spec fn planned(config: Config) -> TaskPlan {
        TaskPlan {
            mqtt: trimmed(config.mqtt.host@).len() > 0,
            temp: config.temp.enabled,
            modbus: config.modbus.enabled,
            http: config.http.enabled,
        }
    }

    /// The tasks that a configuration asks for.
    pub fn of(config: &Config) -> (plan: Self)
        ensures
            plan == TaskPlan::planned(*config),
    {
        TaskPlan {
            mqtt: config.mqtt_enabled(),
            temp: config.temp.enabled,
            modbus: config.modbus.enabled,
            http: config.http.enabled,
        }
    }

    /// Health at the start of these tasks, which is now.
    pub fn initial_health(&self) -> (health: HealthState)
        ensures
            health == (HealthState {
                mqtt_enabled: self.mqtt,
                mqtt_connected: false,
                temp_enabled: self.temp,
                temp_ok: false,
                modbus_enabled: self.modbus,
                modbus_ok: false,
                started_at: health.started_at,
            }),
            clock_reading(health.started_at),
    {
        HealthState::new(self.mqtt, self.temp, self.modbus)
    }
}

/// How a task ended.
#[derive(Debug, Clone, Copy, PartialEq, Eq, Structural)]
pub enum TaskEnd {
    Finished,
    Cancelled,
    Failed,
}

/// What the supervisor learns.
#[derive(Debug, Clone, Copy, PartialEq, Eq, Structural)]
pub enum SupervisorEvent {
    /// The shutdown flag changed to this; `None` where nobody can set it any more.
    ShutdownFlag(Option<bool>),
    /// A command came in; `None` where nobody can send one any more.
    Commanded(Option<Command>),
    /// A task ended.
    TaskEnded(TaskEnd),
}

/// Whether the controller stops for an event.
pub open spec fn stops_for(event: SupervisorEvent) -> bool {
    match event {
        SupervisorEvent::ShutdownFlag(flag) => flag != Some(false),
        SupervisorEvent::Commanded(command) => command != Some(Command::Ping),
        SupervisorEvent::TaskEnded(end) => end == TaskEnd::Failed,
    }
}

/// Whether the controller stops for an event. It then tells all tasks to shut down, and waits for
/// them.
pub fn must_stop(event: SupervisorEvent) -> (stop: bool)
    ensures
        stop == stops_for(event),
{
    match event {
        SupervisorEvent::ShutdownFlag(flag) => match flag {
            Some(set) => set,
            None => true,
        },
        SupervisorEvent::Commanded(command) => match command {
            Some(Command::Ping) => false,
            Some(Command::Shutdown) => true,
            None => true,
        },
        SupervisorEvent::TaskEnded(end) => end == TaskEnd::Failed,
    }
}

/// A task that ends of its own accord, or is cancelled, does not take the controller down: only
/// one that fails does.
pub proof fn law_finished_tasks_do_not_stop(end: TaskEnd)
    ensures
        stops_for(SupervisorEvent::TaskEnded(end)) <==> end == TaskEnd::Failed,
{
}

/// The controller stops for a shutdown flag that is set or can no longer be, for a shutdown command
/// or the end of the command channel, and for a task that failed. It goes on for a flag that is
/// cleared, a ping, and a task that finished or was cancelled.
pub proof fn law_what_stops_the_controller(flag: Option<bool>, command: Option<Command>)
    ensures
        stops_for(SupervisorEvent::ShutdownFlag(Some(true))),
        !stops_for(SupervisorEvent::ShutdownFlag(Some(false))),
        stops_for(SupervisorEvent::ShutdownFlag(None)),
        stops_for(SupervisorEvent::Commanded(Some(Command::Shutdown))),
        !stops_for(SupervisorEvent::Commanded(Some(Command::Ping))),
        stops_for(SupervisorEvent::Commanded(None)),
        stops_for(SupervisorEvent::TaskEnded(TaskEnd::Failed)),
        !stops_for(SupervisorEvent::TaskEnded(TaskEnd::Finished)),
        !stops_for(SupervisorEvent::TaskEnded(TaskEnd::Cancelled)),
        stops_for(SupervisorEvent::ShutdownFlag(flag)) <==> flag != Some(false),
        stops_for(SupervisorEvent::Commanded(command)) <==> command != Some(Command::Ping),
{
}

/// Each task runs by its own setting: MQTT where the host holds anything but white space, the
/// others where they are on.
pub proof fn law_planned_tasks(config: Config, i: int)
    ensures
        ({
            let plan = TaskPlan::planned(config);
            &&& plan.temp == config.temp.enabled
            &&& plan.modbus == config.modbus.enabled
            &&& plan.http == config.http.enabled
            &&& 0 <= i < config.mqtt.host@.len() && !is_white_space(config.mqtt.host@[i])
                ==> plan.mqtt
            &&& plan.mqtt ==> exists|k: int|
                0 <= k < config.mqtt.host@.len() && !is_white_space(
                    #[trigger] config.mqtt.host@[k],
                )
        }),
{
    let host = config.mqtt.host@;
    law_trimmed(host);
    let (from, to) = choose|from: int, to: int|
        {
            &&& 0 <= from <= to <= host.len()
            &&& trimmed(host) == #[trigger] host.subrange(from, to)
            &&& forall|i: int| 0 <= i < from ==> is_white_space(#[trigger] host[i])
            &&& forall|i: int| to <= i < host.len() ==> is_white_space(#[trigger] host[i])
        };
    if trimmed(host).len() > 0 {
        assert(trimmed(host)[0] == host[from]);
    }
}

} // verus!
