//! MQTT: command payloads, status publishes, the session with the broker, and reconnecting.
use vstd::arithmetic::power2::{lemma2_to64, lemma_pow2_unfold, pow2};
use vstd::prelude::*;

use crate::command::{
    command_fields, command_members, command_outcome, law_command_marks_exactly, names_relay,
    outcome_view, CommandFields, CommandView,
};
use crate::health::HealthState;
use crate::json::{object_fields, object_text, parse_json, parsed_document};
use crate::state::{CommandedState, MeasuredState, PoolState};
use crate::text::{decimal, decimal_text, same_text};

verus! {

/// Time that a burst of changes is given before one publish carries them all, in milliseconds.
pub const COALESCE_MS: u64 = 75;

/// Delay before the first reconnect, in milliseconds.
pub const RECONNECT_BASE_MS: u64 = 500;

/// Longest delay before a reconnect, in milliseconds.
pub const RECONNECT_MAX_MS: u64 = 30_000;

/// Longest command payload that is parsed, in bytes.
pub const MAX_COMMAND_PAYLOAD_BYTES: usize = 4096;

/// The refusal of a payload of `len` bytes.
pub open spec fn too_large_text(len: nat) -> Seq<char> {
    "command payload too large ("@ + decimal_text(len) + " > 4096 bytes)"@
}

/// Parses a command payload into a JSON value. One that is too long is refused unread.
pub fn parse_command_payload(payload: &[u8]) -> (parsed: Result<serde_json::Value, String>)
    ensures
        match parsed {
            Ok(value) => payload@.len() <= MAX_COMMAND_PAYLOAD_BYTES && parsed_document(payload@)
                == Ok::<_, Seq<char>>(object_fields(value)),
            Err(text) => if payload@.len() > MAX_COMMAND_PAYLOAD_BYTES {
                text@ == too_large_text(payload@.len())
            } else {
                parsed_document(payload@) is Err && parsed_document(payload@)->Err_0 == text@
            },
        },
{
    if payload.len() > MAX_COMMAND_PAYLOAD_BYTES {
        let mut text = "command payload too large (".to_owned();
        let digits = decimal(payload.len() as u64);
        text.append(digits.as_str());
        text.append(" > 4096 bytes)");
        return Err(text);
    }
    parse_json(payload)
}

/// The command in a payload, or the refusal.
pub open spec fn payload_command(payload: Seq<u8>) -> Result<CommandView, Seq<char>> {
    if payload.len() > MAX_COMMAND_PAYLOAD_BYTES {
        Err(too_large_text(payload.len()))
    } else {
        match parsed_document(payload) {
            Err(text) => Err(text),
            Ok(None) => Err("command payload must be a JSON object"@),
            Ok(Some(fields)) => Ok(command_members(fields)),
        }
    }
}

/// What a command would do to the state.
#[derive(Debug, Clone, Copy, PartialEq, Eq, Structural)]
pub struct CommandDraft {
    pub commanded: CommandedState,
    pub update_pump: bool,
    pub update_relays: bool,
    /// Whether a commanded setting would change.
    pub changed: bool,
}

/// What a command would do to the state, or the refusal.
pub open spec fn command_draft(
    state: PoolState,
    command: CommandView,
    spd_max: u16,
) -> Result<CommandDraft, Seq<char>> {
    match command_outcome(state.commanded, command, spd_max) {
        Err(text) => Err(text),
        Ok(commanded) => Ok(
            CommandDraft {
                commanded,
                update_pump: state.update_pump || commanded.set_speed != state.commanded.set_speed,
                update_relays: state.update_relays || names_relay(command),
                changed: commanded != state.commanded,
            },
        ),
    }
}

/// What the command in a payload would do to the state, or the refusal.
pub open spec fn payload_draft(
    state: PoolState,
    payload: Seq<u8>,
    spd_max: u16,
) -> Result<CommandDraft, Seq<char>> {
    match payload_command(payload) {
        Err(text) => Err(text),
        Ok(command) => command_draft(state, command, spd_max),
    }
}

/// Works out what the command in a payload would do, without doing it.
pub fn draft_command(state: &PoolState, payload: &[u8], spd_max: u16) -> (draft: Result<
    CommandDraft,
    String,
>)
    ensures
        outcome_view(draft) == payload_draft(*state, payload@, spd_max),
{
    let value = match parse_command_payload(payload) {
        Ok(value) => value,
        Err(text) => {
            return Err(text);
        },
    };
    match command_fields(&value) {
        Ok(fields) => draft_fields(state, &fields, spd_max),
        Err(text) => Err(text),
    }
}

/// Works out what the members of a command would do, without doing it.
pub fn draft_fields(state: &PoolState, fields: &CommandFields, spd_max: u16) -> (draft: Result<
    CommandDraft,
    String,
>)
    ensures
        outcome_view(draft) == command_draft(*state, fields@, spd_max),
{
    let mut scratch = PoolState {
        commanded: state.commanded,
        measured: MeasuredState::default(),
        update_pump: state.update_pump,
        update_relays: state.update_relays,
        water_temp_settling: state.water_temp_settling,
    };
    match scratch.apply_command_fields(fields, spd_max) {
        Ok(changed) => Ok(
            CommandDraft {
                commanded: scratch.commanded,
                update_pump: scratch.update_pump,
                update_relays: scratch.update_relays,
                changed,
            },
        ),
        Err(text) => Err(text),
    }
}

/// What came of a command that took effect.
#[derive(Debug, Clone, Copy, PartialEq, Eq, Structural)]
pub struct CommandDone {
    /// Whether a commanded setting changed: the status is then echoed.
    pub changed: bool,
    /// Whether the owner of the bus is to be woken.
    pub wake_bus: bool,
}

impl PoolState {
    /// The state with a drafted command in effect. Marks for unsent settings are only added.
    pub open spec fn committed(self, draft: CommandDraft) -> PoolState {
        PoolState {
            commanded: draft.commanded,
            update_pump: self.update_pump || draft.update_pump,
            update_relays: self.update_relays || draft.update_relays,
            ..self
        }
    }
}

/// Puts a drafted command into effect, unless it changes settings that could not be saved.
///
/// `saved` says what came of saving them, and counts only where the draft changes something.
pub fn finish_command(
    state: &mut PoolState,
    draft: &CommandDraft,
    saved: Result<(), String>,
) -> (done: Result<CommandDone, String>)
    ensures
        match done {
            Ok(result) => {
                &&& !draft.changed || saved is Ok
                &&& *final(state) == old(state).committed(*draft)
                &&& result.changed == draft.changed
                &&& result.wake_bus == (draft.update_pump || draft.update_relays)
            },
            Err(text) => {
                &&& draft.changed
                &&& saved matches Err(reason) && text@ == "persist failed: "@ + reason@
                &&& *final(state) == *old(state)
            },
        },
{
    if draft.changed {
        if let Err(reason) = saved {
            let mut text = "persist failed: ".to_owned();
            text.append(reason.as_str());
            return Err(text);
        }
    }
    state.commanded = draft.commanded;
    state.update_pump = state.update_pump || draft.update_pump;
    state.update_relays = state.update_relays || draft.update_relays;
    Ok(
        CommandDone {
            changed: draft.changed,
            wake_bus: draft.update_pump || draft.update_relays,
        },
    )
}

/// A drafted command that is put into effect on the state that it was drafted on does what the
/// command does; it keeps all measurements, and it takes no mark for unsent settings away.
pub proof fn law_draft_then_commit(
    state: PoolState,
    command: CommandView,
    spd_max: u16,
    draft: CommandDraft,
)
    requires
        command_draft(state, command, spd_max) == Ok::<CommandDraft, Seq<char>>(draft),
    ensures
        state.committed(draft) == state.after_command(command, draft.commanded),
        state.committed(draft).measured == state.measured,
        state.update_pump ==> state.committed(draft).update_pump,
        state.update_relays ==> state.committed(draft).update_relays,
        draft.changed <==> state.committed(draft).commanded != state.commanded,
{
}

/// Whatever the owner of the bus has done to the marks between the draft and its effect, a mark
/// that the command itself sets is there afterwards.
pub proof fn law_command_marks_survive(
    drafted_on: PoolState,
    later: PoolState,
    command: CommandView,
    spd_max: u16,
    draft: CommandDraft,
)
    requires
        command_draft(drafted_on, command, spd_max) == Ok::<CommandDraft, Seq<char>>(draft),
    ensures
        draft.commanded.set_speed != drafted_on.commanded.set_speed ==> later.committed(
            draft,
        ).update_pump,
        names_relay(command) ==> later.committed(draft).update_relays,
        later.committed(draft).commanded == draft.commanded,
{
}

/// The delay before the reconnect that follows `failures` sessions in a row without a connection.
pub open spec fn reconnect_delay(failures: nat) -> int
    decreases failures,
{
    if failures == 0 {
        RECONNECT_BASE_MS as int
    } else {
        let doubled = 2 * reconnect_delay((failures - 1) as nat);
        if doubled < RECONNECT_MAX_MS {
            doubled
        } else {
            RECONNECT_MAX_MS as int
        }
    }
}

/// Reconnect delays start at half a second, never shrink while no session connects, and never
/// exceed half a minute.
pub proof fn law_reconnect_delays(fewer: nat, more: nat)
    requires
        fewer <= more,
    ensures
        RECONNECT_BASE_MS <= reconnect_delay(fewer) <= reconnect_delay(more) <= RECONNECT_MAX_MS,
    decreases more,
{
    if fewer < more {
        law_reconnect_delays(fewer, (more - 1) as nat);
    } else if more > 0 {
        law_reconnect_delays((fewer - 1) as nat, (more - 1) as nat);
    }
}

/// How a session with the broker ended.
#[derive(Debug, Clone, Copy, PartialEq, Eq, Structural)]
pub enum SessionOutcome {
    Shutdown,
    Disconnected { ever_connected: bool },
}

/// What the MQTT task does.
#[derive(Debug, Clone, Copy, PartialEq, Eq, Structural)]
pub enum LinkAction {
    /// Run a session with the broker.
    Connect,
    /// Wait so many milliseconds, or until the shutdown flag changes.
    Sleep { ms: u64 },
    Stop,
}

/// The link to the broker, over any number of sessions.
#[derive(Debug, Clone, Copy, PartialEq, Eq, Structural)]
pub struct MqttLink {
    pub action: LinkAction,
    pub backoff_ms: u64,
}

impl MqttLink {
    /// Whether the backoff is within its bounds.
    pub open spec fn wf(self) -> bool {
        &&& RECONNECT_BASE_MS <= self.backoff_ms <= RECONNECT_MAX_MS
        &&& self.action matches LinkAction::Sleep { ms } ==> ms == self.backoff_ms
    }

    /// The link at the start; `shutdown` is the shutdown flag.
    pub fn new(shutdown: bool) -> (link: Self)
        ensures
            link == (MqttLink {
                action: if shutdown {
                    LinkAction::Stop
                } else {
                    LinkAction::Connect
                },
                backoff_ms: RECONNECT_BASE_MS,
            }),
            link.wf(),
    {
        MqttLink {
            action: if shutdown {
                LinkAction::Stop
            } else {
                LinkAction::Connect
            },
            backoff_ms: RECONNECT_BASE_MS,
        }
    }

    /// The link after a session: it stops for a shutdown, else it waits. A session that had
    /// connected takes the delay back to its base.
    pub open spec fn after_session(self, outcome: SessionOutcome, shutdown: bool) -> MqttLink {
        match outcome {
            SessionOutcome::Shutdown => MqttLink { action: LinkAction::Stop, ..self },
            SessionOutcome::Disconnected { ever_connected } => {
                let backoff_ms = if ever_connected {
                    RECONNECT_BASE_MS
                } else {
                    self.backoff_ms
                };
                MqttLink {
                    action: if shutdown {
                        LinkAction::Stop
                    } else {
                        LinkAction::Sleep { ms: backoff_ms }
                    },
                    backoff_ms,
                }
            },
        }
    }

    /// Takes in how a session ended. One that was lost leaves health without a connection.
    pub fn on_session_end(
        &mut self,
        outcome: SessionOutcome,
        shutdown: bool,
        health: &mut HealthState,
    )
        requires
            old(self).wf(),
        ensures
            *final(self) == old(self).after_session(outcome, shutdown),
            final(self).wf(),
            *final(health) == (HealthState {
                mqtt_connected: old(health).mqtt_connected && outcome == SessionOutcome::Shutdown,
                ..*old(health)
            }),
    {
        match outcome {
            SessionOutcome::Shutdown => {
                self.action = LinkAction::Stop;
            },
            SessionOutcome::Disconnected { ever_connected } => {
                health.mqtt_connected = false;
                if ever_connected {
                    self.backoff_ms = RECONNECT_BASE_MS;
                }
                self.action = if shutdown {
                    LinkAction::Stop
                } else {
                    LinkAction::Sleep { ms: self.backoff_ms }
                };
            },
        }
    }

    /// The link after a wait: the next delay is twice as long, up to the longest.
    pub open spec fn after_sleep(self, shutdown: bool) -> MqttLink {
        MqttLink {
            action: if shutdown {
                LinkAction::Stop
            } else {
                LinkAction::Connect
            },
            backoff_ms: if 2 * self.backoff_ms < RECONNECT_MAX_MS {
                (2 * self.backoff_ms) as u64
            } else {
                RECONNECT_MAX_MS
            },
        }
    }

    /// Takes in that a wait is over.
    pub fn on_sleep_over(&mut self, shutdown: bool)
        requires
            old(self).wf(),
        ensures
            *final(self) == old(self).after_sleep(shutdown),
            final(self).wf(),
    {
        let doubled: u64 = self.backoff_ms * 2;
        self.backoff_ms = if doubled < RECONNECT_MAX_MS {
            doubled
        } else {
            RECONNECT_MAX_MS
        };
        self.action = if shutdown {
            LinkAction::Stop
        } else {
            LinkAction::Connect
        };
    }
}

/// The link after `failures` sessions in a row that did not connect, each followed by its wait.
pub open spec fn link_after_failures(start: MqttLink, failures: nat) -> MqttLink
    decreases failures,
{
    if failures == 0 {
        start
    } else {
        link_after_failures(start, (failures - 1) as nat).after_session(
            SessionOutcome::Disconnected { ever_connected: false },
            false,
        ).after_sleep(false)
    }
}

/// The link keeps trying: after any number of sessions in a row that did not connect it goes on to
/// the next, and the delays between them double from half a second up to half a minute. A session
/// that had connected starts them over.
pub proof fn law_link_backs_off(start: MqttLink, failures: nat)
    requires
        start.action == LinkAction::Connect,
        start.backoff_ms == RECONNECT_BASE_MS,
    ensures
        ({
            let link = link_after_failures(start, failures);
            &&& link.action == LinkAction::Connect
            &&& link.backoff_ms == reconnect_delay(failures)
            &&& link.after_session(
                SessionOutcome::Disconnected { ever_connected: false },
                false,
            ).action == (LinkAction::Sleep { ms: reconnect_delay(failures) as u64 })
            &&& link.after_session(
                SessionOutcome::Disconnected { ever_connected: true },
                false,
            ).action == (LinkAction::Sleep { ms: RECONNECT_BASE_MS })
        }),
    decreases failures,
{
    if failures > 0 {
        law_link_backs_off(start, (failures - 1) as nat);
        law_reconnect_delays((failures - 1) as nat, failures);
    }
}

/// What a session learns.
#[derive(Debug, Clone, Copy, PartialEq, Eq, Structural)]
pub enum SessionEvent {
    /// The shutdown flag was set to this.
    Shutdown(bool),
    /// The broker has accepted the connection.
    ConnAck,
    /// Whether the subscription to commands could be asked for.
    Subscribed(bool),
    /// A message came in, on the command topic or on another.
    Message { command_topic: bool },
    /// A command was dealt with: whether it changed a setting, or `None` where it was refused.
    CommandHandled { changed: Option<bool> },
    /// The broker has disconnected, or the connection is lost.
    Lost,
    /// Anything else came from the broker.
    Other,
    /// The state has changed.
    StatusNotified,
    /// The heartbeat is due.
    Heartbeat,
}

/// What a session does.
#[derive(Debug, Clone, Copy, PartialEq, Eq, Structural)]
pub enum SessionAction {
    /// Wait for the next event.
    Poll,
    /// Subscribe to the command topic.
    Subscribe,
    /// Deal with the command that came in.
    HandleCommand,
    /// Publish the status: in any case with `force`, else where it differs from the last one.
    PublishStatus { force: bool },
    /// End for a shutdown, after saying on the connected topic that the link is down with
    /// `announce`.
    EndShutdown { announce: bool },
    /// End, with the connection gone.
    End { ever_connected: bool },
}

/// A session with the broker.
#[derive(Debug)]
pub struct Session {
    pub connected: bool,
    /// The status that was published last; empty before the first.
    pub last_status_payload: String,
}

/// Whether a session is connected after an event.
pub open spec fn connected_after(connected: bool, event: SessionEvent) -> bool {
    connected || event == SessionEvent::ConnAck
}

/// What a session does about an event, by whether it is connected.
pub open spec fn session_action(connected: bool, event: SessionEvent) -> SessionAction {
    match event {
        SessionEvent::Shutdown(true) => SessionAction::EndShutdown { announce: connected },
        SessionEvent::Shutdown(false) => SessionAction::Poll,
        SessionEvent::ConnAck => SessionAction::Subscribe,
        SessionEvent::Subscribed(true) => SessionAction::PublishStatus { force: true },
        SessionEvent::Subscribed(false) => SessionAction::End { ever_connected: true },
        SessionEvent::Message { command_topic: true } => SessionAction::HandleCommand,
        SessionEvent::Message { command_topic: false } => SessionAction::Poll,
        SessionEvent::CommandHandled { changed: Some(true) } => SessionAction::PublishStatus {
            force: true,
        },
        SessionEvent::CommandHandled { .. } => SessionAction::Poll,
        SessionEvent::Lost => SessionAction::End { ever_connected: connected },
        SessionEvent::Other => SessionAction::Poll,
        SessionEvent::StatusNotified => if connected {
            SessionAction::PublishStatus { force: false }
        } else {
            SessionAction::Poll
        },
        SessionEvent::Heartbeat => if connected {
            SessionAction::PublishStatus { force: true }
        } else {
            SessionAction::Poll
        },
    }
}

/// What health says of the connection after an event.
pub open spec fn mqtt_connected_after(up: bool, event: SessionEvent) -> bool {
    match event {
        SessionEvent::ConnAck => true,
        SessionEvent::Subscribed(false) => false,
        _ => up,
    }
}

impl Session {
    /// A session that is about to connect.
    pub fn new() -> (session: Self)
        ensures
            !session.connected,
            session.last_status_payload@ == Seq::<char>::empty(),
    {
        Session { connected: false, last_status_payload: String::new() }
    }

    /// Learns of `event`, and says what to do about it.
    pub fn on_event(&mut self, event: SessionEvent, health: &mut HealthState) -> (action:
        SessionAction)
        ensures
            *final(self) == (Session {
                connected: connected_after(old(self).connected, event),
                ..*old(self)
            }),
            action == session_action(old(self).connected, event),
            *final(health) == (HealthState {
                mqtt_connected: mqtt_connected_after(old(health).mqtt_connected, event),
                ..*old(health)
            }),
    {
        match event {
            SessionEvent::Shutdown(stop) => if stop {
                SessionAction::EndShutdown { announce: self.connected }
            } else {
                SessionAction::Poll
            },
            SessionEvent::ConnAck => {
                self.connected = true;
                health.mqtt_connected = true;
                SessionAction::Subscribe
            },
            SessionEvent::Subscribed(ok) => if ok {
                SessionAction::PublishStatus { force: true }
            } else {
                health.mqtt_connected = false;
                SessionAction::End { ever_connected: true }
            },
            SessionEvent::Message { command_topic } => if command_topic {
                SessionAction::HandleCommand
            } else {
                SessionAction::Poll
            },
            SessionEvent::CommandHandled { changed } => match changed {
                Some(true) => SessionAction::PublishStatus { force: true },
                _ => SessionAction::Poll,
            },
            SessionEvent::Lost => SessionAction::End { ever_connected: self.connected },
            SessionEvent::Other => SessionAction::Poll,
            SessionEvent::StatusNotified => if self.connected {
                SessionAction::PublishStatus { force: false }
            } else {
                SessionAction::Poll
            },
            SessionEvent::Heartbeat => if self.connected {
                SessionAction::PublishStatus { force: true }
            } else {
                SessionAction::Poll
            },
        }
    }

    /// Whether a status payload is published: in any case with `force`, else where it differs from
    /// the last one.
    pub open spec fn publishes(self, payload: Seq<char>, force: bool) -> bool {
        force || payload != self.last_status_payload@
    }

    /// Whether a status payload is to be published.
    pub fn is_due(&self, payload: &str, force: bool) -> (due: bool)
        ensures
            due == self.publishes(payload@, force),
    {
        force || !same_text(payload, self.last_status_payload.as_str())
    }

    /// The status payload to publish, if it is due; an error where it cannot be printed.
    pub fn due_payload(&self, state: &PoolState, force: bool) -> (payload: Result<
        Option<String>,
        serde_json::Error,
    >)
        ensures
            match payload {
                Ok(Some(text)) => object_text(state.status_entries()) == Some(text@)
                    && self.publishes(text@, force),
                Ok(None) => object_text(state.status_entries()) matches Some(text)
                    && !self.publishes(text, force),
                Err(_) => object_text(state.status_entries()) is None,
            },
    {
        match state.status_payload() {
            Ok(text) => if self.is_due(text.as_str(), force) {
                Ok(Some(text))
            } else {
                Ok(None)
            },
            Err(error) => Err(error),
        }
    }

    /// Takes in that a status payload was published.
    pub fn on_published(&mut self, payload: String)
        ensures
            *final(self) == (Session { last_status_payload: payload, ..*old(self) }),
    {
        self.last_status_payload = payload;
    }
}

/// A status that was just published is not published again for a mere notification, and is again
/// with the heartbeat.
pub proof fn law_no_duplicate_status(session: Session, payload: String)
    ensures
        ({
            let after = Session { last_status_payload: payload, ..session };
            &&& !after.publishes(payload@, false)
            &&& after.publishes(payload@, true)
        }),
{
}

/// Nothing is published before the broker has accepted the connection: without it, neither a
/// notification nor the heartbeat publishes, and a shutdown is not announced.
pub proof fn law_no_publish_before_connack(event: SessionEvent)
    requires
        event == SessionEvent::StatusNotified || event == SessionEvent::Heartbeat || event
            == SessionEvent::Shutdown(true),
    ensures
        session_action(false, event) == SessionAction::Poll || session_action(false, event) == (
        SessionAction::EndShutdown { announce: false }),
{
}

/// Only a command that changed a setting is echoed: a refused one, and one that changed nothing,
/// publish nothing.
pub proof fn law_only_changes_are_echoed(connected: bool, changed: Option<bool>)
    ensures
        session_action(connected, SessionEvent::CommandHandled { changed }) == (
        SessionAction::PublishStatus { force: true }) <==> changed == Some(true),
        changed != Some(true) ==> session_action(
            connected,
            SessionEvent::CommandHandled { changed },
        ) == SessionAction::Poll,
{
}

/// What is published on the connected topic while the link is up, and when it goes down.
pub fn connected_payload(up: bool) -> (payload: &'static str)
    ensures
        payload@ == if up {
            "1"@
        } else {
            "0"@
        },
{
    if up {
        "1"
    } else {
        "0"
    }
}

impl PoolState {
    /// Notes the local address, unless one is known.
    pub fn note_ip(&mut self, ip: String)
        ensures
            *final(self) == if old(self).measured.ip@.len() == 0 {
                PoolState { measured: MeasuredState { ip, ..old(self).measured }, ..*old(self) }
            } else {
                *old(self)
            },
    {
        if self.measured.ip.as_str().unicode_len() == 0 {
            self.measured.ip = ip;
        }
    }
}

/// A payload of up to 4096 bytes is a command where it is a JSON object, and is refused where it is
/// another document or none. A longer one is refused whatever it holds.
pub proof fn law_payloads(payload: Seq<u8>)
    ensures
        too_large_text(payload.len()) == "command payload too large ("@ + decimal_text(
            payload.len(),
        ) + " > 4096 bytes)"@,
        payload.len() > 4096 ==> payload_command(payload) == Err::<CommandView, Seq<char>>(
            "command payload too large ("@ + decimal_text(payload.len()) + " > 4096 bytes)"@,
        ),
        payload.len() <= 4096 ==> match parsed_document(payload) {
            Err(text) => payload_command(payload) == Err::<CommandView, Seq<char>>(text),
            Ok(None) => payload_command(payload) == Err::<CommandView, Seq<char>>(
                "command payload must be a JSON object"@,
            ),
            Ok(Some(fields)) => payload_command(payload) == Ok::<CommandView, Seq<char>>(
                command_members(fields),
            ),
        },
{
}

/// A draft is what the command does to the settings, with the marks that it sets, and says whether
/// any setting changes. A command that is refused has no draft, and its refusal is passed on.
pub proof fn law_drafts(state: PoolState, payload: Seq<u8>, command: CommandView, spd_max: u16)
    requires
        command.relays.len() == 8,
    ensures
        match command_outcome(state.commanded, command, spd_max) {
            Err(text) => command_draft(state, command, spd_max) == Err::<CommandDraft, Seq<char>>(
                text,
            ),
            Ok(commanded) => command_draft(state, command, spd_max) matches Ok(draft)
                && draft.commanded == commanded && (draft.changed <==> commanded
                != state.commanded) && (draft.update_pump <==> state.update_pump
                || commanded.set_speed != state.commanded.set_speed) && (draft.update_relays
                <==> state.update_relays || command.relays[0] is Some || command.relays[1] is Some
                || command.relays[2] is Some || command.relays[3] is Some
                || command.relays[4] is Some || command.relays[5] is Some
                || command.relays[6] is Some || command.relays[7] is Some),
        },
        payload_command(payload) == Ok::<CommandView, Seq<char>>(command) ==> payload_draft(
            state,
            payload,
            spd_max,
        ) == command_draft(state, command, spd_max),
        payload_command(payload) matches Err(text) ==> payload_draft(state, payload, spd_max)
            == Err::<CommandDraft, Seq<char>>(text),
{
    if let Ok(commanded) = command_outcome(state.commanded, command, spd_max) {
        law_command_marks_exactly(state, command, commanded);
    }
}

/// Putting a draft into effect takes over its settings, adds its marks, and changes nothing else.
pub proof fn law_committed(state: PoolState, draft: CommandDraft)
    ensures
        ({
            let after = state.committed(draft);
            &&& after.commanded == draft.commanded
            &&& after.update_pump <==> state.update_pump || draft.update_pump
            &&& after.update_relays <==> state.update_relays || draft.update_relays
            &&& after.measured == state.measured
            &&& after.water_temp_settling == state.water_temp_settling
        }),
{
}

/// The delay before a reconnect is half a second times two to the number of failures, and at most
/// thirty seconds.
pub proof fn law_delays_double(failures: nat)
    ensures
        500 * pow2(failures) < 30_000 ==> reconnect_delay(failures) == 500 * pow2(failures),
        500 * pow2(failures) >= 30_000 ==> reconnect_delay(failures) == 30_000,
    decreases failures,
{
    lemma2_to64();
    if failures > 0 {
        law_delays_double((failures - 1) as nat);
        lemma_pow2_unfold(failures);
    }
}

/// What the link does after a session and after a wait: it stops for a shutdown, else it waits and
/// then connects. The wait is half a second after a session that had connected, else as long as the
/// backoff says; a wait doubles the backoff, up to thirty seconds.
pub proof fn law_link_steps(link: MqttLink, ever_connected: bool, shutdown: bool)
    ensures
        link.after_session(SessionOutcome::Shutdown, shutdown).action == LinkAction::Stop,
        link.after_session(SessionOutcome::Shutdown, shutdown).backoff_ms == link.backoff_ms,
        ({
            let after = link.after_session(
                SessionOutcome::Disconnected { ever_connected },
                shutdown,
            );
            &&& ever_connected ==> after.backoff_ms == 500
            &&& !ever_connected ==> after.backoff_ms == link.backoff_ms
            &&& shutdown ==> after.action == LinkAction::Stop
            &&& !shutdown ==> after.action == (LinkAction::Sleep { ms: after.backoff_ms })
        }),
        shutdown ==> link.after_sleep(shutdown).action == LinkAction::Stop,
        !shutdown ==> link.after_sleep(shutdown).action == LinkAction::Connect,
        link.backoff_ms <= 15_000 ==> link.after_sleep(shutdown).backoff_ms == 2 * link.backoff_ms,
        link.backoff_ms >= 15_000 ==> link.after_sleep(shutdown).backoff_ms == 30_000,
        link.wf() ==> 500 <= link.backoff_ms <= 30_000,
{
}

/// What a session does about what it learns. It subscribes once it is connected, and publishes once
/// it is subscribed, whatever it published before. It publishes with every heartbeat, for a change
/// of the state where the status is another, and after a command that changed a setting. It deals
/// with messages on the command topic alone. It ends for a shutdown, and where the connection or
/// the subscription is lost.
pub proof fn law_session_actions(connected: bool, changed: Option<bool>)
    ensures
        session_action(connected, SessionEvent::ConnAck) == SessionAction::Subscribe,
        session_action(connected, SessionEvent::Subscribed(true)) == (
        SessionAction::PublishStatus { force: true }),
        session_action(connected, SessionEvent::Subscribed(false)) == (SessionAction::End {
            ever_connected: true,
        }),
        session_action(connected, SessionEvent::Message { command_topic: true })
            == SessionAction::HandleCommand,
        session_action(connected, SessionEvent::Message { command_topic: false })
            == SessionAction::Poll,
        changed == Some(true) ==> session_action(
            connected,
            SessionEvent::CommandHandled { changed },
        ) == (SessionAction::PublishStatus { force: true }),
        changed != Some(true) ==> session_action(
            connected,
            SessionEvent::CommandHandled { changed },
        ) == SessionAction::Poll,
        session_action(connected, SessionEvent::Lost) == (SessionAction::End {
            ever_connected: connected,
        }),
        session_action(connected, SessionEvent::Other) == SessionAction::Poll,
        session_action(connected, SessionEvent::Shutdown(true)) == (SessionAction::EndShutdown {
            announce: connected,
        }),
        session_action(connected, SessionEvent::Shutdown(false)) == SessionAction::Poll,
        connected ==> session_action(connected, SessionEvent::Heartbeat) == (
        SessionAction::PublishStatus { force: true }),
        connected ==> session_action(connected, SessionEvent::StatusNotified) == (
        SessionAction::PublishStatus { force: false }),
        !connected ==> session_action(connected, SessionEvent::Heartbeat) == SessionAction::Poll,
        !connected ==> session_action(connected, SessionEvent::StatusNotified)
            == SessionAction::Poll,
{
}

/// A session is connected from the moment that the broker has accepted the connection, and health
/// says so from then on, until the subscription fails.
pub proof fn law_connection(connected: bool, up: bool, event: SessionEvent)
    ensures
        connected_after(connected, event) <==> connected || event == SessionEvent::ConnAck,
        mqtt_connected_after(up, SessionEvent::ConnAck),
        !mqtt_connected_after(up, SessionEvent::Subscribed(false)),
        event != SessionEvent::ConnAck && event != SessionEvent::Subscribed(false)
            ==> mqtt_connected_after(up, event) == up,
{
}

/// A status is held back only where it is the one that was published last, and nothing asks for it
/// in any case. Changes within 75 milliseconds share one publish.
pub proof fn law_status_is_due(session: Session, payload: Seq<char>, force: bool)
    ensures
        !session.publishes(payload, force) <==> !force && payload == session.last_status_payload@,
        COALESCE_MS == 75,
{
}

} // verus!
