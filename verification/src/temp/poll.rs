//! The temperature poll: which loop a reading belongs to, when it counts, and what a fault does.
use vstd::prelude::*;

use crate::config::{at_least, raise_to};
use crate::health::HealthState;
use crate::state::{
    loop_of_relays, ActiveLoop, CommandedState, PoolState, PublishHint,
};

verus! {

/// The poll's memory between readings. Times are in nanoseconds.
#[derive(Debug, Clone, Copy, PartialEq, Eq, Structural)]
pub struct TempPoller {
    /// The loop that was active at the last poll.
    pub previous_loop: Option<ActiveLoop>,
    /// When settling ends, while the water settles.
    pub settle_deadline_ns: Option<u128>,
    /// Whether the last reading failed.
    pub faulted: bool,
}

/// What a poll finds before it reads the sensor.
#[derive(Debug, Clone, Copy, PartialEq, Eq, Structural)]
pub struct PollStart {
    /// The loop that the reading belongs to.
    pub active: ActiveLoop,
    /// Whether the status publisher is to be woken.
    pub hint: PublishHint,
    /// Whether the commanded mode asks for the other loop. The reading follows the divert valve
    /// all the same.
    pub mode_disagrees: bool,
}

/// When settling ends that begins at `now_ns`.
pub open spec fn settle_end(settle_secs: u64, now_ns: u64) -> int {
    now_ns + at_least(settle_secs, 1) * 1000000000
}

/// The loop that a mode asks for.
pub open spec fn loop_of_mode(mode: i32) -> ActiveLoop {
    if mode == 0 {
        ActiveLoop::Pool
    } else {
        ActiveLoop::Spa
    }
}

impl TempPoller {
    /// The state settles exactly while there is a time at which settling ends.
    pub open spec fn agrees(self, state: PoolState) -> bool {
        &&& self.previous_loop is Some
        &&& state.water_temp_settling <==> self.settle_deadline_ns is Some
    }

    /// Whether settling is to end by `now_ns`.
    pub open spec fn settled(self, now_ns: u64) -> bool {
        self.settle_deadline_ns matches Some(deadline) && now_ns >= deadline
    }

    /// Whether the active loop is another than at the last poll.
    pub open spec fn loop_changed(self, active: ActiveLoop) -> bool {
        self.previous_loop != Some(active)
    }

    /// The memory after the start of a poll.
    pub open spec fn started(self, active: ActiveLoop, settle_secs: u64, now_ns: u64) -> TempPoller {
        if self.loop_changed(active) {
            TempPoller {
                previous_loop: Some(active),
                settle_deadline_ns: Some(settle_end(settle_secs, now_ns) as u128),
                ..self
            }
        } else {
            self.ended(now_ns)
        }
    }

    /// The memory once settling that is to end by `now_ns` has ended.
    pub open spec fn ended(self, now_ns: u64) -> TempPoller {
        if self.settled(now_ns) {
            TempPoller { settle_deadline_ns: None, ..self }
        } else {
            self
        }
    }

    /// The state once settling that is to end by `now_ns` has ended.
    pub open spec fn ended_state(self, state: PoolState, now_ns: u64) -> PoolState {
        if self.settled(now_ns) {
            PoolState { water_temp_settling: false, ..state }
        } else {
            state
        }
    }

    /// The state after the start of a poll: on a change of the active loop its reading is dropped
    /// and settling begins; else settling may end.
    pub open spec fn started_state(
        self,
        state: PoolState,
        active: ActiveLoop,
        now_ns: u64,
    ) -> PoolState {
        if self.loop_changed(active) {
            PoolState { water_temp_settling: true, ..state.with_water_temp(active, None) }
        } else {
            self.ended_state(state, now_ns)
        }
    }

    /// The state after a good reading: settling may end first, and while it lasts the reading is
    /// dropped.
    pub open spec fn read_state(
        self,
        state: PoolState,
        active: ActiveLoop,
        temp_f: serde_json::Number,
        now_ns: u64,
    ) -> PoolState {
        let ready = self.ended_state(state, now_ns);
        if ready.water_temp_settling {
            ready
        } else {
            ready.with_water_temp(active, Some(temp_f))
        }
    }

    /// A poll that has not begun.
    pub fn new() -> (poller: Self)
        ensures
            poller == (TempPoller {
                previous_loop: None,
                settle_deadline_ns: None,
                faulted: false,
            }),
    {
        TempPoller { previous_loop: None, settle_deadline_ns: None, faulted: false }
    }

    fn end_settling_by(&mut self, state: &mut PoolState, now_ns: u64)
        ensures
            *final(self) == old(self).ended(now_ns),
            *final(state) == old(self).ended_state(*old(state), now_ns),
    {
        if let Some(deadline) = self.settle_deadline_ns {
            if now_ns as u128 >= deadline {
                state.end_settling();
                self.settle_deadline_ns = None;
            }
        }
    }

    /// Starts a poll: finds the active loop, begins settling where it changed, and ends settling
    /// that is due.
    pub fn start(
        &mut self,
        state: &mut PoolState,
        divert_relay: u8,
        settle_secs: u64,
        now_ns: u64,
    ) -> (found: PollStart)
        ensures
            found.active == loop_of_relays(old(state).effective_relays(), divert_relay),
            found.hint == if old(self).loop_changed(found.active) {
                PublishHint::Immediate
            } else {
                PublishHint::Silent
            },
            found.mode_disagrees == (loop_of_mode(old(state).commanded.mode) != found.active),
            *final(self) == old(self).started(found.active, settle_secs, now_ns),
            *final(state) == old(self).started_state(*old(state), found.active, now_ns),
    {
        let active = state.active_loop(divert_relay);
        let mode_disagrees = ActiveLoop::from_mode(state.commanded.mode) != active;
        let changed = match self.previous_loop {
            Some(previous) => previous != active,
            None => true,
        };
        if changed {
            let hint = state.on_active_loop_changed(active);
            let secs: u64 = raise_to(settle_secs, 1);
            let deadline: u128 = now_ns as u128 + secs as u128 * 1_000_000_000;
            self.settle_deadline_ns = Some(deadline);
            self.previous_loop = Some(active);
            PollStart { active, hint, mode_disagrees }
        } else {
            self.end_settling_by(state, now_ns);
            PollStart { active, hint: PublishHint::Silent, mode_disagrees }
        }
    }

    /// Takes in a good reading. `moved` says whether it differs from the one before it by at least
    /// the publish threshold. Returns whether the status publisher is to be woken.
    pub fn on_reading(
        &mut self,
        state: &mut PoolState,
        health: &mut HealthState,
        active: ActiveLoop,
        temp_f: serde_json::Number,
        moved: bool,
        now_ns: u64,
    ) -> (hint: PublishHint)
        ensures
            *final(self) == (TempPoller { faulted: false, ..old(self).ended(now_ns) }),
            *final(state) == old(self).read_state(*old(state), active, temp_f, now_ns),
            *final(health) == (HealthState { temp_ok: true, ..*old(health) }),
            hint == PublishHint::Immediate <==> !final(state).water_temp_settling && (old(
                state,
            ).water_temp(active) is None || moved),
    {
        self.faulted = false;
        health.temp_ok = true;
        self.end_settling_by(state, now_ns);
        state.set_water_temp_f(active, temp_f, moved)
    }

    /// Takes in that a reading failed: the active loop has no reading then. Returns whether the
    /// status publisher is to be woken.
    pub fn on_fault(
        &mut self,
        state: &mut PoolState,
        health: &mut HealthState,
        active: ActiveLoop,
    ) -> (hint: PublishHint)
        ensures
            *final(self) == (TempPoller { faulted: true, ..*old(self) }),
            *final(state) == old(state).with_water_temp(active, None),
            *final(health) == (HealthState { temp_ok: false, ..*old(health) }),
            hint == PublishHint::Immediate <==> old(state).water_temp(active) is Some,
    {
        let hint = state.clear_water_temp(active);
        self.faulted = true;
        health.temp_ok = false;
        hint
    }
}

/// Every poll keeps the state and the poll's memory in agreement on whether the water settles; the
/// first poll brings them into it.
pub proof fn law_poll_keeps_agreement(
    poller: TempPoller,
    state: PoolState,
    active: ActiveLoop,
    settle_secs: u64,
    temp_f: serde_json::Number,
    now_ns: u64,
)
    requires
        poller.previous_loop is None || poller.agrees(state),
    ensures
        poller.started(active, settle_secs, now_ns).agrees(
            poller.started_state(state, active, now_ns),
        ),
        poller.agrees(state) ==> poller.ended(now_ns).agrees(
            poller.read_state(state, active, temp_f, now_ns),
        ),
        poller.agrees(state) ==> poller.agrees(state.with_water_temp(active, None)),
{
}

/// After a change of the divert valve the active loop has no reading, and no reading is recorded
/// until the settling time is over; the reading of the other loop stays throughout, and heat stays
/// off. A reading from then on is recorded.
pub proof fn law_no_reading_while_settling(
    poller: TempPoller,
    state: PoolState,
    active: ActiveLoop,
    settle_secs: u64,
    changed_ns: u64,
    temp_f: serde_json::Number,
    now_ns: u64,
)
    requires
        poller.loop_changed(active),
    ensures
        ({
            let memory = poller.started(active, settle_secs, changed_ns);
            let settling = poller.started_state(state, active, changed_ns);
            let after = memory.read_state(settling, active, temp_f, now_ns);
            let other = if active == ActiveLoop::Spa {
                ActiveLoop::Pool
            } else {
                ActiveLoop::Spa
            };
            &&& settling.water_temp(active) is None
            &&& settling.water_temp(other) == state.water_temp(other)
            &&& after.water_temp(other) == state.water_temp(other)
            &&& now_ns < settle_end(settle_secs, changed_ns) ==> after == settling
                && after.water_temp_settling && !after.heat_allowed(active)
                && !after.heat_allowed(other)
            &&& now_ns >= settle_end(settle_secs, changed_ns) ==> !after.water_temp_settling
                && after.water_temp(active) == Some(temp_f)
        }),
{
    lemma_settle_end_fits(settle_secs, changed_ns);
}

proof fn lemma_settle_end_fits(settle_secs: u64, now_ns: u64)
    ensures
        0 <= settle_end(settle_secs, now_ns) <= u128::MAX,
{
}

/// A fault takes the reading of the active loop, and nothing else.
pub proof fn law_fault_clears_active_loop_only(state: PoolState, active: ActiveLoop)
    ensures
        ({
            let after = state.with_water_temp(active, None);
            let other = if active == ActiveLoop::Spa {
                ActiveLoop::Pool
            } else {
                ActiveLoop::Spa
            };
            &&& after.water_temp(active) is None
            &&& after.water_temp(other) == state.water_temp(other)
            &&& after.commanded == state.commanded
            &&& after.water_temp_settling == state.water_temp_settling
        }),
{
}

/// What a poll comes to: a good reading or a fault, with the time before and after the sensor was
/// read.
pub struct PollView {
    pub started_ns: u64,
    pub read_ns: u64,
    pub reading: Option<serde_json::Number>,
}

/// The memory and the state after a poll that finds `active` to be the active loop.
pub open spec fn polled(
    before: (TempPoller, PoolState),
    active: ActiveLoop,
    settle_secs: u64,
    poll: PollView,
) -> (TempPoller, PoolState) {
    let (poller, state) = before;
    let memory = poller.started(active, settle_secs, poll.started_ns);
    let ready = poller.started_state(state, active, poll.started_ns);
    match poll.reading {
        Some(temp_f) => (
            TempPoller { faulted: false, ..memory.ended(poll.read_ns) },
            memory.read_state(ready, active, temp_f, poll.read_ns),
        ),
        None => (TempPoller { faulted: true, ..memory }, ready.with_water_temp(active, None)),
    }
}

/// The memory and the state after a run of polls that all find `active` to be the active loop.
pub open spec fn polled_all(
    before: (TempPoller, PoolState),
    active: ActiveLoop,
    settle_secs: u64,
    polls: Seq<PollView>,
) -> (TempPoller, PoolState)
    decreases polls.len(),
{
    if polls.len() == 0 {
        before
    } else {
        polled(
            polled_all(before, active, settle_secs, polls.drop_last()),
            active,
            settle_secs,
            polls.last(),
        )
    }
}

/// However often the sensor is polled after a change of the divert valve, and whatever it gives:
/// until the settling time is over, the active loop has no reading, the other loop keeps its own,
/// and heat is allowed for neither.
pub proof fn law_settling_lasts(
    poller: TempPoller,
    state: PoolState,
    active: ActiveLoop,
    settle_secs: u64,
    polls: Seq<PollView>,
)
    requires
        poller.loop_changed(active),
        polls.len() > 0,
        forall|i: int|
            0 <= i < polls.len() ==> (#[trigger] polls[i]).started_ns < settle_end(
                settle_secs,
                polls[0].started_ns,
            ) && polls[i].read_ns < settle_end(settle_secs, polls[0].started_ns),
    ensures
        ({
            let (memory, after) = polled_all((poller, state), active, settle_secs, polls);
            let other = if active == ActiveLoop::Spa {
                ActiveLoop::Pool
            } else {
                ActiveLoop::Spa
            };
            &&& after.water_temp(active) is None
            &&& after.water_temp(other) == state.water_temp(other)
            &&& after.water_temp_settling
            &&& !after.heat_allowed(active)
            &&& !after.heat_allowed(other)
            &&& memory.previous_loop == Some(active)
            &&& memory.settle_deadline_ns == Some(
                settle_end(settle_secs, polls[0].started_ns) as u128,
            )
        }),
    decreases polls.len(),
{
    lemma_settle_end_fits(settle_secs, polls[0].started_ns);
    let earlier = polls.drop_last();
    assert(polls.last() == polls[polls.len() - 1]);
    if earlier.len() > 0 {
        assert forall|i: int| 0 <= i < earlier.len() implies (
        #[trigger] earlier[i]).started_ns < settle_end(settle_secs, earlier[0].started_ns)
            && earlier[i].read_ns < settle_end(settle_secs, earlier[0].started_ns) by {
            assert(earlier[i] == polls[i]);
        }
        law_settling_lasts(poller, state, active, settle_secs, earlier);
    } else {
        assert(polled_all((poller, state), active, settle_secs, earlier) == (poller, state));
    }
}

/// The reading follows the divert valve, whatever the commanded mode says.
pub proof fn law_reading_ignores_mode(state: PoolState, mode: i32, divert_relay: u8)
    ensures
        loop_of_relays(
            (PoolState {
                commanded: CommandedState { mode, ..state.commanded },
                ..state
            }).effective_relays(),
            divert_relay,
        ) == loop_of_relays(state.effective_relays(), divert_relay),
{
}

/// Settling lasts as many seconds as are set, and at least one. Mode 0 asks for the pool, any other
/// for the spa.
pub proof fn law_settle_time(settle_secs: u64, now_ns: u64, mode: i32)
    ensures
        settle_secs >= 1 ==> settle_end(settle_secs, now_ns) - now_ns == settle_secs
            * 1_000_000_000,
        settle_secs == 0 ==> settle_end(settle_secs, now_ns) - now_ns == 1_000_000_000,
        loop_of_mode(mode) == ActiveLoop::Pool <==> mode == 0,
{
}

/// A poll that finds another loop active than the one before it, or is the first, begins settling
/// for that loop and drops its reading. One that finds the same loop ends settling where its time
/// is over, and else changes nothing.
pub proof fn law_poll_start(
    poller: TempPoller,
    state: PoolState,
    active: ActiveLoop,
    settle_secs: u64,
    now_ns: u64,
)
    ensures
        ({
            let memory = poller.started(active, settle_secs, now_ns);
            let after = poller.started_state(state, active, now_ns);
            let other = if active == ActiveLoop::Spa {
                ActiveLoop::Pool
            } else {
                ActiveLoop::Spa
            };
            &&& poller.loop_changed(active) <==> poller.previous_loop != Some(active)
            &&& poller.previous_loop != Some(active) ==> ({
                &&& memory.previous_loop == Some(active)
                &&& memory.settle_deadline_ns == Some(settle_end(settle_secs, now_ns) as u128)
                &&& memory.faulted == poller.faulted
                &&& after.water_temp_settling
                &&& after.water_temp(active) is None
                &&& after.water_temp(other) == state.water_temp(other)
                &&& after == (PoolState {
                    water_temp_settling: true,
                    ..state.with_water_temp(active, None)
                })
            })
            &&& poller.previous_loop == Some(active) ==> ({
                let over = poller.settle_deadline_ns is Some && now_ns
                    >= poller.settle_deadline_ns->0;
                &&& over ==> memory == (TempPoller { settle_deadline_ns: None, ..poller })
                &&& over ==> after == (PoolState { water_temp_settling: false, ..state })
                &&& !over ==> memory == poller
                &&& !over ==> after == state
            })
        }),
{
}

/// A reading is recorded for the active loop exactly where the water does not settle, or settles no
/// longer; the other loop's reading stays, and so does all that is commanded.
pub proof fn law_poll_reading(
    poller: TempPoller,
    state: PoolState,
    active: ActiveLoop,
    temp_f: serde_json::Number,
    now_ns: u64,
)
    ensures
        ({
            let after = poller.read_state(state, active, temp_f, now_ns);
            let memory = poller.ended(now_ns);
            let over = poller.settle_deadline_ns is Some && now_ns >= poller.settle_deadline_ns->0;
            let other = if active == ActiveLoop::Spa {
                ActiveLoop::Pool
            } else {
                ActiveLoop::Spa
            };
            &&& over || !state.water_temp_settling ==> after.water_temp(active) == Some(temp_f)
                && after == (PoolState {
                water_temp_settling: false,
                ..state.with_water_temp(active, Some(temp_f))
            })
            &&& !over && state.water_temp_settling ==> after == state
            &&& after.water_temp(other) == state.water_temp(other)
            &&& over ==> memory.settle_deadline_ns is None
            &&& !over ==> memory == poller
            &&& memory.previous_loop == poller.previous_loop
        }),
{
}

} // verus!
