//! Rate limit for warnings that would otherwise repeat with every poll.
use vstd::prelude::*;

verus! {

/// Shortest time between two warnings, in nanoseconds.
pub const WARN_INTERVAL_NS: u64 = 30_000_000_000;

/// Lets a warning through at most every thirty seconds.
#[derive(Debug, Clone, Copy, PartialEq, Eq, Structural)]
pub struct WarnLimit {
    /// When the last warning went through, if one did.
    pub last_ns: Option<u64>,
}

impl WarnLimit {
    /// Whether a warning goes through at `now_ns`: it is the first, or thirty seconds have passed
    /// since the last.
    pub open spec fn allows(self, now_ns: u64) -> bool {
        match self.last_ns {
            None => true,
            Some(last) => now_ns - last >= WARN_INTERVAL_NS,
        }
    }

    /// The limit after a warning was due at `now_ns`.
    pub open spec fn passed(self, now_ns: u64) -> WarnLimit {
        if self.allows(now_ns) {
            WarnLimit { last_ns: Some(now_ns) }
        } else {
            self
        }
    }

    /// A limit that lets the first warning through.
    pub fn new() -> (limit: Self)
        ensures
            limit == (WarnLimit { last_ns: None }),
    {
        WarnLimit { last_ns: None }
    }

    /// Whether a warning that is due at `now_ns` goes through.
    pub fn pass(&mut self, now_ns: u64) -> (allowed: bool)
        ensures
            allowed == old(self).allows(now_ns),
            *final(self) == old(self).passed(now_ns),
    {
        let allowed = match self.last_ns {
            None => true,
            Some(last) => now_ns >= last && now_ns - last >= WARN_INTERVAL_NS,
        };
        if allowed {
            self.last_ns = Some(now_ns);
        }
        allowed
    }
}

/// The limit after warnings were due at all of `times`.
pub open spec fn limit_after(times: Seq<u64>) -> WarnLimit
    decreases times.len(),
{
    if times.len() == 0 {
        WarnLimit { last_ns: None }
    } else {
        limit_after(times.drop_last()).passed(times.last())
    }
}

/// Whether the warning that was due at `times[i]` went through.
pub open spec fn went_through(times: Seq<u64>, i: int) -> bool {
    limit_after(times.take(i)).allows(times[i])
}

/// Any two warnings that go through are at least thirty seconds apart.
pub proof fn law_warnings_are_spaced(times: Seq<u64>, i: int, j: int)
    requires
        0 <= i < j < times.len(),
        went_through(times, i),
        went_through(times, j),
    ensures
        times[j] - times[i] >= WARN_INTERVAL_NS,
{
    lemma_last_warning(times, i, j);
}

proof fn lemma_last_warning(times: Seq<u64>, i: int, j: int)
    requires
        0 <= i < j <= times.len(),
        went_through(times, i),
    ensures
        limit_after(times.take(j)).last_ns matches Some(last) && last >= times[i],
    decreases j,
{
    assert(times.take(j).drop_last() == times.take(j - 1));
    assert(times.take(j).last() == times[j - 1]);
    if j > i + 1 {
        lemma_last_warning(times, i, j - 1);
    }
}

/// The first warning goes through, and any later one exactly where thirty seconds or more have
/// passed since the last that did. One that goes through is the last from then on, and one that is
/// held back leaves the limit as it is.
pub proof fn law_warnings_pass_when_due(limit: WarnLimit, now_ns: u64)
    ensures
        limit.last_ns is None ==> limit.allows(now_ns),
        limit.last_ns matches Some(last) ==> (limit.allows(now_ns) <==> now_ns >= last
            + 30_000_000_000),
        limit.allows(now_ns) ==> limit.passed(now_ns).last_ns == Some(now_ns),
        !limit.allows(now_ns) ==> limit.passed(now_ns) == limit,
{
}

} // verus!
