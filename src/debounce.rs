//! The single-flight guard between file events and builds.
use vstd::prelude::*;

verus! {

/// Minimum time, in milliseconds, between the starts of two builds.
pub const QUIET_PERIOD_MS: u64 = 500;

/// The debouncer's state: whether a build runs, and when the last one started.
pub struct GateState {
    pub running: bool,
    pub last_start: Option<u64>,
}

/// Whether a build may start at `now` (milliseconds on a monotonic clock).
/// A start time later than `now` counts as no time elapsed.
pub open spec fn admits(g: GateState, now: u64) -> bool {
    !g.running && match g.last_start {
        None => true,
        Some(t) => now >= t && now - t >= QUIET_PERIOD_MS,
    }
}

/// The state after a successful acquire at `now`.
pub open spec fn acquired(g: GateState, now: u64) -> GateState {
    GateState { running: true, last_start: Some(now) }
}

/// The state and answer of `try_acquire` at `now`.
pub open spec fn acquire_step(g: GateState, now: u64) -> (GateState, bool) {
    if admits(g, now) {
        (acquired(g, now), true)
    } else {
        (g, false)
    }
}

/// The state after `release`.
pub open spec fn released(g: GateState) -> GateState {
    GateState { running: false, last_start: g.last_start }
}

/// The debouncer after a run of `try_acquire` calls at the times `ts`, in order.
pub open spec fn after_acquires(g: GateState, ts: Seq<u64>) -> GateState
    decreases ts.len(),
{
    if ts.len() == 0 {
        g
    } else {
        after_acquires(acquire_step(g, ts[0]).0, ts.drop_first())
    }
}

/// The answers of a run of `try_acquire` calls at the times `ts`, in order.
pub open spec fn acquire_answers(g: GateState, ts: Seq<u64>) -> Seq<bool>
    decreases ts.len(),
{
    if ts.len() == 0 {
        Seq::empty()
    } else {
        seq![acquire_step(g, ts[0]).1] + acquire_answers(acquire_step(g, ts[0]).0, ts.drop_first())
    }
}

/// Guards the build trigger: at most one build at a time, and a quiet
/// period between the starts of consecutive builds.
pub struct DebounceGate {
    running: bool,
    last_start: Option<u64>,
}

impl View for DebounceGate {
    type V = GateState;

    closed spec fn view(&self) -> GateState {
        GateState { running: self.running, last_start: self.last_start }
    }
}

impl DebounceGate {
    /// A gate with no build running and none started yet.
    pub fn new() -> (r: DebounceGate)
        ensures
            r@ == (GateState { running: false, last_start: None }),
    {
        DebounceGate { running: false, last_start: None }
    }

    /// Whether a build is running.
    pub fn is_running(&self) -> (r: bool)
        ensures
            r == self@.running,
    {
        self.running
    }

    /// Claims the debouncer at `now` if no build runs and the quiet period since
    /// the last start has passed; otherwise leaves it as it was.
    pub fn try_acquire(&mut self, now: u64) -> (r: bool)
        ensures
            (final(self)@, r) == acquire_step(old(self)@, now),
            r == admits(old(self)@, now),
    {
        if self.running {
            return false;
        }
        match self.last_start {
            Some(t) => {
                if now < t || now - t < QUIET_PERIOD_MS {
                    return false;
                }
            },
            None => {},
        }
        self.running = true;
        self.last_start = Some(now);
        true
    }

    /// Ends the running build; the start time stays.
    pub fn release(&mut self)
        ensures
            final(self)@ == released(old(self)@),
    {
        self.running = false;
    }
}

proof fn lemma_running_blocks(g: GateState, ts: Seq<u64>)
    requires
        g.running,
    ensures
        forall|i: int| 0 <= i < ts.len() ==> !#[trigger] acquire_answers(g, ts)[i],
        acquire_answers(g, ts).len() == ts.len(),
    decreases ts.len(),
{
    if ts.len() > 0 {
        lemma_running_blocks(g, ts.drop_first());
        let rest = acquire_answers(g, ts.drop_first());
        assert forall|i: int| 0 <= i < ts.len() implies !#[trigger] acquire_answers(g, ts)[i] by {
            if i > 0 {
                assert(acquire_answers(g, ts)[i] == rest[i - 1]);
            }
        }
    }
}

/// Without a release in between, at most one of a run of `try_acquire`
/// calls succeeds, whenever they come; on a fresh gate it is the first.
pub proof fn law_single_success(g: GateState, ts: Seq<u64>)
    ensures
        acquire_answers(g, ts).len() == ts.len(),
        forall|i: int, j: int|
            0 <= i < j < ts.len() ==> !(#[trigger] acquire_answers(g, ts)[i]
                && #[trigger] acquire_answers(g, ts)[j]),
        ts.len() > 0 && !g.running && g.last_start is None ==> acquire_answers(g, ts)[0],
    decreases ts.len(),
{
    if ts.len() > 0 {
        let (g1, a) = acquire_step(g, ts[0]);
        let rest = ts.drop_first();
        law_single_success(g1, rest);
        let all = acquire_answers(g, ts);
        assert forall|i: int, j: int|
            0 <= i < j < ts.len() implies !(#[trigger] all[i] && #[trigger] all[j]) by {
            if i == 0 {
                if a {
                    lemma_running_blocks(g1, rest);
                    assert(all[j] == acquire_answers(g1, rest)[j - 1]);
                }
            } else {
                assert(all[i] == acquire_answers(g1, rest)[i - 1]);
                assert(all[j] == acquire_answers(g1, rest)[j - 1]);
            }
        }
    }
}

/// After an acquire at `t1` and its release, an acquire at `t2` succeeds
/// exactly when the quiet period has passed since `t1`.
pub proof fn law_quiet_period(g: GateState, t1: u64, t2: u64)
    requires
        acquire_step(g, t1).1,
    ensures
        acquire_step(released(acquire_step(g, t1).0), t2).1 <==> (t2 >= t1 && t2 - t1
            >= QUIET_PERIOD_MS),
{
}

} // verus!
