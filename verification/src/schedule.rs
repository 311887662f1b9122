//! Per-document debounce and scheduling state. A burst of edits re-arms one
//! timer instead of starting a second; a timer fire whose generation was
//! superseded by a later re-arm is stale and starts nothing; a fire that lands
//! while an analysis is still running queues exactly one follow-up run, which
//! starts when the running one completes and uses the freshest text available
//! then.

use vstd::prelude::*;

verus! {

/// Scheduling state carried alongside each document. `timer_gen` names the
/// currently armed timer; re-arming bumps it, so an earlier timer's fire no
/// longer matches and is ignored.
#[derive(Clone, Copy, Debug, PartialEq, Eq, Structural)]
pub struct Sched {
    /// Whether a debounce timer is currently armed.
    pub timer_armed: bool,
    /// Generation of the armed timer; a fire must present this to count.
    pub timer_gen: u64,
    /// Absolute deadline (caller's clock, milliseconds) of the armed timer.
    pub deadline: u64,
    /// Whether an analysis run is in flight for this document.
    pub running: bool,
    /// Whether a run is queued to start as soon as the in-flight one ends.
    pub queued: bool,
}

/// A scheduling state is well formed when a run is queued only behind a
/// running one.
pub open spec fn sched_wf(s: Sched) -> bool {
    s.queued ==> s.running
}

/// The state of a document with no timer and no run: freshly opened or fully
/// quiescent.
pub open spec fn sched_idle() -> Sched {
    Sched { timer_armed: false, timer_gen: 0, deadline: 0, running: false, queued: false }
}

/// The next timer generation; wraps rather than overflowing.
pub open spec fn next_gen(g: u64) -> u64 {
    if g == u64::MAX {
        0
    } else {
        (g + 1) as u64
    }
}

/// The deadline a timer armed at `now` gets under debounce window `d`;
/// saturates at the clock's maximum.
pub open spec fn arm_deadline(now: u64, d: u64) -> u64 {
    if now + d > u64::MAX {
        u64::MAX
    } else {
        (now + d) as u64
    }
}

/// The scheduling state after an edit at time `now`: one timer is armed (or
/// the armed one re-armed) with a fresh generation and a new deadline; a
/// running or queued run is unaffected.
pub open spec fn sched_after_change(s: Sched, now: u64, d: u64) -> Sched {
    Sched {
        timer_armed: true,
        timer_gen: next_gen(s.timer_gen),
        deadline: arm_deadline(now, d),
        running: s.running,
        queued: s.queued,
    }
}

/// Whether a fire presenting generation `gen` matches the armed timer.
pub open spec fn fire_matches(s: Sched, gen: u64) -> bool {
    s.timer_armed && s.timer_gen == gen
}

/// Whether a matching fire starts an analysis run now: only when none is
/// already running, keeping at most one run in flight per document.
pub open spec fn fire_starts(s: Sched, gen: u64) -> bool {
    fire_matches(s, gen) && !s.running
}

/// The scheduling state after a timer fire presenting `gen`: a stale fire
/// changes nothing; a matching fire disarms the timer and either starts a run
/// or queues one behind the run in flight.
pub open spec fn sched_after_fire(s: Sched, gen: u64) -> Sched {
    if !fire_matches(s, gen) {
        s
    } else if s.running {
        Sched { timer_armed: false, queued: true, ..s }
    } else {
        Sched { timer_armed: false, running: true, ..s }
    }
}

/// Whether completing the run in flight immediately starts the queued one.
pub open spec fn completion_starts_next(s: Sched) -> bool {
    s.queued
}

/// The scheduling state after the run in flight completes: the queued run, if
/// any, takes its place; otherwise the document goes quiet.
pub open spec fn sched_after_completion(s: Sched) -> Sched {
    if s.queued {
        Sched { queued: false, ..s }
    } else {
        Sched { running: false, ..s }
    }
}

/// Every transition preserves well-formedness.
pub proof fn lemma_sched_transitions_wf(s: Sched, now: u64, d: u64, gen: u64)
    requires
        sched_wf(s),
    ensures
        sched_wf(sched_after_change(s, now, d)),
        sched_wf(sched_after_fire(s, gen)),
        sched_wf(sched_after_completion(s)),
{
}

/// Re-arming always changes the generation, so the superseded timer's fire
/// never matches again and leaves the state untouched.
pub proof fn lemma_rearm_supersedes(s: Sched, now: u64, d: u64)
    ensures
        next_gen(s.timer_gen) != s.timer_gen,
        !fire_matches(sched_after_change(s, now, d), s.timer_gen),
        sched_after_fire(sched_after_change(s, now, d), s.timer_gen) == sched_after_change(
            s,
            now,
            d,
        ),
{
}

/// Coalescing: when a second edit lands before the first edit's timer fires,
/// the first timer's fire is stale — it starts nothing and leaves the state
/// unchanged — while the second timer's fire starts exactly one run (or queues
/// exactly one, if a run is already in flight), and after that fire the timer
/// is disarmed, so the same fire cannot start a second run.
pub proof fn lemma_burst_coalesced(s: Sched, now1: u64, now2: u64, d: u64)
    ensures
        ({
            let s1 = sched_after_change(s, now1, d);
            let s2 = sched_after_change(s1, now2, d);
            &&& !fire_matches(s2, s1.timer_gen)
            &&& sched_after_fire(s2, s1.timer_gen) == s2
            &&& !s2.running ==> fire_starts(s2, s2.timer_gen)
            &&& s2.running ==> !fire_starts(s2, s2.timer_gen) && sched_after_fire(
                s2,
                s2.timer_gen,
            ).queued
            &&& !sched_after_fire(s2, s2.timer_gen).timer_armed
            &&& !fire_starts(sched_after_fire(s2, s2.timer_gen), s2.timer_gen)
        }),
{
}

/// Builds the idle scheduling state.
pub fn sched_new() -> (r: Sched)
    ensures
        r == sched_idle(),
{
    Sched { timer_armed: false, timer_gen: 0, deadline: 0, running: false, queued: false }
}

/// Applies the edit transition.
pub fn sched_change(s: &Sched, now: u64, d: u64) -> (r: Sched)
    ensures
        r == sched_after_change(*s, now, d),
{
    let gen: u64 = if s.timer_gen == u64::MAX {
        0
    } else {
        s.timer_gen + 1
    };
    let deadline: u64 = if now > u64::MAX - d {
        u64::MAX
    } else {
        now + d
    };
    Sched { timer_armed: true, timer_gen: gen, deadline, running: s.running, queued: s.queued }
}

/// Applies the timer-fire transition; returns the new state and whether an
/// analysis run starts now.
pub fn sched_fire(s: &Sched, gen: u64) -> (r: (Sched, bool))
    ensures
        r.0 == sched_after_fire(*s, gen),
        r.1 == fire_starts(*s, gen),
{
    if !(s.timer_armed && s.timer_gen == gen) {
        (*s, false)
    } else if s.running {
        (Sched { timer_armed: false, queued: true, ..*s }, false)
    } else {
        (Sched { timer_armed: false, running: true, ..*s }, true)
    }
}

/// Applies the run-completion transition; returns the new state and whether
/// the queued run starts now.
pub fn sched_complete(s: &Sched) -> (r: (Sched, bool))
    ensures
        r.0 == sched_after_completion(*s),
        r.1 == completion_starts_next(*s),
{
    if s.queued {
        (Sched { queued: false, ..*s }, true)
    } else {
        (Sched { running: false, ..*s }, false)
    }
}

} // verus!
