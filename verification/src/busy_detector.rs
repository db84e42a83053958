//! Detects worker threads that stay busy for too long between two parks, and
//! limits how often that is reported.
//!
//! The detector is a plain value: the caller owns the clock and the place
//! where the state lives, and hands both in.

use vstd::prelude::*;

verus! {

/// A thread may run this long between unpark and park without a report.
pub const ALLOWED_DELAY_MICROS: u64 = 5000;

/// After a report, further reports are held back for this long.
pub const DEBUG_SUPPRESSION_MICROS: u64 = 30_000_000;

/// State shared by all worker threads.
#[derive(Debug, Clone, Copy, PartialEq, Eq, Structural)]
pub struct BusyDetector {
    /// Whether parks are examined at all.
    pub enabled: bool,
    /// Reports are held back until the clock has passed this instant.
    pub next_debug: u64,
    /// Reports held back since the last one that went out.
    pub suppressed: u64,
}

/// State kept by each worker thread: when it last left the parked state, in
/// microseconds of the caller's clock.
#[derive(Debug, Clone, Copy, PartialEq, Eq, Structural)]
pub struct ThreadClock {
    pub last_unpark: u64,
}

/// A report that a thread was busy for `delta` microseconds; `suppressed`
/// earlier reports were held back.
#[derive(Debug, Clone, Copy, PartialEq, Eq, Structural)]
pub struct DebugReport {
    pub delta: u64,
    pub suppressed: u64,
}

/// The successor of a counter that wraps at the top of its range.
pub open spec fn wrapping_succ(n: u64) -> u64 {
    if n == u64::MAX {
        0
    } else {
        (n + 1) as u64
    }
}

/// What `emit_debug` makes of a state at time `now`: the next state, and the
/// report that goes out, if one does.
pub open spec fn emit_debug_spec(state: BusyDetector, delta: u64, now: u64) -> (
    BusyDetector,
    Option<DebugReport>,
) {
    if state.next_debug < now {
        (
            BusyDetector {
                enabled: state.enabled,
                next_debug: (now + DEBUG_SUPPRESSION_MICROS) as u64,
                suppressed: 0,
            },
            Some(DebugReport { delta, suppressed: state.suppressed }),
        )
    } else {
        (
            BusyDetector {
                enabled: state.enabled,
                next_debug: state.next_debug,
                suppressed: wrapping_succ(state.suppressed),
            },
            None,
        )
    }
}

/// What `thread_park` makes of a state when a thread that last unparked at
/// `last_unpark` parks at time `now`.
pub open spec fn thread_park_spec(state: BusyDetector, last_unpark: u64, now: u64) -> (
    BusyDetector,
    Option<DebugReport>,
) {
    if state.enabled && now - last_unpark > ALLOWED_DELAY_MICROS {
        emit_debug_spec(state, (now - last_unpark) as u64, now)
    } else {
        (state, None)
    }
}

impl BusyDetector {
    /// A detector that is switched off and has reported nothing.
    pub fn new() -> (state: Self)
        ensures
            state == (BusyDetector { enabled: false, next_debug: 0, suppressed: 0 }),
    {
        BusyDetector { enabled: false, next_debug: 0, suppressed: 0 }
    }
}

impl ThreadClock {
    /// The clock of a thread that has not left the parked state yet.
    pub fn new() -> (clock: Self)
        ensures
            clock.last_unpark == 0,
    {
        ThreadClock { last_unpark: 0 }
    }
}

/// Switches the detector on or off; the counters stay.
pub fn set_enabled(state: &mut BusyDetector, enabled: bool)
    ensures
        *final(state) == (BusyDetector { enabled, ..*old(state) }),
{
    state.enabled = enabled;
}

/// Records that the thread left the parked state at time `now`.
pub fn thread_unpark(clock: &mut ThreadClock, now: u64)
    ensures
        final(clock).last_unpark == now,
{
    clock.last_unpark = now;
}

/// Examines a park at time `now`. A report is due when the detector is on,
/// the thread ran for more than `ALLOWED_DELAY_MICROS` since it unparked, and
/// no report went out in the last `DEBUG_SUPPRESSION_MICROS`. A detector that
/// is off returns at once, whatever the clock reads; one that is on needs a
/// clock that did not run backwards, and room for the next deadline where a
/// report goes out.
pub fn thread_park(state: &mut BusyDetector, clock: &ThreadClock, now: u64) -> (report: Option<
    DebugReport,
>)
    requires
        old(state).enabled ==> clock.last_unpark <= now,
        old(state).enabled && now - clock.last_unpark > ALLOWED_DELAY_MICROS && old(
            state,
        ).next_debug < now ==> now + DEBUG_SUPPRESSION_MICROS <= u64::MAX,
    ensures
        (*final(state), report) == thread_park_spec(*old(state), clock.last_unpark, now),
{
    if !state.enabled {
        return None;
    }
    let delta: u64 = now - clock.last_unpark;
    if delta > ALLOWED_DELAY_MICROS {
        emit_debug(state, delta, now)
    } else {
        None
    }
}

/// Decides whether the report of a busy thread goes out at time `now`. It
/// does when the clock has passed `next_debug`; the report then carries the
/// number of reports held back before it, and the next ones are held back
/// for `DEBUG_SUPPRESSION_MICROS`. Otherwise the report is counted and held
/// back.
pub fn emit_debug(state: &mut BusyDetector, delta: u64, now: u64) -> (report: Option<DebugReport>)
    requires
        old(state).next_debug < now ==> now + DEBUG_SUPPRESSION_MICROS <= u64::MAX,
    ensures
        (*final(state), report) == emit_debug_spec(*old(state), delta, now),
{
    if state.next_debug < now {
        let suppressed: u64 = state.suppressed;
        state.next_debug = now + DEBUG_SUPPRESSION_MICROS;
        state.suppressed = 0;
        Some(DebugReport { delta, suppressed })
    } else {
        state.suppressed = if state.suppressed == u64::MAX {
            0
        } else {
            state.suppressed + 1
        };
        None
    }
}

/// While the clock does not pass `next_debug`, no report goes out and each
/// one that is held back is counted.
pub proof fn lemma_report_held_back(state: BusyDetector, delta: u64, now: u64)
    requires
        now <= state.next_debug,
    ensures
        emit_debug_spec(state, delta, now).1 is None,
        emit_debug_spec(state, delta, now).0.suppressed == wrapping_succ(state.suppressed),
        emit_debug_spec(state, delta, now).0.next_debug == state.next_debug,
{
}

/// After a report went out at `now`, no further report goes out before
/// `DEBUG_SUPPRESSION_MICROS` have passed.
pub proof fn lemma_reports_are_spaced(state: BusyDetector, delta: u64, now: u64, later: u64)
    requires
        state.next_debug < now,
        now + DEBUG_SUPPRESSION_MICROS <= u64::MAX,
        later <= now + DEBUG_SUPPRESSION_MICROS,
    ensures
        emit_debug_spec(emit_debug_spec(state, delta, now).0, delta, later).1 is None,
{
}

/// A detector that is switched off never reports and never changes.
pub proof fn lemma_disabled_is_silent(state: BusyDetector, last_unpark: u64, now: u64)
    requires
        !state.enabled,
    ensures
        thread_park_spec(state, last_unpark, now) == (state, None::<DebugReport>),
{
}

} // verus!
