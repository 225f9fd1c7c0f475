//! Decision logic of the instrumented accumulator variants.
//!
//! The instrumented variants add the same terms as the plain ascending
//! accumulator and must return the same sum; all they add is observation. The
//! observations are decided here, over the strict sign of the running sum
//! before and after an addition, so that every counting, latching,
//! rate-limiting and windowing decision is verified. Reading the sign off a
//! floating value, estimating its unit in the last place and printing the
//! reports are the callers' unverified edge.

use vstd::prelude::*;

verus! {

/// At most this many sign flips are reported in detail; later ones are only
/// counted.
pub const SIGN_FLIP_REPORT_LIMIT: u64 = 5;

/// At most this many zero crossings are reported in detail; later ones are
/// only counted.
pub const ZERO_CROSSING_REPORT_LIMIT: u64 = 3;

/// A progress snapshot is reported at every multiple of this index.
pub const PROGRESS_INTERVAL: u64 = 100_000;

/// First index of the window in which the detailed variant traces every
/// iteration.
pub const TRACE_WINDOW_LOW: u64 = 65_530;

/// Last index of the window in which the detailed variant traces every
/// iteration.
pub const TRACE_WINDOW_HIGH: u64 = 65_542;

/// The strict sign of a floating value, as the diagnostics read it. A sum of
/// exactly zero is neither positive nor negative, so it takes part in the
/// strict-sign tests differently than in the product test.
#[derive(Clone, Copy, PartialEq, Eq, Structural, Debug)]
pub enum Sign {
    Negative,
    Zero,
    Positive,
}

/// A sign flip: the sum moved strictly from positive to negative or strictly
/// from negative to positive.
pub open spec fn is_sign_flip(prev: Sign, next: Sign) -> bool {
    (prev is Positive && next is Negative) || (prev is Negative && next is Positive)
}

/// Whether one addition flipped the strict sign of the running sum.
pub fn sign_flip(prev: Sign, next: Sign) -> (r: bool)
    ensures
        r == is_sign_flip(prev, next),
{
    match (prev, next) {
        (Sign::Positive, Sign::Negative) => true,
        (Sign::Negative, Sign::Positive) => true,
        _ => false,
    }
}

/// What one iteration of the debug accumulator observed, reduced to signs:
/// the strict sign of the sum before the addition, after it, and of the
/// floating-point product of the two sums. The product sign is handed in
/// separately rather than derived from the other two, because the unverified
/// caller computes it with a floating multiplication whose rounding may drive
/// a product of opposite-signed factors to zero.
#[derive(Clone, Copy, PartialEq, Eq, Structural, Debug)]
pub struct SignObservation {
    /// Strict sign of the running sum before the addition.
    pub prev: Sign,
    /// Strict sign of the running sum after the addition.
    pub next: Sign,
    /// Strict sign of the floating-point product of the two sums.
    pub product: Sign,
}

/// The counters and the latch that the debug accumulator threads through its
/// loop in place of hidden global state.
#[derive(Clone, Copy, PartialEq, Eq, Structural, Debug)]
pub struct DebugState {
    /// How many sign flips have occurred so far.
    pub sign_flips: u64,
    /// How many zero crossings have occurred so far.
    pub zero_crossings: u64,
    /// Whether the one-time first-negative report has been emitted.
    pub reported_first_negative: bool,
}

/// What the debug accumulator must report after one iteration.
#[derive(Clone, Copy, PartialEq, Eq, Structural, Debug)]
pub struct DebugReport {
    /// Emit a detailed sign-flip line (rate-limited).
    pub sign_flip: bool,
    /// Emit a detailed zero-crossing line (rate-limited).
    pub zero_crossing: bool,
    /// Emit the one-time first-transition-to-negative line, with its ULP
    /// estimate.
    pub first_negative: bool,
    /// Emit a periodic progress snapshot.
    pub progress: bool,
}

/// The state in which the debug accumulator starts: nothing counted, nothing
/// reported.
pub fn initial_debug_state() -> (r: DebugState)
    ensures
        r.sign_flips == 0,
        r.zero_crossings == 0,
        !r.reported_first_negative,
{
    DebugState { sign_flips: 0, zero_crossings: 0, reported_first_negative: false }
}

/// One iteration of the debug accumulator's bookkeeping, at loop index i:
/// counts every sign flip and zero crossing, reports in detail only the first
/// `SIGN_FLIP_REPORT_LIMIT` flips and `ZERO_CROSSING_REPORT_LIMIT` crossings,
/// latches the one-time first-negative report, and asks for a progress
/// snapshot at every multiple of `PROGRESS_INTERVAL`. It sees only signs, so
/// it cannot alter the numeric trajectory of the sum.
pub fn debug_step(state: &DebugState, obs: SignObservation, i: u64) -> (r: (DebugState, DebugReport))
    requires
        state.sign_flips < u64::MAX,
        state.zero_crossings < u64::MAX,
    ensures
        r.0.sign_flips == state.sign_flips + (if is_sign_flip(obs.prev, obs.next) {
            1int
        } else {
            0int
        }),
        r.0.zero_crossings == state.zero_crossings + (if obs.product is Negative {
            1int
        } else {
            0int
        }),
        r.0.reported_first_negative == (state.reported_first_negative || obs.next is Negative),
        r.1.sign_flip == (is_sign_flip(obs.prev, obs.next) && r.0.sign_flips
            <= SIGN_FLIP_REPORT_LIMIT),
        r.1.zero_crossing == (obs.product is Negative && r.0.zero_crossings
            <= ZERO_CROSSING_REPORT_LIMIT),
        r.1.first_negative == (obs.next is Negative && !state.reported_first_negative),
        r.1.progress == (i % PROGRESS_INTERVAL == 0),
{
    let flipped = sign_flip(obs.prev, obs.next);
    let crossed = matches!(obs.product, Sign::Negative);
    let went_negative = matches!(obs.next, Sign::Negative);

    let sign_flips = if flipped {
        state.sign_flips + 1
    } else {
        state.sign_flips
    };
    let zero_crossings = if crossed {
        state.zero_crossings + 1
    } else {
        state.zero_crossings
    };
    let next_state = DebugState {
        sign_flips,
        zero_crossings,
        reported_first_negative: state.reported_first_negative || went_negative,
    };
    let report = DebugReport {
        sign_flip: flipped && sign_flips <= SIGN_FLIP_REPORT_LIMIT,
        zero_crossing: crossed && zero_crossings <= ZERO_CROSSING_REPORT_LIMIT,
        first_negative: went_negative && !state.reported_first_negative,
        progress: i % PROGRESS_INTERVAL == 0,
    };
    (next_state, report)
}

/// Whether loop index i lies in the fixed window that the detailed variant
/// traces iteration by iteration.
pub fn in_trace_window(i: u64) -> (r: bool)
    ensures
        r == (TRACE_WINDOW_LOW <= i && i <= TRACE_WINDOW_HIGH),
{
    TRACE_WINDOW_LOW <= i && i <= TRACE_WINDOW_HIGH
}

/// Whether this iteration is the first actual downward sign flip of the
/// detailed trace: the sum was strictly positive, is now strictly negative,
/// and no earlier flip has been found.
pub fn first_downward_flip(prev: Sign, next: Sign, found: bool) -> (r: bool)
    ensures
        r == (prev is Positive && next is Negative && !found),
{
    !found && matches!(prev, Sign::Positive) && matches!(next, Sign::Negative)
}

/// Whether the detailed variant stops early: it has found its flip and the
/// index has left the trace window. Iteration past this point would trace
/// nothing more, so the variant deliberately does not sum the full series.
pub fn should_stop_trace(found: bool, i: u64) -> (r: bool)
    ensures
        r == (found && i > TRACE_WINDOW_HIGH),
{
    found && i > TRACE_WINDOW_HIGH
}

} // verus!
