//! Readiness gate: waits, bounded by a timeout, for the external producer to
//! have begun emitting usable output (a non-empty capture source) before the
//! consumer attaches. Waiting here only observes; it never blocks indefinitely,
//! and a timeout is a fatal start-up failure for the caller, not a cue to
//! retry silently.

use vstd::prelude::*;

verus! {

/// The readiness wait's verdict.
#[derive(Clone, Copy, PartialEq, Eq, Structural, Debug)]
pub enum GateOutcome {
    Ready,
    TimedOut,
}

/// What to do after one poll of the source's size.
#[derive(Clone, Copy, PartialEq, Eq, Structural, Debug)]
pub enum GateStep {
    Ready,
    TimedOut,
    PollAgain,
}

/// Decide after one observation of the source's size: any content means
/// ready; an empty source times out once the poll budget is spent and is
/// polled again otherwise.
pub fn readiness_decision(size: u64, polls_done: u64, max_polls: u64) -> (r: GateStep)
    ensures
        size > 0 ==> r is Ready,
        size == 0 && polls_done >= max_polls ==> r is TimedOut,
        size == 0 && polls_done < max_polls ==> r is PollAgain,
{
    if size > 0 {
        GateStep::Ready
    } else if polls_done >= max_polls {
        GateStep::TimedOut
    } else {
        GateStep::PollAgain
    }
}

/// Run the readiness wait against a sequence of observed sizes, one per
/// poll: ready exactly when some observation within the poll budget saw
/// content.
pub fn await_ready(sizes: &Vec<u64>, max_polls: usize) -> (r: GateOutcome)
    ensures
        (r is Ready) <==> exists|t: int|
            0 <= t < sizes@.len() && t < max_polls && sizes@[t] > 0,
{
    let lim = if max_polls < sizes.len() {
        max_polls
    } else {
        sizes.len()
    };
    let mut t: usize = 0;
    while t < lim
        invariant
            lim <= sizes@.len(),
            lim <= max_polls,
            (max_polls < sizes@.len() ==> lim == max_polls),
            (max_polls >= sizes@.len() ==> lim == sizes@.len()),
            t <= lim,
            forall|u: int| 0 <= u < t ==> sizes@[u] == 0,
        decreases lim - t,
    {
        if sizes[t] > 0 {
            assert(sizes@[t as int] > 0);
            return GateOutcome::Ready;
        }
        t += 1;
    }
    GateOutcome::TimedOut
}

} // verus!
