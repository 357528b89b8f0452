//! Growing-stream reader: the decision kernel of reading from a live,
//! append-only capture source. Each poll of the source observes either a
//! complete new line or the current absence of data together with the
//! producer's liveness; the reader turns that observation into one of three
//! outcomes. `Pending` (no data, producer alive) asks the caller to back off
//! and retry; only `Terminated` (no data, producer dead) may end the read
//! loop. Liveness comes from the producer's own exit status, never from
//! stream EOF: a live producer legitimately shows transient EOF between
//! bursts, and partial trailing data simply surfaces as `Pending` until it
//! completes on a later poll.

use vstd::prelude::*;

verus! {

/// One observation of the capture source: a complete new line, or no new
/// data together with whether the producer process is still alive.
pub enum CapturePoll {
    Data(Vec<u8>),
    NoData { producer_alive: bool },
}

/// What one read attempt yields.
pub enum ReadOutcome {
    Line(Vec<u8>),
    Pending,
    Terminated,
}

/// The reader's contract: a line is returned as soon as one is available;
/// otherwise a live producer means `Pending` and a dead one `Terminated`.
pub open spec fn read_contract(p: CapturePoll, r: ReadOutcome) -> bool {
    &&& (r is Line <==> p is Data)
    &&& (p matches CapturePoll::Data(l) ==> r matches ReadOutcome::Line(m) && m@ == l@)
    &&& (p matches CapturePoll::NoData { producer_alive } ==> ((r is Pending <==> producer_alive)
        && (r is Terminated <==> !producer_alive)))
}

/// Turn one observation of the source into a read outcome.
pub fn read_next(p: CapturePoll) -> (r: ReadOutcome)
    ensures
        read_contract(p, r),
{
    match p {
        CapturePoll::Data(l) => ReadOutcome::Line(l),
        CapturePoll::NoData { producer_alive } => {
            if producer_alive {
                ReadOutcome::Pending
            } else {
                ReadOutcome::Terminated
            }
        },
    }
}

/// A source with no new data but a live producer for the first `n` polls and
/// a complete line on poll `n` yields `Pending` on every attempt before `n`
/// and that line on attempt `n` — and never `Terminated`.
pub proof fn lemma_backoff_then_line(polls: Seq<CapturePoll>, outs: Seq<ReadOutcome>, n: int)
    requires
        0 <= n,
        polls.len() == n + 1,
        outs.len() == n + 1,
        forall|t: int| 0 <= t <= n ==> read_contract(#[trigger] polls[t], outs[t]),
        forall|t: int| 0 <= t < n ==> (#[trigger] polls[t]) matches CapturePoll::NoData {
            producer_alive: true,
        },
        polls[n] is Data,
    ensures
        forall|t: int| 0 <= t < n ==> (#[trigger] outs[t]) is Pending,
        outs[n] is Line,
        forall|t: int| 0 <= t <= n ==> !((#[trigger] outs[t]) is Terminated),
{
    assert forall|t: int| 0 <= t < n implies (#[trigger] outs[t]) is Pending by {
        assert(read_contract(polls[t], outs[t]));
        assert(polls[t] matches CapturePoll::NoData { producer_alive: true });
    }
    assert forall|t: int| 0 <= t <= n implies !((#[trigger] outs[t]) is Terminated) by {
        assert(read_contract(polls[t], outs[t]));
        if t < n {
            assert(polls[t] matches CapturePoll::NoData { producer_alive: true });
        } else {
            assert(polls[t] is Data);
        }
    }
}

} // verus!
