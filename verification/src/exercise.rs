use vstd::prelude::*;
use std::ops::Range;
use crate::address::Address;
use crate::laws::lemma_streams_settled;
use crate::payroll_stream::PayrollStream;

verus! {

/// The time leaps, in seconds, from which a randomized exercise of a ledger
/// draws: from none to fifty million, which is more than a year and a half.
pub fn time_leap_strategy() -> (leaps: Range<u64>)
    ensures
        leaps.start == 0,
        leaps.end == 50_000_000,
{
    0u64..50_000_000u64
}

/// The actions from which a randomized exercise of a ledger draws: zero for a
/// withdrawal, one for a cancellation.
pub fn action_strategy() -> (actions: Range<u32>)
    ensures
        actions.start == 0,
        actions.end == 2,
{
    0u32..2u32
}

/// Takes one step of an exercise on the stream `stream_id` of `ledger`, with a
/// custodian that grants whatever is asked of it, and returns the time at
/// which the step was taken: `leap` after `now`, or the last moment there is.
///
/// Where `action` is zero the worker withdraws, else the employer cancels. A
/// step that the ledger refuses changes nothing. Whatever the step, every
/// stream of the ledger is settled afterwards at the time of the step.
pub fn exercise(
    ledger: &mut PayrollStream,
    stream_id: u64,
    employer: Address,
    worker: Address,
    now: u64,
    leap: u64,
    action: u32,
) -> (t: u64)
    ensures
        t == (if now + leap <= u64::MAX {
            (now + leap) as u64
        } else {
            u64::MAX
        }),
        final(ledger)@ == (if action == 0 {
            old(ledger)@.withdraw(stream_id, worker, t, Ok(())).0
        } else {
            old(ledger)@.cancel_stream(stream_id, employer, t, Ok(())).0
        }),
        final(ledger)@.wf(),
        forall|id: u64| #[trigger]
            final(ledger)@.streams.contains_key(id) ==> final(ledger)@.streams[id].settled_at(
                final(ledger)@.time(t),
            ),
{
    let t: u64 = now.saturating_add(leap);
    if action == 0 {
        let _ = ledger.withdraw(stream_id, worker, t, Ok(()));
    } else {
        let _ = ledger.cancel_stream(stream_id, employer, t, Ok(()));
    }
    proof {
        let s = ledger@;
        assert forall|id: u64| #[trigger] s.streams.contains_key(id) implies s.streams[id]
            .settled_at(s.time(t)) by {
            lemma_streams_settled(s, id, s.time(t));
        }
    }
    t
}

} // verus!
