use proptest::strategy::{Strategy, ValueTree};
use proptest::test_runner::TestRunner;
use quipay::{action_strategy, exercise, time_leap_strategy, Address, PayrollStream, StreamStatus};

fn employer() -> Address {
    Address::account(0, 2)
}

fn worker() -> Address {
    Address::account(0, 3)
}

fn token() -> Address {
    Address::contract(0, 4)
}

#[test]
fn time_leaps_run_from_none_to_fifty_million() {
    let leaps = time_leap_strategy();
    assert_eq!(leaps.start, 0u64);
    assert_eq!(leaps.end, 50_000_000u64);
}

#[test]
fn actions_are_withdrawal_and_cancellation() {
    let actions = action_strategy();
    assert_eq!(actions.start, 0u32);
    assert_eq!(actions.end, 2u32);
}

#[test]
fn a_step_withdraws_or_cancels() {
    let mut ledger = PayrollStream::new();
    let id = ledger
        .create_stream(employer(), worker(), token(), 1000, 0, 10, Ok(()))
        .unwrap();
    assert_eq!(exercise(&mut ledger, id, employer(), worker(), 2, 3, 0), 5);
    assert_eq!(ledger.get_stream(id).unwrap().withdrawn_amount, 500);
    assert_eq!(exercise(&mut ledger, id, employer(), worker(), 5, 2, 1), 7);
    let stream = ledger.get_stream(id).unwrap();
    assert_eq!(stream.status, StreamStatus::Canceled);
    assert_eq!(stream.withdrawn_amount, 700);
    assert_eq!(stream.closed_at, 7);
    // A step that is refused changes nothing, and time stops at the last moment.
    assert_eq!(exercise(&mut ledger, id, employer(), worker(), u64::MAX - 1, 5, 0), u64::MAX);
    assert_eq!(ledger.get_stream(id).unwrap(), stream);
}

#[test]
fn fuzz_stream_invariant() {
    let mut runner = TestRunner::deterministic();
    for _ in 0..500 {
        let total_amount = (1i128..1_000_000_000_000i128)
            .new_tree(&mut runner)
            .unwrap()
            .current();
        let start_offset = (10u64..10_000u64).new_tree(&mut runner).unwrap().current();
        // Streams up to 1 year
        let duration = (1u64..31_536_000u64).new_tree(&mut runner).unwrap().current();
        let time_leaps = proptest::collection::vec(time_leap_strategy(), 1..50)
            .new_tree(&mut runner)
            .unwrap()
            .current();
        let actions = proptest::collection::vec(action_strategy(), 1..50)
            .new_tree(&mut runner)
            .unwrap()
            .current();

        let mut ledger = PayrollStream::new();
        ledger.init(Address::account(0, 1)).unwrap();

        let initial_time = 1_000_000_000u64;
        let start_ts = initial_time.saturating_add(start_offset);
        let end_ts = start_ts.saturating_add(duration);

        let stream_id = ledger
            .create_stream(employer(), worker(), token(), total_amount, start_ts, end_ts, Ok(()))
            .unwrap();

        let mut current_time = initial_time;
        let steps = std::cmp::min(time_leaps.len(), actions.len());

        for i in 0..steps {
            current_time = exercise(
                &mut ledger,
                stream_id,
                employer(),
                worker(),
                current_time,
                time_leaps[i],
                actions[i],
            );

            if let Some(stream) = ledger.get_stream(stream_id) {
                let withdrawn = stream.withdrawn_amount;
                let total = stream.total_amount;

                let is_closed = stream.status != StreamStatus::Active;
                let effective_now = if is_closed { stream.closed_at } else { current_time };

                let accrued = if effective_now <= stream.start_ts {
                    0
                } else if effective_now >= stream.end_ts {
                    total
                } else {
                    let elapsed = effective_now - stream.start_ts;
                    let duration = stream.end_ts - stream.start_ts;
                    (total * (elapsed as i128)) / (duration as i128)
                };

                // STREAM INVARIANT: Withdrawn <= Accrued <= Total Stream Value
                assert!(
                    withdrawn <= accrued,
                    "INVARIANT VIOLATION: Withdrawn ({}) > Accrued ({})",
                    withdrawn,
                    accrued
                );
                assert!(
                    accrued <= total,
                    "INVARIANT VIOLATION: Accrued ({}) > Total ({})",
                    accrued,
                    total
                );
                assert!(withdrawn >= 0, "Withdrawn is negative: {}", withdrawn);
                assert_eq!(stream.accrued(effective_now), accrued);
                assert!(stream.is_valid());
                assert!(stream.is_settled_at(current_time));
            }
        }
    }
}
