use vstd::prelude::*;
use crate::address::Address;
use crate::error::QuipayError;
use crate::ledger::{lemma_clock_advances, lemma_with_stream_wf, stream_total, LedgerState};
use crate::stream::{
    lemma_cancel_step, lemma_settled_persists, lemma_vested_boundaries, lemma_withdraw_step,
    Settlement, Stream, StreamStatus,
};

verus! {

/// One call of a ledger operation, with the answer of the custodian where the
/// operation asks for one.
pub enum Action {
    Init { admin: Address },
    SetPaused { caller: Address, paused: bool },
    SetRetentionSecs { caller: Address, retention_secs: u64 },
    SetVault { caller: Address, vault: Address },
    SetGateway { caller: Address, gateway: Address },
    CreateStream {
        employer: Address,
        worker: Address,
        asset: Address,
        total_amount: i128,
        start_ts: u64,
        end_ts: u64,
        allocation: Result<(), QuipayError>,
    },
    CreateStreamViaGateway {
        caller: Address,
        employer: Address,
        worker: Address,
        asset: Address,
        rate: i128,
        cliff_ts: u64,
        start_ts: u64,
        end_ts: u64,
        allocation: Result<(), QuipayError>,
    },
    Withdraw { stream_id: u64, worker: Address, now: u64, release: Result<(), QuipayError> },
    CancelStream { stream_id: u64, employer: Address, now: u64, payout: Result<(), QuipayError> },
    CancelStreamViaGateway {
        caller: Address,
        stream_id: u64,
        employer: Address,
        now: u64,
        payout: Result<(), QuipayError>,
    },
    CleanupStream { stream_id: u64, now: u64 },
    TakeEvents,
}

impl Action {
    /// Whether the action may give out a stream id.
    pub open spec fn creates(self) -> bool {
        self is CreateStream || self is CreateStreamViaGateway
    }
}

impl LedgerState {
    /// The state after `action`. A ledger that has given out every id takes
    /// no further creation.
    pub open spec fn step(self, action: Action) -> LedgerState {
        if action.creates() && self.config.next_id == u64::MAX {
            self
        } else {
            match action {
                Action::Init { admin } => self.init(admin).0,
                Action::SetPaused { caller, paused } => self.set_paused(caller, paused).0,
                Action::SetRetentionSecs { caller, retention_secs } => self.set_retention_secs(
                    caller,
                    retention_secs,
                ).0,
                Action::SetVault { caller, vault } => self.set_vault(caller, vault).0,
                Action::SetGateway { caller, gateway } => self.set_gateway(caller, gateway).0,
                Action::CreateStream {
                    employer,
                    worker,
                    asset,
                    total_amount,
                    start_ts,
                    end_ts,
                    allocation,
                } => self.create_stream(
                    employer,
                    worker,
                    asset,
                    total_amount,
                    start_ts,
                    end_ts,
                    allocation,
                ).0,
                Action::CreateStreamViaGateway {
                    caller,
                    employer,
                    worker,
                    asset,
                    rate,
                    cliff_ts,
                    start_ts,
                    end_ts,
                    allocation,
                } => self.create_stream_via_gateway(
                    caller,
                    employer,
                    worker,
                    asset,
                    rate,
                    cliff_ts,
                    start_ts,
                    end_ts,
                    allocation,
                ).0,
                Action::Withdraw { stream_id, worker, now, release } => self.withdraw(
                    stream_id,
                    worker,
                    now,
                    release,
                ).0,
                Action::CancelStream { stream_id, employer, now, payout } => self.cancel_stream(
                    stream_id,
                    employer,
                    now,
                    payout,
                ).0,
                Action::CancelStreamViaGateway {
                    caller,
                    stream_id,
                    employer,
                    now,
                    payout,
                } => self.cancel_stream_via_gateway(caller, stream_id, employer, now, payout).0,
                Action::CleanupStream { stream_id, now } => self.cleanup_stream(stream_id, now).0,
                Action::TakeEvents => self.take_events().0,
            }
        }
    }

    /// The state after the actions of `history`, taken in order.
    pub open spec fn after(self, history: Seq<Action>) -> LedgerState
        decreases history.len(),
    {
        if history.len() == 0 {
            self
        } else {
            self.after(history.drop_last()).step(history.last())
        }
    }
}

/// How a later state of a ledger relates to an earlier one: neither the
/// clock nor the next id went back; a record that is still there kept its id,
/// parties, asset, total and window; its worker was not paid less; and a
/// stream that had ended is as it was.
pub open spec fn succeeds(before: LedgerState, after: LedgerState) -> bool {
    &&& before.config.clock <= after.config.clock
    &&& before.config.next_id <= after.config.next_id
    &&& forall|id: u64| #[trigger]
        after.streams.contains_key(id) ==> id < before.config.next_id
            ==> before.streams.contains_key(id)
    &&& forall|id: u64| #[trigger]
        after.streams.contains_key(id) && before.streams.contains_key(id) ==> {
            let old_stream = before.streams[id];
            let new_stream = after.streams[id];
            &&& new_stream.id == old_stream.id
            &&& new_stream.employer == old_stream.employer
            &&& new_stream.worker == old_stream.worker
            &&& new_stream.asset == old_stream.asset
            &&& new_stream.total_amount == old_stream.total_amount
            &&& new_stream.start_ts == old_stream.start_ts
            &&& new_stream.cliff_ts == old_stream.cliff_ts
            &&& new_stream.end_ts == old_stream.end_ts
            &&& new_stream.withdrawn_amount >= old_stream.withdrawn_amount
            &&& old_stream.is_terminal() ==> new_stream == old_stream
        }
}

/// Filing the changed record of an active stream leads to a later state.
proof fn lemma_with_stream_succeeds(s: LedgerState, stream: Stream, t: u64)
    requires
        s.wf(),
        s.config.clock <= t,
        s.streams.contains_key(stream.id),
        s.streams[stream.id].status == StreamStatus::Active,
        stream == (Stream {
            withdrawn_amount: stream.withdrawn_amount,
            status: stream.status,
            closed_at: stream.closed_at,
            ..s.streams[stream.id]
        }),
        stream.withdrawn_amount >= s.streams[stream.id].withdrawn_amount,
    ensures
        succeeds(s, s.with_stream(stream, t)),
{
}

/// Every operation takes a valid state to a valid state, and to a later one:
/// whatever the arguments, and whether it succeeds or fails.
pub proof fn lemma_step_keeps_valid(s: LedgerState, action: Action)
    requires
        s.wf(),
    ensures
        s.step(action).wf(),
        succeeds(s, s.step(action)),
{
    if action.creates() && s.config.next_id == u64::MAX {
    } else {
    match action {
        Action::CreateStream {
            employer,
            worker,
            asset,
            total_amount,
            start_ts,
            end_ts,
            allocation,
        } => {
            lemma_open_keeps_valid(
                s,
                employer,
                worker,
                asset,
                total_amount,
                start_ts,
                start_ts,
                end_ts,
                allocation,
            );
        },
        Action::CreateStreamViaGateway {
            caller,
            employer,
            worker,
            asset,
            rate,
            cliff_ts,
            start_ts,
            end_ts,
            allocation,
        } => {
            if let Ok(total_amount) = s.gateway_allocation_due(
                caller,
                rate,
                cliff_ts,
                start_ts,
                end_ts,
            ) {
                lemma_open_keeps_valid(
                    s,
                    employer,
                    worker,
                    asset,
                    total_amount,
                    start_ts,
                    cliff_ts,
                    end_ts,
                    allocation,
                );
            }
        },
        Action::Withdraw { stream_id, worker, now, release } => {
            lemma_withdraw_keeps_valid(s, stream_id, worker, now, release);
        },
        Action::CancelStream { stream_id, employer, now, payout } => {
            lemma_cancel_keeps_valid(s, stream_id, employer, now, payout);
        },
        Action::CancelStreamViaGateway { caller, stream_id, employer, now, payout } => {
            if s.gateway_check(caller) is Ok {
                lemma_cancel_keeps_valid(s, stream_id, employer, now, payout);
            }
        },
        Action::CleanupStream { stream_id, now } => {
            if s.removable(stream_id, now) is Ok {
                lemma_clock_advances(s, s.time(now));
            }
        },
        _ => {},
    }
    }
}

proof fn lemma_open_keeps_valid(
    s: LedgerState,
    employer: Address,
    worker: Address,
    asset: Address,
    total_amount: i128,
    start_ts: u64,
    cliff_ts: u64,
    end_ts: u64,
    allocation: Result<(), QuipayError>,
)
    requires
        s.wf(),
        s.config.next_id < u64::MAX,
    ensures
        s.open_stream(
            employer,
            worker,
            asset,
            total_amount,
            start_ts,
            cliff_ts,
            end_ts,
            allocation,
        ).0.wf(),
        succeeds(
            s,
            s.open_stream(
                employer,
                worker,
                asset,
                total_amount,
                start_ts,
                cliff_ts,
                end_ts,
                allocation,
            ).0,
        ),
{
    let next = s.open_stream(
        employer,
        worker,
        asset,
        total_amount,
        start_ts,
        cliff_ts,
        end_ts,
        allocation,
    );
    if next.1 is Ok {
        let stream = Stream::opened(
            s.config.next_id,
            employer,
            worker,
            asset,
            total_amount,
            start_ts,
            cliff_ts,
            end_ts,
        );
        lemma_vested_boundaries(stream, s.config.clock);
    }
}

proof fn lemma_withdraw_keeps_valid(
    s: LedgerState,
    stream_id: u64,
    worker: Address,
    now: u64,
    release: Result<(), QuipayError>,
)
    requires
        s.wf(),
    ensures
        s.withdraw(stream_id, worker, now, release).0.wf(),
        succeeds(s, s.withdraw(stream_id, worker, now, release).0),
{
    if s.active_stream(stream_id, worker, true) is Ok {
        let t = s.time(now);
        let stream = s.streams[stream_id];
        lemma_settled_persists(stream, s.config.clock, t);
        lemma_withdraw_step(stream, t);
        lemma_with_stream_wf(s, stream.after_withdraw(t), t);
        lemma_with_stream_succeeds(s, stream.after_withdraw(t), t);
    }
}

proof fn lemma_cancel_keeps_valid(
    s: LedgerState,
    stream_id: u64,
    employer: Address,
    now: u64,
    payout: Result<(), QuipayError>,
)
    requires
        s.wf(),
    ensures
        s.cancel_stream(stream_id, employer, now, payout).0.wf(),
        succeeds(s, s.cancel_stream(stream_id, employer, now, payout).0),
{
    if s.active_stream(stream_id, employer, false) is Ok {
        let t = s.time(now);
        let stream = s.streams[stream_id];
        lemma_settled_persists(stream, s.config.clock, t);
        lemma_cancel_step(stream, t);
        lemma_with_stream_wf(s, stream.after_cancel(t), t);
        lemma_with_stream_succeeds(s, stream.after_cancel(t), t);
    }
}

/// A state that is later than a later state is a later state.
proof fn lemma_succeeds_transitive(a: LedgerState, b: LedgerState, c: LedgerState)
    requires
        a.wf(),
        b.wf(),
        succeeds(a, b),
        succeeds(b, c),
    ensures
        succeeds(a, c),
{
    assert forall|id: u64| #[trigger]
        c.streams.contains_key(id) && id < a.config.next_id implies a.streams.contains_key(id) by {
        assert(b.streams.contains_key(id));
    }
    assert forall|id: u64| #[trigger]
        c.streams.contains_key(id) && a.streams.contains_key(id) implies b.streams.contains_key(
        id,
    ) by {
        assert(id < a.config.next_id);
    }
}

/// Whatever is done to a ledger, and in whatever order, a valid state stays
/// valid, and what follows is a later state: the clock and the next id never
/// go back, no id is given out twice, no record changes its parties or its
/// terms, no worker is ever paid less than before, and no stream that ended
/// changes again.
pub proof fn lemma_history_keeps_valid(s: LedgerState, history: Seq<Action>)
    requires
        s.wf(),
    ensures
        s.after(history).wf(),
        succeeds(s, s.after(history)),
    decreases history.len(),
{
    if history.len() > 0 {
        let before = s.after(history.drop_last());
        lemma_history_keeps_valid(s, history.drop_last());
        lemma_step_keeps_valid(before, history.last());
        lemma_succeeds_transitive(s, before, before.step(history.last()));
    }
}

/// Every state that a new ledger reaches, by whatever calls, is valid.
pub proof fn lemma_reachable_valid(history: Seq<Action>)
    ensures
        LedgerState::initial().after(history).wf(),
{
    lemma_history_keeps_valid(LedgerState::initial(), history);
}

/// In a valid state every stream is settled at every time from the clock on:
/// the worker has been paid at least nothing and at most what has vested,
/// and no more has vested than the stream's total. An ended stream is
/// observed at the moment it ended, an active one at the current time.
pub proof fn lemma_streams_settled(s: LedgerState, stream_id: u64, now: u64)
    requires
        s.wf(),
        s.streams.contains_key(stream_id),
        s.config.clock <= now,
    ensures
        0 <= s.streams[stream_id].withdrawn_amount <= s.streams[stream_id].vested_at(
            s.streams[stream_id].observed_at(now),
        ) <= s.streams[stream_id].total_amount,
{
    lemma_settled_persists(s.streams[stream_id], s.config.clock, now);
}

/// In every state that a new ledger reaches, every stream is settled at
/// every time from the clock on.
pub proof fn lemma_reachable_settled(history: Seq<Action>, stream_id: u64, now: u64)
    requires
        LedgerState::initial().after(history).streams.contains_key(stream_id),
        LedgerState::initial().after(history).config.clock <= now,
    ensures
        LedgerState::initial().after(history).streams[stream_id].settled_at(now),
{
    lemma_reachable_valid(history);
    lemma_streams_settled(LedgerState::initial().after(history), stream_id, now);
}

/// A cancellation creates and destroys nothing: what goes to the worker and
/// what goes back to the employer are together exactly what was still held
/// for the stream, neither share is negative, and nothing is held afterwards.
pub proof fn lemma_cancel_conserves(
    s: LedgerState,
    stream_id: u64,
    employer: Address,
    now: u64,
    payout: Result<(), QuipayError>,
)
    requires
        s.wf(),
        s.cancel_stream(stream_id, employer, now, payout).1 is Ok,
    ensures
        ({
            let stream = s.streams[stream_id];
            let split = s.cancel_stream(stream_id, employer, now, payout).1->Ok_0;
            let next = s.cancel_stream(stream_id, employer, now, payout).0;
            let vested = stream.vested_at(s.time(now));
            &&& split.to_worker == vested - stream.withdrawn_amount
            &&& split.to_employer == stream.total_amount - vested
            &&& 0 <= split.to_worker
            &&& 0 <= split.to_employer
            &&& split.to_worker + split.to_employer == stream.held()
            &&& stream.held() == stream.total_amount - stream.withdrawn_amount
            &&& next.streams[stream_id].held() == 0
            &&& next.streams[stream_id].status == StreamStatus::Canceled
            &&& next.streams[stream_id].closed_at == s.time(now)
            &&& next.streams[stream_id].withdrawn_amount == vested
        }),
{
    let t = s.time(now);
    let stream = s.streams[stream_id];
    lemma_settled_persists(stream, s.config.clock, t);
    lemma_cancel_step(stream, t);
}

/// A withdrawal creates and destroys nothing: what is paid is exactly what
/// leaves the funds held for the stream.
pub proof fn lemma_withdraw_conserves(
    s: LedgerState,
    stream_id: u64,
    worker: Address,
    now: u64,
    release: Result<(), QuipayError>,
)
    requires
        s.wf(),
        s.withdraw(stream_id, worker, now, release).1 is Ok,
    ensures
        ({
            let stream = s.streams[stream_id];
            let paid = s.withdraw(stream_id, worker, now, release).1->Ok_0;
            let next = s.withdraw(stream_id, worker, now, release).0;
            &&& 0 <= paid
            &&& paid == stream.vested_at(s.time(now)) - stream.withdrawn_amount
            &&& next.streams[stream_id].withdrawn_amount == stream.withdrawn_amount + paid
            &&& paid + next.streams[stream_id].held() == stream.held()
            &&& next.streams[stream_id].status == StreamStatus::Closed
                <==> next.streams[stream_id].withdrawn_amount == stream.total_amount
            &&& next.streams[stream_id].status == StreamStatus::Closed && paid > 0
                ==> next.streams[stream_id].closed_at == s.time(now)
        }),
{
    let t = s.time(now);
    let stream = s.streams[stream_id];
    lemma_settled_persists(stream, s.config.clock, t);
    lemma_withdraw_step(stream, t);
}

/// A second withdrawal at the time of a first one that succeeded pays
/// nothing and changes nothing: it returns zero, or is refused with
/// `NotActive` where the first one closed the stream.
pub proof fn lemma_withdraw_twice(
    s: LedgerState,
    stream_id: u64,
    worker: Address,
    now: u64,
    first: Result<(), QuipayError>,
    second: Result<(), QuipayError>,
)
    requires
        s.wf(),
        s.withdraw(stream_id, worker, now, first).1 is Ok,
    ensures
        ({
            let once = s.withdraw(stream_id, worker, now, first).0;
            let twice = once.withdraw(stream_id, worker, now, second);
            &&& twice.0 == once
            &&& twice.1 == (if once.streams[stream_id].status == StreamStatus::Active {
                Ok::<i128, QuipayError>(0)
            } else {
                Err::<i128, QuipayError>(QuipayError::NotActive)
            })
        }),
{
    let t = s.time(now);
    let stream = s.streams[stream_id];
    lemma_settled_persists(stream, s.config.clock, t);
    lemma_withdraw_step(stream, t);
}

/// While the ledger is paused, creating a stream, withdrawing and canceling
/// all fail with `ProtocolPaused`, whatever their arguments, and change
/// nothing.
pub proof fn lemma_pause_gates(s: LedgerState, action: Action)
    requires
        s.config.paused,
    ensures
        match action {
            Action::CreateStream {
                employer,
                worker,
                asset,
                total_amount,
                start_ts,
                end_ts,
                allocation,
            } => s.create_stream(
                employer,
                worker,
                asset,
                total_amount,
                start_ts,
                end_ts,
                allocation,
            ) == (s, Err::<u64, QuipayError>(QuipayError::ProtocolPaused)),
            Action::Withdraw { stream_id, worker, now, release } => s.withdraw(
                stream_id,
                worker,
                now,
                release,
            ) == (s, Err::<i128, QuipayError>(QuipayError::ProtocolPaused)),
            Action::CancelStream { stream_id, employer, now, payout } => s.cancel_stream(
                stream_id,
                employer,
                now,
                payout,
            ) == (s, Err::<Settlement, QuipayError>(QuipayError::ProtocolPaused)),
            _ => true,
        },
{
}

/// Pausing and then unpausing leaves the ledger exactly as it was, so every
/// operation behaves afterwards as it would have before.
pub proof fn lemma_unpause_restores(s: LedgerState, admin: Address)
    requires
        s.config.admin == Some(admin),
        !s.config.paused,
    ensures
        s.set_paused(admin, true).1 is Ok,
        s.set_paused(admin, true).0.config.paused,
        s.set_paused(admin, true).0.set_paused(admin, false) == (s, Ok::<(), QuipayError>(())),
{
    let paused = s.set_paused(admin, true).0;
    let back = paused.set_paused(admin, false).0;
    assert(back.config == s.config);
    assert(back == s);
}

/// An operation that fails leaves the ledger exactly as it was.
pub proof fn lemma_failure_changes_nothing(s: LedgerState, action: Action)
    ensures
        match action {
            Action::Init { admin } => s.init(admin).1 is Err ==> s.init(admin).0 == s,
            Action::SetPaused { caller, paused } => s.set_paused(caller, paused).1 is Err
                ==> s.set_paused(caller, paused).0 == s,
            Action::SetRetentionSecs { caller, retention_secs } => s.set_retention_secs(
                caller,
                retention_secs,
            ).1 is Err ==> s.set_retention_secs(caller, retention_secs).0 == s,
            Action::SetVault { caller, vault } => s.set_vault(caller, vault).1 is Err
                ==> s.set_vault(caller, vault).0 == s,
            Action::SetGateway { caller, gateway } => s.set_gateway(caller, gateway).1 is Err
                ==> s.set_gateway(caller, gateway).0 == s,
            Action::CreateStream {
                employer,
                worker,
                asset,
                total_amount,
                start_ts,
                end_ts,
                allocation,
            } => {
                let next = s.create_stream(
                    employer,
                    worker,
                    asset,
                    total_amount,
                    start_ts,
                    end_ts,
                    allocation,
                );
                next.1 is Err ==> next.0 == s
            },
            Action::CreateStreamViaGateway {
                caller,
                employer,
                worker,
                asset,
                rate,
                cliff_ts,
                start_ts,
                end_ts,
                allocation,
            } => {
                let next = s.create_stream_via_gateway(
                    caller,
                    employer,
                    worker,
                    asset,
                    rate,
                    cliff_ts,
                    start_ts,
                    end_ts,
                    allocation,
                );
                next.1 is Err ==> next.0 == s
            },
            Action::Withdraw { stream_id, worker, now, release } => s.withdraw(
                stream_id,
                worker,
                now,
                release,
            ).1 is Err ==> s.withdraw(stream_id, worker, now, release).0 == s,
            Action::CancelStream { stream_id, employer, now, payout } => s.cancel_stream(
                stream_id,
                employer,
                now,
                payout,
            ).1 is Err ==> s.cancel_stream(stream_id, employer, now, payout).0 == s,
            Action::CancelStreamViaGateway { caller, stream_id, employer, now, payout } => {
                let next = s.cancel_stream_via_gateway(caller, stream_id, employer, now, payout);
                next.1 is Err ==> next.0 == s
            },
            Action::CleanupStream { stream_id, now } => s.cleanup_stream(stream_id, now).1 is Err
                ==> s.cleanup_stream(stream_id, now).0 == s,
            Action::TakeEvents => true,
        },
{
}

/// Both ways to create a stream lead to the same record: a stream that the
/// gateway creates at a rate is the stream that its employer would create
/// directly for the rate times the length of the window, but for the cliff.
pub proof fn lemma_creation_paths_agree(
    s: LedgerState,
    caller: Address,
    employer: Address,
    worker: Address,
    asset: Address,
    rate: i128,
    start_ts: u64,
    end_ts: u64,
    allocation: Result<(), QuipayError>,
)
    requires
        s.gateway_check(caller) is Ok,
        stream_total(rate, start_ts, end_ts) is Some,
    ensures
        s.create_stream_via_gateway(
            caller,
            employer,
            worker,
            asset,
            rate,
            start_ts,
            start_ts,
            end_ts,
            allocation,
        ) == s.create_stream(
            employer,
            worker,
            asset,
            stream_total(rate, start_ts, end_ts)->Some_0,
            start_ts,
            end_ts,
            allocation,
        ),
{
}

} // verus!
