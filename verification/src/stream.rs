use vstd::prelude::*;
use crate::accrual::{
    accrued, accrued_at, lemma_accrued_bounds, lemma_accrued_monotonic,
    lemma_accrued_partial_before_end,
};
use crate::address::Address;
use crate::error::QuipayError;

verus! {

/// Where a stream stands in its life. A stream starts active and ends either
/// canceled or closed; it never leaves either of those.
#[derive(Clone, Copy, Debug, PartialEq, Eq, Hash, Structural)]
pub enum StreamStatus {
    /// Vesting, or vested and not yet fully withdrawn.
    Active,
    /// Ended early by the employer and settled.
    Canceled,
    /// Fully withdrawn by the worker.
    Closed,
}

/// How the funds still held for a stream are split when it is canceled.
#[derive(Clone, Copy, Debug, PartialEq, Eq, Hash, Structural)]
pub struct Settlement {
    /// Vested and not yet withdrawn: paid to the worker.
    pub to_worker: i128,
    /// Not vested: released back to the employer.
    pub to_employer: i128,
}

/// A commitment of funds from an employer to a worker that vests linearly
/// over a time window.
#[derive(Clone, Copy, Debug, PartialEq, Eq, Hash, Structural)]
pub struct Stream {
    pub id: u64,
    pub employer: Address,
    pub worker: Address,
    pub asset: Address,
    /// Everything the stream will ever vest.
    pub total_amount: i128,
    pub start_ts: u64,
    /// Nothing counts as vested before this time.
    pub cliff_ts: u64,
    pub end_ts: u64,
    /// Everything paid to the worker so far.
    pub withdrawn_amount: i128,
    pub status: StreamStatus,
    /// When the stream left the active state; zero while it is active.
    pub closed_at: u64,
}

/// Whether a commitment of `total_amount` over the given window can be opened:
/// the amount is positive, the window is not empty and the cliff does not lie
/// past its end.
pub open spec fn valid_terms(total_amount: i128, start_ts: u64, cliff_ts: u64, end_ts: u64) -> bool
{
    &&& 0 < total_amount
    &&& start_ts < end_ts
    &&& cliff_ts <= end_ts
}

impl Stream {
    /// The amount vested at time `at`.
    pub open spec fn vested_at(self, at: u64) -> int {
        accrued_at(
            self.total_amount as int,
            self.start_ts as int,
            self.cliff_ts as int,
            self.end_ts as int,
            at as int,
        )
    }

    pub open spec fn is_terminal(self) -> bool {
        self.status != StreamStatus::Active
    }

    /// The time at which the stream is to be observed when the clock shows
    /// `now`: the moment it ended, or `now` while it is active.
    pub open spec fn observed_at(self, now: u64) -> u64 {
        if self.is_terminal() {
            self.closed_at
        } else {
            now
        }
    }

    /// What the worker has been paid never exceeds what has vested, which
    /// never exceeds the whole commitment.
    pub open spec fn settled_at(self, now: u64) -> bool {
        0 <= self.withdrawn_amount <= self.vested_at(self.observed_at(now)) <= self.total_amount
    }

    /// What is vested at `now` and not yet withdrawn.
    pub open spec fn payable_at(self, now: u64) -> int {
        if self.vested_at(now) > self.withdrawn_amount {
            self.vested_at(now) - self.withdrawn_amount
        } else {
            0
        }
    }

    /// What the custodian still holds for the stream.
    pub open spec fn held(self) -> int {
        if self.is_terminal() {
            0
        } else {
            self.total_amount - self.withdrawn_amount
        }
    }

    /// The validity of a stream record.
    pub open spec fn wf(self) -> bool {
        &&& valid_terms(self.total_amount, self.start_ts, self.cliff_ts, self.end_ts)
        &&& 0 <= self.withdrawn_amount <= self.total_amount
        &&& match self.status {
            StreamStatus::Active => self.closed_at == 0 && self.withdrawn_amount
                < self.total_amount,
            StreamStatus::Canceled => self.withdrawn_amount == self.vested_at(self.closed_at),
            StreamStatus::Closed => self.withdrawn_amount == self.total_amount && self.end_ts
                <= self.closed_at,
        }
    }

    /// A fresh stream: active, with nothing withdrawn.
    pub open spec fn opened(
        id: u64,
        employer: Address,
        worker: Address,
        asset: Address,
        total_amount: i128,
        start_ts: u64,
        cliff_ts: u64,
        end_ts: u64,
    ) -> Stream {
        Stream {
            id,
            employer,
            worker,
            asset,
            total_amount,
            start_ts,
            cliff_ts,
            end_ts,
            withdrawn_amount: 0,
            status: StreamStatus::Active,
            closed_at: 0,
        }
    }

    /// The stream after the worker has withdrawn at `now` all that is
    /// payable. With nothing payable the stream is unchanged; once everything
    /// is withdrawn the stream is closed as of `now`.
    pub open spec fn after_withdraw(self, now: u64) -> Stream {
        if self.payable_at(now) == 0 {
            self
        } else if self.vested_at(now) == self.total_amount {
            Stream {
                withdrawn_amount: self.total_amount,
                status: StreamStatus::Closed,
                closed_at: now,
                ..self
            }
        } else {
            Stream { withdrawn_amount: self.vested_at(now) as i128, ..self }
        }
    }

    /// How the held funds are split when the stream is canceled at `now`.
    pub open spec fn settlement_at(self, now: u64) -> Settlement {
        Settlement {
            to_worker: (self.vested_at(now) - self.withdrawn_amount) as i128,
            to_employer: (self.total_amount - self.vested_at(now)) as i128,
        }
    }

    /// The stream after it has been canceled at `now`: what had vested counts
    /// as paid, and nothing moves anymore.
    pub open spec fn after_cancel(self, now: u64) -> Stream {
        Stream {
            withdrawn_amount: self.vested_at(now) as i128,
            status: StreamStatus::Canceled,
            closed_at: now,
            ..self
        }
    }

    /// Opens a stream, or refuses terms that are not valid.
    pub fn new(
        id: u64,
        employer: Address,
        worker: Address,
        asset: Address,
        total_amount: i128,
        start_ts: u64,
        cliff_ts: u64,
        end_ts: u64,
    ) -> (r: Result<Stream, QuipayError>)
        ensures
            r == (if valid_terms(total_amount, start_ts, cliff_ts, end_ts) {
                Ok::<Stream, QuipayError>(
                    Stream::opened(
                        id,
                        employer,
                        worker,
                        asset,
                        total_amount,
                        start_ts,
                        cliff_ts,
                        end_ts,
                    ),
                )
            } else {
                Err::<Stream, QuipayError>(QuipayError::InvalidWindow)
            }),
            r matches Ok(s) ==> s.wf(),
    {
        if total_amount <= 0 || start_ts >= end_ts || cliff_ts > end_ts {
            return Err(QuipayError::InvalidWindow);
        }
        Ok(
            Stream {
                id,
                employer,
                worker,
                asset,
                total_amount,
                start_ts,
                cliff_ts,
                end_ts,
                withdrawn_amount: 0,
                status: StreamStatus::Active,
                closed_at: 0,
            },
        )
    }

    /// Tests the validity of the record.
    pub fn is_valid(&self) -> (r: bool)
        ensures
            r == self.wf(),
    {
        if self.total_amount <= 0 || self.start_ts >= self.end_ts || self.cliff_ts > self.end_ts {
            return false;
        }
        if self.withdrawn_amount < 0 || self.withdrawn_amount > self.total_amount {
            return false;
        }
        match self.status {
            StreamStatus::Active => self.closed_at == 0 && self.withdrawn_amount
                < self.total_amount,
            StreamStatus::Canceled => {
                let vested: u128 = accrued(
                    self.total_amount as u128,
                    self.start_ts,
                    self.cliff_ts,
                    self.end_ts,
                    self.closed_at,
                );
                self.withdrawn_amount as u128 == vested
            },
            StreamStatus::Closed => self.withdrawn_amount == self.total_amount && self.end_ts
                <= self.closed_at,
        }
    }

    /// The amount vested at `at_time`, for a stream whose total is not
    /// negative.
    pub fn accrued(&self, at_time: u64) -> (vested: i128)
        requires
            0 <= self.total_amount,
        ensures
            vested == self.vested_at(at_time),
            0 <= vested <= self.total_amount,
    {
        let total: u128 = self.total_amount as u128;
        let vested: u128 = accrued(total, self.start_ts, self.cliff_ts, self.end_ts, at_time);
        vested as i128
    }

    /// Whether the stream has left the active state.
    pub fn is_closed(&self) -> (r: bool)
        ensures
            r == self.is_terminal(),
    {
        match self.status {
            StreamStatus::Active => false,
            _ => true,
        }
    }

    /// The time at which to observe the stream when the clock shows `now`.
    pub fn observation_time(&self, now: u64) -> (t: u64)
        ensures
            t == self.observed_at(now),
    {
        if self.is_closed() {
            self.closed_at
        } else {
            now
        }
    }

    /// Tests that at `now` the worker has been paid no more than has vested,
    /// and that no more has vested than was committed, for a stream whose
    /// total is not negative.
    pub fn is_settled_at(&self, now: u64) -> (r: bool)
        requires
            0 <= self.total_amount,
        ensures
            r == self.settled_at(now),
    {
        let vested: i128 = self.accrued(self.observation_time(now));
        0 <= self.withdrawn_amount && self.withdrawn_amount <= vested && vested
            <= self.total_amount
    }
}

/// The vested amount of a valid stream never shrinks as time passes.
pub proof fn lemma_vested_monotonic(s: Stream, t1: u64, t2: u64)
    requires
        s.wf(),
        t1 <= t2,
    ensures
        s.vested_at(t1) <= s.vested_at(t2),
{
    lemma_accrued_monotonic(
        s.total_amount as int,
        s.start_ts as int,
        s.cliff_ts as int,
        s.end_ts as int,
        t1 as int,
        t2 as int,
    );
}

/// A valid stream has vested nothing at its start and everything at its end,
/// exactly, and never anything outside that range.
pub proof fn lemma_vested_boundaries(s: Stream, at: u64)
    requires
        s.wf(),
    ensures
        s.vested_at(s.start_ts) == 0,
        s.vested_at(s.end_ts) == s.total_amount,
        0 <= s.vested_at(at) <= s.total_amount,
        at < s.end_ts ==> s.vested_at(at) < s.total_amount,
        at >= s.end_ts ==> s.vested_at(at) == s.total_amount,
{
    lemma_accrued_bounds(
        s.total_amount as int,
        s.start_ts as int,
        s.cliff_ts as int,
        s.end_ts as int,
        at as int,
    );
    if at < s.end_ts {
        lemma_accrued_partial_before_end(
            s.total_amount as int,
            s.start_ts as int,
            s.cliff_ts as int,
            s.end_ts as int,
            at as int,
        );
    }
}

/// A stream that ended is settled for good; an active one that is settled at
/// some time stays settled at every later time.
pub proof fn lemma_settled_persists(s: Stream, t1: u64, t2: u64)
    requires
        s.wf(),
        s.settled_at(t1),
        t1 <= t2,
    ensures
        s.settled_at(t2),
{
    lemma_vested_monotonic(s, t1, t2);
    lemma_vested_boundaries(s, t2);
}

/// A valid stream that has ended is settled whatever the clock shows.
pub proof fn lemma_terminal_settled(s: Stream, now: u64)
    requires
        s.wf(),
        s.is_terminal(),
    ensures
        s.settled_at(now),
{
    lemma_vested_boundaries(s, s.closed_at);
}

/// A withdrawal keeps a settled stream valid and settled, pays exactly what
/// leaves the held funds, and leaves nothing payable at the same moment.
pub proof fn lemma_withdraw_step(s: Stream, now: u64)
    requires
        s.wf(),
        s.status == StreamStatus::Active,
        s.settled_at(now),
    ensures
        s.after_withdraw(now).wf(),
        s.after_withdraw(now).settled_at(now),
        s.payable_at(now) == s.vested_at(now) - s.withdrawn_amount,
        s.payable_at(now) + s.after_withdraw(now).held() == s.held(),
        s.after_withdraw(now).withdrawn_amount == s.withdrawn_amount + s.payable_at(now),
        s.after_withdraw(now).status == StreamStatus::Active ==> s.after_withdraw(now).payable_at(
            now,
        ) == 0,
        s.after_withdraw(now).status == StreamStatus::Closed <==> s.after_withdraw(
            now,
        ).withdrawn_amount == s.total_amount,
{
    lemma_vested_boundaries(s, now);
}

/// Canceling a settled stream splits exactly what was still held between
/// worker and employer: neither share is negative, together they are the held
/// funds, and nothing is held afterwards.
pub proof fn lemma_cancel_step(s: Stream, now: u64)
    requires
        s.wf(),
        s.status == StreamStatus::Active,
        s.settled_at(now),
    ensures
        s.after_cancel(now).wf(),
        s.after_cancel(now).settled_at(now),
        0 <= s.settlement_at(now).to_worker,
        0 <= s.settlement_at(now).to_employer,
        s.settlement_at(now).to_worker + s.settlement_at(now).to_employer == s.held(),
        s.settlement_at(now).to_worker == s.vested_at(now) - s.withdrawn_amount,
        s.settlement_at(now).to_employer == s.total_amount - s.vested_at(now),
        s.after_cancel(now).held() == 0,
        s.after_cancel(now).withdrawn_amount >= s.withdrawn_amount,
{
    lemma_vested_boundaries(s, now);
}

} // verus!
