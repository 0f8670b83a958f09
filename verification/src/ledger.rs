use vstd::prelude::*;
use crate::address::Address;
use crate::custodian::Request;
use crate::error::QuipayError;
use crate::event::StreamEvent;
use crate::stream::{lemma_settled_persists, valid_terms, Settlement, Stream, StreamStatus};

verus! {

/// The settings and counters of a ledger: everything it holds besides the
/// stream records.
#[derive(Clone, Copy, Debug, PartialEq, Eq, Hash, Structural)]
pub struct LedgerConfig {
    /// Who may change the settings; nobody until the ledger is initialized.
    pub admin: Option<Address>,
    /// The custodian that holds the funds.
    pub vault: Option<Address>,
    /// The permission gateway whose calls on behalf of agents are accepted.
    pub gateway: Option<Address>,
    /// While set, no stream can be created, withdrawn from or canceled.
    pub paused: bool,
    /// How long an ended stream stays readable before it may be removed.
    pub retention_secs: u64,
    /// The id the next stream will get. Ids start at one and are never reused.
    pub next_id: u64,
    /// The latest time at which a worker was paid or a stream was ended or
    /// removed. Time never runs backwards: an operation that names an earlier
    /// time takes place at this one.
    pub clock: u64,
}

/// The state of a ledger: its settings, its stream records by id, and the
/// events that it has reported since they were last taken from it.
#[verifier::ext_equal]
pub struct LedgerState {
    pub config: LedgerConfig,
    pub streams: Map<u64, Stream>,
    pub events: Seq<StreamEvent>,
}

/// The total a stream created at `rate` per time unit will vest: the rate
/// times the length of the window, where rate and window are positive and the
/// product is representable.
pub open spec fn stream_total(rate: i128, start_ts: u64, end_ts: u64) -> Option<i128> {
    if 0 < rate && start_ts < end_ts && rate * (end_ts - start_ts) <= i128::MAX {
        Some((rate * (end_ts - start_ts)) as i128)
    } else {
        None
    }
}

impl LedgerState {
    /// The state of a new ledger: not initialized, not paused, no retention,
    /// no streams, nothing reported.
    pub open spec fn initial() -> LedgerState {
        LedgerState {
            config: LedgerConfig {
                admin: None,
                vault: None,
                gateway: None,
                paused: false,
                retention_secs: 0,
                next_id: 1,
                clock: 0,
            },
            streams: Map::empty(),
            events: Seq::empty(),
        }
    }

    /// The state with the given settings that holds `record` and no other,
    /// and has reported nothing.
    pub open spec fn holding(config: LedgerConfig, record: Option<Stream>) -> LedgerState {
        LedgerState {
            config,
            streams: match record {
                Some(stream) => Map::<u64, Stream>::empty().insert(stream.id, stream),
                None => Map::<u64, Stream>::empty(),
            },
            events: Seq::empty(),
        }
    }

    /// What holds of every state a ledger can reach. Each record is filed
    /// under its own id, below the next id to be given out, and is valid; the
    /// worker has been paid no more than had vested when the stream last
    /// changed, and no stream ended after the clock.
    pub open spec fn wf(self) -> bool {
        &&& 1 <= self.config.next_id
        &&& forall|id: u64| #[trigger]
            self.streams.contains_key(id) ==> {
                &&& self.streams[id].id == id
                &&& id < self.config.next_id
                &&& self.streams[id].wf()
                &&& self.streams[id].settled_at(self.config.clock)
                &&& self.streams[id].closed_at <= self.config.clock
            }
    }

    /// The time at which an operation that names `now` takes place.
    pub open spec fn time(self, now: u64) -> u64 {
        if now >= self.config.clock {
            now
        } else {
            self.config.clock
        }
    }

    /// The state with `stream` filed under its id and the clock at `t`.
    pub open spec fn with_stream(self, stream: Stream, t: u64) -> LedgerState {
        LedgerState {
            config: LedgerConfig { clock: t, ..self.config },
            streams: self.streams.insert(stream.id, stream),
            ..self
        }
    }

    /// The state in which `event` is reported as well.
    pub open spec fn reporting(self, event: StreamEvent) -> LedgerState {
        LedgerState { events: self.events.push(event), ..self }
    }

    /// Hands out the events that were reported, and keeps none.
    pub open spec fn take_events(self) -> (LedgerState, Seq<StreamEvent>) {
        (LedgerState { events: Seq::empty(), ..self }, self.events)
    }

    /// Whether `caller` may change the settings.
    pub open spec fn admin_check(self, caller: Address) -> Result<(), QuipayError> {
        match self.config.admin {
            None => Err(QuipayError::NotInitialized),
            Some(admin) => if admin == caller {
                Ok(())
            } else {
                Err(QuipayError::Unauthorized)
            },
        }
    }

    /// Whether `caller` is the registered permission gateway.
    pub open spec fn gateway_check(self, caller: Address) -> Result<(), QuipayError> {
        match self.config.gateway {
            None => Err(QuipayError::NotInitialized),
            Some(gateway) => if gateway == caller {
                Ok(())
            } else {
                Err(QuipayError::Unauthorized)
            },
        }
    }

    /// Makes `admin` the administrator, once.
    pub open spec fn init(self, admin: Address) -> (LedgerState, Result<(), QuipayError>) {
        if self.config.admin is Some {
            (self, Err(QuipayError::AlreadyInitialized))
        } else {
            (
                LedgerState { config: LedgerConfig { admin: Some(admin), ..self.config }, ..self },
                Ok(()),
            )
        }
    }

    /// Lets the administrator replace the settings by `config`.
    pub open spec fn configure(self, caller: Address, config: LedgerConfig) -> (
        LedgerState,
        Result<(), QuipayError>,
    ) {
        match self.admin_check(caller) {
            Err(e) => (self, Err(e)),
            Ok(()) => (LedgerState { config, ..self }, Ok(())),
        }
    }

    pub open spec fn set_paused(self, caller: Address, paused: bool) -> (
        LedgerState,
        Result<(), QuipayError>,
    ) {
        self.configure(caller, LedgerConfig { paused, ..self.config })
    }

    pub open spec fn set_retention_secs(self, caller: Address, retention_secs: u64) -> (
        LedgerState,
        Result<(), QuipayError>,
    ) {
        self.configure(caller, LedgerConfig { retention_secs, ..self.config })
    }

    pub open spec fn set_vault(self, caller: Address, vault: Address) -> (
        LedgerState,
        Result<(), QuipayError>,
    ) {
        self.configure(caller, LedgerConfig { vault: Some(vault), ..self.config })
    }

    pub open spec fn set_gateway(self, caller: Address, gateway: Address) -> (
        LedgerState,
        Result<(), QuipayError>,
    ) {
        self.configure(caller, LedgerConfig { gateway: Some(gateway), ..self.config })
    }

    /// What the custodian is asked to allocate for a stream on the given
    /// terms, or why no such stream can be created now.
    pub open spec fn allocation_due(
        self,
        total_amount: i128,
        start_ts: u64,
        cliff_ts: u64,
        end_ts: u64,
    ) -> Result<i128, QuipayError> {
        if self.config.paused {
            Err(QuipayError::ProtocolPaused)
        } else if !valid_terms(total_amount, start_ts, cliff_ts, end_ts) {
            Err(QuipayError::InvalidWindow)
        } else {
            Ok(total_amount)
        }
    }

    /// What is asked of the custodian before `employer` creates a stream of
    /// `total_amount` in `asset`, or why no such stream can be created now.
    pub open spec fn creation_request(
        self,
        employer: Address,
        asset: Address,
        total_amount: i128,
        start_ts: u64,
        end_ts: u64,
    ) -> Result<Request, QuipayError> {
        match self.allocation_due(total_amount, start_ts, start_ts, end_ts) {
            Err(e) => Err(e),
            Ok(amount) => Ok(Request::Allocate { employer, asset, amount }),
        }
    }

    /// Creates a stream on the given terms once the custodian has answered
    /// the request to allocate its total.
    pub open spec fn open_stream(
        self,
        employer: Address,
        worker: Address,
        asset: Address,
        total_amount: i128,
        start_ts: u64,
        cliff_ts: u64,
        end_ts: u64,
        allocation: Result<(), QuipayError>,
    ) -> (LedgerState, Result<u64, QuipayError>) {
        match self.allocation_due(total_amount, start_ts, cliff_ts, end_ts) {
            Err(e) => (self, Err(e)),
            Ok(_) => match allocation {
                Err(e) => (self, Err(e)),
                Ok(()) => (
                    LedgerState {
                        config: LedgerConfig {
                            next_id: (self.config.next_id + 1) as u64,
                            ..self.config
                        },
                        streams: self.streams.insert(
                            self.config.next_id,
                            Stream::opened(
                                self.config.next_id,
                                employer,
                                worker,
                                asset,
                                total_amount,
                                start_ts,
                                cliff_ts,
                                end_ts,
                            ),
                        ),
                        events: self.events.push(
                            StreamEvent::Created {
                                stream_id: self.config.next_id,
                                employer,
                                worker,
                                asset,
                                total_amount,
                                start_ts,
                                cliff_ts,
                                end_ts,
                            },
                        ),
                    },
                    Ok(self.config.next_id),
                ),
            },
        }
    }

    /// Creates a stream whose cliff is its start.
    pub open spec fn create_stream(
        self,
        employer: Address,
        worker: Address,
        asset: Address,
        total_amount: i128,
        start_ts: u64,
        end_ts: u64,
        allocation: Result<(), QuipayError>,
    ) -> (LedgerState, Result<u64, QuipayError>) {
        self.open_stream(
            employer,
            worker,
            asset,
            total_amount,
            start_ts,
            start_ts,
            end_ts,
            allocation,
        )
    }

    /// What the custodian is asked to allocate for a stream that the gateway
    /// creates at `rate`, or why the gateway cannot create it now.
    pub open spec fn gateway_allocation_due(
        self,
        caller: Address,
        rate: i128,
        cliff_ts: u64,
        start_ts: u64,
        end_ts: u64,
    ) -> Result<i128, QuipayError> {
        match self.gateway_check(caller) {
            Err(e) => Err(e),
            Ok(()) => if self.config.paused {
                Err(QuipayError::ProtocolPaused)
            } else {
                match stream_total(rate, start_ts, end_ts) {
                    None => Err(QuipayError::InvalidWindow),
                    Some(total_amount) => self.allocation_due(
                        total_amount,
                        start_ts,
                        cliff_ts,
                        end_ts,
                    ),
                }
            },
        }
    }

    /// What is asked of the custodian before the gateway creates a stream
    /// for `employer` at `rate`, or why the gateway cannot create it now.
    pub open spec fn gateway_creation_request(
        self,
        caller: Address,
        employer: Address,
        asset: Address,
        rate: i128,
        cliff_ts: u64,
        start_ts: u64,
        end_ts: u64,
    ) -> Result<Request, QuipayError> {
        match self.gateway_allocation_due(caller, rate, cliff_ts, start_ts, end_ts) {
            Err(e) => Err(e),
            Ok(amount) => Ok(Request::Allocate { employer, asset, amount }),
        }
    }

    /// Creates, for the gateway, a stream that vests `rate` per time unit.
    pub open spec fn create_stream_via_gateway(
        self,
        caller: Address,
        employer: Address,
        worker: Address,
        asset: Address,
        rate: i128,
        cliff_ts: u64,
        start_ts: u64,
        end_ts: u64,
        allocation: Result<(), QuipayError>,
    ) -> (LedgerState, Result<u64, QuipayError>) {
        match self.gateway_allocation_due(caller, rate, cliff_ts, start_ts, end_ts) {
            Err(e) => (self, Err(e)),
            Ok(total_amount) => self.open_stream(
                employer,
                worker,
                asset,
                total_amount,
                start_ts,
                cliff_ts,
                end_ts,
                allocation,
            ),
        }
    }

    /// The active stream `stream_id`, if `party` is the one of its parties that
    /// `as_worker` selects and the ledger is not paused.
    pub open spec fn active_stream(self, stream_id: u64, party: Address, as_worker: bool) -> Result<
        Stream,
        QuipayError,
    > {
        if self.config.paused {
            Err(QuipayError::ProtocolPaused)
        } else if !self.streams.contains_key(stream_id) {
            Err(QuipayError::NotFound)
        } else if party != (if as_worker {
            self.streams[stream_id].worker
        } else {
            self.streams[stream_id].employer
        }) {
            Err(QuipayError::Unauthorized)
        } else if self.streams[stream_id].status != StreamStatus::Active {
            Err(QuipayError::NotActive)
        } else {
            Ok(self.streams[stream_id])
        }
    }

    /// What `worker` can withdraw from the stream at `now`.
    pub open spec fn payable(self, stream_id: u64, worker: Address, now: u64) -> Result<
        i128,
        QuipayError,
    > {
        match self.active_stream(stream_id, worker, true) {
            Err(e) => Err(e),
            Ok(stream) => Ok(stream.payable_at(self.time(now)) as i128),
        }
    }

    /// What is asked of the custodian before `worker` withdraws at `now`:
    /// nothing where nothing is payable, else to release what is payable to
    /// the worker.
    pub open spec fn withdrawal_request(self, stream_id: u64, worker: Address, now: u64) -> Result<
        Option<Request>,
        QuipayError,
    > {
        match self.payable(stream_id, worker, now) {
            Err(e) => Err(e),
            Ok(due) => Ok(
                if due == 0 {
                    None
                } else {
                    Some(
                        Request::Release {
                            employer: self.streams[stream_id].employer,
                            asset: self.streams[stream_id].asset,
                            amount: due,
                            to: worker,
                        },
                    )
                },
            ),
        }
    }

    /// Pays `worker` what is payable at `now`, once the custodian has
    /// answered the request to release it. With nothing payable nothing
    /// changes and the custodian's answer is not looked at.
    pub open spec fn withdraw(
        self,
        stream_id: u64,
        worker: Address,
        now: u64,
        release: Result<(), QuipayError>,
    ) -> (LedgerState, Result<i128, QuipayError>) {
        match self.payable(stream_id, worker, now) {
            Err(e) => (self, Err(e)),
            Ok(due) => if due == 0 {
                (self, Ok(0))
            } else {
                match release {
                    Err(e) => (self, Err(e)),
                    Ok(()) => (
                        self.with_stream(
                            self.streams[stream_id].after_withdraw(self.time(now)),
                            self.time(now),
                        ).reporting(
                            StreamEvent::Withdrawn {
                                stream_id,
                                amount: due,
                                withdrawn_amount: self.streams[stream_id].after_withdraw(
                                    self.time(now),
                                ).withdrawn_amount,
                            },
                        ),
                        Ok(due),
                    ),
                }
            },
        }
    }

    /// How the funds held for the stream are split if `employer` cancels it
    /// at `now`.
    pub open spec fn settlement(self, stream_id: u64, employer: Address, now: u64) -> Result<
        Settlement,
        QuipayError,
    > {
        match self.active_stream(stream_id, employer, false) {
            Err(e) => Err(e),
            Ok(stream) => Ok(stream.settlement_at(self.time(now))),
        }
    }

    /// What is asked of the custodian before `employer` cancels the stream
    /// at `now`: to pay out the settlement.
    pub open spec fn cancellation_request(self, stream_id: u64, employer: Address, now: u64)
        -> Result<Request, QuipayError> {
        match self.settlement(stream_id, employer, now) {
            Err(e) => Err(e),
            Ok(split) => Ok(
                Request::Settle {
                    employer,
                    asset: self.streams[stream_id].asset,
                    worker: self.streams[stream_id].worker,
                    to_worker: split.to_worker,
                    to_employer: split.to_employer,
                },
            ),
        }
    }

    /// Cancels the stream for `employer` at `now`, once the custodian has
    /// answered the request to pay out the settlement.
    pub open spec fn cancel_stream(
        self,
        stream_id: u64,
        employer: Address,
        now: u64,
        payout: Result<(), QuipayError>,
    ) -> (LedgerState, Result<Settlement, QuipayError>) {
        match self.settlement(stream_id, employer, now) {
            Err(e) => (self, Err(e)),
            Ok(split) => match payout {
                Err(e) => (self, Err(e)),
                Ok(()) => (
                    self.with_stream(
                        self.streams[stream_id].after_cancel(self.time(now)),
                        self.time(now),
                    ).reporting(
                        StreamEvent::Canceled {
                            stream_id,
                            to_worker: split.to_worker,
                            to_employer: split.to_employer,
                        },
                    ),
                    Ok(split),
                ),
            },
        }
    }

    /// What is asked of the custodian before the gateway cancels the stream
    /// at `now` on behalf of `employer`.
    pub open spec fn gateway_cancellation_request(
        self,
        caller: Address,
        stream_id: u64,
        employer: Address,
        now: u64,
    ) -> Result<Request, QuipayError> {
        match self.gateway_check(caller) {
            Err(e) => Err(e),
            Ok(()) => self.cancellation_request(stream_id, employer, now),
        }
    }

    /// Cancels the stream for the gateway on behalf of `employer`.
    pub open spec fn cancel_stream_via_gateway(
        self,
        caller: Address,
        stream_id: u64,
        employer: Address,
        now: u64,
        payout: Result<(), QuipayError>,
    ) -> (LedgerState, Result<Settlement, QuipayError>) {
        match self.gateway_check(caller) {
            Err(e) => (self, Err(e)),
            Ok(()) => self.cancel_stream(stream_id, employer, now, payout),
        }
    }

    /// Whether the record of the stream may be removed at `now`: the stream
    /// has ended and the retention window has passed since.
    pub open spec fn removable(self, stream_id: u64, now: u64) -> Result<(), QuipayError> {
        if !self.streams.contains_key(stream_id) {
            Err(QuipayError::NotFound)
        } else if !self.streams[stream_id].is_terminal() || self.time(now)
            - self.streams[stream_id].closed_at < self.config.retention_secs {
            Err(QuipayError::NotEligible)
        } else {
            Ok(())
        }
    }

    /// Removes the record of an ended stream whose retention window has
    /// passed.
    pub open spec fn cleanup_stream(self, stream_id: u64, now: u64) -> (
        LedgerState,
        Result<(), QuipayError>,
    ) {
        match self.removable(stream_id, now) {
            Err(e) => (self, Err(e)),
            Ok(()) => (
                LedgerState {
                    config: LedgerConfig { clock: self.time(now), ..self.config },
                    streams: self.streams.remove(stream_id),
                    events: self.events.push(StreamEvent::CleanedUp { stream_id }),
                },
                Ok(()),
            ),
        }
    }
}

/// Moving the clock forward keeps a valid state valid.
pub proof fn lemma_clock_advances(s: LedgerState, t: u64)
    requires
        s.wf(),
        s.config.clock <= t,
    ensures
        (LedgerState { config: LedgerConfig { clock: t, ..s.config }, ..s }).wf(),
{
    let s2 = LedgerState { config: LedgerConfig { clock: t, ..s.config }, ..s };
    assert forall|id: u64| #[trigger] s2.streams.contains_key(id) implies s2.streams[id].settled_at(
        t,
    ) by {
        lemma_settled_persists(s.streams[id], s.config.clock, t);
    }
}

/// Filing a valid record that is settled at `t` keeps a valid state valid.
pub proof fn lemma_with_stream_wf(s: LedgerState, stream: Stream, t: u64)
    requires
        s.wf(),
        s.config.clock <= t,
        stream.wf(),
        stream.settled_at(t),
        stream.closed_at <= t,
        stream.id < s.config.next_id,
    ensures
        s.with_stream(stream, t).wf(),
{
    lemma_clock_advances(s, t);
}

} // verus!
