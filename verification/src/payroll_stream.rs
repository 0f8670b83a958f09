use vstd::prelude::*;
use std::collections::HashMap;
use crate::address::Address;
use crate::custodian::Request;
use crate::error::QuipayError;
use crate::event::StreamEvent;
use crate::ledger::{lemma_clock_advances, lemma_with_stream_wf, LedgerConfig, LedgerState};
use crate::stream::{
    lemma_cancel_step, lemma_settled_persists, lemma_vested_boundaries, lemma_withdraw_step,
    Settlement, Stream, StreamStatus,
};

verus! {

/// The stream ledger: it owns the stream records, takes them through their
/// life and holds the pause switch and the retention window.
///
/// The ledger moves no funds itself. Where an operation needs the custodian,
/// a query gives the request to make of it, and the operation takes the
/// custodian's answer to that request: a refusal is handed on as the
/// operation's own failure and leaves the ledger as it was.
pub struct PayrollStream {
    config: LedgerConfig,
    streams: HashMap<u64, Stream>,
    events: Vec<StreamEvent>,
}

impl PayrollStream {
    /// The state of the ledger.
    pub closed spec fn view(&self) -> LedgerState {
        LedgerState { config: self.config, streams: self.streams@, events: self.events@ }
    }

    #[verifier::type_invariant]
    spec fn inv(self) -> bool {
        self@.wf()
    }

    /// A new ledger: not initialized, not paused, with a retention window of
    /// zero and no streams.
    pub fn new() -> (ledger: Self)
        ensures
            ledger@ == LedgerState::initial(),
            ledger@.wf(),
    {
        PayrollStream {
            config: LedgerConfig {
                admin: None,
                vault: None,
                gateway: None,
                paused: false,
                retention_secs: 0,
                next_id: 1,
                clock: 0,
            },
            streams: HashMap::new(),
            events: Vec::new(),
        }
    }

    /// The ledger with the given settings that holds `record` and no other,
    /// where that is a valid state: a part of a ledger that was put away, with
    /// the one record that the next operation is about.
    pub fn restore(config: LedgerConfig, record: Option<Stream>) -> (r: Option<Self>)
        ensures
            match r {
                Some(ledger) => ledger@ == LedgerState::holding(config, record) && ledger@.wf(),
                None => !LedgerState::holding(config, record).wf(),
            },
    {
        broadcast use vstd::std_specs::hash::group_hash_axioms;

        let ghost state = LedgerState::holding(config, record);
        if config.next_id < 1 {
            return None;
        }
        let mut streams: HashMap<u64, Stream> = HashMap::new();
        match record {
            None => {},
            Some(stream) => {
                assert(state.streams.contains_key(stream.id));
                if !stream.is_valid() || stream.id >= config.next_id || stream.closed_at
                    > config.clock || !stream.is_settled_at(config.clock) {
                    return None;
                }
                streams.insert(stream.id, stream);
            },
        }
        assert(streams@ =~= state.streams);
        Some(PayrollStream { config, streams, events: Vec::new() })
    }

    /// The settings and counters of the ledger.
    pub fn config(&self) -> (config: LedgerConfig)
        ensures
            config == self@.config,
            self@.wf(),
    {
        proof {
            use_type_invariant(self);
        }
        self.config
    }

    /// The record of the stream `stream_id`, if the ledger holds one.
    pub fn get_stream(&self, stream_id: u64) -> (r: Option<Stream>)
        ensures
            r == (if self@.streams.contains_key(stream_id) {
                Some(self@.streams[stream_id])
            } else {
                None::<Stream>
            }),
            r matches Some(s) ==> s.wf() && s.id == stream_id && s.settled_at(self@.config.clock),
            self@.wf(),
    {
        proof {
            use_type_invariant(self);
        }
        broadcast use vstd::std_specs::hash::group_hash_axioms;

        match self.streams.get(&stream_id) {
            Some(stream) => Some(*stream),
            None => None,
        }
    }

    /// The time at which an operation that names `now` takes place: `now`,
    /// unless a stream changed later than that.
    pub fn time(&self, now: u64) -> (t: u64)
        ensures
            t == self@.time(now),
            t >= now,
            t >= self@.config.clock,
    {
        if now >= self.config.clock {
            now
        } else {
            self.config.clock
        }
    }

    /// Makes `admin` the administrator. Fails with `AlreadyInitialized` if
    /// there is one.
    pub fn init(&mut self, admin: Address) -> (r: Result<(), QuipayError>)
        ensures
            final(self)@ == old(self)@.init(admin).0,
            r == old(self)@.init(admin).1,
            final(self)@.wf(),
    {
        proof {
            use_type_invariant(&*self);
        }
        if self.config.admin.is_some() {
            return Err(QuipayError::AlreadyInitialized);
        }
        self.config = LedgerConfig { admin: Some(admin), ..self.config };
        Ok(())
    }

    /// The administrator. Fails with `NotInitialized` if there is none.
    pub fn get_admin(&self) -> (r: Result<Address, QuipayError>)
        ensures
            r == (match self@.config.admin {
                Some(admin) => Ok::<Address, QuipayError>(admin),
                None => Err::<Address, QuipayError>(QuipayError::NotInitialized),
            }),
    {
        match self.config.admin {
            Some(admin) => Ok(admin),
            None => Err(QuipayError::NotInitialized),
        }
    }

    /// Tells whether `caller` may change the settings.
    fn check_admin(&self, caller: Address) -> (r: Result<(), QuipayError>)
        ensures
            r == self@.admin_check(caller),
    {
        match self.config.admin {
            None => Err(QuipayError::NotInitialized),
            Some(admin) => if admin == caller {
                Ok(())
            } else {
                Err(QuipayError::Unauthorized)
            },
        }
    }

    /// Tells whether `caller` is the registered permission gateway.
    fn check_gateway(&self, caller: Address) -> (r: Result<(), QuipayError>)
        ensures
            r == self@.gateway_check(caller),
    {
        match self.config.gateway {
            None => Err(QuipayError::NotInitialized),
            Some(gateway) => if gateway == caller {
                Ok(())
            } else {
                Err(QuipayError::Unauthorized)
            },
        }
    }

    /// Whether the pause switch is on.
    pub fn is_paused(&self) -> (paused: bool)
        ensures
            paused == self@.config.paused,
    {
        self.config.paused
    }

    /// Turns the pause switch on or off. Only the administrator may.
    pub fn set_paused(&mut self, caller: Address, paused: bool) -> (r: Result<(), QuipayError>)
        ensures
            final(self)@ == old(self)@.set_paused(caller, paused).0,
            r == old(self)@.set_paused(caller, paused).1,
            final(self)@.wf(),
    {
        proof {
            use_type_invariant(&*self);
        }
        match self.check_admin(caller) {
            Err(e) => Err(e),
            Ok(()) => {
                self.config = LedgerConfig { paused, ..self.config };
                Ok(())
            },
        }
    }

    /// How long an ended stream stays readable before it may be removed.
    pub fn retention_secs(&self) -> (secs: u64)
        ensures
            secs == self@.config.retention_secs,
    {
        self.config.retention_secs
    }

    /// Sets the retention window. Only the administrator may.
    pub fn set_retention_secs(&mut self, caller: Address, retention_secs: u64) -> (r: Result<
        (),
        QuipayError,
    >)
        ensures
            final(self)@ == old(self)@.set_retention_secs(caller, retention_secs).0,
            r == old(self)@.set_retention_secs(caller, retention_secs).1,
            final(self)@.wf(),
    {
        proof {
            use_type_invariant(&*self);
        }
        match self.check_admin(caller) {
            Err(e) => Err(e),
            Ok(()) => {
                self.config = LedgerConfig { retention_secs, ..self.config };
                Ok(())
            },
        }
    }

    /// The custodian's address, if one is set.
    pub fn vault(&self) -> (vault: Option<Address>)
        ensures
            vault == self@.config.vault,
    {
        self.config.vault
    }

    /// Sets the custodian's address. Only the administrator may.
    pub fn set_vault(&mut self, caller: Address, vault: Address) -> (r: Result<(), QuipayError>)
        ensures
            final(self)@ == old(self)@.set_vault(caller, vault).0,
            r == old(self)@.set_vault(caller, vault).1,
            final(self)@.wf(),
    {
        proof {
            use_type_invariant(&*self);
        }
        match self.check_admin(caller) {
            Err(e) => Err(e),
            Ok(()) => {
                self.config = LedgerConfig { vault: Some(vault), ..self.config };
                Ok(())
            },
        }
    }

    /// The permission gateway's address, if one is set.
    pub fn gateway(&self) -> (gateway: Option<Address>)
        ensures
            gateway == self@.config.gateway,
    {
        self.config.gateway
    }

    /// Sets the permission gateway's address. Only the administrator may.
    pub fn set_gateway(&mut self, caller: Address, gateway: Address) -> (r: Result<
        (),
        QuipayError,
    >)
        ensures
            final(self)@ == old(self)@.set_gateway(caller, gateway).0,
            r == old(self)@.set_gateway(caller, gateway).1,
            final(self)@.wf(),
    {
        proof {
            use_type_invariant(&*self);
        }
        match self.check_admin(caller) {
            Err(e) => Err(e),
            Ok(()) => {
                self.config = LedgerConfig { gateway: Some(gateway), ..self.config };
                Ok(())
            },
        }
    }
}

impl PayrollStream {
    /// Files `stream` under its id, sets the clock to `t` and reports
    /// `event`.
    fn put(&mut self, stream: Stream, t: u64, event: StreamEvent)
        requires
            old(self)@.config.clock <= t,
            stream.wf(),
            stream.settled_at(t),
            stream.closed_at <= t,
            stream.id < old(self)@.config.next_id,
        ensures
            final(self)@ == old(self)@.with_stream(stream, t).reporting(event),
            final(self)@.wf(),
    {
        proof {
            use_type_invariant(&*self);
            lemma_with_stream_wf(self@, stream, t);
        }
        broadcast use vstd::std_specs::hash::group_hash_axioms;

        let mut streams: HashMap<u64, Stream> = HashMap::new();
        std::mem::swap(&mut streams, &mut self.streams);
        streams.insert(stream.id, stream);
        self.config = LedgerConfig { clock: t, ..self.config };
        self.streams = streams;
        self.report(event);
    }

    /// Reports `event`.
    fn report(&mut self, event: StreamEvent)
        ensures
            final(self)@ == old(self)@.reporting(event),
            final(self)@.wf(),
    {
        proof {
            use_type_invariant(&*self);
        }
        let mut events: Vec<StreamEvent> = Vec::new();
        std::mem::swap(&mut events, &mut self.events);
        events.push(event);
        self.events = events;
    }

    /// Hands out the events that the ledger has reported since they were last
    /// taken, in the order in which they were reported, and keeps none.
    pub fn take_events(&mut self) -> (events: Vec<StreamEvent>)
        ensures
            final(self)@ == old(self)@.take_events().0,
            events@ == old(self)@.take_events().1,
            final(self)@.wf(),
    {
        proof {
            use_type_invariant(&*self);
        }
        let mut events: Vec<StreamEvent> = Vec::new();
        std::mem::swap(&mut events, &mut self.events);
        events
    }

    /// The active stream `stream_id`, provided that the ledger is not paused
    /// and that `party` is the stream's worker (`as_worker`) or its employer.
    fn active(&self, stream_id: u64, party: Address, as_worker: bool) -> (r: Result<
        Stream,
        QuipayError,
    >)
        ensures
            r == self@.active_stream(stream_id, party, as_worker),
            r matches Ok(s) ==> s.wf() && s.id == stream_id && s.settled_at(self@.config.clock),
    {
        if self.config.paused {
            return Err(QuipayError::ProtocolPaused);
        }
        let stream = match self.get_stream(stream_id) {
            None => {
                return Err(QuipayError::NotFound);
            },
            Some(stream) => stream,
        };
        let owner = if as_worker {
            stream.worker
        } else {
            stream.employer
        };
        if party != owner {
            return Err(QuipayError::Unauthorized);
        }
        if stream.status != StreamStatus::Active {
            return Err(QuipayError::NotActive);
        }
        Ok(stream)
    }

    /// The request to make of the custodian before `employer` creates a
    /// stream of `total_amount` in `asset` that vests from `start_ts` to
    /// `end_ts`: to allocate the total.
    ///
    /// Fails with `ProtocolPaused` while the ledger is paused, else with
    /// `InvalidWindow` unless the amount is positive and the window not empty.
    pub fn creation_request(
        &self,
        employer: Address,
        asset: Address,
        total_amount: i128,
        start_ts: u64,
        end_ts: u64,
    ) -> (r: Result<Request, QuipayError>)
        ensures
            r == self@.creation_request(employer, asset, total_amount, start_ts, end_ts),
    {
        match self.terms_due(total_amount, start_ts, start_ts, end_ts) {
            Err(e) => Err(e),
            Ok(amount) => Ok(Request::Allocate { employer, asset, amount }),
        }
    }

    /// What is to be allocated for a stream on the given terms.
    fn terms_due(&self, total_amount: i128, start_ts: u64, cliff_ts: u64, end_ts: u64) -> (r:
        Result<i128, QuipayError>)
        ensures
            r == self@.allocation_due(total_amount, start_ts, cliff_ts, end_ts),
    {
        if self.config.paused {
            Err(QuipayError::ProtocolPaused)
        } else if total_amount <= 0 || start_ts >= end_ts || cliff_ts > end_ts {
            Err(QuipayError::InvalidWindow)
        } else {
            Ok(total_amount)
        }
    }

    /// Creates a stream on the given terms, given the custodian's answer to
    /// the request to allocate its total.
    fn open(
        &mut self,
        employer: Address,
        worker: Address,
        asset: Address,
        total_amount: i128,
        start_ts: u64,
        cliff_ts: u64,
        end_ts: u64,
        allocation: Result<(), QuipayError>,
    ) -> (r: Result<u64, QuipayError>)
        requires
            old(self)@.config.next_id < u64::MAX,
        ensures
            final(self)@ == old(self)@.open_stream(
                employer,
                worker,
                asset,
                total_amount,
                start_ts,
                cliff_ts,
                end_ts,
                allocation,
            ).0,
            r == old(self)@.open_stream(
                employer,
                worker,
                asset,
                total_amount,
                start_ts,
                cliff_ts,
                end_ts,
                allocation,
            ).1,
            final(self)@.wf(),
    {
        proof {
            use_type_invariant(&*self);
        }
        broadcast use vstd::std_specs::hash::group_hash_axioms;

        if let Err(e) = self.terms_due(total_amount, start_ts, cliff_ts, end_ts) {
            return Err(e);
        }
        if let Err(e) = allocation {
            return Err(e);
        }
        let id: u64 = self.config.next_id;
        let stream = Stream {
            id,
            employer,
            worker,
            asset,
            total_amount,
            start_ts,
            cliff_ts,
            end_ts,
            withdrawn_amount: 0,
            status: StreamStatus::Active,
            closed_at: 0,
        };
        proof {
            lemma_vested_boundaries(stream, self.config.clock);
        }
        let mut streams: HashMap<u64, Stream> = HashMap::new();
        std::mem::swap(&mut streams, &mut self.streams);
        streams.insert(id, stream);
        self.config = LedgerConfig { next_id: id + 1, ..self.config };
        self.streams = streams;
        self.report(
            StreamEvent::Created {
                stream_id: id,
                employer,
                worker,
                asset,
                total_amount,
                start_ts,
                cliff_ts,
                end_ts,
            },
        );
        Ok(id)
    }

    /// Creates a stream from `employer` to `worker` that vests `total_amount`
    /// of `asset` from `start_ts` to `end_ts`, and returns its id.
    ///
    /// `allocation` is the custodian's answer to the request that
    /// `creation_request` gives. The operation fails with `ProtocolPaused`
    /// while the ledger is paused, else with `InvalidWindow` unless the amount
    /// is positive and the window not empty, else with the custodian's
    /// refusal; a failure changes nothing and reports nothing. Otherwise the
    /// stream gets the next id and starts active with nothing withdrawn, and
    /// its creation is reported.
    pub fn create_stream(
        &mut self,
        employer: Address,
        worker: Address,
        asset: Address,
        total_amount: i128,
        start_ts: u64,
        end_ts: u64,
        allocation: Result<(), QuipayError>,
    ) -> (r: Result<u64, QuipayError>)
        requires
            old(self)@.config.next_id < u64::MAX,
        ensures
            final(self)@ == old(self)@.create_stream(
                employer,
                worker,
                asset,
                total_amount,
                start_ts,
                end_ts,
                allocation,
            ).0,
            r == old(self)@.create_stream(
                employer,
                worker,
                asset,
                total_amount,
                start_ts,
                end_ts,
                allocation,
            ).1,
            final(self)@.wf(),
    {
        self.open(employer, worker, asset, total_amount, start_ts, start_ts, end_ts, allocation)
    }

    /// The request to make of the custodian before the gateway creates a
    /// stream for `employer` in `asset` at `rate` per time unit: to allocate
    /// the stream's total, which is the rate times the length of the window.
    ///
    /// Fails with `NotInitialized` if no gateway is set, with `Unauthorized`
    /// if `caller` is not the gateway, with `ProtocolPaused` while the ledger
    /// is paused, and with `InvalidWindow` unless the rate is positive, the
    /// window not empty, the cliff not past its end and the total
    /// representable.
    pub fn gateway_creation_request(
        &self,
        caller: Address,
        employer: Address,
        asset: Address,
        rate: i128,
        cliff_ts: u64,
        start_ts: u64,
        end_ts: u64,
    ) -> (r: Result<Request, QuipayError>)
        ensures
            r == self@.gateway_creation_request(
                caller,
                employer,
                asset,
                rate,
                cliff_ts,
                start_ts,
                end_ts,
            ),
    {
        match self.gateway_total(caller, rate, cliff_ts, start_ts, end_ts) {
            Err(e) => Err(e),
            Ok(amount) => Ok(Request::Allocate { employer, asset, amount }),
        }
    }

    /// The total of a stream that the gateway creates at `rate`.
    fn gateway_total(&self, caller: Address, rate: i128, cliff_ts: u64, start_ts: u64, end_ts: u64)
        -> (r: Result<i128, QuipayError>)
        ensures
            r == self@.gateway_allocation_due(caller, rate, cliff_ts, start_ts, end_ts),
    {
        if let Err(e) = self.check_gateway(caller) {
            return Err(e);
        }
        if self.config.paused {
            return Err(QuipayError::ProtocolPaused);
        }
        if rate <= 0 || start_ts >= end_ts {
            return Err(QuipayError::InvalidWindow);
        }
        let duration: i128 = (end_ts - start_ts) as i128;
        assert(0 <= rate * duration) by (nonlinear_arith)
            requires
                0 < rate,
                0 < duration,
        ;
        match rate.checked_mul(duration) {
            None => Err(QuipayError::InvalidWindow),
            Some(total_amount) => self.terms_due(total_amount, start_ts, cliff_ts, end_ts),
        }
    }

    /// Creates, for the permission gateway, a stream that vests `rate` per
    /// time unit from `start_ts` to `end_ts` and shows nothing before
    /// `cliff_ts`, and returns its id.
    ///
    /// `caller` is the immediate caller, which must be the registered gateway;
    /// `allocation` is the custodian's answer to the request that
    /// `gateway_creation_request` gives. Fails as that query does, else with
    /// the custodian's refusal; a failure changes nothing and reports nothing.
    /// Otherwise the stream is created as by `create_stream`, with the cliff
    /// as given.
    pub fn create_stream_via_gateway(
        &mut self,
        caller: Address,
        employer: Address,
        worker: Address,
        asset: Address,
        rate: i128,
        cliff_ts: u64,
        start_ts: u64,
        end_ts: u64,
        allocation: Result<(), QuipayError>,
    ) -> (r: Result<u64, QuipayError>)
        requires
            old(self)@.config.next_id < u64::MAX,
        ensures
            final(self)@ == old(self)@.create_stream_via_gateway(
                caller,
                employer,
                worker,
                asset,
                rate,
                cliff_ts,
                start_ts,
                end_ts,
                allocation,
            ).0,
            r == old(self)@.create_stream_via_gateway(
                caller,
                employer,
                worker,
                asset,
                rate,
                cliff_ts,
                start_ts,
                end_ts,
                allocation,
            ).1,
            final(self)@.wf(),
    {
        proof {
            use_type_invariant(&*self);
        }
        match self.gateway_total(caller, rate, cliff_ts, start_ts, end_ts) {
            Err(e) => Err(e),
            Ok(total_amount) => self.open(
                employer,
                worker,
                asset,
                total_amount,
                start_ts,
                cliff_ts,
                end_ts,
                allocation,
            ),
        }
    }

    /// What `worker` can withdraw from the stream at `now`: what has vested
    /// and is not yet withdrawn, which is what the custodian is to release.
    ///
    /// Fails with `ProtocolPaused` while the ledger is paused, with `NotFound`
    /// if there is no such stream, with `Unauthorized` if `worker` is not its
    /// worker, and with `NotActive` if it has ended.
    pub fn payable(&self, stream_id: u64, worker: Address, now: u64) -> (r: Result<
        i128,
        QuipayError,
    >)
        ensures
            r == self@.payable(stream_id, worker, now),
            r matches Ok(due) ==> 0 <= due <= self@.streams[stream_id].held(),
    {
        match self.active(stream_id, worker, true) {
            Err(e) => Err(e),
            Ok(stream) => Ok(self.due(&stream, now)),
        }
    }

    /// What can be withdrawn at `now` from `stream`, an active stream of the
    /// ledger.
    fn due(&self, stream: &Stream, now: u64) -> (due: i128)
        requires
            stream.wf(),
            stream.status == StreamStatus::Active,
            stream.settled_at(self@.config.clock),
        ensures
            due == stream.payable_at(self@.time(now)),
            0 <= due <= stream.held(),
    {
        let t: u64 = self.time(now);
        proof {
            lemma_settled_persists(*stream, self@.config.clock, t);
            lemma_withdraw_step(*stream, t);
        }
        stream.accrued(t) - stream.withdrawn_amount
    }

    /// How what is held for `stream`, an active stream of the ledger, is
    /// split at `now`.
    fn split(&self, stream: &Stream, now: u64) -> (split: Settlement)
        requires
            stream.wf(),
            stream.status == StreamStatus::Active,
            stream.settled_at(self@.config.clock),
        ensures
            split == stream.settlement_at(self@.time(now)),
            0 <= split.to_worker,
            0 <= split.to_employer,
            split.to_worker + split.to_employer == stream.held(),
    {
        let t: u64 = self.time(now);
        proof {
            lemma_settled_persists(*stream, self@.config.clock, t);
            lemma_cancel_step(*stream, t);
        }
        let vested: i128 = stream.accrued(t);
        Settlement {
            to_worker: vested - stream.withdrawn_amount,
            to_employer: stream.total_amount - vested,
        }
    }

    /// The request to make of the custodian before `worker` withdraws from
    /// the stream at `now`: none where nothing is payable, else to release
    /// what is payable, out of what is committed for the stream's employer,
    /// to the worker.
    ///
    /// Fails as `payable` does.
    pub fn withdrawal_request(&self, stream_id: u64, worker: Address, now: u64) -> (r: Result<
        Option<Request>,
        QuipayError,
    >)
        ensures
            r == self@.withdrawal_request(stream_id, worker, now),
    {
        match self.active(stream_id, worker, true) {
            Err(e) => Err(e),
            Ok(stream) => {
                let due: i128 = self.due(&stream, now);
                if due == 0 {
                    Ok(None)
                } else {
                    Ok(
                        Some(
                            Request::Release {
                                employer: stream.employer,
                                asset: stream.asset,
                                amount: due,
                                to: worker,
                            },
                        ),
                    )
                }
            },
        }
    }

    /// Pays `worker` what is payable from the stream at `now` and returns the
    /// amount.
    ///
    /// `release` is the custodian's answer to the request that
    /// `withdrawal_request` gives. Fails as `payable` does, else, if something
    /// is payable, with the custodian's refusal; a failure changes nothing
    /// and reports nothing. With nothing payable the call succeeds with zero,
    /// changes nothing and reports nothing. Otherwise the amount is added to
    /// what the stream has paid, a stream that has paid its total is closed as
    /// of now, and the withdrawal is reported.
    pub fn withdraw(
        &mut self,
        stream_id: u64,
        worker: Address,
        now: u64,
        release: Result<(), QuipayError>,
    ) -> (r: Result<i128, QuipayError>)
        ensures
            final(self)@ == old(self)@.withdraw(stream_id, worker, now, release).0,
            r == old(self)@.withdraw(stream_id, worker, now, release).1,
            final(self)@.wf(),
    {
        proof {
            use_type_invariant(&*self);
        }
        let stream = match self.active(stream_id, worker, true) {
            Err(e) => {
                return Err(e);
            },
            Ok(stream) => stream,
        };
        let due: i128 = self.due(&stream, now);
        if due == 0 {
            return Ok(0);
        }
        if let Err(e) = release {
            return Err(e);
        }
        let t: u64 = self.time(now);
        proof {
            lemma_settled_persists(stream, self@.config.clock, t);
            lemma_withdraw_step(stream, t);
        }
        let withdrawn: i128 = stream.withdrawn_amount + due;
        let updated = if withdrawn == stream.total_amount {
            Stream {
                withdrawn_amount: withdrawn,
                status: StreamStatus::Closed,
                closed_at: t,
                ..stream
            }
        } else {
            Stream { withdrawn_amount: withdrawn, ..stream }
        };
        self.put(
            updated,
            t,
            StreamEvent::Withdrawn { stream_id, amount: due, withdrawn_amount: withdrawn },
        );
        Ok(due)
    }

    /// How the funds held for the stream are split if `employer` cancels it
    /// at `now`: what the custodian is to pay the worker and to release back
    /// to the employer.
    ///
    /// Fails with `ProtocolPaused` while the ledger is paused, with `NotFound`
    /// if there is no such stream, with `Unauthorized` if `employer` is not
    /// its employer, and with `NotActive` if it has ended.
    pub fn settlement(&self, stream_id: u64, employer: Address, now: u64) -> (r: Result<
        Settlement,
        QuipayError,
    >)
        ensures
            r == self@.settlement(stream_id, employer, now),
            r matches Ok(split) ==> 0 <= split.to_worker && 0 <= split.to_employer
                && split.to_worker + split.to_employer == self@.streams[stream_id].held(),
    {
        match self.active(stream_id, employer, false) {
            Err(e) => Err(e),
            Ok(stream) => Ok(self.split(&stream, now)),
        }
    }

    /// The request to make of the custodian before `employer` cancels the
    /// stream at `now`: to pay out the settlement, the worker's share to the
    /// stream's worker and the rest back to the employer.
    ///
    /// Fails as `settlement` does.
    pub fn cancellation_request(&self, stream_id: u64, employer: Address, now: u64) -> (r: Result<
        Request,
        QuipayError,
    >)
        ensures
            r == self@.cancellation_request(stream_id, employer, now),
    {
        match self.active(stream_id, employer, false) {
            Err(e) => Err(e),
            Ok(stream) => {
                let split = self.split(&stream, now);
                Ok(
                    Request::Settle {
                        employer,
                        asset: stream.asset,
                        worker: stream.worker,
                        to_worker: split.to_worker,
                        to_employer: split.to_employer,
                    },
                )
            },
        }
    }

    /// Cancels the stream for `employer` at `now` and returns the settlement.
    ///
    /// `payout` is the custodian's answer to the request that
    /// `cancellation_request` gives. Fails as `settlement` does, else with the
    /// custodian's refusal; a failure changes nothing and reports nothing.
    /// Otherwise the stream is canceled as of now, what had vested counts as
    /// paid, and the cancellation is reported.
    pub fn cancel_stream(
        &mut self,
        stream_id: u64,
        employer: Address,
        now: u64,
        payout: Result<(), QuipayError>,
    ) -> (r: Result<Settlement, QuipayError>)
        ensures
            final(self)@ == old(self)@.cancel_stream(stream_id, employer, now, payout).0,
            r == old(self)@.cancel_stream(stream_id, employer, now, payout).1,
            final(self)@.wf(),
    {
        proof {
            use_type_invariant(&*self);
        }
        let stream = match self.active(stream_id, employer, false) {
            Err(e) => {
                return Err(e);
            },
            Ok(stream) => stream,
        };
        let split = self.split(&stream, now);
        if let Err(e) = payout {
            return Err(e);
        }
        let t: u64 = self.time(now);
        proof {
            lemma_settled_persists(stream, self@.config.clock, t);
            lemma_cancel_step(stream, t);
        }
        let updated = Stream {
            withdrawn_amount: stream.withdrawn_amount + split.to_worker,
            status: StreamStatus::Canceled,
            closed_at: t,
            ..stream
        };
        self.put(
            updated,
            t,
            StreamEvent::Canceled {
                stream_id,
                to_worker: split.to_worker,
                to_employer: split.to_employer,
            },
        );
        Ok(split)
    }

    /// The request to make of the custodian before the gateway cancels the
    /// stream at `now` on behalf of `employer`.
    ///
    /// Fails with `NotInitialized` if no gateway is set and with
    /// `Unauthorized` if `caller` is not the gateway, else as
    /// `cancellation_request` does.
    pub fn gateway_cancellation_request(
        &self,
        caller: Address,
        stream_id: u64,
        employer: Address,
        now: u64,
    ) -> (r: Result<Request, QuipayError>)
        ensures
            r == self@.gateway_cancellation_request(caller, stream_id, employer, now),
    {
        match self.check_gateway(caller) {
            Err(e) => Err(e),
            Ok(()) => self.cancellation_request(stream_id, employer, now),
        }
    }

    /// Cancels the stream for the permission gateway on behalf of `employer`.
    ///
    /// `caller` is the immediate caller, which must be the registered gateway;
    /// `payout` is the custodian's answer to the request that
    /// `gateway_cancellation_request` gives. Fails as that query does, else
    /// with the custodian's refusal; a failure changes nothing and reports
    /// nothing. Otherwise the stream is canceled as by `cancel_stream`.
    pub fn cancel_stream_via_gateway(
        &mut self,
        caller: Address,
        stream_id: u64,
        employer: Address,
        now: u64,
        payout: Result<(), QuipayError>,
    ) -> (r: Result<Settlement, QuipayError>)
        ensures
            final(self)@ == old(self)@.cancel_stream_via_gateway(
                caller,
                stream_id,
                employer,
                now,
                payout,
            ).0,
            r == old(self)@.cancel_stream_via_gateway(caller, stream_id, employer, now, payout).1,
            final(self)@.wf(),
    {
        proof {
            use_type_invariant(&*self);
        }
        match self.check_gateway(caller) {
            Err(e) => Err(e),
            Ok(()) => self.cancel_stream(stream_id, employer, now, payout),
        }
    }

    /// Removes the record of the stream, which anyone may ask for.
    ///
    /// Fails with `NotFound` if there is no such record, and with
    /// `NotEligible` while the stream is active or less than the retention
    /// window has passed since it ended; a failure changes nothing.
    pub fn cleanup_stream(&mut self, stream_id: u64, now: u64) -> (r: Result<(), QuipayError>)
        ensures
            final(self)@ == old(self)@.cleanup_stream(stream_id, now).0,
            r == old(self)@.cleanup_stream(stream_id, now).1,
            final(self)@.wf(),
    {
        proof {
            use_type_invariant(&*self);
        }
        broadcast use vstd::std_specs::hash::group_hash_axioms;

        let stream = match self.get_stream(stream_id) {
            None => {
                return Err(QuipayError::NotFound);
            },
            Some(stream) => stream,
        };
        let t: u64 = self.time(now);
        if !stream.is_closed() || t - stream.closed_at < self.config.retention_secs {
            return Err(QuipayError::NotEligible);
        }
        proof {
            lemma_clock_advances(self@, t);
        }
        let mut streams: HashMap<u64, Stream> = HashMap::new();
        std::mem::swap(&mut streams, &mut self.streams);
        streams.remove(&stream_id);
        self.config = LedgerConfig { clock: t, ..self.config };
        self.streams = streams;
        self.report(StreamEvent::CleanedUp { stream_id });
        Ok(())
    }
}

} // verus!
