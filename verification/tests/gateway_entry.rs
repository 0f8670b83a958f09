use quipay::{
    Address, LedgerConfig, PayrollStream, QuipayError, Request, Settlement, Stream, StreamStatus,
};

fn admin() -> Address {
    Address::account(0, 1)
}

fn employer() -> Address {
    Address::account(0, 2)
}

fn worker() -> Address {
    Address::account(0, 3)
}

fn token() -> Address {
    Address::contract(0, 4)
}

fn gateway() -> Address {
    Address::contract(0, 9)
}

fn allocate(amount: i128) -> Result<Request, QuipayError> {
    Ok(Request::Allocate { employer: employer(), asset: token(), amount })
}

/// What the gateway is to ask of the custodian for a stream at `rate`.
fn due(
    ledger: &PayrollStream,
    caller: Address,
    rate: i128,
    cliff_ts: u64,
    start_ts: u64,
    end_ts: u64,
) -> Result<Request, QuipayError> {
    ledger.gateway_creation_request(caller, employer(), token(), rate, cliff_ts, start_ts, end_ts)
}

fn ledger_with_gateway() -> PayrollStream {
    let mut ledger = PayrollStream::new();
    ledger.init(admin()).unwrap();
    ledger.set_gateway(admin(), gateway()).unwrap();
    ledger
}

#[test]
fn the_gateway_creates_a_stream_at_a_rate() {
    let mut ledger = ledger_with_gateway();
    assert_eq!(due(&ledger, gateway(), 100, 0, 10, 100), allocate(9000));
    let id = ledger
        .create_stream_via_gateway(gateway(), employer(), worker(), token(), 100, 0, 10, 100, Ok(()))
        .unwrap();
    assert_eq!(id, 1);
    let stream = ledger.get_stream(id).unwrap();
    assert_eq!(stream.total_amount, 9000);
    assert_eq!(stream.start_ts, 10);
    assert_eq!(stream.cliff_ts, 0);
    assert_eq!(stream.end_ts, 100);
    assert_eq!(stream.employer, employer());
    assert_eq!(stream.worker, worker());
    assert_eq!(stream.asset, token());
    assert_eq!(stream.status, StreamStatus::Active);
    assert_eq!(stream.withdrawn_amount, 0);
}

#[test]
fn both_ways_of_creation_give_the_same_stream() {
    let mut direct = PayrollStream::new();
    let mut routed = ledger_with_gateway();
    let a = direct
        .create_stream(employer(), worker(), token(), 9000, 10, 100, Ok(()))
        .unwrap();
    let b = routed
        .create_stream_via_gateway(
            gateway(),
            employer(),
            worker(),
            token(),
            100,
            10,
            10,
            100,
            Ok(()),
        )
        .unwrap();
    assert_eq!(direct.get_stream(a), routed.get_stream(b));
    for t in [0u64, 10, 11, 55, 99, 100, 101] {
        assert_eq!(direct.payable(a, worker(), t), routed.payable(b, worker(), t));
    }
    assert_eq!(direct.payable(a, worker(), 55), Ok(4500));
}

#[test]
fn only_the_registered_gateway_is_let_in() {
    let mut ledger = PayrollStream::new();
    ledger.init(admin()).unwrap();
    assert_eq!(
        ledger.create_stream_via_gateway(
            gateway(),
            employer(),
            worker(),
            token(),
            100,
            0,
            10,
            100,
            Ok(())
        ),
        Err(QuipayError::NotInitialized)
    );
    assert_eq!(
        ledger.cancel_stream_via_gateway(gateway(), 1, employer(), 5, Ok(())),
        Err(QuipayError::NotInitialized)
    );
    ledger.set_gateway(admin(), gateway()).unwrap();
    let agent = Address::account(0, 5);
    assert_eq!(
        ledger.create_stream_via_gateway(agent, employer(), worker(), token(), 100, 0, 10, 100, Ok(())),
        Err(QuipayError::Unauthorized)
    );
    assert_eq!(
        due(&ledger, agent, 100, 0, 10, 100),
        Err(QuipayError::Unauthorized)
    );
    assert_eq!(
        ledger.cancel_stream_via_gateway(agent, 1, employer(), 5, Ok(())),
        Err(QuipayError::Unauthorized)
    );
    assert_eq!(
        ledger.gateway_cancellation_request(agent, 1, employer(), 5),
        Err(QuipayError::Unauthorized)
    );
    assert_eq!(ledger.config().next_id, 1);
}

#[test]
fn the_gateway_is_held_to_the_pause_and_to_valid_terms() {
    let mut ledger = ledger_with_gateway();
    let invalid = Err(QuipayError::InvalidWindow);
    assert_eq!(due(&ledger, gateway(), 0, 0, 10, 100), invalid);
    assert_eq!(due(&ledger, gateway(), -3, 0, 10, 100), invalid);
    assert_eq!(due(&ledger, gateway(), 100, 0, 100, 100), invalid);
    assert_eq!(due(&ledger, gateway(), 100, 0, 101, 100), invalid);
    assert_eq!(due(&ledger, gateway(), 100, 101, 10, 100), invalid);
    assert_eq!(due(&ledger, gateway(), 100, 100, 10, 100), allocate(9000));
    // A total that cannot be represented is no valid amount.
    assert_eq!(due(&ledger, gateway(), i128::MAX, 0, 0, 2), invalid);
    assert_eq!(due(&ledger, gateway(), i128::MAX, 0, 0, 1), allocate(i128::MAX));
    assert_eq!(
        ledger.create_stream_via_gateway(
            gateway(),
            employer(),
            worker(),
            token(),
            i128::MAX,
            0,
            0,
            2,
            Ok(())
        ),
        Err(QuipayError::InvalidWindow)
    );

    ledger.set_paused(admin(), true).unwrap();
    assert_eq!(
        due(&ledger, gateway(), 100, 0, 10, 100),
        Err(QuipayError::ProtocolPaused)
    );
    assert_eq!(
        due(&ledger, gateway(), 0, 0, 10, 100),
        Err(QuipayError::ProtocolPaused)
    );
    assert_eq!(
        ledger.create_stream_via_gateway(
            gateway(),
            employer(),
            worker(),
            token(),
            100,
            0,
            10,
            100,
            Ok(())
        ),
        Err(QuipayError::ProtocolPaused)
    );
    assert_eq!(ledger.config().next_id, 1);
}

#[test]
fn a_stream_with_a_cliff_pays_nothing_before_it() {
    let mut ledger = ledger_with_gateway();
    let id = ledger
        .create_stream_via_gateway(gateway(), employer(), worker(), token(), 100, 6, 0, 10, Ok(()))
        .unwrap();
    assert_eq!(ledger.withdraw(id, worker(), 5, Ok(())), Ok(0));
    assert_eq!(ledger.withdraw(id, worker(), 6, Ok(())), Ok(600));
    assert_eq!(ledger.withdraw(id, worker(), 10, Ok(())), Ok(400));
    assert_eq!(ledger.get_stream(id).unwrap().status, StreamStatus::Closed);
}

#[test]
fn the_gateway_cancels_for_the_employer() {
    let mut ledger = ledger_with_gateway();
    let id = ledger
        .create_stream_via_gateway(gateway(), employer(), worker(), token(), 100, 0, 0, 10, Ok(()))
        .unwrap();
    assert_eq!(
        ledger.gateway_cancellation_request(gateway(), id, employer(), 3),
        Ok(Request::Settle {
            employer: employer(),
            asset: token(),
            worker: worker(),
            to_worker: 300,
            to_employer: 700,
        })
    );
    assert_eq!(
        ledger.cancel_stream_via_gateway(gateway(), id, worker(), 3, Ok(())),
        Err(QuipayError::Unauthorized)
    );
    assert_eq!(
        ledger.cancel_stream_via_gateway(gateway(), id + 1, employer(), 3, Ok(())),
        Err(QuipayError::NotFound)
    );
    assert_eq!(
        ledger.cancel_stream_via_gateway(gateway(), id, employer(), 3, Ok(())),
        Ok(Settlement { to_worker: 300, to_employer: 700 })
    );
    assert_eq!(
        ledger.cancel_stream_via_gateway(gateway(), id, employer(), 3, Ok(())),
        Err(QuipayError::NotActive)
    );
    let stream = ledger.get_stream(id).unwrap();
    assert_eq!(stream.status, StreamStatus::Canceled);
    assert_eq!(stream.closed_at, 3);
}

#[test]
fn a_ledger_is_restored_from_its_settings_and_one_record() {
    let mut ledger = ledger_with_gateway();
    let id = ledger
        .create_stream(employer(), worker(), token(), 1000, 0, 10, Ok(()))
        .unwrap();
    ledger.withdraw(id, worker(), 5, Ok(())).unwrap();
    let config = ledger.config();
    let record = ledger.get_stream(id);

    let mut again = PayrollStream::restore(config, record).unwrap();
    assert_eq!(again.config(), config);
    assert_eq!(again.get_stream(id), record);
    assert_eq!(again.withdraw(id, worker(), 7, Ok(())), Ok(200));
    assert_eq!(ledger.withdraw(id, worker(), 7, Ok(())), Ok(200));
    assert_eq!(again.get_stream(id), ledger.get_stream(id));
    assert_eq!(again.config(), ledger.config());

    let empty = PayrollStream::restore(config, None).unwrap();
    assert_eq!(empty.get_stream(id), None);
    assert_eq!(empty.config(), config);
}

#[test]
fn what_is_no_state_of_a_ledger_is_not_restored() {
    let mut ledger = PayrollStream::new();
    let id = ledger
        .create_stream(employer(), worker(), token(), 1000, 0, 10, Ok(()))
        .unwrap();
    ledger.withdraw(id, worker(), 5, Ok(())).unwrap();
    let config = ledger.config();
    let record = ledger.get_stream(id).unwrap();

    assert!(PayrollStream::restore(LedgerConfig { next_id: 0, ..config }, None).is_none());
    assert!(PayrollStream::restore(LedgerConfig { next_id: 1, ..config }, Some(record)).is_none());
    // Paid more than had vested at the time of the clock.
    assert!(PayrollStream::restore(LedgerConfig { clock: 4, ..config }, Some(record)).is_none());
    assert!(PayrollStream::restore(config, Some(Stream { withdrawn_amount: 501, ..record }))
        .is_none());
    assert!(PayrollStream::restore(config, Some(Stream { total_amount: 0, ..record })).is_none());
    // Ended after the clock.
    let canceled =
        Stream { status: StreamStatus::Canceled, withdrawn_amount: 600, closed_at: 6, ..record };
    assert!(PayrollStream::restore(config, Some(canceled)).is_none());
    assert!(PayrollStream::restore(LedgerConfig { clock: 6, ..config }, Some(canceled)).is_some());
    assert!(PayrollStream::restore(config, Some(record)).is_some());
}
