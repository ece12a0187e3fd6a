use pallet_ocw::admission::{validate, PendingMessage};
use pallet_ocw::codec::DecodeError;
use pallet_ocw::fetch::{fetch_result, FetchError, FetchOutcome};
use pallet_ocw::pallet::{DispatchError, Error, Event, Origin, Pallet};
use pallet_ocw::parser::ParseError;
use pallet_ocw::sample::Sample;
use pallet_ocw::worker::{
    action_index, fetch_dot_parse, fetch_price_info, ledger_error, offchain_worker,
    price_request, select_action, submission_outcome, submit_result, Action, SchedulerError,
    SubmitError, WorkerError, FETCH_PRICE_SLOT, TX_TYPES,
};

fn response(body: &[u8]) -> FetchOutcome {
    FetchOutcome::Response { status: 200, body: body.to_vec() }
}

#[test]
fn blocks_zero_to_five_take_their_slots() {
    let slots: Vec<u32> = (0..=5u64).map(action_index).collect();
    assert_eq!(slots, vec![0, 1, 2, 3, 4, 0]);
}

#[test]
fn only_slot_four_holds_an_action() {
    assert_eq!((TX_TYPES, FETCH_PRICE_SLOT), (5, 4));
    for n in [0u64, 1, 2, 3, 5, 6, 7, 8, 10] {
        assert_eq!(select_action(n), Err(SchedulerError::UnknownAction));
    }
    for n in [4u64, 9, 14, 1_000_004] {
        assert_eq!(select_action(n), Ok(Action::FetchPrice));
    }
}

#[test]
fn slot_comes_from_the_low_32_bits() {
    assert_eq!(action_index(u32::MAX as u64), (u32::MAX % 5) as u32);
    if usize::BITS == 64 {
        assert_eq!(action_index((1u64 << 32) + 3), 3);
        assert_eq!(action_index((1u64 << 32) + 4), 4);
        assert_eq!(action_index(u64::MAX), u32::MAX % 5);
    } else {
        assert_eq!(action_index((1u64 << 32) + 3), 5);
        assert_eq!(select_action((1u64 << 32) + 4), Err(SchedulerError::UnknownAction));
    }
}

#[test]
fn worker_fetches_the_price_on_slot_four() {
    for n in [4u64, 9, 1_000_004] {
        assert_eq!(offchain_worker(Some(n)), Ok(Action::FetchPrice));
    }
}

#[test]
fn worker_does_nothing_on_other_slots() {
    let unknown = WorkerError::Scheduler(SchedulerError::UnknownAction);
    for n in [0u64, 1, 2, 3, 5, 8] {
        assert_eq!(offchain_worker(Some(n)), Err(unknown));
    }
    assert_eq!(offchain_worker(None), Err(unknown));
}

#[test]
fn price_request_has_three_seconds() {
    let request = price_request(10_000);
    assert_eq!(request.url, "https://api.coincap.io/v2/assets/polkadot");
    assert_eq!(request.header_name, "User-Agent");
    assert_eq!(request.header_value, "ocw");
    assert_eq!(request.deadline, 13_000);
    assert_eq!(price_request(u64::MAX).deadline, u64::MAX);
}

#[test]
fn response_becomes_a_price_update() {
    let outcome = response(br#"{"data":{"priceUsd":"7.123456"},"timestamp":1}"#);
    assert_eq!(fetch_dot_parse(outcome.clone()), Ok(Sample::new(7, 123456).unwrap()));
    assert_eq!(
        fetch_price_info(outcome),
        Ok(PendingMessage::PriceUpdate(Sample::new(7, 123456).unwrap()))
    );
}

#[test]
fn fetch_past_its_deadline_submits_nothing() {
    assert_eq!(fetch_result(FetchOutcome::DeadlineReached), Err(FetchError::Timeout));
    assert_eq!(
        fetch_price_info(FetchOutcome::DeadlineReached),
        Err(WorkerError::Fetch(FetchError::Timeout))
    );
    let mut ledger = Pallet::new();
    ledger.submit_price_unsigned(Origin::<u64>::Unsigned, 1, 1).unwrap();
    let before = ledger.prices().parts();
    assert!(fetch_price_info(FetchOutcome::DeadlineReached).is_err());
    assert_eq!(ledger.prices().parts(), before);
}

#[test]
fn failures_of_the_fetch_keep_their_reason() {
    let body = br#"{"data":{"priceUsd":"7.1"},"timestamp":1}"#.to_vec();
    assert_eq!(
        fetch_dot_parse(FetchOutcome::Failed),
        Err(WorkerError::Fetch(FetchError::TransportError))
    );
    assert_eq!(
        fetch_dot_parse(FetchOutcome::Response { status: 404, body }),
        Err(WorkerError::Fetch(FetchError::BadStatus(404)))
    );
}

#[test]
fn body_that_is_no_text_is_an_encoding_error() {
    let got = fetch_dot_parse(response(&[0xff, 0xfe]));
    assert_eq!(got, Err(WorkerError::Parse(ParseError::Encoding)));
    assert_ne!(got, fetch_dot_parse(FetchOutcome::DeadlineReached));
    assert_ne!(got, fetch_dot_parse(FetchOutcome::Failed));
    assert_ne!(got, fetch_dot_parse(FetchOutcome::Response { status: 500, body: vec![0xff, 0xfe] }));
    assert_eq!(
        fetch_price_info(response(&[0xff, 0xfe])),
        Err(WorkerError::Parse(ParseError::Encoding))
    );
}

#[test]
fn failures_of_the_parser_keep_their_reason() {
    assert_eq!(fetch_dot_parse(response(b"{}")), Err(WorkerError::Parse(ParseError::Malformed)));
    assert_eq!(
        fetch_dot_parse(response(b"<html>")),
        Err(WorkerError::Parse(ParseError::Malformed))
    );
    assert_eq!(
        fetch_price_info(response(br#"{"data":{"priceUsd":"7"},"timestamp":1}"#)),
        Err(WorkerError::Parse(ParseError::NumericFormat(DecodeError::MissingFraction)))
    );
    assert_eq!(
        fetch_price_info(response(br#"{"data":{"priceUsd":"7.x"},"timestamp":1}"#)),
        Err(WorkerError::Parse(ParseError::NumericFormat(DecodeError::NotNumeric)))
    );
}

#[test]
fn ledger_names_each_failure() {
    assert_eq!(
        ledger_error(WorkerError::Scheduler(SchedulerError::UnknownAction)),
        Error::UnknownOffchainMux
    );
    for e in [FetchError::Timeout, FetchError::TransportError, FetchError::BadStatus(404)] {
        assert_eq!(ledger_error(WorkerError::Fetch(e)), Error::HttpFetchingError);
    }
    for e in [
        ParseError::Encoding,
        ParseError::Malformed,
        ParseError::NumericFormat(DecodeError::NotNumeric),
        ParseError::NumericFormat(DecodeError::MissingFraction),
    ] {
        assert_eq!(ledger_error(WorkerError::Parse(e)), Error::JsonDecodeError);
    }
    assert_eq!(
        ledger_error(WorkerError::Submit(SubmitError::PoolRejected)),
        Error::OffchainUnsignedTxError
    );
}

#[test]
fn pool_answer_ends_the_run() {
    assert_eq!(submit_result(true), Ok(()));
    assert_eq!(submit_result(false), Err(SubmitError::PoolRejected));
    assert_eq!(submission_outcome(true), Ok(()));
    assert_eq!(submission_outcome(false), Err(WorkerError::Submit(SubmitError::PoolRejected)));
}

#[test]
fn unsigned_price_is_recorded_and_told() {
    let mut ledger = Pallet::new();
    assert_eq!(ledger.prices().len(), 0);
    let event = ledger.submit_price_unsigned(Origin::<u64>::Unsigned, 7, 123456);
    assert_eq!(event, Ok(Event::UpdatePrice(None, 7, 123456)));
    assert_eq!(ledger.prices().parts(), vec![(7, 123456)]);
    assert_eq!(ledger.prices().last(), Sample::new(7, 123456));
}

#[test]
fn signed_price_is_a_bad_origin() {
    let mut ledger = Pallet::new();
    assert_eq!(ledger.submit_price_unsigned(Origin::Signed(1u64), 7, 123456), Err(DispatchError::BadOrigin));
    assert_eq!(ledger.submit_price_unsigned(Origin::<u64>::Root, 7, 123456), Err(DispatchError::BadOrigin));
    assert_eq!(ledger.prices().len(), 0);
    ledger.submit_price_unsigned(Origin::<u64>::Unsigned, 7, 123456).unwrap();
    assert_eq!(ledger.submit_price_unsigned(Origin::Signed(1u64), 8, 0), Err(DispatchError::BadOrigin));
    assert_eq!(ledger.prices().parts(), vec![(7, 123456)]);
}

#[test]
fn price_with_a_whole_for_a_fraction_is_not_recorded() {
    let mut ledger = Pallet::new();
    ledger.submit_price_unsigned(Origin::<u64>::Unsigned, 7, 999_999).unwrap();
    for b in [1_000_000u32, 1_000_001, u32::MAX] {
        assert_eq!(
            ledger.submit_price_unsigned(Origin::<u64>::Unsigned, 8, b),
            Err(DispatchError::FractionOutOfRange)
        );
    }
    assert_eq!(ledger.prices().parts(), vec![(7, 999_999)]);
}

#[test]
fn origin_is_looked_at_before_the_fraction() {
    let mut ledger = Pallet::new();
    assert_eq!(
        ledger.submit_price_unsigned(Origin::Signed(1u64), 8, 1_000_000),
        Err(DispatchError::BadOrigin)
    );
}

#[test]
fn ledger_takes_up_what_was_stored() {
    let stored: Vec<(u64, u32)> = (1..=3u64).map(|k| (k, 0)).collect();
    let mut ledger = Pallet::restore(&stored).ok().unwrap();
    assert_eq!(ledger.prices().parts(), stored);
    ledger.submit_price_unsigned(Origin::<u64>::Unsigned, 4, 0).unwrap();
    assert_eq!(ledger.prices().parts(), vec![(1, 0), (2, 0), (3, 0), (4, 0)]);
    let long: Vec<(u64, u32)> = (1..=12u64).map(|k| (k, 5)).collect();
    assert_eq!(Pallet::restore(&long).ok().unwrap().prices().parts(), long[2..].to_vec());
}

#[test]
fn stored_pairs_that_are_no_prices_are_a_corruption() {
    assert_eq!(Pallet::restore(&[(1, 0), (2, 1_000_000)]).err(), Some(DispatchError::Corruption));
    assert_eq!(Pallet::restore(&[(1, u32::MAX)]).err(), Some(DispatchError::Corruption));
}

#[test]
fn ledger_keeps_the_last_ten_prices() {
    let mut ledger = Pallet::new();
    for k in 1..=11u64 {
        let event = ledger.submit_price_unsigned(Origin::<u64>::Unsigned, k, 0);
        assert_eq!(event, Ok(Event::UpdatePrice(None, k, 0)));
    }
    let kept: Vec<u64> = ledger.prices().parts().iter().map(|p| p.0).collect();
    assert_eq!(kept, (2..=11u64).collect::<Vec<_>>());
}

#[test]
fn price_travels_from_response_to_history() {
    let mut ledger = Pallet::new();
    ledger.submit_price_unsigned(Origin::<u64>::Unsigned, 6, 5).unwrap();

    assert_eq!(offchain_worker(Some(4)), Ok(Action::FetchPrice));
    assert_eq!(price_request(0).deadline, 3000);
    let outcome = response(br#"{"data":{"priceUsd":"7.123456"},"timestamp":1}"#);
    let message = fetch_price_info(outcome).unwrap();
    assert_eq!(message, PendingMessage::PriceUpdate(Sample::new(7, 123456).unwrap()));
    assert_eq!(submission_outcome(true), Ok(()));

    let decision = validate(&message).unwrap();
    assert_eq!(decision.dedup_tag, b"submit_price_unsigned".to_vec());
    let sample = match message {
        PendingMessage::PriceUpdate(sample) => sample,
        _ => unreachable!(),
    };
    let event = ledger.submit_price_unsigned(Origin::<u64>::Unsigned, sample.value(), sample.fraction());
    assert_eq!(event, Ok(Event::UpdatePrice(None, 7, 123456)));
    assert_eq!(ledger.prices().last(), Some(Sample::new(7, 123456).unwrap()));
    assert_eq!(ledger.prices().parts(), vec![(6, 5), (7, 123456)]);
}
