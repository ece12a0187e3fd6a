//! The off-chain worker: what it does on a block, step by step. The steps
//! decide; the host fetches and submits between them.

use crate::admission::PendingMessage;
use crate::fetch::{
    fetch_request, fetch_result, spec_deadline, spec_fetch_result, FetchError, FetchOutcome,
    FetchRequest,
    FETCH_TIMEOUT_PERIOD, HTTP_COINCAP_URL, HTTP_HEADER_NAME, HTTP_HEADER_USER_AGENT,
};
use crate::pallet::Error;
use crate::parser::{parse_response, spec_parse_response, ParseError};
use crate::sample::Sample;
use vstd::prelude::*;

verus! {

/// The number of slots in the table of actions.
pub const TX_TYPES: u32 = 5;

/// The slot of the one action that is wired: the price fetch. The slots 0
/// to 3 are reserved.
pub const FETCH_PRICE_SLOT: u32 = 4;

/// What the worker does on a block.
#[derive(Clone, Copy, Debug, PartialEq, Eq, Structural)]
pub enum Action {
    /// Fetch the price, parse it and submit it.
    FetchPrice,
}

/// Why the worker did nothing on a block.
#[derive(Clone, Copy, Debug, PartialEq, Eq, Structural)]
pub enum SchedulerError {
    /// The slot of the block holds no action.
    UnknownAction,
}

/// Why a submission failed.
#[derive(Clone, Copy, Debug, PartialEq, Eq, Structural)]
pub enum SubmitError {
    /// The ledger's submission interface reported a failure.
    PoolRejected,
}

/// Why a run of the worker ended without a price in the pool: the step that
/// failed, with its own reason.
#[derive(Clone, Copy, Debug, PartialEq, Eq, Structural)]
pub enum WorkerError {
    /// The block had no action.
    Scheduler(SchedulerError),
    /// The fetch gave no body.
    Fetch(FetchError),
    /// The body gave no sample.
    Parse(ParseError),
    /// The submission failed.
    Submit(SubmitError),
}

/// The ledger's name for a failure of the worker. A failure of the fetch is
/// an `HttpFetchingError`; a body that gives no sample, for whatever
/// reason, is a `JsonDecodeError`.
pub open spec fn spec_ledger_error(e: WorkerError) -> Error {
    match e {
        WorkerError::Scheduler(_) => Error::UnknownOffchainMux,
        WorkerError::Fetch(_) => Error::HttpFetchingError,
        WorkerError::Parse(_) => Error::JsonDecodeError,
        WorkerError::Submit(_) => Error::OffchainUnsignedTxError,
    }
}

/// The slot of a block: its number's low 32 bits, modulo the number of
/// slots. A number that the machine's word cannot hold has the slot
/// `TX_TYPES`, which is none of the table.
pub open spec fn spec_action_index(block_number: u64) -> u32 {
    if block_number <= usize::MAX {
        ((block_number as int % 0x1_0000_0000) % (TX_TYPES as int)) as u32
    } else {
        TX_TYPES
    }
}

/// The action in a slot of the table.
pub open spec fn spec_action(index: u32) -> Result<Action, SchedulerError> {
    if index == FETCH_PRICE_SLOT {
        Ok(Action::FetchPrice)
    } else {
        Err(SchedulerError::UnknownAction)
    }
}

/// What the outcome of the price request comes to: the parts of a sample,
/// or the failure of the fetch or of the parser, each as it is.
pub open spec fn spec_fetch_dot_parse(outcome: FetchOutcome) -> Result<(u64, u32), WorkerError> {
    match spec_fetch_result(outcome) {
        Err(e) => Err(WorkerError::Fetch(e)),
        Ok(body) => match spec_parse_response(body) {
            Ok(parts) => Ok(parts),
            Err(e) => Err(WorkerError::Parse(e)),
        },
    }
}

/// The slot of a block in the table of actions.
pub fn action_index(block_number: u64) -> (index: u32)
    ensures
        index == spec_action_index(block_number),
        index <= TX_TYPES,
        block_number < 0x1_0000_0000 ==> index == block_number % 5,
{
    if block_number <= usize::MAX as u64 {
        let low: u64 = block_number & 0xffff_ffff;
        assert(low == block_number % 0x1_0000_0000) by (bit_vector)
            requires
                low == block_number & 0xffff_ffff,
        ;
        (low % (TX_TYPES as u64)) as u32
    } else {
        TX_TYPES
    }
}

/// The action of a block: the price fetch in slot 4, none in any other.
pub fn select_action(block_number: u64) -> (r: Result<Action, SchedulerError>)
    ensures
        r == spec_action(spec_action_index(block_number)),
        r is Ok <==> spec_action_index(block_number) == FETCH_PRICE_SLOT,
{
    if action_index(block_number) == FETCH_PRICE_SLOT {
        Ok(Action::FetchPrice)
    } else {
        Err(SchedulerError::UnknownAction)
    }
}

/// Whether the block's slot holds the price fetch. A block number that 64
/// bits cannot hold is given as `None`; it is in no slot.
pub open spec fn fetches_price(block_number: Option<u64>) -> bool {
    block_number is Some && spec_action_index(block_number->0) == FETCH_PRICE_SLOT
}

/// The first step, on a new best block: the action to take, or the
/// scheduler's failure where the block's slot holds none. A block number
/// that 64 bits cannot hold is given as `None`, and has no action.
pub fn offchain_worker(block_number: Option<u64>) -> (r: Result<Action, WorkerError>)
    ensures
        fetches_price(block_number) ==> r == Ok::<Action, WorkerError>(Action::FetchPrice),
        !fetches_price(block_number) ==> r == Err::<Action, WorkerError>(
            WorkerError::Scheduler(SchedulerError::UnknownAction),
        ),
{
    let selected = match block_number {
        Some(number) => select_action(number),
        None => Err(SchedulerError::UnknownAction),
    };
    match selected {
        Ok(action) => Ok(action),
        Err(e) => Err(WorkerError::Scheduler(e)),
    }
}

/// The request of the price fetch that starts at `now`, a time in
/// milliseconds: for the price source, as the user agent `ocw`, with 3000
/// milliseconds to answer.
pub fn price_request(now: u64) -> (r: FetchRequest)
    ensures
        r.url == HTTP_COINCAP_URL,
        r.header_name == HTTP_HEADER_NAME,
        r.header_value == HTTP_HEADER_USER_AGENT,
        r.deadline == spec_deadline(now, FETCH_TIMEOUT_PERIOD),
{
    fetch_request(HTTP_COINCAP_URL, HTTP_HEADER_USER_AGENT, now, FETCH_TIMEOUT_PERIOD)
}

/// Reads the outcome of the price request down to the sample. A failure
/// of the fetch stays a failure of the fetch, and a body that gives no
/// sample is a failure of the parser: `Encoding` for a body that is no
/// text, `Malformed` or `NumericFormat` for a text without a price.
pub fn fetch_dot_parse(outcome: FetchOutcome) -> (r: Result<Sample, WorkerError>)
    ensures
        match r {
            Ok(sample) => spec_fetch_dot_parse(outcome) == Ok::<(u64, u32), WorkerError>(sample@),
            Err(e) => spec_fetch_dot_parse(outcome) == Err::<(u64, u32), WorkerError>(e),
        },
{
    let body = match fetch_result(outcome) {
        Ok(body) => body,
        Err(e) => { return Err(WorkerError::Fetch(e)); },
    };
    match parse_response(body.as_slice()) {
        Ok(sample) => Ok(sample),
        Err(e) => Err(WorkerError::Parse(e)),
    }
}

/// The second step, on the outcome of the price request: the message to
/// submit, a price update with the sample that the response holds. No
/// message comes of an outcome that holds none.
pub fn fetch_price_info(outcome: FetchOutcome) -> (r: Result<PendingMessage, WorkerError>)
    ensures
        match r {
            Ok(message) => message is PriceUpdate && spec_fetch_dot_parse(outcome) == Ok::<
                (u64, u32),
                WorkerError,
            >(message->PriceUpdate_0@),
            Err(e) => spec_fetch_dot_parse(outcome) == Err::<(u64, u32), WorkerError>(e),
        },
{
    match fetch_dot_parse(outcome) {
        Ok(sample) => Ok(PendingMessage::PriceUpdate(sample)),
        Err(e) => Err(e),
    }
}

/// Reads the answer of the ledger's submission interface.
pub fn submit_result(accepted: bool) -> (r: Result<(), SubmitError>)
    ensures
        accepted ==> r is Ok,
        !accepted ==> r == Err::<(), SubmitError>(SubmitError::PoolRejected),
{
    if accepted {
        Ok(())
    } else {
        Err(SubmitError::PoolRejected)
    }
}

/// The last step, on the answer to the submission: the worker is done, or
/// has the failure of the submission to report.
pub fn submission_outcome(accepted: bool) -> (r: Result<(), WorkerError>)
    ensures
        accepted ==> r is Ok,
        !accepted ==> r == Err::<(), WorkerError>(WorkerError::Submit(SubmitError::PoolRejected)),
{
    match submit_result(accepted) {
        Ok(()) => Ok(()),
        Err(e) => Err(WorkerError::Submit(e)),
    }
}

/// The ledger's name for a failure of the worker.
pub fn ledger_error(e: WorkerError) -> (r: Error)
    ensures
        r == spec_ledger_error(e),
{
    match e {
        WorkerError::Scheduler(_) => Error::UnknownOffchainMux,
        WorkerError::Fetch(_) => Error::HttpFetchingError,
        WorkerError::Parse(_) => Error::JsonDecodeError,
        WorkerError::Submit(_) => Error::OffchainUnsignedTxError,
    }
}

/// An outcome without a response of status 200 ends the run with the
/// fetcher's own failure: no message is submitted for it.
pub proof fn lemma_no_response_no_submission(outcome: FetchOutcome)
    requires
        spec_fetch_result(outcome) is Err,
    ensures
        spec_fetch_dot_parse(outcome) == Err::<(u64, u32), WorkerError>(
            WorkerError::Fetch(spec_fetch_result(outcome)->Err_0),
        ),
{
}

/// A response of status 200 never ends the run with a failure of the
/// fetch: whatever is wrong with its body is a failure of the parser, and
/// the ledger names the two apart.
pub proof fn lemma_bad_body_is_no_fetch_failure(outcome: FetchOutcome)
    requires
        spec_fetch_result(outcome) is Ok,
        spec_fetch_dot_parse(outcome) is Err,
    ensures
        spec_fetch_dot_parse(outcome) == Err::<(u64, u32), WorkerError>(
            WorkerError::Parse(spec_parse_response(spec_fetch_result(outcome)->Ok_0)->Err_0),
        ),
        spec_ledger_error(spec_fetch_dot_parse(outcome)->Err_0) == Error::JsonDecodeError,
{
}

} // verus!
