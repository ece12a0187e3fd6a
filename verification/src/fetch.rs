//! The remote fetcher, without the network: what is asked of the host, and
//! how its answer is read.

use vstd::prelude::*;

verus! {

/// Where the price is fetched from.
pub const HTTP_COINCAP_URL: &'static str = "https://api.coincap.io/v2/assets/polkadot";

/// The name of the header that every request carries.
pub const HTTP_HEADER_NAME: &'static str = "User-Agent";

/// The user agent that the oracle names in that header.
pub const HTTP_HEADER_USER_AGENT: &'static str = "ocw";

/// How long a fetch may take, in milliseconds.
pub const FETCH_TIMEOUT_PERIOD: u64 = 3000;

/// The one status that is a success.
pub const HTTP_OK: u16 = 200;

/// Why a fetch gave no body.
#[derive(Clone, Copy, Debug, PartialEq, Eq, Structural)]
pub enum FetchError {
    /// The deadline passed before the response was there.
    Timeout,
    /// The transport failed.
    TransportError,
    /// The response came with another status than 200.
    BadStatus(u16),
}

/// One GET request, for the host to send.
#[derive(Clone, Copy, Debug, PartialEq, Eq)]
pub struct FetchRequest {
    pub url: &'static str,
    pub header_name: &'static str,
    pub header_value: &'static str,
    /// The time in milliseconds at which the host gives up.
    pub deadline: u64,
}

/// What the host reports of a request.
#[derive(Clone, Debug, PartialEq, Eq)]
pub enum FetchOutcome {
    /// The deadline passed.
    DeadlineReached,
    /// The request could not be sent, or the connection failed.
    Failed,
    /// A response came.
    Response { status: u16, body: Vec<u8> },
}

/// The deadline of a fetch that starts at `now`: `timeout` milliseconds
/// later, or the end of time where that is sooner.
pub open spec fn spec_deadline(now: u64, timeout: u64) -> u64 {
    if now + timeout <= u64::MAX {
        (now + timeout) as u64
    } else {
        u64::MAX
    }
}

/// What a fetch returns for an outcome: the body of a response with status
/// 200, and an error for everything else.
pub open spec fn spec_fetch_result(outcome: FetchOutcome) -> Result<Seq<u8>, FetchError> {
    match outcome {
        FetchOutcome::DeadlineReached => Err(FetchError::Timeout),
        FetchOutcome::Failed => Err(FetchError::TransportError),
        FetchOutcome::Response { status, body } => if status == HTTP_OK {
            Ok(body@)
        } else {
            Err(FetchError::BadStatus(status))
        },
    }
}

/// The request for `url` that starts at `now`, a time in milliseconds: one
/// GET that names `user_agent` in its header and has its deadline `timeout`
/// milliseconds on.
pub fn fetch_request(
    url: &'static str,
    user_agent: &'static str,
    now: u64,
    timeout: u64,
) -> (r: FetchRequest)
    ensures
        r.url == url,
        r.header_name == HTTP_HEADER_NAME,
        r.header_value == user_agent,
        r.deadline == spec_deadline(now, timeout),
{
    FetchRequest {
        url,
        header_name: HTTP_HEADER_NAME,
        header_value: user_agent,
        deadline: now.saturating_add(timeout),
    }
}

/// Reads the outcome of a request: the body, where the response has status
/// 200; `Timeout`, where the deadline passed; `TransportError`, where the
/// transport failed; `BadStatus`, where the response has another status.
pub fn fetch_result(outcome: FetchOutcome) -> (r: Result<Vec<u8>, FetchError>)
    ensures
        match r {
            Ok(body) => spec_fetch_result(outcome) == Ok::<Seq<u8>, FetchError>(body@),
            Err(e) => spec_fetch_result(outcome) == Err::<Seq<u8>, FetchError>(e),
        },
{
    match outcome {
        FetchOutcome::DeadlineReached => Err(FetchError::Timeout),
        FetchOutcome::Failed => Err(FetchError::TransportError),
        FetchOutcome::Response { status, body } => if status == HTTP_OK {
            Ok(body)
        } else {
            Err(FetchError::BadStatus(status))
        },
    }
}

} // verus!
