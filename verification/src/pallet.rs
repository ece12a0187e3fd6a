//! The ledger's side of the oracle: the state that consensus execution owns,
//! and the one call that changes it.

use crate::history::{all_in_range, appended, last_window, History};
use crate::sample::{Sample, PARTS_PER_MILLION};
use vstd::prelude::*;

verus! {

/// Who sent a call.
#[derive(Clone, Copy, Debug, PartialEq, Eq)]
pub enum Origin<AccountId> {
    /// The ledger itself.
    Root,
    /// An account, which signed the call.
    Signed(AccountId),
    /// Nobody: the call came unsigned.
    Unsigned,
}

/// Why a call was not carried out.
#[derive(Clone, Copy, Debug, PartialEq, Eq, Structural)]
pub enum DispatchError {
    /// The call is not open to its sender.
    BadOrigin,
    /// The fraction of the price is not below one whole. The validator
    /// admits no such price, so no admitted message fails this way.
    FractionOutOfRange,
    /// What was stored as the history is not a history.
    Corruption,
}

/// What the oracle tells the outside of a change to its state.
#[derive(Clone, Copy, Debug, PartialEq, Eq)]
pub enum Event<AccountId> {
    /// A number was recorded. No call of the oracle emits this yet.
    NewNumber(Option<AccountId>, u64),
    /// A price was recorded: its submitter, if it has one, then the value
    /// and the fraction of the sample.
    UpdatePrice(Option<AccountId>, u64, u32),
}

/// The failures of the oracle, as the ledger names them.
#[derive(Clone, Copy, Debug, PartialEq, Eq, Structural)]
pub enum Error {
    /// The worker found no action for the block.
    UnknownOffchainMux,
    /// No local account to sign with. No action of the worker signs yet.
    NoLocalAcctForSigning,
    /// A signed submission failed. No action of the worker signs yet.
    OffchainSignedTxError,
    /// The pending pool did not take an unsigned submission.
    OffchainUnsignedTxError,
    /// An unsigned submission with a signed payload failed. No action of the
    /// worker makes one yet.
    OffchainUnsignedTxSignedPayloadError,
    /// The fetch gave no body.
    HttpFetchingError,
    /// The body of the response gave no price.
    JsonDecodeError,
}

/// What the call `submit_price_unsigned` makes of a history: the history
/// with the price appended, where the call came unsigned with a fraction
/// below one whole, and else the reason why nothing changes.
pub open spec fn spec_submit_price_unsigned<AccountId>(
    prices: Seq<(u64, u32)>,
    origin: Origin<AccountId>,
    a: u64,
    b: u32,
) -> Result<Seq<(u64, u32)>, DispatchError> {
    if !(origin is Unsigned) {
        Err(DispatchError::BadOrigin)
    } else if b >= PARTS_PER_MILLION {
        Err(DispatchError::FractionOutOfRange)
    } else {
        Ok(appended(prices, (a, b)))
    }
}

/// The state of the oracle on the ledger: the history of prices.
pub struct Pallet {
    prices: History,
}

impl View for Pallet {
    type V = Seq<(u64, u32)>;

    closed spec fn view(&self) -> Seq<(u64, u32)> {
        self.prices@
    }
}

impl Pallet {
    /// The state at genesis: no price yet.
    pub fn new() -> (r: Pallet)
        ensures
            r@ == Seq::<(u64, u32)>::empty(),
    {
        Pallet { prices: History::new() }
    }

    /// The state that was stored as the given pairs of value and fraction,
    /// oldest first. Pairs of which one is not the parts of a sample are a
    /// `Corruption`.
    pub fn restore(stored: &[(u64, u32)]) -> (r: Result<Pallet, DispatchError>)
        ensures
            all_in_range(stored@) ==> r is Ok && r->Ok_0@ == last_window(stored@),
            !all_in_range(stored@) ==> r is Err && r->Err_0 == DispatchError::Corruption,
    {
        match History::restore(stored) {
            Some(prices) => Ok(Pallet { prices }),
            None => Err(DispatchError::Corruption),
        }
    }

    /// The history of prices.
    pub fn prices(&self) -> (r: &History)
        ensures
            r@ == self@,
    {
        &self.prices
    }

    /// Records the price `a + b / 1_000_000` that came unsigned, and tells of
    /// it.
    ///
    /// From another origin than `Unsigned` the call is a `BadOrigin`. A
    /// fraction that is not below one million is `FractionOutOfRange`. Either
    /// way nothing changes. Else the price is appended to the history, and
    /// the event `UpdatePrice` comes back with no submitter and the parts of
    /// the price.
    pub fn submit_price_unsigned<AccountId>(
        &mut self,
        origin: Origin<AccountId>,
        a: u64,
        b: u32,
    ) -> (r: Result<Event<AccountId>, DispatchError>)
        ensures
            match r {
                Ok(event) => spec_submit_price_unsigned(old(self)@, origin, a, b) == Ok::<
                    Seq<(u64, u32)>,
                    DispatchError,
                >(final(self)@) && event == Event::<AccountId>::UpdatePrice(None, a, b),
                Err(e) => spec_submit_price_unsigned(old(self)@, origin, a, b) == Err::<
                    Seq<(u64, u32)>,
                    DispatchError,
                >(e) && final(self)@ == old(self)@,
            },
    {
        match origin {
            Origin::Unsigned => {},
            _ => { return Err(DispatchError::BadOrigin); },
        }
        match Sample::new(a, b) {
            Some(sample) => {
                self.prices.append(sample);
                Ok(Event::UpdatePrice(None, a, b))
            },
            None => Err(DispatchError::FractionOutOfRange),
        }
    }
}

} // verus!
