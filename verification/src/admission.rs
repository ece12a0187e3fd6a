//! The admission validator: which unsigned messages may wait in the pending
//! pool, and on what terms.

use crate::sample::{Sample, PARTS_PER_MILLION};
use vstd::prelude::*;
use vstd::string::{StrSliceExecFns, StringSliceAdditionalSpecFns};

verus! {

/// The priority of every admitted message.
pub const UNSIGNED_TXS_PRIORITY: u64 = 100;

/// For how many blocks an admitted message stays in the pool.
pub const LONGEVITY: u64 = 3;

/// The text whose bytes are the tag of every price update.
pub const DEDUP_TAG: &'static str = "submit_price_unsigned";

/// An unsigned message that asks for a place in the pending pool.
#[derive(Clone, Copy, Debug, PartialEq, Eq)]
pub enum PendingMessage {
    /// A price update: the call `submit_price_unsigned` with its sample.
    PriceUpdate(Sample),
    /// Another call of the oracle; it takes none of them unsigned.
    OtherCall,
    /// A message that is no call of the oracle.
    Foreign,
}

/// The terms on which a message is admitted.
#[derive(Clone, Debug, PartialEq, Eq)]
pub struct AdmissionDecision {
    /// The rank of the message among those that wait.
    pub priority: u64,
    /// The pool keeps one message of a tag at a time.
    pub dedup_tag: Vec<u8>,
    /// The number of blocks after which the pool drops the message.
    pub longevity: u64,
    /// Whether the message is passed on to peers.
    pub propagate: bool,
}

/// The terms of an admission, with the tag as a sequence of bytes.
pub struct Admission {
    pub priority: u64,
    pub dedup_tag: Seq<u8>,
    pub longevity: u64,
    pub propagate: bool,
}

impl View for AdmissionDecision {
    type V = Admission;

    open spec fn view(&self) -> Admission {
        Admission {
            priority: self.priority,
            dedup_tag: self.dedup_tag@,
            longevity: self.longevity,
            propagate: self.propagate,
        }
    }
}

/// Why a message was turned away.
#[derive(Clone, Copy, Debug, PartialEq, Eq, Structural)]
pub enum Rejected {
    /// The message is a call of the oracle, but not one that it takes
    /// unsigned, or it is the price update with a fraction that is no
    /// fraction.
    UnsupportedCall,
    /// The message is no call of the oracle, and an unsigned message that no
    /// rule admits is refused.
    Unauthorized,
}

/// The terms that every price update is admitted on, whatever it carries.
pub open spec fn price_update_admission() -> Admission {
    Admission {
        priority: UNSIGNED_TXS_PRIORITY,
        dedup_tag: DEDUP_TAG.spec_bytes(),
        longevity: LONGEVITY,
        propagate: true,
    }
}

/// The verdict on a message.
pub open spec fn spec_validate(message: PendingMessage) -> Result<Admission, Rejected> {
    match message {
        PendingMessage::PriceUpdate(_) => Ok(price_update_admission()),
        PendingMessage::OtherCall => Err(Rejected::UnsupportedCall),
        PendingMessage::Foreign => Err(Rejected::Unauthorized),
    }
}

/// The message that the call `submit_price_unsigned` is, with the price
/// `value + fraction / 1_000_000`. A fraction that is not below one million
/// makes no price update: the call is refused as an `UnsupportedCall`.
pub fn price_update(value: u64, fraction: u32) -> (r: Result<PendingMessage, Rejected>)
    ensures
        fraction < PARTS_PER_MILLION ==> r is Ok && r->Ok_0 is PriceUpdate
            && r->Ok_0->PriceUpdate_0@ == (value, fraction),
        fraction >= PARTS_PER_MILLION ==> r == Err::<PendingMessage, Rejected>(
            Rejected::UnsupportedCall,
        ),
{
    match Sample::new(value, fraction) {
        Some(sample) => Ok(PendingMessage::PriceUpdate(sample)),
        None => Err(Rejected::UnsupportedCall),
    }
}

/// Decides whether a message may enter the pending pool.
///
/// A price update is admitted with priority 100, the tag
/// `submit_price_unsigned`, a longevity of 3 blocks, and is propagated.
/// Another call of the oracle is an `UnsupportedCall`; a message that is no
/// call of the oracle is `Unauthorized`.
pub fn validate(message: &PendingMessage) -> (r: Result<AdmissionDecision, Rejected>)
    ensures
        match r {
            Ok(decision) => spec_validate(*message) == Ok::<Admission, Rejected>(decision@),
            Err(e) => spec_validate(*message) == Err::<Admission, Rejected>(e),
        },
{
    match message {
        PendingMessage::PriceUpdate(_) => Ok(
            AdmissionDecision {
                priority: UNSIGNED_TXS_PRIORITY,
                dedup_tag: DEDUP_TAG.as_bytes_vec(),
                longevity: LONGEVITY,
                propagate: true,
            },
        ),
        PendingMessage::OtherCall => Err(Rejected::UnsupportedCall),
        PendingMessage::Foreign => Err(Rejected::Unauthorized),
    }
}

/// Any two price updates are admitted, and on the same terms: above all
/// with the same tag, so that the pool keeps one of them at a time.
pub proof fn lemma_price_updates_share_tag(a: Sample, b: Sample)
    ensures
        spec_validate(PendingMessage::PriceUpdate(a)) is Ok,
        spec_validate(PendingMessage::PriceUpdate(b)) is Ok,
        spec_validate(PendingMessage::PriceUpdate(a))->Ok_0.dedup_tag == spec_validate(
            PendingMessage::PriceUpdate(b),
        )->Ok_0.dedup_tag,
        spec_validate(PendingMessage::PriceUpdate(a)) == spec_validate(
            PendingMessage::PriceUpdate(b),
        ),
{
}

/// A message is admitted only if it is a price update; every other message
/// is rejected, and so has no priority.
pub proof fn lemma_only_price_updates_admitted(message: PendingMessage)
    ensures
        spec_validate(message) is Ok <==> message is PriceUpdate,
        !(message is PriceUpdate) ==> spec_validate(message) == Err::<Admission, Rejected>(
            Rejected::UnsupportedCall,
        ) || spec_validate(message) == Err::<Admission, Rejected>(Rejected::Unauthorized),
{
}

} // verus!
