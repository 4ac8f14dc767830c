//! The consumer stage: what it does with each delivery of the stream.

use vstd::prelude::*;
use crate::message::BlockAnalyticsMessage;

verus! {

/// Why a delivery holds no record.
#[derive(Debug, Clone, Copy, PartialEq, Eq)]
pub enum DecodeFailure {
    /// The delivery has no body.
    NoData,
    /// The body is not text.
    NotText,
    /// The text is not a record.
    NotARecord,
}

/// What to do with a delivery.
#[derive(Debug)]
pub enum ConsumerAction {
    /// Hand the record on to the persistence worker.
    Forward(BlockAnalyticsMessage),
    /// Go on with the next delivery, after reporting this one or in silence.
    Skip { report: bool },
}

/// Whether a failure is worth a report: a body that does not decode into a
/// record is, be it no text at all or text that is no record. A delivery
/// without a body is passed over in silence.
pub open spec fn is_reported(failure: DecodeFailure) -> bool {
    failure is NotText || failure is NotARecord
}

/// What to do with a delivery that was decoded into a record, or could not
/// be. No delivery holds the stream up: a record is handed on, anything else
/// is skipped.
pub fn on_delivery(decoded: Result<BlockAnalyticsMessage, DecodeFailure>) -> (action: ConsumerAction)
    ensures
        match decoded {
            Ok(message) => action == ConsumerAction::Forward(message),
            Err(failure) => action == (ConsumerAction::Skip { report: is_reported(failure) }),
        },
{
    match decoded {
        Ok(message) => ConsumerAction::Forward(message),
        Err(failure) => match failure {
            DecodeFailure::NoData => ConsumerAction::Skip { report: false },
            DecodeFailure::NotText => ConsumerAction::Skip { report: true },
            DecodeFailure::NotARecord => ConsumerAction::Skip { report: true },
        },
    }
}

} // verus!
