//! The batching stage of the producer: records wait until a batch is full,
//! and a batch is published whole or not at all.

use vstd::prelude::*;
use crate::message::{messages_view, BlockAnalyticsMessage, MessageView};

verus! {

/// Number of records in a batch.
pub const BATCH_SIZE: usize = 10;

/// Number of records that a queue between two stages holds at most.
pub const QUEUE_CAPACITY: usize = 1000;

/// How the broker answered the publishing of a batch.
#[derive(Debug)]
pub enum PublishOutcome {
    Accepted,
    BrokerError(String),
}

/// What became of a batch: how many of its records are on the stream and how
/// many are lost. Nothing is kept for a second attempt.
#[derive(Debug, Clone, Copy, PartialEq, Eq)]
pub struct BatchReport {
    pub published: usize,
    pub dropped: usize,
}

/// The report on a batch of `len` records that the broker answered with
/// `accepted` or with an error: all of the batch or none of it.
pub open spec fn report_of(len: nat, accepted: bool) -> (nat, nat) {
    if accepted {
        (len, 0)
    } else {
        (0, len)
    }
}

/// The records that wait for their batch to fill: always fewer than a batch.
pub struct Batcher {
    pending: Vec<BlockAnalyticsMessage>,
}

impl View for Batcher {
    type V = Seq<MessageView>;

    closed spec fn view(&self) -> Seq<MessageView> {
        messages_view(self.pending@)
    }
}

impl Batcher {
    #[verifier::type_invariant]
    spec fn below_batch_size(&self) -> bool {
        self.pending@.len() < BATCH_SIZE
    }

    pub fn new() -> (batcher: Batcher)
        ensures
            batcher@.len() == 0,
    {
        Batcher { pending: Vec::new() }
    }

    /// Number of records that wait.
    pub fn pending_len(&self) -> (len: usize)
        ensures
            len == self@.len(),
            len < BATCH_SIZE,
    {
        proof {
            use_type_invariant(self);
        }
        self.pending.len()
    }

    /// Takes one record in. Where it fills the batch, the whole batch is
    /// handed out in the order of arrival and nothing waits any more.
    pub fn push(self, message: BlockAnalyticsMessage) -> (next: (Batcher, Option<Vec<BlockAnalyticsMessage>>))
        ensures
            self@.len() + 1 < BATCH_SIZE ==> next.1 is None && next.0@ == self@.push(message@),
            self@.len() + 1 == BATCH_SIZE ==> next.1 is Some && next.0@.len() == 0 && messages_view(
                next.1->0@,
            ) == self@.push(message@),
            self@.len() < BATCH_SIZE,
    {
        proof {
            use_type_invariant(&self);
        }
        let ghost before = self.pending@;
        let mut pending = self.pending;
        pending.push(message);
        assert(messages_view(pending@) =~= messages_view(before).push(message@));
        if pending.len() >= BATCH_SIZE {
            (Batcher { pending: Vec::new() }, Some(pending))
        } else {
            (Batcher { pending }, None)
        }
    }
}

/// What became of `batch` after the broker answered with `outcome`.
pub fn settle_batch(batch: &Vec<BlockAnalyticsMessage>, outcome: &PublishOutcome) -> (report:
    BatchReport)
    ensures
        (report.published as nat, report.dropped as nat) == report_of(
            batch@.len(),
            outcome is Accepted,
        ),
{
    match outcome {
        PublishOutcome::Accepted => BatchReport { published: batch.len(), dropped: 0 },
        PublishOutcome::BrokerError(_) => BatchReport { published: 0, dropped: batch.len() },
    }
}

/// A batch is published whole or lost whole: no record of it is on the
/// stream where the broker refused it, and every record is accounted for.
pub proof fn lemma_batch_is_atomic(len: nat, accepted: bool)
    ensures
        report_of(len, accepted).0 + report_of(len, accepted).1 == len,
        report_of(len, accepted).0 == len || report_of(len, accepted).0 == 0,
        !accepted ==> report_of(len, accepted).0 == 0,
{
}

} // verus!
