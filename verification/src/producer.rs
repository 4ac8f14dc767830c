//! The producer stage: what it makes of each block, and the order of its
//! steps within a polling cycle.

use vstd::prelude::*;
use crate::block::{Block, BlockView};
use crate::collector::{blocks_view, coinbase_from, coinbase_tx_id_from};
use crate::hex_text::{decode_hex, hex_bytes, is_hex_text};
use crate::message::{message_of, BlockAnalyticsMessage, MessageView};
use crate::script_sig::{decode, ParsedScriptSig};
use crate::transaction::{first_input_is_coinbase, texts_view, Transaction, TransactionView};

verus! {

/// Why a block yields no record.
#[derive(Debug, Clone, Copy, PartialEq, Eq)]
pub enum SkipReason {
    /// The coinbase transaction has no input.
    NoInput,
    /// The script of the first input is not hexadecimal text.
    InvalidHex,
    /// The script of the first input does not decode.
    UndecodableScript,
}

/// What the producer makes of `block` and its coinbase transaction `tx`: the
/// record, with the miner tag decoded from the script of the first input, or
/// the reason why there is none.
pub open spec fn analysis_of(block: BlockView, tx: TransactionView) -> Result<MessageView, SkipReason> {
    if tx.vin.len() == 0 {
        Err(SkipReason::NoInput)
    } else if !is_hex_text(tx.vin[0].scriptsig) {
        Err(SkipReason::InvalidHex)
    } else {
        match decode(hex_bytes(tx.vin[0].scriptsig)) {
            Some(parsed) => Ok(message_of(block, tx, parsed.guessed_miner)),
            None => Err(SkipReason::UndecodableScript),
        }
    }
}

/// The record of `block`, whose coinbase transaction is `coinbase`, or the
/// reason why the block is skipped.
pub fn analyze_block(block: &Block, coinbase: &Transaction) -> (analysis: Result<
    BlockAnalyticsMessage,
    SkipReason,
>)
    ensures
        analysis is Ok <==> analysis_of(block@, coinbase@) is Ok,
        analysis is Ok ==> analysis->Ok_0@ == analysis_of(block@, coinbase@)->Ok_0,
        analysis is Err ==> analysis->Err_0 == analysis_of(block@, coinbase@)->Err_0,
{
    if coinbase.get_vin_by_id(0).is_none() {
        return Err(SkipReason::NoInput);
    }
    let script_sig = coinbase.get_vin_scriptsig();
    let bytes = match decode_hex(script_sig) {
        Some(bytes) => bytes,
        None => {
            return Err(SkipReason::InvalidHex);
        },
    };
    match ParsedScriptSig::from(bytes.as_slice()) {
        Some(parsed) => Ok(BlockAnalyticsMessage::build(block, coinbase, parsed.guessed_miner)),
        None => Err(SkipReason::UndecodableScript),
    }
}

/// What the poll loop waits for.
#[derive(Debug, Clone, Copy, PartialEq, Eq)]
pub enum Phase {
    /// The next tick of the interval.
    Idle,
    /// The list of the latest blocks.
    FetchingBlocks,
    /// The ids of the transactions of the block in hand.
    FetchingTxids,
    /// The coinbase transaction of the block in hand.
    FetchingCoinbase,
    /// The queue taking the record of the block in hand.
    Enqueueing,
}

/// What happened outside.
#[derive(Debug)]
pub enum PollEvent {
    Tick,
    Blocks(Vec<Block>),
    Txids(Vec<String>),
    Coinbase(Transaction),
    Enqueued,
    /// What was asked for could not be had.
    Failed,
}

/// What to do outside.
#[derive(Debug)]
pub enum PollAction {
    /// Wait for the next tick.
    Wait,
    FetchBlocks,
    /// Fetch the ids of the transactions of the block of this hash.
    FetchTxids(String),
    /// Fetch the transaction of this id.
    FetchCoinbase(String),
    Enqueue(BlockAnalyticsMessage),
    /// The event was not waited for: go on waiting for the one that is.
    Ignore,
}

/// An event as plain values.
pub ghost enum PollEventView {
    Tick,
    Blocks(Seq<BlockView>),
    Txids(Seq<Seq<char>>),
    Coinbase(TransactionView),
    Enqueued,
    Failed,
}

/// An action as plain values.
pub ghost enum PollActionView {
    Wait,
    FetchBlocks,
    FetchTxids(Seq<char>),
    FetchCoinbase(Seq<char>),
    Enqueue(MessageView),
    Ignore,
}

impl View for PollEvent {
    type V = PollEventView;

    open spec fn view(&self) -> PollEventView {
        match self {
            PollEvent::Tick => PollEventView::Tick,
            PollEvent::Blocks(blocks) => PollEventView::Blocks(blocks_view(blocks@)),
            PollEvent::Txids(txids) => PollEventView::Txids(texts_view(txids@)),
            PollEvent::Coinbase(tx) => PollEventView::Coinbase(tx@),
            PollEvent::Enqueued => PollEventView::Enqueued,
            PollEvent::Failed => PollEventView::Failed,
        }
    }
}

impl View for PollAction {
    type V = PollActionView;

    open spec fn view(&self) -> PollActionView {
        match self {
            PollAction::Wait => PollActionView::Wait,
            PollAction::FetchBlocks => PollActionView::FetchBlocks,
            PollAction::FetchTxids(hash) => PollActionView::FetchTxids(hash@),
            PollAction::FetchCoinbase(txid) => PollActionView::FetchCoinbase(txid@),
            PollAction::Enqueue(message) => PollActionView::Enqueue(message@),
            PollAction::Ignore => PollActionView::Ignore,
        }
    }
}

/// A polling cycle as plain values: the blocks of the cycle, how many of
/// them are done with, and what is waited for.
pub ghost struct PollCycleView {
    pub blocks: Seq<BlockView>,
    pub next: nat,
    pub phase: Phase,
}

/// Whether a block is in hand in `phase`.
pub open spec fn in_block(phase: Phase) -> bool {
    phase is FetchingTxids || phase is FetchingCoinbase || phase is Enqueueing
}

/// Whether a cycle is in order: while a block is in hand, it is one of the
/// blocks of the cycle.
pub open spec fn cycle_ok(cycle: PollCycleView) -> bool {
    in_block(cycle.phase) ==> cycle.next < cycle.blocks.len()
}

/// Taking block `next` of `blocks` in hand, or the end of the cycle where
/// no block is left.
pub open spec fn begin_block(blocks: Seq<BlockView>, next: nat) -> (PollCycleView, PollActionView) {
    if next < blocks.len() {
        (
            PollCycleView { blocks, next, phase: Phase::FetchingTxids },
            PollActionView::FetchTxids(blocks[next as int].id),
        )
    } else {
        (PollCycleView { blocks, next, phase: Phase::Idle }, PollActionView::Wait)
    }
}

/// Leaving the block in hand for the one after it.
pub open spec fn next_block(cycle: PollCycleView) -> (PollCycleView, PollActionView) {
    begin_block(cycle.blocks, cycle.next + 1)
}

/// The cycle after `event`, and what to do. A tick starts a cycle with the
/// fetching of the blocks. Each block is asked for its transaction ids, then
/// for the first of its transactions, which is made into a record and
/// enqueued; whatever fails on the way leaves that block for the next one.
/// After the last block the loop waits for the next tick.
pub open spec fn poll_transition(cycle: PollCycleView, event: PollEventView) -> (
    PollCycleView,
    PollActionView,
) {
    match (cycle.phase, event) {
        (Phase::Idle, PollEventView::Tick) => (
            PollCycleView { phase: Phase::FetchingBlocks, ..cycle },
            PollActionView::FetchBlocks,
        ),
        (Phase::FetchingBlocks, PollEventView::Blocks(blocks)) => begin_block(blocks, 0),
        (Phase::FetchingBlocks, PollEventView::Failed) => (
            PollCycleView { phase: Phase::Idle, ..cycle },
            PollActionView::Wait,
        ),
        (Phase::FetchingTxids, PollEventView::Txids(txids)) => if txids.len() > 0 {
            (
                PollCycleView { phase: Phase::FetchingCoinbase, ..cycle },
                PollActionView::FetchCoinbase(txids[0]),
            )
        } else {
            next_block(cycle)
        },
        (Phase::FetchingTxids, PollEventView::Failed) => next_block(cycle),
        (Phase::FetchingCoinbase, PollEventView::Coinbase(tx)) => if first_input_is_coinbase(tx.vin)
            && analysis_of(cycle.blocks[cycle.next as int], tx) is Ok {
            (
                PollCycleView { phase: Phase::Enqueueing, ..cycle },
                PollActionView::Enqueue(analysis_of(cycle.blocks[cycle.next as int], tx)->Ok_0),
            )
        } else {
            next_block(cycle)
        },
        (Phase::FetchingCoinbase, PollEventView::Failed) => next_block(cycle),
        (Phase::Enqueueing, PollEventView::Enqueued) => next_block(cycle),
        (Phase::Enqueueing, PollEventView::Failed) => next_block(cycle),
        _ => (cycle, PollActionView::Ignore),
    }
}

/// The poll loop of the producer between two events.
pub struct PollCycle {
    blocks: Vec<Block>,
    next: usize,
    phase: Phase,
}

impl View for PollCycle {
    type V = PollCycleView;

    closed spec fn view(&self) -> PollCycleView {
        PollCycleView { blocks: blocks_view(self.blocks@), next: self.next as nat, phase: self.phase }
    }
}

impl PollCycle {
    #[verifier::type_invariant]
    spec fn in_order(&self) -> bool {
        cycle_ok(self@)
    }

    /// A loop that waits for its first tick.
    pub fn new() -> (cycle: PollCycle)
        ensures
            cycle@ == (PollCycleView { blocks: Seq::empty(), next: 0, phase: Phase::Idle }),
    {
        let cycle = PollCycle { blocks: Vec::new(), next: 0, phase: Phase::Idle };
        assert(blocks_view(cycle.blocks@) =~= Seq::empty());
        cycle
    }

    pub fn phase(&self) -> (phase: Phase)
        ensures
            phase == self@.phase,
    {
        self.phase
    }

    fn begin(blocks: Vec<Block>, next: usize) -> (step: (PollCycle, PollAction))
        ensures
            (step.0@, step.1@) == begin_block(blocks_view(blocks@), next as nat),
    {
        if next < blocks.len() {
            let hash = blocks[next].get_id();
            (PollCycle { blocks, next, phase: Phase::FetchingTxids }, PollAction::FetchTxids(hash))
        } else {
            (PollCycle { blocks, next, phase: Phase::Idle }, PollAction::Wait)
        }
    }

    fn skip(self) -> (step: (PollCycle, PollAction))
        requires
            in_block(self@.phase),
        ensures
            (step.0@, step.1@) == next_block(self@),
    {
        proof {
            use_type_invariant(&self);
        }
        let len: usize = self.blocks.len();
        assert(self.next < len);
        let following: usize = self.next + 1;
        PollCycle::begin(self.blocks, following)
    }

    /// Takes the loop one event on.
    pub fn on_event(self, event: PollEvent) -> (step: (PollCycle, PollAction))
        ensures
            (step.0@, step.1@) == poll_transition(self@, event@),
    {
        proof {
            use_type_invariant(&self);
        }
        match (self.phase, event) {
            (Phase::Idle, PollEvent::Tick) => (
                PollCycle { blocks: self.blocks, next: self.next, phase: Phase::FetchingBlocks },
                PollAction::FetchBlocks,
            ),
            (Phase::FetchingBlocks, PollEvent::Blocks(blocks)) => PollCycle::begin(blocks, 0),
            (Phase::FetchingBlocks, PollEvent::Failed) => (
                PollCycle { blocks: self.blocks, next: self.next, phase: Phase::Idle },
                PollAction::Wait,
            ),
            (Phase::FetchingTxids, PollEvent::Txids(txids)) => match coinbase_tx_id_from(&txids) {
                Ok(txid) => (
                    PollCycle {
                        blocks: self.blocks,
                        next: self.next,
                        phase: Phase::FetchingCoinbase,
                    },
                    PollAction::FetchCoinbase(txid),
                ),
                Err(_) => self.skip(),
            },
            (Phase::FetchingTxids, PollEvent::Failed) => self.skip(),
            (Phase::FetchingCoinbase, PollEvent::Coinbase(tx)) => match coinbase_from(tx) {
                Ok(coinbase) => match analyze_block(&self.blocks[self.next], &coinbase) {
                    Ok(message) => (
                        PollCycle {
                            blocks: self.blocks,
                            next: self.next,
                            phase: Phase::Enqueueing,
                        },
                        PollAction::Enqueue(message),
                    ),
                    Err(_) => self.skip(),
                },
                Err(_) => self.skip(),
            },
            (Phase::FetchingCoinbase, PollEvent::Failed) => self.skip(),
            (Phase::Enqueueing, PollEvent::Enqueued) => self.skip(),
            (Phase::Enqueueing, PollEvent::Failed) => self.skip(),
            _ => (self, PollAction::Ignore),
        }
    }
}

/// How many events a cycle can still take before it is over: three for each
/// block that is left, less what has been done for the block in hand.
pub open spec fn events_left(cycle: PollCycleView) -> int {
    if in_block(cycle.phase) {
        3 * (cycle.blocks.len() - cycle.next) - match cycle.phase {
            Phase::FetchingCoinbase => 1int,
            Phase::Enqueueing => 2int,
            _ => 0int,
        }
    } else {
        0
    }
}

/// A step keeps the cycle in order.
pub proof fn lemma_transition_keeps_order(cycle: PollCycleView, event: PollEventView)
    requires
        cycle_ok(cycle),
    ensures
        cycle_ok(poll_transition(cycle, event).0),
{
}

/// A failure while a block is in hand costs that block and nothing more:
/// the loop goes on with the next block, or waits for the next tick after
/// the last.
pub proof fn lemma_failure_skips_one_block(cycle: PollCycleView)
    requires
        cycle_ok(cycle),
        in_block(cycle.phase),
    ensures
        ({
            let after = poll_transition(cycle, PollEventView::Failed).0;
            &&& after.blocks == cycle.blocks
            &&& after.next == cycle.next + 1
            &&& after.phase == if cycle.next + 1 < cycle.blocks.len() {
                Phase::FetchingTxids
            } else {
                Phase::Idle
            }
        }),
{
}

/// While a block is in hand, every event that is not ignored brings the end
/// of the cycle nearer, and no event takes the loop back to a block that is
/// done with.
pub proof fn lemma_cycle_ends(cycle: PollCycleView, event: PollEventView)
    requires
        cycle_ok(cycle),
        in_block(cycle.phase),
    ensures
        ({
            let step = poll_transition(cycle, event);
            &&& step.0.blocks == cycle.blocks
            &&& step.0.next >= cycle.next
            &&& !(step.1 is Ignore) ==> 0 <= events_left(step.0) < events_left(cycle)
        }),
{
}

} // verus!
