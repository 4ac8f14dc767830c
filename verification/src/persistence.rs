//! The consumer's persistence: the rows that a record becomes, the steps of
//! saving them in one database transaction, and a store in memory that
//! treats a second delivery as the database does.

use vstd::prelude::*;
use vstd::string::StringExecFns;
use crate::message::{BlockAnalyticsMessage, MessageView};
use crate::transaction::text_view;

verus! {

/// Whether `chrono::DateTime::from_timestamp` accepts `secs` seconds since
/// the epoch, with no nanoseconds, as a point in time.
pub uninterp spec fn chrono_accepts(secs: i64) -> bool;

/// Asks `chrono::DateTime::from_timestamp` whether `secs` seconds since the
/// epoch are a point in time that it can hold. The answer is the one that
/// `chrono_accepts` names.
#[verifier::external_body]
fn timestamp_in_range(secs: i64) -> (valid: bool)
    ensures
        valid == chrono_accepts(secs),
{
    chrono::DateTime::from_timestamp(secs, 0).is_some()
}

/// `value` read as a signed number of the same 64 bits.
pub open spec fn reinterpret_signed(value: u64) -> i64 {
    if value <= i64::MAX as u64 {
        value as i64
    } else {
        (value - 0x1_0000_0000_0000_0000) as i64
    }
}

/// `value` as a signed number of the same 64 bits.
pub fn to_signed(value: u64) -> (signed: i64)
    ensures
        signed == reinterpret_signed(value),
{
    assert(value as i64 == if value <= 0x7fff_ffff_ffff_ffffu64 {
        value as int
    } else {
        value as int - 0x1_0000_0000_0000_0000
    }) by (bit_vector);
    value as i64
}

/// The row of a block as plain values. The time holds seconds since the
/// epoch.
pub ghost struct BlockRecordView {
    pub hash: Seq<char>,
    pub height: i64,
    pub timestamp: i64,
    pub transactions_count: i64,
}

/// The row of a coinbase transaction as plain values.
pub ghost struct TransactionRecordView {
    pub txid: Seq<char>,
    pub block_hash: Seq<char>,
    pub fee: i64,
    pub size: i64,
    pub is_coinbase: bool,
    pub main_reward: Option<i64>,
    pub miner_address: Option<Seq<char>>,
    pub full_reward: i64,
    pub guessed_miner: Seq<char>,
}

#[derive(Debug)]
pub struct BlockRecord {
    pub hash: String,
    pub height: i64,
    pub timestamp: i64,
    pub transactions_count: i64,
}

#[derive(Debug)]
pub struct TransactionRecord {
    pub txid: String,
    pub block_hash: String,
    pub fee: i64,
    pub size: i64,
    pub is_coinbase: bool,
    pub main_reward: Option<i64>,
    pub miner_address: Option<String>,
    pub full_reward: i64,
    pub guessed_miner: String,
}

impl View for BlockRecord {
    type V = BlockRecordView;

    open spec fn view(&self) -> BlockRecordView {
        BlockRecordView {
            hash: self.hash@,
            height: self.height,
            timestamp: self.timestamp,
            transactions_count: self.transactions_count,
        }
    }
}

impl View for TransactionRecord {
    type V = TransactionRecordView;

    open spec fn view(&self) -> TransactionRecordView {
        TransactionRecordView {
            txid: self.txid@,
            block_hash: self.block_hash@,
            fee: self.fee,
            size: self.size,
            is_coinbase: self.is_coinbase,
            main_reward: self.main_reward,
            miner_address: text_view(self.miner_address),
            full_reward: self.full_reward,
            guessed_miner: self.guessed_miner@,
        }
    }
}

/// Why a record is not saved.
#[derive(Debug, Clone, Copy, PartialEq, Eq)]
pub enum PersistError {
    /// The time of the block is no point in time that the store can hold.
    BadTimestamp,
    /// The transaction could not be begun.
    BeginFailed,
    /// A statement failed.
    StatementFailed,
    /// A step took longer than it may.
    TimedOut,
    /// The commit failed.
    CommitFailed,
}

/// The key of the row of the coinbase transaction of the block `block_hash`.
pub open spec fn coinbase_txid_of(block_hash: Seq<char>) -> Seq<char> {
    "coinbase_"@ + block_hash
}

/// Whether the time of `message` can be stored.
pub open spec fn storable(message: MessageView) -> bool {
    chrono_accepts(reinterpret_signed(message.timestamp))
}

/// The row of the block of `message`.
pub open spec fn block_record_of(message: MessageView) -> BlockRecordView {
    BlockRecordView {
        hash: message.block_hash,
        height: message.height as i64,
        timestamp: reinterpret_signed(message.timestamp),
        transactions_count: reinterpret_signed(message.transactions_count),
    }
}

/// The row of the coinbase transaction of `message`.
pub open spec fn transaction_record_of(message: MessageView) -> TransactionRecordView {
    TransactionRecordView {
        txid: coinbase_txid_of(message.block_hash),
        block_hash: message.block_hash,
        fee: message.coinbase_info.fee,
        size: reinterpret_signed(message.size),
        is_coinbase: true,
        main_reward: message.coinbase_info.main_reward,
        miner_address: message.coinbase_info.miner_address,
        full_reward: message.coinbase_info.full_reward,
        guessed_miner: message.coinbase_info.guessed_miner,
    }
}

/// The key of the row of the coinbase transaction of the block `block_hash`.
pub fn coinbase_txid(block_hash: &str) -> (txid: String)
    ensures
        txid@ == coinbase_txid_of(block_hash@),
{
    String::from_str("coinbase_").concat(block_hash)
}

/// The row of the block of `message`, unless its time cannot be stored.
pub fn block_record(message: &BlockAnalyticsMessage) -> (record: Result<BlockRecord, PersistError>)
    ensures
        record is Ok <==> storable(message@),
        record is Ok ==> record->Ok_0@ == block_record_of(message@),
        record is Err ==> record->Err_0 == PersistError::BadTimestamp,
{
    let timestamp = to_signed(message.timestamp);
    if !timestamp_in_range(timestamp) {
        return Err(PersistError::BadTimestamp);
    }
    Ok(
        BlockRecord {
            hash: message.block_hash.clone(),
            height: message.height as i64,
            timestamp,
            transactions_count: to_signed(message.transactions_count),
        },
    )
}

/// The row of the coinbase transaction of `message`.
pub fn transaction_record(message: &BlockAnalyticsMessage) -> (record: TransactionRecord)
    ensures
        record@ == transaction_record_of(message@),
{
    TransactionRecord {
        txid: coinbase_txid(message.block_hash.as_str()),
        block_hash: message.block_hash.clone(),
        fee: message.coinbase_info.fee,
        size: to_signed(message.size),
        is_coinbase: true,
        main_reward: message.coinbase_info.main_reward,
        miner_address: message.coinbase_info.miner_address.clone(),
        full_reward: message.coinbase_info.full_reward,
        guessed_miner: message.coinbase_info.guessed_miner.clone(),
    }
}

/// Blocks of different hashes have coinbase rows of different keys.
pub proof fn lemma_coinbase_txid_injective(first: Seq<char>, second: Seq<char>)
    requires
        coinbase_txid_of(first) == coinbase_txid_of(second),
    ensures
        first == second,
{
    let prefix = "coinbase_"@;
    assert(first =~= coinbase_txid_of(first).skip(prefix.len() as int));
    assert(second =~= coinbase_txid_of(second).skip(prefix.len() as int));
}

/// Where the saving of one record stands. A row that was there already has
/// no id to show: its statement wrote nothing.
#[derive(Debug, Clone, Copy)]
pub enum SaveState {
    /// The transaction is being begun.
    Beginning,
    /// The row of the block is being written.
    UpsertingBlock,
    /// The row of the coinbase transaction is being written.
    UpsertingTransaction { block_id: Option<i32> },
    /// The transaction is being committed.
    Committing { block_id: Option<i32>, transaction_id: Option<i32> },
    /// The record is stored.
    Saved { block_id: Option<i32>, transaction_id: Option<i32> },
    /// The record is dropped; nothing of it is stored by this saving.
    Dropped(PersistError),
}

/// What the database reported of the step that was asked of it.
#[derive(Debug, Clone, Copy)]
pub enum DbEvent {
    Began,
    BeginFailed,
    /// The statement wrote a row and returned its id.
    Row(i32),
    /// The statement wrote nothing: a row of that key is there already.
    NoRow,
    StatementFailed,
    TimedOut,
    Committed,
    CommitFailed,
}

/// What to ask of the database next.
#[derive(Debug)]
pub enum SaveAction {
    UpsertBlock(BlockRecord),
    UpsertTransaction(TransactionRecord),
    Commit,
    /// Give the transaction up, and with it whatever it wrote.
    Rollback,
    /// Nothing is left to do.
    Rest,
}

/// An action as plain values.
pub ghost enum SaveActionView {
    UpsertBlock(BlockRecordView),
    UpsertTransaction(TransactionRecordView),
    Commit,
    Rollback,
    Rest,
}

impl View for SaveAction {
    type V = SaveActionView;

    open spec fn view(&self) -> SaveActionView {
        match self {
            SaveAction::UpsertBlock(record) => SaveActionView::UpsertBlock(record@),
            SaveAction::UpsertTransaction(record) => SaveActionView::UpsertTransaction(record@),
            SaveAction::Commit => SaveActionView::Commit,
            SaveAction::Rollback => SaveActionView::Rollback,
            SaveAction::Rest => SaveActionView::Rest,
        }
    }
}

/// Whether the saving is over, one way or the other.
pub open spec fn is_final(state: SaveState) -> bool {
    state is Saved || state is Dropped
}

/// Whether `event` reports a statement that went through: it wrote its row,
/// or found a row of that key and left it alone.
pub open spec fn statement_went_through(event: DbEvent) -> bool {
    event is Row || event is NoRow
}

/// The id of the row that a statement wrote, if it wrote one.
pub open spec fn written_id(event: DbEvent) -> Option<i32> {
    match event {
        DbEvent::Row(id) => Some(id),
        _ => None,
    }
}

/// Whether `event` is what the step of `state` hopes for. A row that is
/// there already is no failure: the saving goes on.
pub open spec fn is_progress(state: SaveState, event: DbEvent) -> bool {
    match state {
        SaveState::Beginning => event is Began,
        SaveState::UpsertingBlock => statement_went_through(event),
        SaveState::UpsertingTransaction { .. } => statement_went_through(event),
        SaveState::Committing { .. } => event is Committed,
        SaveState::Saved { .. } => false,
        SaveState::Dropped(_) => false,
    }
}

/// Why the saving ends where `event` is not what the step of `state` hoped
/// for.
pub open spec fn failure_of(state: SaveState, event: DbEvent) -> PersistError {
    match event {
        DbEvent::TimedOut => PersistError::TimedOut,
        DbEvent::BeginFailed => PersistError::BeginFailed,
        DbEvent::CommitFailed => PersistError::CommitFailed,
        _ => if state is Beginning {
            PersistError::BeginFailed
        } else if state is Committing {
            PersistError::CommitFailed
        } else {
            PersistError::StatementFailed
        },
    }
}

/// The state after `event` and the action to take, in saving `message`: the
/// transaction is begun, then the row of the block is written, then the row
/// of the coinbase transaction, then all is committed. A row that is there
/// already is left alone and the saving goes on. A failure or a timeout
/// drops the record and gives the transaction up.
pub open spec fn save_transition(state: SaveState, event: DbEvent, message: MessageView) -> (
    SaveState,
    SaveActionView,
) {
    if is_final(state) {
        (state, SaveActionView::Rest)
    } else if !is_progress(state, event) {
        (SaveState::Dropped(failure_of(state, event)), SaveActionView::Rollback)
    } else {
        match state {
            SaveState::Beginning => if storable(message) {
                (SaveState::UpsertingBlock, SaveActionView::UpsertBlock(block_record_of(message)))
            } else {
                (SaveState::Dropped(PersistError::BadTimestamp), SaveActionView::Rollback)
            },
            SaveState::UpsertingBlock => (
                SaveState::UpsertingTransaction { block_id: written_id(event) },
                SaveActionView::UpsertTransaction(transaction_record_of(message)),
            ),
            SaveState::UpsertingTransaction { block_id } => (
                SaveState::Committing { block_id, transaction_id: written_id(event) },
                SaveActionView::Commit,
            ),
            SaveState::Committing { block_id, transaction_id } => (
                SaveState::Saved { block_id, transaction_id },
                SaveActionView::Rest,
            ),
            _ => (state, SaveActionView::Rest),
        }
    }
}

/// Why the saving ends where `event` is not what the step of `state` hoped
/// for.
fn failure(state: SaveState, event: DbEvent) -> (error: PersistError)
    ensures
        error == failure_of(state, event),
{
    match event {
        DbEvent::TimedOut => PersistError::TimedOut,
        DbEvent::BeginFailed => PersistError::BeginFailed,
        DbEvent::CommitFailed => PersistError::CommitFailed,
        _ => match state {
            SaveState::Beginning => PersistError::BeginFailed,
            SaveState::Committing { .. } => PersistError::CommitFailed,
            _ => PersistError::StatementFailed,
        },
    }
}

/// The state in which the saving of a record starts. The first thing to ask
/// of the database is to begin a transaction.
pub fn start_save() -> (state: SaveState)
    ensures
        state is Beginning,
{
    SaveState::Beginning
}

/// Takes the saving of `message` one step on: from `state` and what the
/// database reported to the next state and what to ask next.
pub fn save_step(state: SaveState, event: DbEvent, message: &BlockAnalyticsMessage) -> (next: (
    SaveState,
    SaveAction,
))
    ensures
        (next.0, next.1@) == save_transition(state, event, message@),
{
    match (state, event) {
        (SaveState::Saved { .. }, _) => (state, SaveAction::Rest),
        (SaveState::Dropped(_), _) => (state, SaveAction::Rest),
        (SaveState::Beginning, DbEvent::Began) => match block_record(message) {
            Ok(record) => (SaveState::UpsertingBlock, SaveAction::UpsertBlock(record)),
            Err(error) => (SaveState::Dropped(error), SaveAction::Rollback),
        },
        (SaveState::UpsertingBlock, DbEvent::Row(block_id)) => (
            SaveState::UpsertingTransaction { block_id: Some(block_id) },
            SaveAction::UpsertTransaction(transaction_record(message)),
        ),
        (SaveState::UpsertingBlock, DbEvent::NoRow) => (
            SaveState::UpsertingTransaction { block_id: None },
            SaveAction::UpsertTransaction(transaction_record(message)),
        ),
        (SaveState::UpsertingTransaction { block_id }, DbEvent::Row(transaction_id)) => (
            SaveState::Committing { block_id, transaction_id: Some(transaction_id) },
            SaveAction::Commit,
        ),
        (SaveState::UpsertingTransaction { block_id }, DbEvent::NoRow) => (
            SaveState::Committing { block_id, transaction_id: None },
            SaveAction::Commit,
        ),
        (SaveState::Committing { block_id, transaction_id }, DbEvent::Committed) => (
            SaveState::Saved { block_id, transaction_id },
            SaveAction::Rest,
        ),
        _ => (SaveState::Dropped(failure(state, event)), SaveAction::Rollback),
    }
}

/// A record is saved only by a commit that went through, and any step that
/// fails or times out drops the record for good: no event brings a dropped
/// record back.
pub proof fn lemma_save_ends(state: SaveState, event: DbEvent, message: MessageView)
    ensures
        save_transition(state, event, message).0 is Saved ==> state is Saved || (state is Committing
            && event is Committed),
        !is_final(state) && !is_progress(state, event) ==> save_transition(
            state,
            event,
            message,
        ).0 is Dropped,
        state is Dropped ==> save_transition(state, event, message).0 == state,
        event is TimedOut && !is_final(state) ==> save_transition(state, event, message).0
            == SaveState::Dropped(PersistError::TimedOut),
{
}

/// A record whose rows are both there already is saved like any other: the
/// two statements write nothing, the commit goes through, and the saving
/// ends in `Saved` with no id to show.
pub proof fn lemma_redelivery_is_saved(message: MessageView)
    requires
        storable(message),
    ensures
        ({
            let begun = save_transition(SaveState::Beginning, DbEvent::Began, message);
            let block = save_transition(begun.0, DbEvent::NoRow, message);
            let transaction = save_transition(block.0, DbEvent::NoRow, message);
            let committed = save_transition(transaction.0, DbEvent::Committed, message);
            &&& begun.1 == SaveActionView::UpsertBlock(block_record_of(message))
            &&& block.1 == SaveActionView::UpsertTransaction(transaction_record_of(message))
            &&& transaction.1 == SaveActionView::Commit
            &&& committed.0 == (SaveState::Saved { block_id: None, transaction_id: None })
        }),
{
}

} // verus!
