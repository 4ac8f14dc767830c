//! A store in memory with the conflict policy of the database: a row whose
//! key is there already is left as it is, and finding it there is no
//! failure.

use vstd::prelude::*;
use crate::message::{BlockAnalyticsMessage, MessageView};
use crate::persistence::{
    block_record,
    block_record_of,
    coinbase_txid_of,
    save_transition,
    storable,
    transaction_record,
    transaction_record_of,
    BlockRecord,
    BlockRecordView,
    DbEvent,
    PersistError,
    SaveActionView,
    SaveState,
    TransactionRecord,
    TransactionRecordView,
};

verus! {

/// The rows of a store as plain values.
pub ghost struct LedgerView {
    pub blocks: Seq<BlockRecordView>,
    pub transactions: Seq<TransactionRecordView>,
}

/// Rows of blocks as plain values.
pub open spec fn block_rows_view(rows: Seq<BlockRecord>) -> Seq<BlockRecordView> {
    rows.map_values(|r: BlockRecord| r@)
}

/// Rows of transactions as plain values.
pub open spec fn transaction_rows_view(rows: Seq<TransactionRecord>) -> Seq<TransactionRecordView> {
    rows.map_values(|r: TransactionRecord| r@)
}

/// Whether a row of the block `hash` is stored.
pub open spec fn has_block(rows: Seq<BlockRecordView>, hash: Seq<char>) -> bool {
    exists|i: int| 0 <= i < rows.len() && (#[trigger] rows[i]).hash == hash
}

/// Whether a row of the transaction `txid` is stored.
pub open spec fn has_transaction(rows: Seq<TransactionRecordView>, txid: Seq<char>) -> bool {
    exists|i: int| 0 <= i < rows.len() && (#[trigger] rows[i]).txid == txid
}

/// Whether no two rows of a table share their key.
pub open spec fn keys_unique(ledger: LedgerView) -> bool {
    &&& forall|i: int, j: int|
        0 <= i < j < ledger.blocks.len() ==> (#[trigger] ledger.blocks[i]).hash != (
        #[trigger] ledger.blocks[j]).hash
    &&& forall|i: int, j: int|
        0 <= i < j < ledger.transactions.len() ==> (#[trigger] ledger.transactions[i]).txid != (
        #[trigger] ledger.transactions[j]).txid
}

/// The table of blocks after the statement that writes `record` unless a row
/// of its hash is there.
pub open spec fn upsert_block(rows: Seq<BlockRecordView>, record: BlockRecordView) -> Seq<
    BlockRecordView,
> {
    if has_block(rows, record.hash) {
        rows
    } else {
        rows.push(record)
    }
}

/// The table of transactions after the statement that writes `record` unless
/// a row of its key is there.
pub open spec fn upsert_transaction(
    rows: Seq<TransactionRecordView>,
    record: TransactionRecordView,
) -> Seq<TransactionRecordView> {
    if has_transaction(rows, record.txid) {
        rows
    } else {
        rows.push(record)
    }
}

/// What the statement that writes the block of `message` reports to a
/// saving: the position of the row, or that nothing was written.
pub open spec fn block_event(ledger: LedgerView, message: MessageView) -> DbEvent {
    if has_block(ledger.blocks, message.block_hash) {
        DbEvent::NoRow
    } else {
        DbEvent::Row(ledger.blocks.len() as i32)
    }
}

/// What the statement that writes the coinbase transaction of `message`
/// reports to a saving.
pub open spec fn transaction_event(ledger: LedgerView, message: MessageView) -> DbEvent {
    if has_transaction(ledger.transactions, coinbase_txid_of(message.block_hash)) {
        DbEvent::NoRow
    } else {
        DbEvent::Row(ledger.transactions.len() as i32)
    }
}

/// Whether saving `message` writes the row of its block: its time can be
/// stored and no row of that hash is there yet.
pub open spec fn writes_block(ledger: LedgerView, message: MessageView) -> bool {
    storable(message) && !has_block(ledger.blocks, message.block_hash)
}

/// Whether saving `message` writes the row of its coinbase transaction: its
/// time can be stored and no row of that key is there yet.
pub open spec fn writes_transaction(ledger: LedgerView, message: MessageView) -> bool {
    storable(message) && !has_transaction(
        ledger.transactions,
        coinbase_txid_of(message.block_hash),
    )
}

/// The store after saving `message`: each of the two rows is put behind the
/// others of its table, unless a row of its key is there already, which is
/// then left as it is. A record whose time cannot be stored changes nothing.
pub open spec fn saved(ledger: LedgerView, message: MessageView) -> LedgerView {
    LedgerView {
        blocks: if writes_block(ledger, message) {
            ledger.blocks.push(block_record_of(message))
        } else {
            ledger.blocks
        },
        transactions: if writes_transaction(ledger, message) {
            ledger.transactions.push(transaction_record_of(message))
        } else {
            ledger.transactions
        },
    }
}

/// A store in memory. No two rows of a table share their key.
pub struct Ledger {
    blocks: Vec<BlockRecord>,
    transactions: Vec<TransactionRecord>,
}

impl View for Ledger {
    type V = LedgerView;

    closed spec fn view(&self) -> LedgerView {
        LedgerView {
            blocks: block_rows_view(self.blocks@),
            transactions: transaction_rows_view(self.transactions@),
        }
    }
}

impl Ledger {
    #[verifier::type_invariant]
    spec fn unique(&self) -> bool {
        keys_unique(self@)
    }

    pub fn new() -> (ledger: Ledger)
        ensures
            ledger@.blocks.len() == 0,
            ledger@.transactions.len() == 0,
    {
        Ledger { blocks: Vec::new(), transactions: Vec::new() }
    }

    pub fn block_count(&self) -> (count: usize)
        ensures
            count == self@.blocks.len(),
    {
        self.blocks.len()
    }

    pub fn transaction_count(&self) -> (count: usize)
        ensures
            count == self@.transactions.len(),
    {
        self.transactions.len()
    }

    /// Whether a row of the block `hash` is stored.
    pub fn contains_block(&self, hash: &String) -> (found: bool)
        ensures
            found == has_block(self@.blocks, hash@),
    {
        let mut i: usize = 0;
        while i < self.blocks.len()
            invariant
                i <= self.blocks.len(),
                forall|j: int| 0 <= j < i ==> (#[trigger] block_rows_view(self.blocks@)[j]).hash
                    != hash@,
            decreases self.blocks.len() - i,
        {
            if self.blocks[i].hash == *hash {
                assert(block_rows_view(self.blocks@)[i as int].hash == hash@);
                return true;
            }
            i += 1;
        }
        false
    }

    /// Whether a row of the transaction `txid` is stored.
    pub fn contains_transaction(&self, txid: &String) -> (found: bool)
        ensures
            found == has_transaction(self@.transactions, txid@),
    {
        let mut i: usize = 0;
        while i < self.transactions.len()
            invariant
                i <= self.transactions.len(),
                forall|j: int|
                    0 <= j < i ==> (#[trigger] transaction_rows_view(self.transactions@)[j]).txid
                        != txid@,
            decreases self.transactions.len() - i,
        {
            if self.transactions[i].txid == *txid {
                assert(transaction_rows_view(self.transactions@)[i as int].txid == txid@);
                return true;
            }
            i += 1;
        }
        false
    }

    /// Saves `message`. A row whose key is there already is left alone, and
    /// that is no failure; only a time that cannot be stored is one. The
    /// position of each row comes back where the row was written.
    pub fn save(self, message: &BlockAnalyticsMessage) -> (next: (
        Ledger,
        Result<(Option<usize>, Option<usize>), PersistError>,
    ))
        ensures
            next.0@ == saved(self@, message@),
            next.1 is Ok <==> storable(message@),
            next.1 is Ok ==> next.1->Ok_0.0 == if writes_block(self@, message@) {
                Some(self@.blocks.len() as usize)
            } else {
                None
            },
            next.1 is Ok ==> next.1->Ok_0.1 == if writes_transaction(self@, message@) {
                Some(self@.transactions.len() as usize)
            } else {
                None
            },
            next.1 is Err ==> next.1->Err_0 == PersistError::BadTimestamp,
    {
        proof {
            use_type_invariant(&self);
        }
        let block = match block_record(message) {
            Ok(record) => record,
            Err(error) => {
                return (self, Err(error));
            },
        };
        let transaction = transaction_record(message);
        let ghost before = self@;
        let block_known = self.contains_block(&block.hash);
        let transaction_known = self.contains_transaction(&transaction.txid);
        let mut blocks = self.blocks;
        let mut transactions = self.transactions;
        proof {
            assert(block_rows_view(blocks@.push(block)) =~= block_rows_view(blocks@).push(block@));
            assert(transaction_rows_view(transactions@.push(transaction))
                =~= transaction_rows_view(transactions@).push(transaction@));
            lemma_saved_keeps_keys_unique(before, message@);
        }
        let block_id = if block_known {
            None
        } else {
            let position = blocks.len();
            blocks.push(block);
            Some(position)
        };
        let transaction_id = if transaction_known {
            None
        } else {
            let position = transactions.len();
            transactions.push(transaction);
            Some(position)
        };
        (Ledger { blocks, transactions }, Ok((block_id, transaction_id)))
    }
}

/// Saving keeps the keys of each table apart.
pub proof fn lemma_saved_keeps_keys_unique(ledger: LedgerView, message: MessageView)
    requires
        keys_unique(ledger),
    ensures
        keys_unique(saved(ledger, message)),
{
    let after = saved(ledger, message);
    assert forall|i: int, j: int| 0 <= i < j < after.blocks.len() implies (
    #[trigger] after.blocks[i]).hash != (#[trigger] after.blocks[j]).hash by {
        if j == ledger.blocks.len() {
            assert(ledger.blocks[i].hash != message.block_hash);
        } else {
            assert(ledger.blocks[i].hash != ledger.blocks[j].hash);
        }
    }
    assert forall|i: int, j: int| 0 <= i < j < after.transactions.len() implies (
    #[trigger] after.transactions[i]).txid != (#[trigger] after.transactions[j]).txid by {
        if j == ledger.transactions.len() {
            assert(ledger.transactions[i].txid != coinbase_txid_of(message.block_hash));
        } else {
            assert(ledger.transactions[i].txid != ledger.transactions[j].txid);
        }
    }
}

/// After a record was saved, the store holds a row of its block and a row of
/// its coinbase transaction, whatever it held before.
pub proof fn lemma_saved_rows_are_there(ledger: LedgerView, message: MessageView)
    requires
        storable(message),
    ensures
        has_block(saved(ledger, message).blocks, message.block_hash),
        has_transaction(saved(ledger, message).transactions, coinbase_txid_of(message.block_hash)),
{
    let after = saved(ledger, message);
    if writes_block(ledger, message) {
        assert(after.blocks[ledger.blocks.len() as int].hash == message.block_hash);
    }
    if writes_transaction(ledger, message) {
        assert(after.transactions[ledger.transactions.len() as int].txid == coinbase_txid_of(
            message.block_hash,
        ));
    }
}

/// The store does what the steps of a saving ask of a database: the steps
/// ask for the two statements on the two rows of the record and then for the
/// commit, the store after them is the store after those two statements, and
/// the saving ends in `Saved`, be the rows new or there already.
pub proof fn lemma_store_follows_save_steps(ledger: LedgerView, message: MessageView)
    requires
        storable(message),
    ensures
        ({
            let begun = save_transition(SaveState::Beginning, DbEvent::Began, message);
            let block = save_transition(begun.0, block_event(ledger, message), message);
            let transaction = save_transition(block.0, transaction_event(ledger, message), message);
            let committed = save_transition(transaction.0, DbEvent::Committed, message);
            &&& begun.1 == SaveActionView::UpsertBlock(block_record_of(message))
            &&& block.1 == SaveActionView::UpsertTransaction(transaction_record_of(message))
            &&& transaction.1 == SaveActionView::Commit
            &&& committed.0 is Saved
            &&& saved(ledger, message) == (LedgerView {
                blocks: upsert_block(ledger.blocks, block_record_of(message)),
                transactions: upsert_transaction(
                    ledger.transactions,
                    transaction_record_of(message),
                ),
            })
        }),
{
}

/// Saving the same record a second time changes nothing.
pub proof fn lemma_redelivery_is_idempotent(ledger: LedgerView, message: MessageView)
    ensures
        saved(saved(ledger, message), message) == saved(ledger, message),
{
    if storable(message) {
        lemma_saved_rows_are_there(ledger, message);
    }
}

/// After a record was saved and delivered again, the store holds one row of
/// its block and one row of its coinbase transaction: each key is there, and
/// no key is there twice.
pub proof fn lemma_one_row_each(ledger: LedgerView, message: MessageView)
    requires
        keys_unique(ledger),
        storable(message),
    ensures
        ({
            let twice = saved(saved(ledger, message), message);
            &&& twice == saved(ledger, message)
            &&& keys_unique(twice)
            &&& has_block(twice.blocks, message.block_hash)
            &&& has_transaction(twice.transactions, coinbase_txid_of(message.block_hash))
        }),
{
    lemma_redelivery_is_idempotent(ledger, message);
    lemma_saved_keeps_keys_unique(ledger, message);
    lemma_saved_rows_are_there(ledger, message);
}

} // verus!
