use block_analytics::batcher::{settle_batch, Batcher, PublishOutcome, BATCH_SIZE, QUEUE_CAPACITY};
use block_analytics::block::Block;
use block_analytics::collector::{
    coinbase_from, coinbase_tx_id_from, endpoint_url, latest_blocks_from, FetchError,
};
use block_analytics::config::{Config, RabbitMqConfig};
use block_analytics::consumer::{on_delivery, ConsumerAction, DecodeFailure};
use block_analytics::ledger::Ledger;
use block_analytics::message::{BlockAnalyticsMessage, CoinbaseInfo};
use block_analytics::namespace::{decimal_string, NameSpaceApi};
use block_analytics::persistence::{
    block_record, coinbase_txid, save_step, start_save, to_signed, transaction_record, DbEvent,
    PersistError, SaveAction, SaveState,
};
use block_analytics::producer::{
    analyze_block, Phase, PollAction, PollCycle, PollEvent, SkipReason,
};
use block_analytics::supervisor::{
    broker_password, broker_username, classify_task_end, is_stream_error, plan_stages,
    StreamCreation, TaskOutcome,
};
use block_analytics::transaction::{Status, Transaction, VectorInputs, VectorOutputs};

fn block(hash: &str, height: u64) -> Block {
    Block::new(
        String::from(hash),
        height,
        536870912,
        1_700_000_000,
        2500,
        1_500_000,
        3_993_000,
        String::from("merkle"),
        String::from("previous"),
        1_699_999_000,
        12345,
        386_000_000,
        (61_030_681_983_175.59f64).to_bits(),
    )
}

fn coinbase(scriptsig: &str, is_coinbase: bool, values: &[(i64, Option<&str>)], height: i64) -> Transaction {
    let vin = vec![VectorInputs::new(
        String::from("0000"),
        4294967295,
        None,
        String::from(scriptsig),
        String::new(),
        Vec::new(),
        is_coinbase,
        4294967295,
    )];
    let vout = values
        .iter()
        .map(|(value, address)| {
            VectorOutputs::new(
                String::from("0014"),
                String::new(),
                String::from("v0_p2wpkh"),
                address.map(String::from),
                *value,
            )
        })
        .collect();
    let status = Status::new(true, height, String::from("hash"), 1_700_000_000);
    Transaction::new(String::from("cb"), 2, 0, vin, vout, 200, 800, 4, status).expect("in range")
}

fn message(hash: &str, timestamp: u64) -> BlockAnalyticsMessage {
    BlockAnalyticsMessage {
        height: 840_000,
        block_hash: String::from(hash),
        timestamp,
        size: 1_500_000,
        merkle_root: String::from("merkle"),
        difficulty_bits: (1.5f64).to_bits(),
        transactions_count: 2500,
        coinbase_info: CoinbaseInfo {
            main_reward: Some(312_500_000),
            miner_address: Some(String::from("bc1miner")),
            full_reward: 312_600_000,
            fee: 100_000,
            guessed_miner: String::from("MinerTagX"),
            rewards_and_addresses: vec![(312_500_000, String::from("bc1miner"))],
        },
    }
}

// push 0x64, push "MinerTagX"
const SCRIPT_HEX: &str = "0164094d696e657254616758";

#[test]
fn uris_of_the_api() {
    assert_eq!(NameSpaceApi::Blocks(None).get_uri_by_ns(), "blocks/");
    assert_eq!(NameSpaceApi::Blocks(Some(0)).get_uri_by_ns(), "blocks/0");
    assert_eq!(NameSpaceApi::Blocks(Some(840_000)).get_uri_by_ns(), "blocks/840000");
    assert_eq!(
        NameSpaceApi::Blocks(Some(u64::MAX)).get_uri_by_ns(),
        "blocks/18446744073709551615"
    );
    assert_eq!(NameSpaceApi::_BlockByHash(String::from("ab")).get_uri_by_ns(), "block/ab");
    assert_eq!(
        NameSpaceApi::_BlockByHashCoinbase(String::from("ab")).get_uri_by_ns(),
        "block/ab/txs/0"
    );
    assert_eq!(NameSpaceApi::_BlockTxs(String::from("ab")).get_uri_by_ns(), "block/ab/txs");
    assert_eq!(NameSpaceApi::BlockTxids(String::from("ab")).get_uri_by_ns(), "block/ab/txids");
    assert_eq!(NameSpaceApi::TxById(String::from("cd")).get_uri_by_ns(), "tx/cd");
}

#[test]
fn decimal_strings() {
    assert_eq!(decimal_string(0), "0");
    assert_eq!(decimal_string(9), "9");
    assert_eq!(decimal_string(10), "10");
    assert_eq!(decimal_string(1_000_000_007), "1000000007");
    assert_eq!(decimal_string(u64::MAX), u64::MAX.to_string());
}

#[test]
fn endpoint_is_the_base_with_the_path() {
    let ns = NameSpaceApi::BlockTxids(String::from("00ab"));
    assert_eq!(endpoint_url("https://example.org/api/", &ns), "https://example.org/api/block/00ab/txids");
    assert_eq!(endpoint_url("", &NameSpaceApi::Blocks(None)), "blocks/");
}

#[test]
fn unreadable_block_list_is_an_empty_list() {
    assert_eq!(latest_blocks_from(None).len(), 0);
    let blocks = latest_blocks_from(Some(vec![block("a", 1), block("b", 2)]));
    assert_eq!(blocks.len(), 2);
    assert_eq!(blocks[1].get_id(), "b");
}

#[test]
fn coinbase_id_is_the_first_id() {
    let ids = vec![String::from("first"), String::from("second")];
    assert_eq!(coinbase_tx_id_from(&ids), Ok(String::from("first")));
    assert_eq!(coinbase_tx_id_from(&Vec::new()), Err(FetchError::EmptyTxidList));
}

#[test]
fn transaction_without_coinbase_input_is_refused() {
    let good = coinbase_from(coinbase(SCRIPT_HEX, true, &[(5, None)], 0));
    assert_eq!(good.map(|t| t.get_full_reward_value()).map_err(|e| e), Ok(5));
    let bad = coinbase_from(coinbase(SCRIPT_HEX, false, &[(5, None)], 0));
    assert_eq!(bad.err(), Some(FetchError::NotCoinbase));
    let status = Status::new(true, 0, String::from("hash"), 0);
    let empty = Transaction::new(String::from("t"), 1, 0, vec![], vec![], 0, 0, 0, status).unwrap();
    assert_eq!(coinbase_from(empty).err(), Some(FetchError::NotCoinbase));
}

#[test]
fn block_getters_give_back_the_parts() {
    let b = block("00hash", 840_000);
    assert_eq!(b.get_id(), "00hash");
    assert_eq!(b.get_height(), 840_000);
    assert_eq!(b.get_timestamp(), 1_700_000_000);
    assert_eq!(b.get_size(), 1_500_000);
    assert_eq!(b.get_merkle_root(), "merkle");
    assert_eq!(b.get_tx_count(), 2500);
    assert_eq!(f64::from_bits(b.get_difficulty_bits()), 61_030_681_983_175.59f64);
    // a height beyond 32 bits keeps its low 32 bits
    assert_eq!(block("x", (1u64 << 32) + 7).get_height(), 7);
    assert_eq!(block("x", u32::MAX as u64).get_height(), u32::MAX);
}

#[test]
fn record_is_built_from_block_and_coinbase() {
    let b = block("00hash", 210_000);
    let tx = coinbase(
        SCRIPT_HEX,
        true,
        &[(2_500_000_000, Some("bc1miner")), (500, Some("bc1pool")), (0, None)],
        210_000,
    );
    let m = BlockAnalyticsMessage::build(&b, &tx, String::from("MinerTagX"));
    assert_eq!(m.height, 210_000);
    assert_eq!(m.block_hash, "00hash");
    assert_eq!(m.timestamp, 1_700_000_000);
    assert_eq!(m.size, 1_500_000);
    assert_eq!(m.merkle_root, "merkle");
    assert_eq!(m.difficulty_bits, b.get_difficulty_bits());
    assert_eq!(m.transactions_count, 2500);
    assert_eq!(m.coinbase_info.main_reward, Some(2_500_000_000));
    assert_eq!(m.coinbase_info.miner_address, Some(String::from("bc1miner")));
    assert_eq!(m.coinbase_info.full_reward, 2_500_000_500);
    assert_eq!(m.coinbase_info.fee, 500);
    assert_eq!(m.coinbase_info.guessed_miner, "MinerTagX");
    assert_eq!(
        m.coinbase_info.rewards_and_addresses,
        vec![(2_500_000_000, String::from("bc1miner")), (500, String::from("bc1pool"))]
    );
}

#[test]
fn record_of_a_transaction_without_fee_or_reward() {
    let b = block("00hash", 1);
    let tx = coinbase(SCRIPT_HEX, false, &[(0, Some("a"))], 1);
    let m = BlockAnalyticsMessage::build(&b, &tx, String::new());
    assert_eq!(m.coinbase_info.fee, 0);
    assert_eq!(m.coinbase_info.main_reward, None);
    assert_eq!(m.coinbase_info.miner_address, None);
    assert_eq!(m.coinbase_info.full_reward, 0);
    assert!(m.coinbase_info.rewards_and_addresses.is_empty());
    let no_address = coinbase(SCRIPT_HEX, true, &[(9, None)], 1);
    let m = BlockAnalyticsMessage::build(&b, &no_address, String::new());
    assert_eq!(m.coinbase_info.main_reward, Some(9));
    assert_eq!(m.coinbase_info.miner_address, None);
}

#[test]
fn block_is_analyzed_into_a_record() {
    let b = block("00hash", 100);
    let tx = coinbase(SCRIPT_HEX, true, &[(5_000_000_100, Some("bc1miner"))], 100);
    let m = analyze_block(&b, &tx).expect("the script decodes");
    assert_eq!(m.coinbase_info.guessed_miner, "MinerTagX");
    assert_eq!(m.coinbase_info.fee, 100);
    assert_eq!(m.block_hash, "00hash");
    // upper case digits spell the same bytes
    let upper = coinbase("0164094D696E657254616758", true, &[(1, None)], 100);
    assert_eq!(analyze_block(&b, &upper).map(|m| m.coinbase_info.guessed_miner).ok(), Some(String::from("MinerTagX")));
}

#[test]
fn block_is_skipped_for_each_reason() {
    let b = block("00hash", 100);
    let odd = coinbase("016", true, &[(1, None)], 100);
    assert_eq!(analyze_block(&b, &odd).err(), Some(SkipReason::InvalidHex));
    let not_hex = coinbase("01zz", true, &[(1, None)], 100);
    assert_eq!(analyze_block(&b, &not_hex).err(), Some(SkipReason::InvalidHex));
    let not_ascii = coinbase("\u{e9}\u{e9}", true, &[(1, None)], 100);
    assert_eq!(analyze_block(&b, &not_ascii).err(), Some(SkipReason::InvalidHex));
    let one_push = coinbase("0164", true, &[(1, None)], 100);
    assert_eq!(analyze_block(&b, &one_push).err(), Some(SkipReason::UndecodableScript));
    let empty_script = coinbase("", true, &[(1, None)], 100);
    assert_eq!(analyze_block(&b, &empty_script).err(), Some(SkipReason::UndecodableScript));
    let status = Status::new(true, 0, String::from("hash"), 0);
    let no_input = Transaction::new(String::from("t"), 1, 0, vec![], vec![], 0, 0, 0, status).unwrap();
    assert_eq!(analyze_block(&b, &no_input).err(), Some(SkipReason::NoInput));
}

#[test]
fn batch_is_handed_out_when_full() {
    assert_eq!(BATCH_SIZE, 10);
    assert_eq!(QUEUE_CAPACITY, 1000);
    let mut batcher = Batcher::new();
    assert_eq!(batcher.pending_len(), 0);
    for i in 0..9 {
        let (next, batch) = batcher.push(message(&format!("hash{}", i), 1));
        assert!(batch.is_none());
        assert_eq!(next.pending_len(), i + 1);
        batcher = next;
    }
    let (next, batch) = batcher.push(message("hash9", 1));
    let batch = batch.expect("the tenth record fills the batch");
    assert_eq!(batch.len(), 10);
    for (i, m) in batch.iter().enumerate() {
        assert_eq!(m.block_hash, format!("hash{}", i));
    }
    assert_eq!(next.pending_len(), 0);
    let (next, batch) = next.push(message("hash10", 1));
    assert!(batch.is_none());
    assert_eq!(next.pending_len(), 1);
}

#[test]
fn batch_is_published_whole_or_dropped_whole() {
    let mut batcher = Batcher::new();
    let mut full = None;
    for i in 0..10 {
        let (next, batch) = batcher.push(message(&format!("hash{}", i), 1));
        batcher = next;
        full = batch;
    }
    let batch = full.expect("ten records are a batch");
    let accepted = settle_batch(&batch, &PublishOutcome::Accepted);
    assert_eq!((accepted.published, accepted.dropped), (10, 0));
    let refused = settle_batch(&batch, &PublishOutcome::BrokerError(String::from("stream gone")));
    assert_eq!((refused.published, refused.dropped), (0, 10));
    // nothing of the batch waits for a second attempt
    assert_eq!(batcher.pending_len(), 0);
    let empty = settle_batch(&Vec::new(), &PublishOutcome::Accepted);
    assert_eq!((empty.published, empty.dropped), (0, 0));
}

#[test]
fn deliveries_are_forwarded_or_skipped() {
    match on_delivery(Ok(message("h", 1))) {
        ConsumerAction::Forward(m) => assert_eq!(m.block_hash, "h"),
        other => panic!("unexpected {:?}", other),
    }
    assert!(matches!(on_delivery(Err(DecodeFailure::NotARecord)), ConsumerAction::Skip { report: true }));
    assert!(matches!(on_delivery(Err(DecodeFailure::NotText)), ConsumerAction::Skip { report: true }));
    assert!(matches!(on_delivery(Err(DecodeFailure::NoData)), ConsumerAction::Skip { report: false }));
}

#[test]
fn rows_of_a_record() {
    let m = message("00hash", 1_700_000_000);
    assert_eq!(coinbase_txid("00hash"), "coinbase_00hash");
    assert_eq!(coinbase_txid(""), "coinbase_");
    let b = block_record(&m).expect("the time can be stored");
    assert_eq!(b.hash, "00hash");
    assert_eq!(b.height, 840_000);
    assert_eq!(b.timestamp, 1_700_000_000);
    assert_eq!(b.transactions_count, 2500);
    let t = transaction_record(&m);
    assert_eq!(t.txid, "coinbase_00hash");
    assert_eq!(t.block_hash, "00hash");
    assert_eq!(t.fee, 100_000);
    assert_eq!(t.size, 1_500_000);
    assert!(t.is_coinbase);
    assert_eq!(t.main_reward, Some(312_500_000));
    assert_eq!(t.miner_address, Some(String::from("bc1miner")));
    assert_eq!(t.full_reward, 312_600_000);
    assert_eq!(t.guessed_miner, "MinerTagX");
}

#[test]
fn time_out_of_range_is_refused() {
    assert_eq!(block_record(&message("h", 1u64 << 62)).err(), Some(PersistError::BadTimestamp));
    assert_eq!(block_record(&message("h", i64::MAX as u64)).err(), Some(PersistError::BadTimestamp));
    // the largest 64-bit number reads as one second before the epoch
    assert_eq!(block_record(&message("h", u64::MAX)).map(|b| b.timestamp).ok(), Some(-1));
    assert_eq!(block_record(&message("h", 0)).map(|b| b.timestamp).ok(), Some(0));
}

#[test]
fn unsigned_numbers_read_as_signed() {
    assert_eq!(to_signed(0), 0);
    assert_eq!(to_signed(i64::MAX as u64), i64::MAX);
    assert_eq!(to_signed(i64::MAX as u64 + 1), i64::MIN);
    assert_eq!(to_signed(u64::MAX), -1);
}

#[test]
fn saving_goes_through_its_steps() {
    let m = message("00hash", 1_700_000_000);
    let state = start_save();
    assert!(matches!(state, SaveState::Beginning));
    let (state, action) = save_step(state, DbEvent::Began, &m);
    assert!(matches!(state, SaveState::UpsertingBlock));
    match action {
        SaveAction::UpsertBlock(record) => assert_eq!(record.hash, "00hash"),
        other => panic!("unexpected {:?}", other),
    }
    let (state, action) = save_step(state, DbEvent::Row(7), &m);
    assert!(matches!(state, SaveState::UpsertingTransaction { block_id: Some(7) }));
    match action {
        SaveAction::UpsertTransaction(record) => assert_eq!(record.txid, "coinbase_00hash"),
        other => panic!("unexpected {:?}", other),
    }
    let (state, action) = save_step(state, DbEvent::Row(9), &m);
    assert!(matches!(state, SaveState::Committing { block_id: Some(7), transaction_id: Some(9) }));
    assert!(matches!(action, SaveAction::Commit));
    let (state, action) = save_step(state, DbEvent::Committed, &m);
    assert!(matches!(state, SaveState::Saved { block_id: Some(7), transaction_id: Some(9) }));
    assert!(matches!(action, SaveAction::Rest));
    let (state, action) = save_step(state, DbEvent::TimedOut, &m);
    assert!(matches!(state, SaveState::Saved { block_id: Some(7), transaction_id: Some(9) }));
    assert!(matches!(action, SaveAction::Rest));
}

#[test]
fn saving_a_stored_record_again_ends_saved() {
    let m = message("00hash", 1_700_000_000);
    let (state, _) = save_step(start_save(), DbEvent::Began, &m);
    // the row of the block is there already: nothing is written, the saving goes on
    let (state, action) = save_step(state, DbEvent::NoRow, &m);
    assert!(matches!(state, SaveState::UpsertingTransaction { block_id: None }));
    match action {
        SaveAction::UpsertTransaction(record) => assert_eq!(record.txid, "coinbase_00hash"),
        other => panic!("unexpected {:?}", other),
    }
    let (state, action) = save_step(state, DbEvent::NoRow, &m);
    assert!(matches!(state, SaveState::Committing { block_id: None, transaction_id: None }));
    assert!(matches!(action, SaveAction::Commit));
    let (state, action) = save_step(state, DbEvent::Committed, &m);
    assert!(matches!(state, SaveState::Saved { block_id: None, transaction_id: None }));
    assert!(matches!(action, SaveAction::Rest));
    // one row there, the other written
    let (state, _) = save_step(SaveState::UpsertingBlock, DbEvent::NoRow, &m);
    let (state, _) = save_step(state, DbEvent::Row(4), &m);
    assert!(matches!(state, SaveState::Committing { block_id: None, transaction_id: Some(4) }));
}

#[test]
fn saving_drops_the_record_on_any_failure() {
    let m = message("00hash", 1_700_000_000);
    let (state, action) = save_step(start_save(), DbEvent::BeginFailed, &m);
    assert!(matches!(state, SaveState::Dropped(PersistError::BeginFailed)));
    assert!(matches!(action, SaveAction::Rollback));
    let (state, _) = save_step(start_save(), DbEvent::TimedOut, &m);
    assert!(matches!(state, SaveState::Dropped(PersistError::TimedOut)));
    let (state, _) = save_step(SaveState::UpsertingBlock, DbEvent::StatementFailed, &m);
    assert!(matches!(state, SaveState::Dropped(PersistError::StatementFailed)));
    let (state, _) =
        save_step(SaveState::UpsertingTransaction { block_id: Some(1) }, DbEvent::TimedOut, &m);
    assert!(matches!(state, SaveState::Dropped(PersistError::TimedOut)));
    let (state, _) =
        save_step(SaveState::UpsertingTransaction { block_id: None }, DbEvent::StatementFailed, &m);
    assert!(matches!(state, SaveState::Dropped(PersistError::StatementFailed)));
    let committing = SaveState::Committing { block_id: Some(1), transaction_id: Some(2) };
    let (state, action) = save_step(committing, DbEvent::CommitFailed, &m);
    assert!(matches!(state, SaveState::Dropped(PersistError::CommitFailed)));
    assert!(matches!(action, SaveAction::Rollback));
    let (state, _) = save_step(committing, DbEvent::TimedOut, &m);
    assert!(matches!(state, SaveState::Dropped(PersistError::TimedOut)));
    // an event that the step does not wait for ends the saving too
    let (state, _) = save_step(committing, DbEvent::Row(3), &m);
    assert!(matches!(state, SaveState::Dropped(PersistError::CommitFailed)));
    // a dropped record stays dropped
    let (state, action) = save_step(state, DbEvent::Committed, &m);
    assert!(matches!(state, SaveState::Dropped(PersistError::CommitFailed)));
    assert!(matches!(action, SaveAction::Rest));
    let bad = message("h", 1u64 << 62);
    let (state, action) = save_step(start_save(), DbEvent::Began, &bad);
    assert!(matches!(state, SaveState::Dropped(PersistError::BadTimestamp)));
    assert!(matches!(action, SaveAction::Rollback));
}

#[test]
fn saving_twice_leaves_one_row_each() {
    let ledger = Ledger::new();
    let m = message("00hash", 1_700_000_000);
    let (ledger, first) = ledger.save(&m);
    assert_eq!(first, Ok((Some(0), Some(0))));
    assert_eq!((ledger.block_count(), ledger.transaction_count()), (1, 1));
    let (ledger, second) = ledger.save(&m);
    assert_eq!(second, Ok((None, None)));
    assert_eq!((ledger.block_count(), ledger.transaction_count()), (1, 1));
    assert!(ledger.contains_block(&String::from("00hash")));
    assert!(ledger.contains_transaction(&String::from("coinbase_00hash")));
    assert!(!ledger.contains_block(&String::from("other")));
    let (ledger, other) = ledger.save(&message("other", 1_700_000_600));
    assert_eq!(other, Ok((Some(1), Some(1))));
    assert_eq!((ledger.block_count(), ledger.transaction_count()), (2, 2));
    let (ledger, bad) = ledger.save(&message("third", 1u64 << 62));
    assert_eq!(bad, Err(PersistError::BadTimestamp));
    assert_eq!((ledger.block_count(), ledger.transaction_count()), (2, 2));
    assert!(!ledger.contains_block(&String::from("third")));
}

#[test]
fn poll_cycle_walks_through_its_blocks() {
    let cycle = PollCycle::new();
    assert_eq!(cycle.phase(), Phase::Idle);
    let (cycle, action) = cycle.on_event(PollEvent::Tick);
    assert!(matches!(action, PollAction::FetchBlocks));
    assert_eq!(cycle.phase(), Phase::FetchingBlocks);
    let (cycle, action) = cycle.on_event(PollEvent::Blocks(vec![block("one", 100), block("two", 101)]));
    match action {
        PollAction::FetchTxids(hash) => assert_eq!(hash, "one"),
        other => panic!("unexpected {:?}", other),
    }
    let (cycle, action) = cycle.on_event(PollEvent::Txids(vec![String::from("cb1"), String::from("t")]));
    match action {
        PollAction::FetchCoinbase(txid) => assert_eq!(txid, "cb1"),
        other => panic!("unexpected {:?}", other),
    }
    assert_eq!(cycle.phase(), Phase::FetchingCoinbase);
    let tx = coinbase(SCRIPT_HEX, true, &[(5_000_000_001, Some("bc1miner"))], 100);
    let (cycle, action) = cycle.on_event(PollEvent::Coinbase(tx));
    match action {
        PollAction::Enqueue(m) => {
            assert_eq!(m.block_hash, "one");
            assert_eq!(m.coinbase_info.guessed_miner, "MinerTagX");
            assert_eq!(m.coinbase_info.fee, 1);
        }
        other => panic!("unexpected {:?}", other),
    }
    assert_eq!(cycle.phase(), Phase::Enqueueing);
    let (cycle, action) = cycle.on_event(PollEvent::Enqueued);
    match action {
        PollAction::FetchTxids(hash) => assert_eq!(hash, "two"),
        other => panic!("unexpected {:?}", other),
    }
    let (cycle, action) = cycle.on_event(PollEvent::Failed);
    assert!(matches!(action, PollAction::Wait));
    assert_eq!(cycle.phase(), Phase::Idle);
    let (cycle, action) = cycle.on_event(PollEvent::Tick);
    assert!(matches!(action, PollAction::FetchBlocks));
    let (cycle, action) = cycle.on_event(PollEvent::Failed);
    assert!(matches!(action, PollAction::Wait));
    assert_eq!(cycle.phase(), Phase::Idle);
}

#[test]
fn poll_cycle_skips_a_block_that_fails() {
    let start = || {
        let (cycle, _) = PollCycle::new().on_event(PollEvent::Tick);
        let (cycle, _) = cycle.on_event(PollEvent::Blocks(vec![block("one", 100), block("two", 101)]));
        cycle
    };
    // no transaction ids
    let (cycle, action) = start().on_event(PollEvent::Txids(Vec::new()));
    assert!(matches!(action, PollAction::FetchTxids(ref hash) if hash == "two"));
    assert_eq!(cycle.phase(), Phase::FetchingTxids);
    // first input not marked coinbase
    let (cycle, _) = start().on_event(PollEvent::Txids(vec![String::from("cb")]));
    let (cycle, action) = cycle.on_event(PollEvent::Coinbase(coinbase(SCRIPT_HEX, false, &[(1, None)], 100)));
    assert!(matches!(action, PollAction::FetchTxids(ref hash) if hash == "two"));
    assert_eq!(cycle.phase(), Phase::FetchingTxids);
    // script that does not decode
    let (cycle, _) = start().on_event(PollEvent::Txids(vec![String::from("cb")]));
    let (cycle, action) = cycle.on_event(PollEvent::Coinbase(coinbase("0164", true, &[(1, None)], 100)));
    assert!(matches!(action, PollAction::FetchTxids(ref hash) if hash == "two"));
    // the queue does not take the record
    let (cycle, _) = cycle.on_event(PollEvent::Txids(vec![String::from("cb")]));
    let (cycle, action) = cycle.on_event(PollEvent::Coinbase(coinbase(SCRIPT_HEX, true, &[(1, None)], 101)));
    assert!(matches!(action, PollAction::Enqueue(_)));
    let (cycle, action) = cycle.on_event(PollEvent::Failed);
    assert!(matches!(action, PollAction::Wait));
    assert_eq!(cycle.phase(), Phase::Idle);
}

#[test]
fn poll_cycle_ignores_what_it_does_not_wait_for() {
    let (cycle, action) = PollCycle::new().on_event(PollEvent::Enqueued);
    assert!(matches!(action, PollAction::Ignore));
    assert_eq!(cycle.phase(), Phase::Idle);
    let (cycle, action) = cycle.on_event(PollEvent::Failed);
    assert!(matches!(action, PollAction::Ignore));
    let (cycle, _) = cycle.on_event(PollEvent::Tick);
    let (cycle, action) = cycle.on_event(PollEvent::Tick);
    assert!(matches!(action, PollAction::Ignore));
    assert_eq!(cycle.phase(), Phase::FetchingBlocks);
    let (cycle, action) = cycle.on_event(PollEvent::Blocks(Vec::new()));
    assert!(matches!(action, PollAction::Wait));
    assert_eq!(cycle.phase(), Phase::Idle);
}

#[test]
fn stages_follow_the_services() {
    let all = plan_stages(true, true);
    assert!(all.block_watcher && all.publisher && all.ingestion);
    let no_broker = plan_stages(false, true);
    assert!(no_broker.block_watcher && !no_broker.publisher && !no_broker.ingestion);
    let no_database = plan_stages(true, false);
    assert!(no_database.block_watcher && no_database.publisher && !no_database.ingestion);
    let neither = plan_stages(false, false);
    assert!(neither.block_watcher && !neither.publisher && !neither.ingestion);
}

#[test]
fn task_ends_are_told_apart() {
    assert_eq!(classify_task_end(true, false, false), TaskOutcome::Normal);
    assert_eq!(classify_task_end(true, true, true), TaskOutcome::Normal);
    assert_eq!(classify_task_end(false, true, false), TaskOutcome::Cancelled);
    assert_eq!(classify_task_end(false, true, true), TaskOutcome::Cancelled);
    assert_eq!(classify_task_end(false, false, true), TaskOutcome::Panicked);
    assert_eq!(classify_task_end(false, false, false), TaskOutcome::Failed);
}

#[test]
fn existing_stream_is_no_error() {
    assert!(!is_stream_error(StreamCreation::Created));
    assert!(!is_stream_error(StreamCreation::AlreadyExists));
    assert!(is_stream_error(StreamCreation::Refused));
    assert!(!is_stream_error(StreamCreation::Unanswered));
}

#[test]
fn settings_give_back_their_parts() {
    let broker = RabbitMqConfig::from_parts(
        String::from("localhost"),
        5552,
        Some(String::from("user")),
        None,
        String::from("mining-analytics"),
    );
    assert_eq!(broker.get_host(), "localhost");
    assert_eq!(broker.get_port(), 5552);
    assert_eq!(broker.get_username(), Some(&String::from("user")));
    assert_eq!(broker.get_password(), None);
    assert_eq!(broker.get_stream_name(), "mining-analytics");
    assert_eq!(broker_username(&broker), "user");
    assert_eq!(broker_password(&broker), "guest");
    let config = Config::from_parts(
        String::from("https://example.org/api/"),
        30,
        broker,
        String::from("postgres://localhost/db"),
    );
    assert_eq!(config.get_api_url(), "https://example.org/api/");
    assert_eq!(config.get_interval_analytic_blocks(), 30);
    assert_eq!(config.get_rabbitmq_config().get_port(), 5552);
    assert_eq!(config.get_database_url(), "postgres://localhost/db");
}
