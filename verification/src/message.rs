//! The analytics record of one block: what crosses the stream between the
//! producer and the consumer.

use vstd::prelude::*;
use crate::block::{height_as_u32, Block, BlockView};
use crate::transaction::{
    fee_of,
    main_reward,
    pairs_view,
    rewards_and_addresses,
    text_view,
    total_value,
    Transaction,
    TransactionView,
};

verus! {

/// What a record says of the coinbase transaction, as plain values.
pub ghost struct CoinbaseInfoView {
    pub main_reward: Option<i64>,
    pub miner_address: Option<Seq<char>>,
    pub full_reward: i64,
    pub fee: i64,
    pub guessed_miner: Seq<char>,
    pub rewards_and_addresses: Seq<(i64, Seq<char>)>,
}

/// A record as plain values. The difficulty is held by the bits of its
/// floating-point number.
pub ghost struct MessageView {
    pub height: u32,
    pub block_hash: Seq<char>,
    pub timestamp: u64,
    pub size: u64,
    pub merkle_root: Seq<char>,
    pub difficulty_bits: u64,
    pub transactions_count: u64,
    pub coinbase_info: CoinbaseInfoView,
}

#[derive(Debug)]
pub struct BlockAnalyticsMessage {
    pub height: u32,
    pub block_hash: String,
    pub timestamp: u64,
    pub size: u64,
    pub merkle_root: String,
    pub difficulty_bits: u64,
    pub transactions_count: u64,
    pub coinbase_info: CoinbaseInfo,
}

#[derive(Debug)]
pub struct CoinbaseInfo {
    pub main_reward: Option<i64>,
    pub miner_address: Option<String>,
    pub full_reward: i64,
    pub fee: i64,
    pub guessed_miner: String,
    pub rewards_and_addresses: Vec<(i64, String)>,
}

impl View for CoinbaseInfo {
    type V = CoinbaseInfoView;

    open spec fn view(&self) -> CoinbaseInfoView {
        CoinbaseInfoView {
            main_reward: self.main_reward,
            miner_address: text_view(self.miner_address),
            full_reward: self.full_reward,
            fee: self.fee,
            guessed_miner: self.guessed_miner@,
            rewards_and_addresses: pairs_view(self.rewards_and_addresses@),
        }
    }
}

impl View for BlockAnalyticsMessage {
    type V = MessageView;

    open spec fn view(&self) -> MessageView {
        MessageView {
            height: self.height,
            block_hash: self.block_hash@,
            timestamp: self.timestamp,
            size: self.size,
            merkle_root: self.merkle_root@,
            difficulty_bits: self.difficulty_bits,
            transactions_count: self.transactions_count,
            coinbase_info: self.coinbase_info@,
        }
    }
}

/// A list of records as plain values.
pub open spec fn messages_view(messages: Seq<BlockAnalyticsMessage>) -> Seq<MessageView> {
    messages.map_values(|m: BlockAnalyticsMessage| m@)
}

/// What the record of a block says of its coinbase transaction `tx`, with
/// the miner tag `guessed_miner`. A transaction without a fee counts as one
/// with the fee zero.
pub open spec fn coinbase_info_of(tx: TransactionView, guessed_miner: Seq<char>) -> CoinbaseInfoView {
    CoinbaseInfoView {
        main_reward: match main_reward(tx.vout) {
            Some(out) => Some(out.value),
            None => None,
        },
        miner_address: match main_reward(tx.vout) {
            Some(out) => out.scriptpubkey_address,
            None => None,
        },
        full_reward: total_value(tx.vout) as i64,
        fee: match fee_of(tx) {
            Some(fee) => fee as i64,
            None => 0,
        },
        guessed_miner,
        rewards_and_addresses: rewards_and_addresses(tx.vout),
    }
}

/// The record of `block` with the coinbase transaction `tx` and the miner tag
/// `guessed_miner`.
pub open spec fn message_of(block: BlockView, tx: TransactionView, guessed_miner: Seq<char>) -> MessageView {
    MessageView {
        height: height_as_u32(block.height),
        block_hash: block.id,
        timestamp: block.timestamp,
        size: block.size,
        merkle_root: block.merkle_root,
        difficulty_bits: block.difficulty_bits,
        transactions_count: block.tx_count,
        coinbase_info: coinbase_info_of(tx, guessed_miner),
    }
}

impl BlockAnalyticsMessage {
    /// The record of `block`, whose coinbase transaction is `coinbase` and
    /// whose miner was guessed to be `guessed_miner`.
    pub fn build(block: &Block, coinbase: &Transaction, guessed_miner: String) -> (message:
        BlockAnalyticsMessage)
        ensures
            message@ == message_of(block@, coinbase@, guessed_miner@),
    {
        let miner_address: Option<String> = match coinbase.get_main_reward_address() {
            Some(address) => match address {
                Some(text) => Some(text.clone()),
                None => None,
            },
            None => None,
        };
        let fee: i64 = match coinbase.calculate_fee() {
            Some(fee) => fee,
            None => 0,
        };
        let merkle_root = block.get_merkle_root();
        BlockAnalyticsMessage {
            height: block.get_height(),
            block_hash: block.get_id(),
            timestamp: block.get_timestamp(),
            size: block.get_size(),
            merkle_root: merkle_root.to_owned(),
            difficulty_bits: block.get_difficulty_bits(),
            transactions_count: block.get_tx_count(),
            coinbase_info: CoinbaseInfo {
                main_reward: coinbase.get_main_reward_value(),
                miner_address,
                fee,
                full_reward: coinbase.get_full_reward_value(),
                guessed_miner,
                rewards_and_addresses: coinbase.get_rewards_value_and_address(),
            },
        }
    }
}

} // verus!
