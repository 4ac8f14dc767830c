//! What the block source adapter decides: where to ask, and what to make of
//! each answer once it has been read.

use vstd::prelude::*;
use vstd::string::StringExecFns;
use crate::block::{Block, BlockView};
use crate::namespace::{uri_of, NameSpaceApi};
use crate::transaction::{first_input_is_coinbase, texts_view, Transaction};

verus! {

/// Why an answer of the block explorer is of no use.
#[derive(Debug, Clone, Copy, PartialEq, Eq)]
pub enum FetchError {
    /// The block lists no transaction.
    EmptyTxidList,
    /// The first input of the transaction is not marked coinbase.
    NotCoinbase,
}

/// A list of blocks as plain values.
pub open spec fn blocks_view(blocks: Seq<Block>) -> Seq<BlockView> {
    blocks.map_values(|b: Block| b@)
}

/// The address to ask for `ns`: the base address with the path behind it.
pub fn endpoint_url(base: &str, ns: &NameSpaceApi) -> (url: String)
    ensures
        url@ == base@ + uri_of(*ns),
{
    let path = ns.get_uri_by_ns();
    String::from_str(base).concat(path.as_str())
}

/// The latest blocks, from an answer that was read as a list of blocks or
/// could not be: an answer of another shape stands for no blocks.
pub fn latest_blocks_from(parsed: Option<Vec<Block>>) -> (blocks: Vec<Block>)
    ensures
        match parsed {
            Some(list) => blocks == list,
            None => blocks@.len() == 0,
        },
{
    match parsed {
        Some(list) => list,
        None => Vec::new(),
    }
}

/// The id of the coinbase transaction of a block: the first of the ids that
/// the block lists.
pub fn coinbase_tx_id_from(txids: &Vec<String>) -> (txid: Result<String, FetchError>)
    ensures
        txid is Ok <==> txids@.len() > 0,
        txid is Ok ==> txid->Ok_0@ == texts_view(txids@)[0],
        txid is Err ==> txid->Err_0 == FetchError::EmptyTxidList,
{
    if txids.len() == 0 {
        return Err(FetchError::EmptyTxidList);
    }
    Ok(txids[0].clone())
}

/// The transaction itself where its first input is marked coinbase.
pub fn coinbase_from(tx: Transaction) -> (coinbase: Result<Transaction, FetchError>)
    ensures
        coinbase is Ok <==> first_input_is_coinbase(tx@.vin),
        coinbase is Ok ==> coinbase->Ok_0 == tx,
        coinbase is Err ==> coinbase->Err_0 == FetchError::NotCoinbase,
{
    let is_coinbase = match tx.get_vin_by_id(0) {
        Some(vin) => vin.get_is_coinbase(),
        None => false,
    };
    if is_coinbase {
        Ok(tx)
    } else {
        Err(FetchError::NotCoinbase)
    }
}

} // verus!
