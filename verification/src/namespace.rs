//! The paths of the block explorer's API.

use vstd::prelude::*;
use vstd::string::StringExecFns;
use crate::script_sig::{ascii_text, ascii_to_string};

verus! {

/// The decimal digits of `n`, as ASCII bytes.
pub open spec fn decimal_bytes(n: nat) -> Seq<u8>
    decreases n,
{
    if n < 10 {
        seq![(48 + n) as u8]
    } else {
        decimal_bytes(n / 10).push((48 + n % 10) as u8)
    }
}

/// `n` written in decimal.
pub open spec fn decimal_text(n: nat) -> Seq<char> {
    ascii_text(decimal_bytes(n))
}

pub enum NameSpaceApi {
    Blocks(Option<u64>),
    _BlockByHash(String),
    _BlockByHashCoinbase(String),
    _BlockTxs(String),
    BlockTxids(String),
    TxById(String),
}

/// The path that `ns` stands for, relative to the base address.
pub open spec fn uri_of(ns: NameSpaceApi) -> Seq<char> {
    match ns {
        NameSpaceApi::Blocks(None) => "blocks/"@,
        NameSpaceApi::Blocks(Some(height)) => "blocks/"@ + decimal_text(height as nat),
        NameSpaceApi::_BlockByHash(block_hash) => "block/"@ + block_hash@,
        NameSpaceApi::_BlockByHashCoinbase(block_hash) => "block/"@ + block_hash@ + "/txs/0"@,
        NameSpaceApi::_BlockTxs(block_hash) => "block/"@ + block_hash@ + "/txs"@,
        NameSpaceApi::BlockTxids(block_hash) => "block/"@ + block_hash@ + "/txids"@,
        NameSpaceApi::TxById(tx_id) => "tx/"@ + tx_id@,
    }
}

/// Every byte of a decimal number is a digit.
pub proof fn lemma_decimal_is_digits(n: nat)
    ensures
        decimal_bytes(n).len() >= 1,
        forall|i: int| 0 <= i < decimal_bytes(n).len() ==> 48 <= #[trigger] decimal_bytes(n)[i] <= 57,
    decreases n,
{
    if n >= 10 {
        lemma_decimal_is_digits(n / 10);
    }
}

/// Appends the decimal digits of `n` to `out`.
fn push_decimal(n: u64, out: &mut Vec<u8>)
    ensures
        final(out)@ == old(out)@ + decimal_bytes(n as nat),
    decreases n,
{
    if n >= 10 {
        push_decimal(n / 10, out);
    }
    let digit: u8 = 48 + (n % 10) as u8;
    out.push(digit);
    proof {
        if n >= 10 {
            assert(old(out)@ + decimal_bytes(n as nat) =~= (old(out)@ + decimal_bytes(
                (n / 10) as nat,
            )).push(digit));
        } else {
            assert(old(out)@ + decimal_bytes(n as nat) =~= old(out)@.push(digit));
        }
    }
}

/// `n` written in decimal.
pub fn decimal_string(n: u64) -> (text: String)
    ensures
        text@ == decimal_text(n as nat),
{
    let mut digits: Vec<u8> = Vec::new();
    push_decimal(n, &mut digits);
    proof {
        lemma_decimal_is_digits(n as nat);
        assert(digits@ =~= decimal_bytes(n as nat));
    }
    ascii_to_string(digits.as_slice())
}

impl NameSpaceApi {
    pub fn get_uri_by_ns(&self) -> (uri: String)
        ensures
            uri@ == uri_of(*self),
    {
        match self {
            NameSpaceApi::Blocks(from) => {
                let uri = String::from_str("blocks/");
                match from {
                    Some(height) => uri.concat(decimal_string(*height).as_str()),
                    None => uri,
                }
            },
            NameSpaceApi::_BlockByHash(block_hash) => {
                String::from_str("block/").concat(block_hash.as_str())
            },
            NameSpaceApi::_BlockByHashCoinbase(block_hash) => {
                String::from_str("block/").concat(block_hash.as_str()).concat("/txs/0")
            },
            NameSpaceApi::_BlockTxs(block_hash) => {
                String::from_str("block/").concat(block_hash.as_str()).concat("/txs")
            },
            NameSpaceApi::BlockTxids(block_hash) => {
                String::from_str("block/").concat(block_hash.as_str()).concat("/txids")
            },
            NameSpaceApi::TxById(tx_id) => { String::from_str("tx/").concat(tx_id.as_str()) },
        }
    }
}

} // verus!
