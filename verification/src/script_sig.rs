//! Decoding of a coinbase input script into height, timestamp, miner tag and
//! extra nonce.
//!
//! The script is split into instructions by the `bitcoin` crate; everything
//! after that split is decided here.

use bitcoin::blockdata::script::Instruction;
use bitcoin::blockdata::script::Script;
use vstd::prelude::*;
use vstd::slice::{slice_subrange, slice_to_vec};

verus! {

/// The instructions of `script` in order, as `bitcoin::Script::instructions`
/// yields them: `Some` with the pushed bytes for a data push, `None` for any
/// other item.
pub uninterp spec fn script_instructions(script: Seq<u8>) -> Seq<Option<Seq<u8>>>;

/// An instruction as plain values.
pub open spec fn item_view(item: Option<Vec<u8>>) -> Option<Seq<u8>> {
    match item {
        Some(bytes) => Some(bytes@),
        None => None,
    }
}

/// A list of instructions as plain values.
pub open spec fn items_view(items: Seq<Option<Vec<u8>>>) -> Seq<Option<Seq<u8>>> {
    items.map_values(|item: Option<Vec<u8>>| item_view(item))
}

/// A list of byte strings as plain values.
pub open spec fn pushes_view(pushes: Seq<Vec<u8>>) -> Seq<Seq<u8>> {
    pushes.map_values(|bytes: Vec<u8>| bytes@)
}

/// The data pushes among `items`, in order.
pub open spec fn pushes_of(items: Seq<Option<Seq<u8>>>) -> Seq<Seq<u8>>
    decreases items.len(),
{
    if items.len() == 0 {
        Seq::empty()
    } else {
        match items.last() {
            Some(bytes) => pushes_of(items.drop_last()).push(bytes),
            None => pushes_of(items.drop_last()),
        }
    }
}

/// The number that `bytes` spell in little-endian order.
pub open spec fn le_value(bytes: Seq<u8>) -> nat
    decreases bytes.len(),
{
    if bytes.len() == 0 {
        0
    } else {
        bytes[0] as nat + 256 * le_value(bytes.drop_first())
    }
}

pub const SPACE: u8 = 0x20;

/// Printable ASCII, the space included.
pub open spec fn is_printable(byte: u8) -> bool {
    0x20 <= byte <= 0x7e
}

/// Length of the longest prefix of `bytes` that is printable throughout.
pub open spec fn printable_prefix_len(bytes: Seq<u8>) -> nat
    decreases bytes.len(),
{
    if bytes.len() == 0 || !is_printable(bytes[0]) {
        0
    } else {
        1 + printable_prefix_len(bytes.drop_first())
    }
}

/// `bytes` without its leading spaces.
pub open spec fn trim_start(bytes: Seq<u8>) -> Seq<u8>
    decreases bytes.len(),
{
    if bytes.len() > 0 && bytes[0] == SPACE {
        trim_start(bytes.drop_first())
    } else {
        bytes
    }
}

/// `bytes` without its trailing spaces.
pub open spec fn trim_end(bytes: Seq<u8>) -> Seq<u8>
    decreases bytes.len(),
{
    if bytes.len() > 0 && bytes.last() == SPACE {
        trim_end(bytes.drop_last())
    } else {
        bytes
    }
}

/// `bytes` without the spaces at either end.
pub open spec fn trimmed(bytes: Seq<u8>) -> Seq<u8> {
    trim_end(trim_start(bytes))
}

/// The text that ASCII `bytes` spell.
pub open spec fn ascii_text(bytes: Seq<u8>) -> Seq<char> {
    Seq::new(bytes.len(), |i: int| bytes[i] as char)
}

/// The miner tag in `label`: its printable prefix, trimmed.
pub open spec fn miner_tag(label: Seq<u8>) -> Seq<char> {
    ascii_text(trimmed(label.take(printable_prefix_len(label) as int)))
}

/// What follows the printable prefix of `label`.
pub open spec fn nonce_of(label: Seq<u8>) -> Seq<u8> {
    label.skip(printable_prefix_len(label) as int)
}

/// The timestamp in the second push, if that push is short enough to be one.
pub open spec fn timestamp_of(pushes: Seq<Seq<u8>>) -> Option<u64>
    recommends
        pushes.len() >= 2,
{
    if pushes[1].len() <= 8 {
        Some(le_value(pushes[1]) as u64)
    } else {
        None
    }
}

/// Index of the push that holds the miner tag: the one after the timestamp
/// where there is a timestamp, else the second.
pub open spec fn label_index(pushes: Seq<Seq<u8>>) -> int
    recommends
        pushes.len() >= 2,
{
    if pushes[1].len() <= 8 {
        2
    } else {
        1
    }
}

/// Whether `pushes` can be decoded: at least two of them, a height of at most
/// four bytes, and a push for the miner tag.
pub open spec fn decodable(pushes: Seq<Seq<u8>>) -> bool {
    &&& pushes.len() >= 2
    &&& pushes[0].len() <= 4
    &&& label_index(pushes) < pushes.len()
}

/// A decoded coinbase script as plain values.
pub ghost struct ParsedScriptSigView {
    pub block_height: u32,
    pub guessed_miner: Seq<char>,
    pub timestamp_sec: Option<u64>,
    pub extra_nonce: Seq<u8>,
    pub coinbase_raw: Seq<u8>,
    pub raw_pushes: Seq<Seq<u8>>,
}

/// The decoding of the pushes of a script whose bytes are `raw`.
pub open spec fn parse_pushes(raw: Seq<u8>, pushes: Seq<Seq<u8>>) -> Option<ParsedScriptSigView> {
    if decodable(pushes) {
        Some(
            ParsedScriptSigView {
                block_height: le_value(pushes[0]) as u32,
                guessed_miner: miner_tag(pushes[label_index(pushes)]),
                timestamp_sec: timestamp_of(pushes),
                extra_nonce: nonce_of(pushes[label_index(pushes)]),
                coinbase_raw: raw,
                raw_pushes: pushes,
            },
        )
    } else {
        None
    }
}

/// The decoding of a script from its bytes.
pub open spec fn decode(script: Seq<u8>) -> Option<ParsedScriptSigView> {
    parse_pushes(script, pushes_of(script_instructions(script)))
}

/// What a coinbase input script was found to hold.
#[derive(Debug)]
pub struct ParsedScriptSig {
    pub block_height: u32,
    pub guessed_miner: String,
    pub timestamp_sec: Option<u64>,
    pub extra_nonce: Vec<u8>,
    pub coinbase_raw: Vec<u8>,
    pub raw_pushes: Vec<Vec<u8>>,
}

impl View for ParsedScriptSig {
    type V = ParsedScriptSigView;

    open spec fn view(&self) -> ParsedScriptSigView {
        ParsedScriptSigView {
            block_height: self.block_height,
            guessed_miner: self.guessed_miner@,
            timestamp_sec: self.timestamp_sec,
            extra_nonce: self.extra_nonce@,
            coinbase_raw: self.coinbase_raw@,
            raw_pushes: pushes_view(self.raw_pushes@),
        }
    }
}

/// Splits a script into its instructions with
/// `bitcoin::Script::instructions`. The result is the list that
/// `script_instructions` names: for each instruction in order the pushed
/// bytes, or `None` where it is an opcode or could not be read.
#[verifier::external_body]
fn read_instructions(script: &[u8]) -> (items: Vec<Option<Vec<u8>>>)
    ensures
        items_view(items@) == script_instructions(script@),
{
    let mut items = Vec::new();
    for instruction in Script::from_bytes(script).instructions() {
        items.push(
            match instruction {
                Ok(Instruction::PushBytes(bytes)) => Some(bytes.as_bytes().to_vec()),
                Ok(Instruction::Op(_)) => None,
                Err(_) => None,
            },
        );
    }
    items
}

/// Turns ASCII bytes into a `String` with `String::from_utf8_lossy`, which
/// keeps valid UTF-8 as it is: each byte below 128 becomes the character with
/// that code.
#[verifier::external_body]
pub(crate) fn ascii_to_string(bytes: &[u8]) -> (text: String)
    requires
        forall|i: int| 0 <= i < bytes@.len() ==> bytes@[i] < 0x80,
    ensures
        text@ == ascii_text(bytes@),
{
    String::from_utf8_lossy(bytes).into_owned()
}

/// 256 to the power `n`.
pub open spec fn pow256(n: nat) -> nat
    decreases n,
{
    if n == 0 {
        1
    } else {
        256 * pow256((n - 1) as nat)
    }
}

/// A little-endian number of `n` bytes is below 256 to the power `n`.
pub proof fn lemma_le_value_bound(bytes: Seq<u8>)
    ensures
        le_value(bytes) < pow256(bytes.len()),
    decreases bytes.len(),
{
    if bytes.len() > 0 {
        lemma_le_value_bound(bytes.drop_first());
    }
}

proof fn lemma_pushes_of_step(items: Seq<Option<Seq<u8>>>, i: int)
    requires
        0 <= i < items.len(),
    ensures
        pushes_of(items.take(i + 1)) == match items[i] {
            Some(bytes) => pushes_of(items.take(i)).push(bytes),
            None => pushes_of(items.take(i)),
        },
{
    assert(items.take(i + 1).drop_last() =~= items.take(i));
}

proof fn lemma_printable_prefix(bytes: Seq<u8>, n: int)
    requires
        0 <= n <= bytes.len(),
        forall|j: int| 0 <= j < n ==> is_printable(bytes[j]),
        n == bytes.len() || !is_printable(bytes[n]),
    ensures
        printable_prefix_len(bytes) == n,
    decreases n,
{
    if n > 0 {
        lemma_printable_prefix(bytes.drop_first(), n - 1);
    }
}

proof fn lemma_trim_start(bytes: Seq<u8>, n: int)
    requires
        0 <= n <= bytes.len(),
        forall|j: int| 0 <= j < n ==> bytes[j] == SPACE,
        n == bytes.len() || bytes[n] != SPACE,
    ensures
        trim_start(bytes) == bytes.skip(n),
    decreases n,
{
    if n > 0 {
        lemma_trim_start(bytes.drop_first(), n - 1);
        assert(bytes.drop_first().skip(n - 1) =~= bytes.skip(n));
    } else {
        assert(bytes.skip(0) =~= bytes);
    }
}

proof fn lemma_trim_end(bytes: Seq<u8>, n: int)
    requires
        0 <= n <= bytes.len(),
        forall|j: int| n <= j < bytes.len() ==> bytes[j] == SPACE,
        n == 0 || bytes[n - 1] != SPACE,
    ensures
        trim_end(bytes) == bytes.take(n),
    decreases bytes.len() - n,
{
    if n < bytes.len() {
        lemma_trim_end(bytes.drop_last(), n);
        assert(bytes.drop_last().take(n) =~= bytes.take(n));
    } else {
        assert(bytes.take(n) =~= bytes);
    }
}

/// The data pushes among `items`, in order.
pub fn collect_pushes(items: &Vec<Option<Vec<u8>>>) -> (pushes: Vec<Vec<u8>>)
    ensures
        pushes_view(pushes@) == pushes_of(items_view(items@)),
{
    let mut pushes: Vec<Vec<u8>> = Vec::new();
    let mut i: usize = 0;
    while i < items.len()
        invariant
            i <= items.len(),
            pushes_view(pushes@) == pushes_of(items_view(items@).take(i as int)),
        decreases items.len() - i,
    {
        proof {
            lemma_pushes_of_step(items_view(items@), i as int);
        }
        match &items[i] {
            Some(bytes) => {
                let copy = slice_to_vec(bytes.as_slice());
                assert(pushes_view(pushes@.push(copy)) =~= pushes_view(pushes@).push(bytes@));
                pushes.push(copy);
            },
            None => {},
        }
        i += 1;
    }
    assert(items_view(items@).take(i as int) =~= items_view(items@));
    pushes
}

/// The number that at most eight `bytes` spell in little-endian order.
pub fn le_u64(bytes: &[u8]) -> (value: u64)
    requires
        bytes@.len() <= 8,
    ensures
        value == le_value(bytes@),
{
    let mut value: u64 = 0;
    let mut i: usize = bytes.len();
    while i > 0
        invariant
            i <= bytes@.len() <= 8,
            value == le_value(bytes@.skip(i as int)),
            value < pow256((bytes@.len() - i) as nat),
        decreases i,
    {
        proof {
            reveal_with_fuel(pow256, 9);
            assert(bytes@.skip(i - 1).drop_first() =~= bytes@.skip(i as int));
        }
        i -= 1;
        value = value * 256 + bytes[i] as u64;
    }
    assert(bytes@.skip(0) =~= bytes@);
    value
}

/// Length of the longest prefix of `bytes` that is printable throughout.
pub fn printable_len(bytes: &[u8]) -> (n: usize)
    ensures
        n == printable_prefix_len(bytes@),
        n <= bytes@.len(),
        forall|j: int| 0 <= j < n ==> is_printable(bytes@[j]),
{
    let mut n: usize = 0;
    while n < bytes.len() && 0x20 <= bytes[n] && bytes[n] <= 0x7e
        invariant
            n <= bytes@.len(),
            forall|j: int| 0 <= j < n ==> is_printable(bytes@[j]),
        decreases bytes@.len() - n,
    {
        n += 1;
    }
    proof {
        lemma_printable_prefix(bytes@, n as int);
    }
    n
}

/// The bounds of `bytes` without the spaces at either end.
pub fn trim_bounds(bytes: &[u8]) -> (bounds: (usize, usize))
    ensures
        bounds.0 <= bounds.1 <= bytes@.len(),
        bytes@.subrange(bounds.0 as int, bounds.1 as int) == trimmed(bytes@),
{
    let mut start: usize = 0;
    while start < bytes.len() && bytes[start] == SPACE
        invariant
            start <= bytes@.len(),
            forall|j: int| 0 <= j < start ==> bytes@[j] == SPACE,
        decreases bytes@.len() - start,
    {
        start += 1;
    }
    let mut end: usize = bytes.len();
    while end > start && bytes[end - 1] == SPACE
        invariant
            start <= end <= bytes@.len(),
            forall|j: int| end <= j < bytes@.len() ==> bytes@[j] == SPACE,
        decreases end,
    {
        end -= 1;
    }
    proof {
        let rest = bytes@.skip(start as int);
        lemma_trim_start(bytes@, start as int);
        lemma_trim_end(rest, end - start);
        assert(rest.take(end - start) =~= bytes@.subrange(start as int, end as int));
    }
    (start, end)
}

impl ParsedScriptSig {
    /// Decodes a coinbase input script. There is no result where the script
    /// has fewer than two data pushes, where the first push is longer than
    /// the four bytes of a height, or where no push is left for the miner
    /// tag.
    pub fn from(script: &[u8]) -> (parsed: Option<ParsedScriptSig>)
        ensures
            parsed is Some <==> decode(script@) is Some,
            parsed is Some ==> parsed->0@ == decode(script@)->0,
            pushes_of(script_instructions(script@)).len() < 2 ==> parsed is None,
    {
        let items = read_instructions(script);
        let pushes = collect_pushes(&items);
        ParsedScriptSig::from_pushes(slice_to_vec(script), pushes)
    }

    /// Decodes the data pushes of a script whose bytes are `raw`.
    pub fn from_pushes(raw: Vec<u8>, pushes: Vec<Vec<u8>>) -> (parsed: Option<ParsedScriptSig>)
        ensures
            parsed is Some <==> decodable(pushes_view(pushes@)),
            parsed is Some ==> parsed->0@ == parse_pushes(raw@, pushes_view(pushes@))->0,
    {
        if pushes.len() < 2 {
            return None;
        }
        if pushes[0].len() > 4 {
            return None;
        }
        let height = le_u64(pushes[0].as_slice());
        proof {
            lemma_le_value_bound(pushes[0]@);
            reveal_with_fuel(pow256, 5);
        }
        let block_height: u32 = height as u32;

        let timestamp_sec: Option<u64> = if pushes[1].len() <= 8 {
            Some(le_u64(pushes[1].as_slice()))
        } else {
            None
        };
        let label_idx: usize = if timestamp_sec.is_some() {
            2
        } else {
            1
        };
        if label_idx >= pushes.len() {
            return None;
        }
        let label = pushes[label_idx].as_slice();
        let split_at = printable_len(label);
        let prefix = slice_subrange(label, 0, split_at);
        let (start, end) = trim_bounds(prefix);
        let tag_bytes = slice_subrange(prefix, start, end);
        assert forall|i: int| 0 <= i < tag_bytes@.len() implies tag_bytes@[i] < 0x80 by {
            assert(tag_bytes@[i] == label@[start + i]);
            assert(is_printable(label@[start + i]));
        }
        let guessed_miner = ascii_to_string(tag_bytes);
        let extra_nonce = slice_to_vec(slice_subrange(label, split_at, label.len()));
        Some(
            ParsedScriptSig {
                block_height,
                guessed_miner,
                timestamp_sec,
                extra_nonce,
                coinbase_raw: raw,
                raw_pushes: pushes,
            },
        )
    }
}

/// The decoding depends on the bytes of the script alone: equal scripts
/// decode alike.
pub proof fn lemma_decode_deterministic(first: Seq<u8>, second: Seq<u8>)
    requires
        first =~= second,
    ensures
        decode(first) == decode(second),
{
}

/// A script with fewer than two data pushes does not decode.
pub proof fn lemma_too_few_pushes(script: Seq<u8>)
    requires
        pushes_of(script_instructions(script)).len() < 2,
    ensures
        decode(script) is None,
{
}

} // verus!
