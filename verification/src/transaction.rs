//! A coinbase transaction as the block explorer reports it, and what is
//! read off it: the rewards it pays and the fee it collects.

use vstd::prelude::*;
use crate::block_reward::{subsidy_at, BlockRewardCalculator};

verus! {

/// An optional text as plain values.
pub open spec fn text_view(text: Option<String>) -> Option<Seq<char>> {
    match text {
        Some(t) => Some(t@),
        None => None,
    }
}

/// A list of texts as plain values.
pub open spec fn texts_view(texts: Seq<String>) -> Seq<Seq<char>> {
    texts.map_values(|t: String| t@)
}

/// An input as plain values.
pub ghost struct InputView {
    pub txid: Seq<char>,
    pub vout: u64,
    pub prevout: Option<Seq<char>>,
    pub scriptsig: Seq<char>,
    pub scriptsig_asm: Seq<char>,
    pub witness: Seq<Seq<char>>,
    pub is_coinbase: bool,
    pub sequence: u64,
}

/// An output as plain values.
pub ghost struct OutputView {
    pub scriptpubkey: Seq<char>,
    pub scriptpubkey_asm: Seq<char>,
    pub scriptpubkey_type: Seq<char>,
    pub scriptpubkey_address: Option<Seq<char>>,
    pub value: i64,
}

/// A confirmation status as plain values.
pub ghost struct StatusView {
    pub confirmed: bool,
    pub block_height: i64,
    pub block_hash: Seq<char>,
    pub block_time: u64,
}

/// A transaction as plain values.
pub ghost struct TransactionView {
    pub txid: Seq<char>,
    pub version: u64,
    pub locktime: u64,
    pub vin: Seq<InputView>,
    pub vout: Seq<OutputView>,
    pub size: u32,
    pub weight: u32,
    pub sigops: u32,
    pub status: StatusView,
}

/// Sum of the values of `outs`.
pub open spec fn total_value(outs: Seq<OutputView>) -> int
    decreases outs.len(),
{
    if outs.len() == 0 {
        0
    } else {
        total_value(outs.drop_last()) + outs.last().value
    }
}

/// Whether some output of `outs` pays anything.
pub open spec fn has_reward(outs: Seq<OutputView>) -> bool {
    exists|i: int| 0 <= i < outs.len() && #[trigger] outs[i].value > 0
}

/// Whether output `i` is the main reward of `outs`: it pays something, no
/// output pays more, and every later output pays less.
pub open spec fn is_main_reward(outs: Seq<OutputView>, i: int) -> bool {
    &&& 0 <= i < outs.len()
    &&& outs[i].value > 0
    &&& forall|j: int| 0 <= j < outs.len() ==> #[trigger] outs[j].value <= outs[i].value
    &&& forall|j: int| i < j < outs.len() ==> #[trigger] outs[j].value < outs[i].value
}

/// Index of the main reward of `outs`, if any output pays anything.
pub open spec fn main_reward_index(outs: Seq<OutputView>) -> Option<int> {
    if has_reward(outs) {
        Some(choose|i: int| is_main_reward(outs, i))
    } else {
        None
    }
}

/// The main reward of `outs`, if any output pays anything.
pub open spec fn main_reward(outs: Seq<OutputView>) -> Option<OutputView> {
    match main_reward_index(outs) {
        Some(i) => Some(outs[i]),
        None => None,
    }
}

/// The paying outputs of `outs` that name an address, as pairs of value and
/// address, in order.
pub open spec fn rewards_and_addresses(outs: Seq<OutputView>) -> Seq<(i64, Seq<char>)>
    decreases outs.len(),
{
    if outs.len() == 0 {
        Seq::empty()
    } else {
        let before = rewards_and_addresses(outs.drop_last());
        let last = outs.last();
        if last.value > 0 && last.scriptpubkey_address is Some {
            before.push((last.value, last.scriptpubkey_address->0))
        } else {
            before
        }
    }
}

/// Whether the first input of `vin` is marked coinbase.
pub open spec fn first_input_is_coinbase(vin: Seq<InputView>) -> bool {
    vin.len() > 0 && vin[0].is_coinbase
}

/// The fee that `tx` collects: what its outputs pay above the subsidy of its
/// block, and nothing where they pay less. Only a transaction whose first
/// input is marked coinbase has one.
pub open spec fn fee_of(tx: TransactionView) -> Option<int> {
    if first_input_is_coinbase(tx.vin) {
        let total = total_value(tx.vout);
        let subsidy = subsidy_at(tx.status.block_height as int);
        if total > subsidy {
            Some(total - subsidy)
        } else {
            Some(0)
        }
    } else {
        None
    }
}

/// Pairs of value and address as plain values.
pub open spec fn pairs_view(pairs: Seq<(i64, String)>) -> Seq<(i64, Seq<char>)> {
    pairs.map_values(|p: (i64, String)| (p.0, p.1@))
}

#[derive(Debug, Clone)]
pub struct VectorInputs {
    txid: String,
    vout: u64,
    prevout: Option<String>,
    scriptsig: String,
    scriptsig_asm: String,
    witness: Vec<String>,
    pub is_coinbase: bool,
    sequence: u64,
}

#[derive(Debug, Clone)]
pub struct VectorOutputs {
    scriptpubkey: String,
    scriptpubkey_asm: String,
    scriptpubkey_type: String,
    scriptpubkey_address: Option<String>,
    value: i64,
}

#[derive(Debug, Clone)]
pub struct Status {
    confirmed: bool,
    block_height: i64,
    block_hash: String,
    block_time: u64,
}

/// A transaction. The values of its outputs add up to a number that fits in
/// an `i64`.
#[derive(Debug)]
pub struct Transaction {
    txid: String,
    version: u64,
    locktime: u64,
    vin: Vec<VectorInputs>,
    vout: Vec<VectorOutputs>,
    size: u32,
    weight: u32,
    sigops: u32,
    status: Status,
}

impl View for VectorInputs {
    type V = InputView;

    closed spec fn view(&self) -> InputView {
        InputView {
            txid: self.txid@,
            vout: self.vout,
            prevout: text_view(self.prevout),
            scriptsig: self.scriptsig@,
            scriptsig_asm: self.scriptsig_asm@,
            witness: texts_view(self.witness@),
            is_coinbase: self.is_coinbase,
            sequence: self.sequence,
        }
    }
}

impl View for VectorOutputs {
    type V = OutputView;

    closed spec fn view(&self) -> OutputView {
        OutputView {
            scriptpubkey: self.scriptpubkey@,
            scriptpubkey_asm: self.scriptpubkey_asm@,
            scriptpubkey_type: self.scriptpubkey_type@,
            scriptpubkey_address: text_view(self.scriptpubkey_address),
            value: self.value,
        }
    }
}

impl View for Status {
    type V = StatusView;

    closed spec fn view(&self) -> StatusView {
        StatusView {
            confirmed: self.confirmed,
            block_height: self.block_height,
            block_hash: self.block_hash@,
            block_time: self.block_time,
        }
    }
}

/// A list of inputs as plain values.
pub open spec fn inputs_view(vin: Seq<VectorInputs>) -> Seq<InputView> {
    vin.map_values(|i: VectorInputs| i@)
}

/// A list of outputs as plain values.
pub open spec fn outputs_view(vout: Seq<VectorOutputs>) -> Seq<OutputView> {
    vout.map_values(|o: VectorOutputs| o@)
}

impl View for Transaction {
    type V = TransactionView;

    closed spec fn view(&self) -> TransactionView {
        TransactionView {
            txid: self.txid@,
            version: self.version,
            locktime: self.locktime,
            vin: inputs_view(self.vin@),
            vout: outputs_view(self.vout@),
            size: self.size,
            weight: self.weight,
            sigops: self.sigops,
            status: self.status@,
        }
    }
}

impl VectorInputs {
    pub fn new(
        txid: String,
        vout: u64,
        prevout: Option<String>,
        scriptsig: String,
        scriptsig_asm: String,
        witness: Vec<String>,
        is_coinbase: bool,
        sequence: u64,
    ) -> (input: VectorInputs)
        ensures
            input@ == (InputView {
                txid: txid@,
                vout,
                prevout: text_view(prevout),
                scriptsig: scriptsig@,
                scriptsig_asm: scriptsig_asm@,
                witness: texts_view(witness@),
                is_coinbase,
                sequence,
            }),
    {
        VectorInputs {
            txid,
            vout,
            prevout,
            scriptsig,
            scriptsig_asm,
            witness,
            is_coinbase,
            sequence,
        }
    }

    pub fn get_vin_scriptsig(&self) -> (scriptsig: &str)
        ensures
            scriptsig@ == self@.scriptsig,
    {
        self.scriptsig.as_str()
    }

    pub fn get_is_coinbase(&self) -> (is_coinbase: bool)
        ensures
            is_coinbase == self@.is_coinbase,
    {
        self.is_coinbase
    }
}

impl VectorOutputs {
    pub fn new(
        scriptpubkey: String,
        scriptpubkey_asm: String,
        scriptpubkey_type: String,
        scriptpubkey_address: Option<String>,
        value: i64,
    ) -> (output: VectorOutputs)
        ensures
            output@ == (OutputView {
                scriptpubkey: scriptpubkey@,
                scriptpubkey_asm: scriptpubkey_asm@,
                scriptpubkey_type: scriptpubkey_type@,
                scriptpubkey_address: text_view(scriptpubkey_address),
                value,
            }),
    {
        VectorOutputs { scriptpubkey, scriptpubkey_asm, scriptpubkey_type, scriptpubkey_address, value }
    }

    pub fn get_scriptpubkey_address(&self) -> (address: &Option<String>)
        ensures
            text_view(*address) == self@.scriptpubkey_address,
    {
        &self.scriptpubkey_address
    }

    pub fn get_value(&self) -> (value: i64)
        ensures
            value == self@.value,
    {
        self.value
    }
}

impl Status {
    pub fn new(confirmed: bool, block_height: i64, block_hash: String, block_time: u64) -> (status:
        Status)
        ensures
            status@ == (StatusView { confirmed, block_height, block_hash: block_hash@, block_time }),
    {
        Status { confirmed, block_height, block_hash, block_time }
    }

    pub fn get_block_time(&self) -> (block_time: u64)
        ensures
            block_time == self@.block_time,
    {
        self.block_time
    }

    pub fn get_block_height(&self) -> (block_height: i64)
        ensures
            block_height == self@.block_height,
    {
        self.block_height
    }
}

proof fn lemma_total_value_step(outs: Seq<OutputView>, i: int)
    requires
        0 <= i < outs.len(),
    ensures
        total_value(outs.take(i + 1)) == total_value(outs.take(i)) + outs[i].value,
{
    assert(outs.take(i + 1).drop_last() =~= outs.take(i));
}

proof fn lemma_rewards_step(outs: Seq<OutputView>, i: int)
    requires
        0 <= i < outs.len(),
    ensures
        rewards_and_addresses(outs.take(i + 1)) == if outs[i].value > 0
            && outs[i].scriptpubkey_address is Some {
            rewards_and_addresses(outs.take(i)).push(
                (outs[i].value, outs[i].scriptpubkey_address->0),
            )
        } else {
            rewards_and_addresses(outs.take(i))
        },
{
    assert(outs.take(i + 1).drop_last() =~= outs.take(i));
}

/// Two outputs that are both the main reward are the same output.
pub proof fn lemma_main_reward_unique(outs: Seq<OutputView>, i: int, j: int)
    requires
        is_main_reward(outs, i),
        is_main_reward(outs, j),
    ensures
        i == j,
{
    if i < j {
        assert(outs[j].value < outs[i].value);
        assert(outs[i].value <= outs[j].value);
    } else if j < i {
        assert(outs[i].value < outs[j].value);
        assert(outs[j].value <= outs[i].value);
    }
}

/// Where some output pays anything, one output is the main reward.
pub proof fn lemma_main_reward_exists(outs: Seq<OutputView>)
    requires
        has_reward(outs),
    ensures
        exists|i: int| is_main_reward(outs, i),
    decreases outs.len(),
{
    let last = outs.len() - 1;
    let before = outs.drop_last();
    if has_reward(before) {
        lemma_main_reward_exists(before);
        let k = choose|k: int| is_main_reward(before, k);
        assert(before[k] == outs[k]);
        if outs[last].value > 0 && outs[last].value >= outs[k].value {
            assert forall|j: int| 0 <= j < outs.len() implies #[trigger] outs[j].value
                <= outs[last].value by {
                if j < last {
                    assert(before[j].value <= before[k].value);
                }
            }
            assert(is_main_reward(outs, last));
        } else {
            assert forall|j: int| 0 <= j < outs.len() implies #[trigger] outs[j].value
                <= outs[k].value by {
                if j < last {
                    assert(before[j].value <= before[k].value);
                }
            }
            assert forall|j: int| k < j < outs.len() implies #[trigger] outs[j].value
                < outs[k].value by {
                if j < last {
                    assert(before[j].value < before[k].value);
                }
            }
            assert(is_main_reward(outs, k));
        }
    } else {
        let w = choose|w: int| 0 <= w < outs.len() && #[trigger] outs[w].value > 0;
        if w < last {
            assert(before[w].value > 0);
        }
        assert forall|j: int| 0 <= j < outs.len() implies #[trigger] outs[j].value
            <= outs[last].value by {
            if j < last {
                assert(!(before[j].value > 0));
            }
        }
        assert(is_main_reward(outs, last));
    }
}

/// The index that `main_reward_index` gives is that of the main reward: the
/// output there pays something, none pays more, and every later one pays
/// less.
pub proof fn lemma_main_reward_index_is_main(outs: Seq<OutputView>)
    requires
        has_reward(outs),
    ensures
        main_reward_index(outs) is Some,
        is_main_reward(outs, main_reward_index(outs)->0),
        main_reward(outs) == Some(outs[main_reward_index(outs)->0]),
        main_reward(outs)->0.value > 0,
{
    lemma_main_reward_exists(outs);
}

/// The sum of the values of `vout`, in a type wide enough for any list.
fn sum_outputs(vout: &Vec<VectorOutputs>) -> (sum: i128)
    ensures
        sum == total_value(outputs_view(vout@)),
{
    let ghost outs = outputs_view(vout@);
    let mut sum: i128 = 0;
    let mut i: usize = 0;
    while i < vout.len()
        invariant
            i <= vout.len(),
            outs == outputs_view(vout@),
            sum == total_value(outs.take(i as int)),
            i64::MIN * i <= sum <= i64::MAX * i,
        decreases vout.len() - i,
    {
        proof {
            lemma_total_value_step(outs, i as int);
        }
        sum = sum + vout[i].value as i128;
        i += 1;
    }
    assert(outs.take(i as int) =~= outs);
    sum
}

impl Transaction {
    #[verifier::type_invariant]
    spec fn total_fits(&self) -> bool {
        i64::MIN <= total_value(outputs_view(self.vout@)) <= i64::MAX
    }

    /// A transaction of these parts, unless the values of `vout` add up to a
    /// number outside of `i64`.
    pub fn new(
        txid: String,
        version: u64,
        locktime: u64,
        vin: Vec<VectorInputs>,
        vout: Vec<VectorOutputs>,
        size: u32,
        weight: u32,
        sigops: u32,
        status: Status,
    ) -> (tx: Option<Transaction>)
        ensures
            tx is Some <==> i64::MIN <= total_value(outputs_view(vout@)) <= i64::MAX,
            tx is Some ==> tx->0@ == (TransactionView {
                txid: txid@,
                version,
                locktime,
                vin: inputs_view(vin@),
                vout: outputs_view(vout@),
                size,
                weight,
                sigops,
                status: status@,
            }),
    {
        let total = sum_outputs(&vout);
        if total < i64::MIN as i128 || total > i64::MAX as i128 {
            return None;
        }
        Some(Transaction { txid, version, locktime, vin, vout, size, weight, sigops, status })
    }

    /// The output that pays most among those that pay anything; of several
    /// that pay the same, the last.
    pub fn get_main_reward_vout(&self) -> (main: Option<&VectorOutputs>)
        ensures
            main is Some <==> has_reward(self@.vout),
            main is Some ==> Some(main->0@) == main_reward(self@.vout),
            main is Some ==> is_main_reward(self@.vout, main_reward_index(self@.vout)->0),
            main is Some ==> main->0@.value > 0,
    {
        let ghost outs = outputs_view(self.vout@);
        let mut best: Option<usize> = None;
        let mut i: usize = 0;
        while i < self.vout.len()
            invariant
                i <= self.vout.len(),
                outs == outputs_view(self.vout@),
                best is Some <==> has_reward(outs.take(i as int)),
                best is Some ==> best->0 < i && is_main_reward(outs.take(i as int), best->0 as int),
            decreases self.vout.len() - i,
        {
            let ghost before = outs.take(i as int);
            let ghost after = outs.take(i + 1);
            let value = self.vout[i].value;
            assert(after[i as int].value == value);
            assert forall|j: int| 0 <= j < i implies #[trigger] after[j] == before[j] by {}
            let replace = value > 0 && match best {
                Some(b) => self.vout[b].value <= value,
                None => true,
            };
            if replace {
                proof {
                    assert forall|j: int| 0 <= j < after.len() implies #[trigger] after[j].value
                        <= after[i as int].value by {
                        if j < i {
                            if best is Some {
                                assert(before[j].value <= before[best->0 as int].value);
                            } else {
                                assert(!(before[j].value > 0));
                            }
                        }
                    }
                }
                best = Some(i);
            } else {
                proof {
                    if best is Some {
                        let b = best->0 as int;
                        assert(after[b] == before[b]);
                        assert forall|j: int| 0 <= j < after.len() implies #[trigger] after[j].value
                            <= after[b].value by {
                            if j < i {
                                assert(before[j].value <= before[b].value);
                            }
                        }
                        assert forall|j: int| b < j < after.len() implies #[trigger] after[j].value
                            < after[b].value by {
                            if j < i {
                                assert(before[j].value < before[b].value);
                            }
                        }
                    } else {
                        assert forall|j: int| 0 <= j < after.len() implies !(
                        #[trigger] after[j].value > 0) by {
                            if j < i {
                                assert(!(before[j].value > 0));
                            }
                        }
                    }
                }
            }
            i += 1;
        }
        assert(outs.take(i as int) =~= outs);
        match best {
            Some(b) => {
                proof {
                    let chosen = choose|k: int| is_main_reward(outs, k);
                    lemma_main_reward_unique(outs, b as int, chosen);
                }
                Some(&self.vout[b])
            },
            None => None,
        }
    }

    pub fn get_main_reward_address(&self) -> (address: Option<&Option<String>>)
        ensures
            address is Some <==> has_reward(self@.vout),
            address is Some ==> text_view(*address->0) == main_reward(
                self@.vout,
            )->0.scriptpubkey_address,
    {
        match self.get_main_reward_vout() {
            Some(vout) => Some(vout.get_scriptpubkey_address()),
            None => None,
        }
    }

    pub fn get_main_reward_value(&self) -> (value: Option<i64>)
        ensures
            value is Some <==> has_reward(self@.vout),
            value is Some ==> value->0 == main_reward(self@.vout)->0.value,
            value is Some ==> value->0 > 0,
    {
        match self.get_main_reward_vout() {
            Some(vout) => Some(vout.get_value()),
            None => None,
        }
    }

    /// What the outputs pay in all.
    pub fn get_full_reward_value(&self) -> (total: i64)
        ensures
            total == total_value(self@.vout),
    {
        proof {
            use_type_invariant(self);
        }
        let total = sum_outputs(&self.vout);
        total as i64
    }

    pub fn get_rewards_value_and_address(&self) -> (rewards: Vec<(i64, String)>)
        ensures
            pairs_view(rewards@) == rewards_and_addresses(self@.vout),
    {
        let ghost outs = outputs_view(self.vout@);
        let mut rewards: Vec<(i64, String)> = Vec::new();
        let mut i: usize = 0;
        while i < self.vout.len()
            invariant
                i <= self.vout.len(),
                outs == outputs_view(self.vout@),
                pairs_view(rewards@) == rewards_and_addresses(outs.take(i as int)),
            decreases self.vout.len() - i,
        {
            proof {
                lemma_rewards_step(outs, i as int);
            }
            let vout = &self.vout[i];
            if vout.value > 0 {
                match &vout.scriptpubkey_address {
                    Some(address) => {
                        let pair = (vout.value, address.clone());
                        assert(pairs_view(rewards@.push(pair)) =~= pairs_view(rewards@).push(
                            (pair.0, pair.1@),
                        ));
                        rewards.push(pair);
                    },
                    None => {},
                }
            }
            i += 1;
        }
        assert(outs.take(i as int) =~= outs);
        rewards
    }

    pub fn get_vouts(&self) -> (vouts: &Vec<VectorOutputs>)
        ensures
            outputs_view(vouts@) == self@.vout,
    {
        &self.vout
    }

    /// The script of the first input.
    pub fn get_vin_scriptsig(&self) -> (scriptsig: &str)
        requires
            self@.vin.len() > 0,
        ensures
            scriptsig@ == self@.vin[0].scriptsig,
    {
        let vector_input = &self.vin[0];
        vector_input.get_vin_scriptsig()
    }

    pub fn get_vin_by_id(&self, id: usize) -> (input: Option<&VectorInputs>)
        ensures
            input is Some <==> id < self@.vin.len(),
            input is Some ==> input->0@ == self@.vin[id as int],
    {
        if id < self.vin.len() {
            Some(&self.vin[id])
        } else {
            None
        }
    }

    pub fn get_each_vin(&self) -> (vin: &Vec<VectorInputs>)
        ensures
            inputs_view(vin@) == self@.vin,
    {
        &self.vin
    }

    pub fn get_status(&self) -> (status: &Status)
        ensures
            status@ == self@.status,
    {
        &self.status
    }

    /// The fee that the transaction collects, for a transaction whose first
    /// input is marked coinbase.
    pub fn calculate_fee(&self) -> (fee: Option<i64>)
        ensures
            fee is Some <==> first_input_is_coinbase(self@.vin),
            fee is Some ==> Some(fee->0 as int) == fee_of(self@),
            fee is Some ==> fee->0 >= 0,
            fee is None ==> fee_of(self@) is None,
    {
        if self.vin.len() == 0 || !self.vin[0].is_coinbase {
            return None;
        }
        let block_height = self.status.block_height;
        let current_block_reward = BlockRewardCalculator::calculate_block_reward(block_height);
        let total_output_value = self.get_full_reward_value();
        if total_output_value > current_block_reward {
            Some(total_output_value - current_block_reward)
        } else {
            Some(0)
        }
    }
}

/// A fee is never negative, and a transaction whose first input is not
/// marked coinbase has none.
pub proof fn lemma_fee_never_negative(tx: TransactionView)
    ensures
        fee_of(tx) is Some ==> fee_of(tx)->0 >= 0,
        !first_input_is_coinbase(tx.vin) ==> fee_of(tx) is None,
{
}

} // verus!
