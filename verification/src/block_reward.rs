//! Block subsidy under the halving schedule.

use vstd::prelude::*;
use vstd::arithmetic::div_mod::{
    lemma_basic_div,
    lemma_div_is_ordered_by_denominator,
    lemma_div_nonincreasing,
    lemma_div_pos_is_pos,
    lemma_div_is_ordered,
};
use vstd::arithmetic::power2::{
    lemma2_to64,
    lemma2_to64_rest,
    lemma_pow2_pos,
    lemma_pow2_strictly_increases,
    pow2,
};
use vstd::bits::lemma_u64_shr_is_div;

verus! {

/// Subsidy of the first era, in the smallest currency unit.
pub const INITIAL_REWARD: i64 = 5_000_000_000;

/// Number of blocks between two halvings.
pub const HALVING_INTERVAL: i64 = 210_000;

/// Number of halvings that have taken place at `height`. Heights below zero
/// belong to the first era.
pub open spec fn halvings_at(height: int) -> nat {
    if height <= 0 {
        0
    } else {
        (height / (HALVING_INTERVAL as int)) as nat
    }
}

/// The subsidy at `height`: the initial subsidy halved once per elapsed
/// era, each halving truncating.
pub open spec fn subsidy_at(height: int) -> int {
    (INITIAL_REWARD as int) / (pow2(halvings_at(height)) as int)
}

/// The initial subsidy after `n` halvings, for `n` that shift no bit out of
/// the word: a right shift by `n` is the truncating division by `2^n`.
proof fn lemma_shift_is_halving(n: u64)
    requires
        n < 64,
    ensures
        (INITIAL_REWARD >> n) == (INITIAL_REWARD as int) / (pow2(n as nat) as int),
{
    let c: i64 = INITIAL_REWARD;
    let cu: u64 = 5_000_000_000u64;
    assert(c >> n == (cu >> n) as i64) by (bit_vector)
        requires
            c == 5_000_000_000i64,
            cu == 5_000_000_000u64,
            n < 64,
    ;
    lemma_u64_shr_is_div(cu, n);
    lemma_pow2_pos(n as nat);
    lemma_div_nonincreasing(cu as int, pow2(n as nat) as int);
}

/// From the thirty-third halving on nothing is left of the subsidy.
proof fn lemma_subsidy_runs_out(n: nat)
    requires
        n >= 33,
    ensures
        (INITIAL_REWARD as int) / (pow2(n) as int) == 0,
{
    lemma2_to64_rest();
    if n > 33 {
        lemma_pow2_strictly_increases(33, n);
    }
    lemma_basic_div(INITIAL_REWARD as int, pow2(n) as int);
}

pub struct BlockRewardCalculator;

impl BlockRewardCalculator {
    /// The subsidy of the block at `block_height`.
    pub fn calculate_block_reward(block_height: i64) -> (reward: i64)
        ensures
            reward == subsidy_at(block_height as int),
            0 <= reward <= INITIAL_REWARD,
    {
        proof {
            lemma_subsidy_bounds(block_height as int);
        }
        if block_height <= 0 {
            proof {
                lemma2_to64();
            }
            return INITIAL_REWARD;
        }
        let halving_count: i64 = block_height / HALVING_INTERVAL;
        if halving_count >= 64 {
            proof {
                lemma_subsidy_runs_out(halving_count as nat);
            }
            return 0;
        }
        let shift: u64 = halving_count as u64;
        proof {
            lemma_shift_is_halving(shift);
        }
        INITIAL_REWARD >> shift
    }
}

/// The subsidy is never negative and never above the initial subsidy.
pub proof fn lemma_subsidy_bounds(height: int)
    ensures
        0 <= subsidy_at(height) <= INITIAL_REWARD,
{
    let d = pow2(halvings_at(height)) as int;
    lemma_pow2_pos(halvings_at(height));
    lemma_div_pos_is_pos(INITIAL_REWARD as int, d);
    lemma_div_nonincreasing(INITIAL_REWARD as int, d);
}

/// At the genesis block the subsidy is the initial one; one interval later
/// it is half of it, two intervals later a quarter.
pub proof fn lemma_subsidy_first_eras()
    ensures
        subsidy_at(0) == INITIAL_REWARD,
        subsidy_at(HALVING_INTERVAL as int) == INITIAL_REWARD / 2,
        subsidy_at(2 * HALVING_INTERVAL) == INITIAL_REWARD / 4,
{
    lemma2_to64();
    assert(halvings_at(0) == 0);
    assert(halvings_at(210_000) == 1);
    assert(halvings_at(420_000) == 2);
}

/// The subsidy never grows with the height.
pub proof fn lemma_subsidy_non_increasing(lower: int, higher: int)
    requires
        lower <= higher,
    ensures
        subsidy_at(higher) <= subsidy_at(lower),
{
    let a = halvings_at(lower);
    let b = halvings_at(higher);
    assert(a <= b) by {
        if lower > 0 {
            lemma_div_is_ordered(lower, higher, HALVING_INTERVAL as int);
        } else if higher > 0 {
            lemma_div_pos_is_pos(higher, HALVING_INTERVAL as int);
        }
    }
    lemma_pow2_pos(a);
    if a < b {
        lemma_pow2_strictly_increases(a, b);
    }
    lemma_div_is_ordered_by_denominator(INITIAL_REWARD as int, pow2(a) as int, pow2(b) as int);
}

} // verus!
