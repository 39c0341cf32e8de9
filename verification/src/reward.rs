//! The reward calculator: a pure function from (correctness count, stake,
//! settlement time, owner's low identity byte) to the bonus and total reward.

use vstd::prelude::*;
use vstd::arithmetic::div_mod::lemma_div_is_ordered;
use vstd::arithmetic::mul::lemma_mul_inequality;

verus! {

/// The smallest stake a session may be opened with.
pub const MINIMUM_STAKE: u64 = 1000000;

/// How long, in time units after it was opened, a session may still be
/// settled.
pub const EXPIRY_WINDOW: i64 = 3600;

/// The seed the bonus percentage is drawn from: the settlement time XORed
/// with the owner's low identity byte. Both inputs are externally visible,
/// so the seed is predictable; that weakness is kept deliberately, since
/// strengthening it would change settlement outcomes.
pub open spec fn seed_spec(now: i64, user_low: u8) -> u64 {
    (now as u64) ^ (user_low as u64)
}

/// The bonus percentage for a given correctness count and seed: 10..=90 for
/// a perfect score (three or more correct), 5..=25 for a good score (exactly
/// two correct), and 0 below that (the tier where no reward is paid at all).
pub open spec fn bonus_percent_spec(correct: u8, seed: u64) -> int {
    if correct >= 3 {
        10 + (seed as int) % 81
    } else if correct >= 2 {
        5 + (seed as int) % 21
    } else {
        0
    }
}

/// The bonus paid on top of the returned stake:
/// `floor(amount * bonusPercent / 100)`.
pub open spec fn bonus_spec(correct: u8, amount: u64, now: i64, user_low: u8) -> int {
    amount * bonus_percent_spec(correct, seed_spec(now, user_low)) / 100
}

/// The total reward a settlement pays: the stake plus the bonus when at
/// least two answers were correct, nothing otherwise (the stake is
/// forfeited to the vault).
pub open spec fn total_reward_spec(correct: u8, amount: u64, now: i64, user_low: u8) -> int {
    if correct >= 2 {
        amount + bonus_spec(correct, amount, now, user_low)
    } else {
        0
    }
}

/// The bonus percentage always falls in the tier's advertised range, and the
/// reward of a winning settlement is always the stake plus
/// `floor(stake * bonusPercent / 100)`.
pub proof fn lemma_bonus_tiers(correct: u8, amount: u64, now: i64, user_low: u8)
    ensures
        correct == 2 ==> 5 <= bonus_percent_spec(correct, seed_spec(now, user_low)) <= 25,
        correct >= 3 ==> 10 <= bonus_percent_spec(correct, seed_spec(now, user_low)) <= 90,
        correct >= 2 ==> total_reward_spec(correct, amount, now, user_low) == amount + amount
            * bonus_percent_spec(correct, seed_spec(now, user_low)) / 100,
        correct < 2 ==> total_reward_spec(correct, amount, now, user_low) == 0,
{
    let seed = seed_spec(now, user_low);
    assert(0 <= (seed as int) % 81 < 81);
    assert(0 <= (seed as int) % 21 < 21);
}

/// The bonus never exceeds the stake itself: the percentage is at most 90,
/// so `floor(amount * p / 100) <= amount`.
pub proof fn lemma_bonus_bounded(correct: u8, amount: u64, now: i64, user_low: u8)
    ensures
        0 <= bonus_spec(correct, amount, now, user_low) <= amount,
        0 <= total_reward_spec(correct, amount, now, user_low) <= 2 * amount,
{
    let p = bonus_percent_spec(correct, seed_spec(now, user_low));
    assert(0 <= p <= 90);
    lemma_mul_inequality(p, 100, amount as int);
    assert(amount * p == p * amount) by (nonlinear_arith);
    assert(amount * 100 == 100 * amount) by (nonlinear_arith);
    lemma_div_is_ordered(amount * p, amount * 100, 100);
    assert(amount * 100 / 100 == amount) by (nonlinear_arith);
    assert(0 <= amount * p) by (nonlinear_arith)
        requires 0 <= p,
    ;
    assert(0 <= amount * p / 100);
}

/// Computes the bonus for a settlement. Mirrors `bonus_spec` exactly; the
/// multiplication is carried out in a 128-bit domain so the intermediate
/// product cannot wrap.
pub fn calculate_bonus(correct_answer_count: u8, amount_paid: u64, now: i64, user_low: u8) -> (bonus: u64)
    requires
        0 <= now,
    ensures
        bonus == bonus_spec(correct_answer_count, amount_paid, now, user_low),
        bonus <= amount_paid,
{
    proof {
        lemma_bonus_bounded(correct_answer_count, amount_paid, now, user_low);
    }
    if correct_answer_count >= 2 {
        let seed: u64 = (now as u64) ^ (user_low as u64);
        let bonus_percent: u64 = if correct_answer_count >= 3 {
            10 + seed % 81
        } else {
            5 + seed % 21
        };
        let wide: u128 = (amount_paid as u128) * (bonus_percent as u128) / 100;
        wide as u64
    } else {
        0
    }
}

} // verus!
