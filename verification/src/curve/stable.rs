//! The stable curve: close to one-for-one while the reserves are balanced,
//! and ever steeper as they drift apart.
//!
//! For reserves `x` and `y` and an amplification `A` the curve keeps the
//! value `D` of
//!
//! ```text
//! 2A(x + y) + D = 2A·D + D³ / (4xy)
//! ```
//!
//! constant across a swap. `D` has no closed form in integers: it is found by
//! Newton's method, in overflow-checked 128-bit arithmetic, and so is the
//! destination reserve that keeps it. Both searches give up rather than hand
//! back a value that has not settled, and a swap is refused unless the `D` of
//! the reserves it leaves is within `tolerance` of the `D` it started from.

use crate::curve::calculator::{
    CurveCalculator,
    RoundDirection,
    SwapWithoutFeesResult,
    TradeDirection,
    TradingTokenResult,
};
use crate::curve::math::{
    checked_ceil_quotient,
    checked_difference,
    checked_product,
    checked_quotient,
    checked_sum,
    close,
    differ_by_at_most_one,
    opt_add,
    opt_ceil_div,
    opt_div,
    opt_mul,
    opt_sub,
};
use crate::error::SwapError;
use crate::wire::{read_u64, u64_at, write_u64};
use vstd::bytes::spec_u64_to_le_bytes;
use vstd::prelude::*;

verus! {

/// Number of tokens in a pool.
pub const N_COINS: u128 = 2;

/// Number of Newton steps after which a search gives up.
pub const MAX_ITERATIONS: u32 = 64;

/// The part of the invariant by which it may move across a swap, beside the
/// fixed allowance.
pub const TOLERANCE_DIVISOR: u128 = 1_000_000;

/// The fixed allowance for rounding by which the invariant may move across a
/// swap.
pub const TOLERANCE_FLOOR: u128 = 2;

/// Length in bytes of the packed parameters of a stable curve.
pub const STABLE_CURVE_LEN: usize = 8;

/// The parameters of a stable curve.
#[derive(Clone, Copy, Debug, PartialEq, Eq, Structural)]
pub struct StableCurve {
    /// Amplification: the larger, the wider the zone of one-for-one pricing.
    pub amp: u64,
}

/// The amplification as it enters the formulas: `amp` times the number of
/// tokens.
pub open spec fn leverage_of(amp: u64) -> u128 {
    (amp * 2) as u128
}

/// How far the invariant may move across a swap that started at `d`.
pub open spec fn tolerance(d: u128) -> int {
    TOLERANCE_FLOOR + d / TOLERANCE_DIVISOR
}

/// Whether `after` is within the tolerance of `before`.
pub open spec fn within_tolerance(before: u128, after: u128) -> bool {
    after - before <= tolerance(before) && before - after <= tolerance(before)
}

/// `D³ / (4ab)`, divided as it is multiplied so that it stays small.
pub open spec fn d_product(a: u128, b: u128, d: u128) -> Option<u128> {
    opt_div(
        opt_mul(opt_div(opt_mul(Some(d), Some(d)), opt_mul(Some(a), Some(N_COINS))), Some(d)),
        opt_mul(Some(b), Some(N_COINS)),
    )
}

/// One Newton step towards the invariant, from the estimate `d`:
/// `(leverage·(a + b) + 2·P)·d / ((leverage − 1)·d + 3·P)` with `P` the
/// `d_product` of `d`.
pub open spec fn next_d(leverage: u128, a: u128, b: u128, d: u128) -> Option<u128> {
    let p = d_product(a, b, d);
    opt_div(
        opt_mul(
            opt_add(
                opt_mul(Some(leverage), opt_add(Some(a), Some(b))),
                opt_mul(p, Some(N_COINS)),
            ),
            Some(d),
        ),
        opt_add(
            opt_mul(opt_sub(Some(leverage), Some(1u128)), Some(d)),
            opt_mul(p, Some(3u128)),
        ),
    )
}

/// The first estimate, after at most `rounds` Newton steps from `d`, that
/// differs from the one before it by at most one.
pub open spec fn settle_d(leverage: u128, a: u128, b: u128, d: u128, rounds: nat) -> Option<u128>
    decreases rounds,
{
    if rounds == 0 {
        None
    } else {
        match next_d(leverage, a, b, d) {
            None => None,
            Some(next) => if differ_by_at_most_one(next, d) {
                Some(next)
            } else {
                settle_d(leverage, a, b, next, (rounds - 1) as nat)
            },
        }
    }
}

/// The invariant of the reserves `a` and `b`: the search starts from their
/// sum.
pub open spec fn invariant_of(amp: u64, a: u128, b: u128) -> Option<u128> {
    match opt_add(Some(a), Some(b)) {
        None => None,
        Some(sum) => settle_d(leverage_of(amp), a, b, sum, MAX_ITERATIONS as nat),
    }
}

/// The constant term of the equation for the destination reserve:
/// `D³ / (4·x·leverage)`.
pub open spec fn y_constant(leverage: u128, x: u128, d: u128) -> Option<u128> {
    opt_div(
        opt_mul(opt_div(opt_mul(Some(d), Some(d)), opt_mul(Some(x), Some(N_COINS))), Some(d)),
        opt_mul(Some(leverage), Some(N_COINS)),
    )
}

/// The linear term of the equation for the destination reserve, before `D`
/// is taken off: `x + D / leverage`.
pub open spec fn y_linear(leverage: u128, x: u128, d: u128) -> Option<u128> {
    opt_add(Some(x), opt_div(Some(d), Some(leverage)))
}

/// One Newton step towards the destination reserve, from the estimate `y`:
/// `(y² + c) / (2y + b − D)`.
pub open spec fn next_y(c: u128, b: u128, d: u128, y: u128) -> Option<u128> {
    opt_div(
        opt_add(opt_mul(Some(y), Some(y)), Some(c)),
        opt_sub(opt_add(opt_mul(Some(y), Some(N_COINS)), Some(b)), Some(d)),
    )
}

/// The first estimate, after at most `rounds` Newton steps from `y`, that
/// differs from the one before it by at most one.
pub open spec fn settle_y(c: u128, b: u128, d: u128, y: u128, rounds: nat) -> Option<u128>
    decreases rounds,
{
    if rounds == 0 {
        None
    } else {
        match next_y(c, b, d, y) {
            None => None,
            Some(next) => if differ_by_at_most_one(next, y) {
                Some(next)
            } else {
                settle_y(c, b, d, next, (rounds - 1) as nat)
            },
        }
    }
}

/// The destination reserve that keeps the invariant `d` beside a source
/// reserve of `x`: the search starts from `d`.
pub open spec fn destination_reserve_for(amp: u64, x: u128, d: u128) -> Option<u128> {
    match (y_constant(leverage_of(amp), x, d), y_linear(leverage_of(amp), x, d)) {
        (Some(c), Some(b)) => settle_y(c, b, d, d, MAX_ITERATIONS as nat),
        _ => None,
    }
}

/// What a swap on the stable curve yields.
///
/// Nothing comes of an empty trade, of an overflow, of a search that does not
/// settle, of a destination reserve that would not stay above zero and below
/// what it was plus one, and of an invariant that would move out of tolerance.
/// Otherwise all of `source_amount` is taken in and the destination reserve
/// gives up what it holds above the new reserve.
pub open spec fn stable_swap(
    amp: u64,
    source_amount: u128,
    swap_source_amount: u128,
    swap_destination_amount: u128,
) -> Option<SwapWithoutFeesResult> {
    if source_amount == 0 {
        None
    } else {
        match (
            invariant_of(amp, swap_source_amount, swap_destination_amount),
            opt_add(Some(swap_source_amount), Some(source_amount)),
        ) {
            (Some(d), Some(new_source)) => match destination_reserve_for(amp, new_source, d) {
                None => None,
                Some(new_destination) => if new_destination == 0 || new_destination
                    > swap_destination_amount {
                    None
                } else {
                    match invariant_of(amp, new_source, new_destination) {
                        None => None,
                        Some(d_after) => if within_tolerance(d, d_after) {
                            Some(
                                SwapWithoutFeesResult {
                                    source_amount_swapped: source_amount,
                                    destination_amount_swapped: (swap_destination_amount
                                        - new_destination) as u128,
                                },
                            )
                        } else {
                            None
                        },
                    }
                },
            },
            _ => None,
        }
    }
}

/// `pool_tokens · reserve / pool_token_supply`, rounded as asked.
pub open spec fn share_of(
    pool_tokens: u128,
    pool_token_supply: u128,
    reserve: u128,
    round_direction: RoundDirection,
) -> Option<u128> {
    let product = opt_mul(Some(pool_tokens), Some(reserve));
    match round_direction {
        RoundDirection::Floor => opt_div(product, Some(pool_token_supply)),
        RoundDirection::Ceiling => opt_ceil_div(product, Some(pool_token_supply)),
    }
}

/// The amounts of both tokens behind `pool_tokens`: the same share of each
/// reserve, and nothing for more pool tokens than there are.
pub open spec fn proportional_share(
    pool_tokens: u128,
    pool_token_supply: u128,
    swap_token_a_amount: u128,
    swap_token_b_amount: u128,
    round_direction: RoundDirection,
) -> Option<TradingTokenResult> {
    if pool_tokens > pool_token_supply {
        None
    } else {
        match (
            share_of(pool_tokens, pool_token_supply, swap_token_a_amount, round_direction),
            share_of(pool_tokens, pool_token_supply, swap_token_b_amount, round_direction),
        ) {
            (Some(token_a_amount), Some(token_b_amount)) => Some(
                TradingTokenResult { token_a_amount, token_b_amount },
            ),
            _ => None,
        }
    }
}

/// The reserves after `amount` has been added to the side that
/// `trade_direction` pays in.
pub open spec fn reserves_after_deposit(
    amount: u128,
    swap_token_a_amount: u128,
    swap_token_b_amount: u128,
    trade_direction: TradeDirection,
) -> (Option<u128>, Option<u128>) {
    match trade_direction {
        TradeDirection::AtoB => (
            opt_add(Some(swap_token_a_amount), Some(amount)),
            Some(swap_token_b_amount),
        ),
        TradeDirection::BtoA => (
            Some(swap_token_a_amount),
            opt_add(Some(swap_token_b_amount), Some(amount)),
        ),
    }
}

/// The reserves after `amount` has been taken from the side that
/// `trade_direction` names.
pub open spec fn reserves_after_withdrawal(
    amount: u128,
    swap_token_a_amount: u128,
    swap_token_b_amount: u128,
    trade_direction: TradeDirection,
) -> (Option<u128>, Option<u128>) {
    match trade_direction {
        TradeDirection::AtoB => (
            opt_sub(Some(swap_token_a_amount), Some(amount)),
            Some(swap_token_b_amount),
        ),
        TradeDirection::BtoA => (
            Some(swap_token_a_amount),
            opt_sub(Some(swap_token_b_amount), Some(amount)),
        ),
    }
}

/// The invariant of two reserves that may have failed to come about.
pub open spec fn invariant_of_reserves(amp: u64, reserves: (Option<u128>, Option<u128>)) -> Option<
    u128,
> {
    match reserves {
        (Some(a), Some(b)) => invariant_of(amp, a, b),
        _ => None,
    }
}

/// The pool tokens that a deposit of one token is worth: the supply times
/// the growth of the invariant over the invariant, rounded down.
pub open spec fn stable_deposit_value(
    amp: u64,
    source_amount: u128,
    swap_token_a_amount: u128,
    swap_token_b_amount: u128,
    pool_supply: u128,
    trade_direction: TradeDirection,
) -> Option<u128> {
    let before = invariant_of(amp, swap_token_a_amount, swap_token_b_amount);
    let after = invariant_of_reserves(
        amp,
        reserves_after_deposit(
            source_amount,
            swap_token_a_amount,
            swap_token_b_amount,
            trade_direction,
        ),
    );
    opt_div(opt_mul(Some(pool_supply), opt_sub(after, before)), before)
}

/// The pool tokens that a withdrawal of one token costs: the supply times
/// the loss of the invariant over the invariant, rounded up.
pub open spec fn stable_withdrawal_cost(
    amp: u64,
    source_amount: u128,
    swap_token_a_amount: u128,
    swap_token_b_amount: u128,
    pool_supply: u128,
    trade_direction: TradeDirection,
) -> Option<u128> {
    let before = invariant_of(amp, swap_token_a_amount, swap_token_b_amount);
    let after = invariant_of_reserves(
        amp,
        reserves_after_withdrawal(
            source_amount,
            swap_token_a_amount,
            swap_token_b_amount,
            trade_direction,
        ),
    );
    opt_ceil_div(opt_mul(Some(pool_supply), opt_sub(before, after)), before)
}

/// Takes one Newton step towards the invariant.
pub fn step_d(leverage: u128, a: u128, b: u128, d: u128) -> (next: Option<u128>)
    ensures
        next == next_d(leverage, a, b, d),
{
    let squared = checked_quotient(
        checked_product(Some(d), Some(d)),
        checked_product(Some(a), Some(N_COINS)),
    );
    let p = checked_quotient(
        checked_product(squared, Some(d)),
        checked_product(Some(b), Some(N_COINS)),
    );
    let numerator = checked_product(
        checked_sum(
            checked_product(Some(leverage), checked_sum(Some(a), Some(b))),
            checked_product(p, Some(N_COINS)),
        ),
        Some(d),
    );
    let denominator = checked_sum(
        checked_product(checked_difference(Some(leverage), Some(1)), Some(d)),
        checked_product(p, Some(3)),
    );
    checked_quotient(numerator, denominator)
}

/// Computes the invariant of the reserves `a` and `b`.
pub fn compute_d(amp: u64, a: u128, b: u128) -> (value: Option<u128>)
    ensures
        value == invariant_of(amp, a, b),
{
    let wide_amp: u128 = amp as u128;
    let leverage: u128 = wide_amp * 2;
    let sum: u128 = match a.checked_add(b) {
        None => { return None; },
        Some(sum) => sum,
    };
    let mut d: u128 = sum;
    let mut rounds: u32 = MAX_ITERATIONS;
    while rounds > 0
        invariant
            leverage == leverage_of(amp),
            settle_d(leverage, a, b, d, rounds as nat) == invariant_of(amp, a, b),
        decreases rounds,
    {
        let next: u128 = match step_d(leverage, a, b, d) {
            None => { return None; },
            Some(next) => next,
        };
        if close(next, d) {
            return Some(next);
        }
        d = next;
        rounds = rounds - 1;
    }
    None
}

/// Takes one Newton step towards the destination reserve.
pub fn step_y(c: u128, b: u128, d: u128, y: u128) -> (next: Option<u128>)
    ensures
        next == next_y(c, b, d, y),
{
    checked_quotient(
        checked_sum(checked_product(Some(y), Some(y)), Some(c)),
        checked_difference(
            checked_sum(checked_product(Some(y), Some(N_COINS)), Some(b)),
            Some(d),
        ),
    )
}

/// Computes the destination reserve that keeps the invariant `d` beside a
/// source reserve of `x`.
pub fn compute_new_destination_amount(amp: u64, x: u128, d: u128) -> (reserve: Option<u128>)
    ensures
        reserve == destination_reserve_for(amp, x, d),
{
    let wide_amp: u128 = amp as u128;
    let leverage: u128 = wide_amp * 2;
    let constant = checked_quotient(
        checked_product(
            checked_quotient(
                checked_product(Some(d), Some(d)),
                checked_product(Some(x), Some(N_COINS)),
            ),
            Some(d),
        ),
        checked_product(Some(leverage), Some(N_COINS)),
    );
    let linear = checked_sum(Some(x), checked_quotient(Some(d), Some(leverage)));
    let (c, b): (u128, u128) = match (constant, linear) {
        (Some(c), Some(b)) => (c, b),
        _ => { return None; },
    };
    let mut y: u128 = d;
    let mut rounds: u32 = MAX_ITERATIONS;
    while rounds > 0
        invariant
            settle_y(c, b, d, y, rounds as nat) == destination_reserve_for(amp, x, d),
        decreases rounds,
    {
        let next: u128 = match step_y(c, b, d, y) {
            None => { return None; },
            Some(next) => next,
        };
        if close(next, y) {
            return Some(next);
        }
        y = next;
        rounds = rounds - 1;
    }
    None
}

/// Tells whether the invariant `after` a swap is within the tolerance of the
/// invariant `before` it.
pub fn invariant_held(before: u128, after: u128) -> (held: bool)
    ensures
        held == within_tolerance(before, after),
{
    let allowance: u128 = TOLERANCE_FLOOR + before / TOLERANCE_DIVISOR;
    if after >= before {
        after - before <= allowance
    } else {
        before - after <= allowance
    }
}

/// Computes one reserve's share behind a number of pool tokens.
pub fn compute_share(
    pool_tokens: u128,
    pool_token_supply: u128,
    reserve: u128,
    round_direction: RoundDirection,
) -> (share: Option<u128>)
    ensures
        share == share_of(pool_tokens, pool_token_supply, reserve, round_direction),
{
    let product = checked_product(Some(pool_tokens), Some(reserve));
    match round_direction {
        RoundDirection::Floor => checked_quotient(product, Some(pool_token_supply)),
        RoundDirection::Ceiling => checked_ceil_quotient(product, Some(pool_token_supply)),
    }
}

/// A share of a reserve is no more than the reserve, however it is rounded.
pub proof fn lemma_share_bounded(
    pool_tokens: u128,
    pool_token_supply: u128,
    reserve: u128,
    round_direction: RoundDirection,
)
    requires
        pool_tokens <= pool_token_supply,
        share_of(pool_tokens, pool_token_supply, reserve, round_direction) is Some,
    ensures
        share_of(pool_tokens, pool_token_supply, reserve, round_direction).unwrap() <= reserve,
{
    let p = pool_tokens as int;
    let s = pool_token_supply as int;
    let r = reserve as int;
    assert(s > 0);
    assert(p * r <= s * r) by (nonlinear_arith)
        requires
            0 <= p <= s,
            0 <= r,
    ;
    assert((p * r) / s <= r && ((p * r) % s != 0 ==> (p * r) / s < r)) by (nonlinear_arith)
        requires
            0 <= p * r <= s * r,
            s > 0,
            r >= 0,
    ;
}

impl Default for StableCurve {
    /// A curve without amplification. It prices nothing: its parameters are
    /// meant to be replaced before it is used.
    fn default() -> (curve: StableCurve)
        ensures
            curve.amp == 0,
    {
        StableCurve { amp: 0 }
    }
}

impl CurveCalculator for StableCurve {
    /// The trade direction plays no part: the curve treats both tokens alike.
    open spec fn swap_outcome(
        &self,
        source_amount: u128,
        swap_source_amount: u128,
        swap_destination_amount: u128,
        trade_direction: TradeDirection,
    ) -> Option<SwapWithoutFeesResult> {
        stable_swap(self.amp, source_amount, swap_source_amount, swap_destination_amount)
    }

    open spec fn proportional_amounts(
        &self,
        pool_tokens: u128,
        pool_token_supply: u128,
        swap_token_a_amount: u128,
        swap_token_b_amount: u128,
        round_direction: RoundDirection,
    ) -> Option<TradingTokenResult> {
        proportional_share(
            pool_tokens,
            pool_token_supply,
            swap_token_a_amount,
            swap_token_b_amount,
            round_direction,
        )
    }

    open spec fn single_deposit_value(
        &self,
        source_amount: u128,
        swap_token_a_amount: u128,
        swap_token_b_amount: u128,
        pool_supply: u128,
        trade_direction: TradeDirection,
    ) -> Option<u128> {
        stable_deposit_value(
            self.amp,
            source_amount,
            swap_token_a_amount,
            swap_token_b_amount,
            pool_supply,
            trade_direction,
        )
    }

    open spec fn single_withdrawal_cost(
        &self,
        source_amount: u128,
        swap_token_a_amount: u128,
        swap_token_b_amount: u128,
        pool_supply: u128,
        trade_direction: TradeDirection,
    ) -> Option<u128> {
        stable_withdrawal_cost(
            self.amp,
            source_amount,
            swap_token_a_amount,
            swap_token_b_amount,
            pool_supply,
            trade_direction,
        )
    }

    open spec fn single_withdrawal_allowed(&self) -> bool {
        true
    }

    open spec fn packed_size() -> nat {
        STABLE_CURVE_LEN as nat
    }

    /// The amplification as eight little-endian bytes.
    open spec fn packed(&self) -> Seq<u8> {
        spec_u64_to_le_bytes(self.amp)
    }

    /// Any eight bytes are an amplification.
    open spec fn unpacked(bytes: Seq<u8>) -> Result<Self, SwapError> {
        Ok(StableCurve { amp: u64_at(bytes, 0) })
    }

    fn swap_without_fees(
        &self,
        source_amount: u128,
        swap_source_amount: u128,
        swap_destination_amount: u128,
        trade_direction: TradeDirection,
    ) -> (outcome: Option<SwapWithoutFeesResult>) {
        if source_amount == 0 {
            return None;
        }
        let d = compute_d(self.amp, swap_source_amount, swap_destination_amount);
        let new_source = swap_source_amount.checked_add(source_amount);
        let (d, new_source): (u128, u128) = match (d, new_source) {
            (Some(d), Some(new_source)) => (d, new_source),
            _ => { return None; },
        };
        let new_destination: u128 = match compute_new_destination_amount(
            self.amp,
            new_source,
            d,
        ) {
            None => { return None; },
            Some(new_destination) => new_destination,
        };
        if new_destination == 0 || new_destination > swap_destination_amount {
            return None;
        }
        match compute_d(self.amp, new_source, new_destination) {
            None => None,
            Some(d_after) => if invariant_held(d, d_after) {
                Some(
                    SwapWithoutFeesResult {
                        source_amount_swapped: source_amount,
                        destination_amount_swapped: swap_destination_amount - new_destination,
                    },
                )
            } else {
                None
            },
        }
    }

    fn pool_tokens_to_trading_tokens(
        &self,
        pool_tokens: u128,
        pool_token_supply: u128,
        swap_token_a_amount: u128,
        swap_token_b_amount: u128,
        round_direction: RoundDirection,
    ) -> (amounts: Option<TradingTokenResult>) {
        if pool_tokens > pool_token_supply {
            return None;
        }
        let token_a_amount = compute_share(
            pool_tokens,
            pool_token_supply,
            swap_token_a_amount,
            round_direction,
        );
        let token_b_amount = compute_share(
            pool_tokens,
            pool_token_supply,
            swap_token_b_amount,
            round_direction,
        );
        match (token_a_amount, token_b_amount) {
            (Some(token_a_amount), Some(token_b_amount)) => {
                proof {
                    lemma_share_bounded(
                        pool_tokens,
                        pool_token_supply,
                        swap_token_a_amount,
                        round_direction,
                    );
                    lemma_share_bounded(
                        pool_tokens,
                        pool_token_supply,
                        swap_token_b_amount,
                        round_direction,
                    );
                }
                Some(TradingTokenResult { token_a_amount, token_b_amount })
            },
            _ => None,
        }
    }

    fn deposit_single_token_type(
        &self,
        source_amount: u128,
        swap_token_a_amount: u128,
        swap_token_b_amount: u128,
        pool_supply: u128,
        trade_direction: TradeDirection,
    ) -> (pool_tokens: Option<u128>) {
        let before = compute_d(self.amp, swap_token_a_amount, swap_token_b_amount);
        let (new_a, new_b) = match trade_direction {
            TradeDirection::AtoB => (
                swap_token_a_amount.checked_add(source_amount),
                Some(swap_token_b_amount),
            ),
            TradeDirection::BtoA => (
                Some(swap_token_a_amount),
                swap_token_b_amount.checked_add(source_amount),
            ),
        };
        let after = match (new_a, new_b) {
            (Some(a), Some(b)) => compute_d(self.amp, a, b),
            _ => None,
        };
        checked_quotient(
            checked_product(Some(pool_supply), checked_difference(after, before)),
            before,
        )
    }

    fn withdraw_single_token_type_exact_out(
        &self,
        source_amount: u128,
        swap_token_a_amount: u128,
        swap_token_b_amount: u128,
        pool_supply: u128,
        trade_direction: TradeDirection,
    ) -> (pool_tokens: Option<u128>) {
        let before = compute_d(self.amp, swap_token_a_amount, swap_token_b_amount);
        let (new_a, new_b) = match trade_direction {
            TradeDirection::AtoB => (
                swap_token_a_amount.checked_sub(source_amount),
                Some(swap_token_b_amount),
            ),
            TradeDirection::BtoA => (
                Some(swap_token_a_amount),
                swap_token_b_amount.checked_sub(source_amount),
            ),
        };
        let after = match (new_a, new_b) {
            (Some(a), Some(b)) => compute_d(self.amp, a, b),
            _ => None,
        };
        checked_ceil_quotient(
            checked_product(Some(pool_supply), checked_difference(before, after)),
            before,
        )
    }

    fn allows_single_token_withdrawal(&self) -> (allowed: bool) {
        true
    }

    fn packed_len() -> (len: usize) {
        STABLE_CURVE_LEN
    }

    fn pack_into_slice(&self, output: &mut [u8]) {
        let ghost before = output@;
        write_u64(output, 0, self.amp);
        proof {
            vstd::bytes::lemma_auto_spec_u64_to_from_le_bytes();
            assert(output@ =~= self.packed() + before.subrange(
                STABLE_CURVE_LEN as int,
                before.len() as int,
            ));
        }
    }

    fn unpack_from_slice(input: &[u8]) -> (parameters: Result<Self, SwapError>) {
        Ok(StableCurve { amp: read_u64(input, 0) })
    }
}

/// A swap that succeeds keeps the invariant: computed from the reserves
/// after the swap, it is within the tolerance of what it was before.
pub proof fn lemma_swap_keeps_invariant(
    amp: u64,
    source_amount: u128,
    swap_source_amount: u128,
    swap_destination_amount: u128,
)
    requires
        stable_swap(amp, source_amount, swap_source_amount, swap_destination_amount) is Some,
    ensures
        ({
            let swapped = stable_swap(
                amp,
                source_amount,
                swap_source_amount,
                swap_destination_amount,
            ).unwrap();
            let before = invariant_of(amp, swap_source_amount, swap_destination_amount);
            let after = invariant_of(
                amp,
                (swap_source_amount + swapped.source_amount_swapped) as u128,
                (swap_destination_amount - swapped.destination_amount_swapped) as u128,
            );
            &&& swap_source_amount + swapped.source_amount_swapped <= u128::MAX
            &&& 0 < swap_destination_amount - swapped.destination_amount_swapped
            &&& before is Some
            &&& after is Some
            &&& within_tolerance(before.unwrap(), after.unwrap())
        }),
{
}

/// The trade direction does not matter to the stable curve: it prices token
/// A for token B as it prices token B for token A at the same reserves.
pub proof fn lemma_swap_symmetric(
    curve: StableCurve,
    source_amount: u128,
    swap_source_amount: u128,
    swap_destination_amount: u128,
)
    ensures
        curve.swap_outcome(
            source_amount,
            swap_source_amount,
            swap_destination_amount,
            TradeDirection::AtoB,
        ) == curve.swap_outcome(
            source_amount,
            swap_source_amount,
            swap_destination_amount,
            TradeDirection::BtoA,
        ),
{
}

} // verus!
