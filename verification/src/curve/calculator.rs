//! What every pricing curve offers.

use crate::error::SwapError;
use vstd::prelude::*;

verus! {

/// Length in bytes of the region that a packed curve record reserves for the
/// calculator's parameters. A calculator that packs into fewer bytes leaves
/// the rest of the region untouched.
pub const CALCULATOR_LEN: usize = 32;

/// Which of the pool's two tokens a trade pays in.
#[derive(Clone, Copy, Debug, PartialEq, Eq, Structural)]
pub enum TradeDirection {
    /// Token A comes in, token B goes out.
    AtoB,
    /// Token B comes in, token A goes out.
    BtoA,
}

/// How a division that does not come out even is rounded.
#[derive(Clone, Copy, Debug, PartialEq, Eq, Structural)]
pub enum RoundDirection {
    /// Towards zero: what a withdrawal pays out.
    Floor,
    /// Away from zero: what a deposit has to bring.
    Ceiling,
}

/// What a swap moves, before any fee.
#[derive(Clone, Copy, Debug, PartialEq, Eq, Structural)]
pub struct SwapWithoutFeesResult {
    /// Amount of the source token that the pool takes in.
    pub source_amount_swapped: u128,
    /// Amount of the destination token that the pool hands out.
    pub destination_amount_swapped: u128,
}

/// The amounts of both tokens that stand behind a number of pool tokens.
#[derive(Clone, Copy, Debug, PartialEq, Eq, Structural)]
pub struct TradingTokenResult {
    /// Amount of token A.
    pub token_a_amount: u128,
    /// Amount of token B.
    pub token_b_amount: u128,
}

/// A pricing strategy.
///
/// Each executable method returns exactly what the spec function beside it
/// says, so a caller can reason about a curve without knowing which one it
/// holds. The clauses after the first are the part of the contract that holds
/// of every curve.
pub trait CurveCalculator: Sized {
    /// What a swap of `source_amount` yields, fees aside.
    spec fn swap_outcome(
        &self,
        source_amount: u128,
        swap_source_amount: u128,
        swap_destination_amount: u128,
        trade_direction: TradeDirection,
    ) -> Option<SwapWithoutFeesResult>;

    /// The amounts of both tokens behind `pool_tokens` out of a supply of
    /// `pool_token_supply`.
    spec fn proportional_amounts(
        &self,
        pool_tokens: u128,
        pool_token_supply: u128,
        swap_token_a_amount: u128,
        swap_token_b_amount: u128,
        round_direction: RoundDirection,
    ) -> Option<TradingTokenResult>;

    /// The pool tokens that a deposit of one token alone is worth.
    spec fn single_deposit_value(
        &self,
        source_amount: u128,
        swap_token_a_amount: u128,
        swap_token_b_amount: u128,
        pool_supply: u128,
        trade_direction: TradeDirection,
    ) -> Option<u128>;

    /// The pool tokens that a withdrawal of one token alone costs.
    spec fn single_withdrawal_cost(
        &self,
        source_amount: u128,
        swap_token_a_amount: u128,
        swap_token_b_amount: u128,
        pool_supply: u128,
        trade_direction: TradeDirection,
    ) -> Option<u128>;

    /// Whether the curve lets one token be withdrawn alone.
    spec fn single_withdrawal_allowed(&self) -> bool;

    /// Number of bytes that the parameters pack into.
    spec fn packed_size() -> nat;

    /// The packed parameters.
    spec fn packed(&self) -> Seq<u8>;

    /// The parameters that the first bytes of `bytes` encode.
    spec fn unpacked(bytes: Seq<u8>) -> Result<Self, SwapError>;

    /// Computes a swap on an amount from which the fees are already taken.
    ///
    /// A swap that succeeds takes in no more than was offered and leaves the
    /// destination reserve above zero.
    fn swap_without_fees(
        &self,
        source_amount: u128,
        swap_source_amount: u128,
        swap_destination_amount: u128,
        trade_direction: TradeDirection,
    ) -> (outcome: Option<SwapWithoutFeesResult>)
        ensures
            outcome == self.swap_outcome(
                source_amount,
                swap_source_amount,
                swap_destination_amount,
                trade_direction,
            ),
            outcome matches Some(swapped) ==> {
                &&& 0 < swapped.source_amount_swapped <= source_amount
                &&& swapped.destination_amount_swapped < swap_destination_amount
            },
    ;

    /// Converts pool tokens into the amounts of both tokens that stand behind
    /// them.
    ///
    /// More pool tokens than the supply are refused, and what is returned never
    /// exceeds what the pool holds.
    fn pool_tokens_to_trading_tokens(
        &self,
        pool_tokens: u128,
        pool_token_supply: u128,
        swap_token_a_amount: u128,
        swap_token_b_amount: u128,
        round_direction: RoundDirection,
    ) -> (amounts: Option<TradingTokenResult>)
        ensures
            amounts == self.proportional_amounts(
                pool_tokens,
                pool_token_supply,
                swap_token_a_amount,
                swap_token_b_amount,
                round_direction,
            ),
            amounts matches Some(both) ==> {
                &&& pool_tokens <= pool_token_supply
                &&& both.token_a_amount <= swap_token_a_amount
                &&& both.token_b_amount <= swap_token_b_amount
            },
    ;

    /// Values a deposit of `source_amount` of one token in pool tokens.
    fn deposit_single_token_type(
        &self,
        source_amount: u128,
        swap_token_a_amount: u128,
        swap_token_b_amount: u128,
        pool_supply: u128,
        trade_direction: TradeDirection,
    ) -> (pool_tokens: Option<u128>)
        ensures
            pool_tokens == self.single_deposit_value(
                source_amount,
                swap_token_a_amount,
                swap_token_b_amount,
                pool_supply,
                trade_direction,
            ),
    ;

    /// Prices a withdrawal of exactly `source_amount` of one token in pool
    /// tokens.
    ///
    /// A curve that does not allow such a withdrawal refuses it, and so does
    /// every curve when more is asked for than the pool holds of that token.
    fn withdraw_single_token_type_exact_out(
        &self,
        source_amount: u128,
        swap_token_a_amount: u128,
        swap_token_b_amount: u128,
        pool_supply: u128,
        trade_direction: TradeDirection,
    ) -> (pool_tokens: Option<u128>)
        ensures
            pool_tokens == self.single_withdrawal_cost(
                source_amount,
                swap_token_a_amount,
                swap_token_b_amount,
                pool_supply,
                trade_direction,
            ),
            pool_tokens is Some ==> {
                &&& self.single_withdrawal_allowed()
                &&& source_amount <= match trade_direction {
                    TradeDirection::AtoB => swap_token_a_amount,
                    TradeDirection::BtoA => swap_token_b_amount,
                }
            },
    ;

    /// Tells whether one token can be withdrawn alone.
    fn allows_single_token_withdrawal(&self) -> (allowed: bool)
        ensures
            allowed == self.single_withdrawal_allowed(),
    ;

    /// Number of bytes that `pack_into_slice` writes and `unpack_from_slice`
    /// reads.
    fn packed_len() -> (len: usize)
        ensures
            len == Self::packed_size(),
            len <= CALCULATOR_LEN,
    ;

    /// Writes the parameters over the first bytes of `output`; the bytes after
    /// them stay as they were.
    fn pack_into_slice(&self, output: &mut [u8])
        requires
            old(output)@.len() >= Self::packed_size(),
        ensures
            self.packed().len() == Self::packed_size(),
            final(output)@ == self.packed() + old(output)@.subrange(
                Self::packed_size() as int,
                old(output)@.len() as int,
            ),
    ;

    /// Reads the parameters from the first bytes of `input`.
    fn unpack_from_slice(input: &[u8]) -> (parameters: Result<Self, SwapError>)
        requires
            input@.len() >= Self::packed_size(),
        ensures
            parameters == Self::unpacked(input@),
    ;
}

} // verus!
