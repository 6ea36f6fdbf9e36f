//! The curve record: a curve type, the calculator of that type, and the swap
//! that the two price together with the fees.

use crate::curve::calculator::{
    CurveCalculator,
    RoundDirection,
    SwapWithoutFeesResult,
    TradeDirection,
    TradingTokenResult,
    CALCULATOR_LEN,
};
use crate::curve::fees::{ratio_of, Fees};
use crate::curve::math::{opt_add, opt_sub};
use crate::curve::stable::{invariant_of, within_tolerance, StableCurve};
use crate::error::SwapError;
use crate::wire::{bytes_equal, zeros};
use vstd::prelude::*;
use vstd::std_specs::cmp::PartialEqSpecImpl;
use vstd::std_specs::convert::TryFromSpecImpl;

verus! {

/// Length in bytes of a packed curve record: the discriminant and the region
/// of the calculator's parameters.
pub const SWAP_CURVE_LEN: usize = 33;

/// The discriminant of the stable curve in a packed record.
pub const STABLE_DISCRIMINANT: u8 = 2;

/// The pricing strategies that a pool can follow.
///
/// Each has a discriminant in the packed record that never changes, whatever
/// strategies come or go.
#[derive(Clone, Copy, Debug, PartialEq, Eq, Structural)]
pub enum CurveType {
    /// Close to one-for-one while the reserves are balanced.
    Stable,
}

/// The calculator of a pool, one variant for each curve type.
#[derive(Clone, Copy, Debug, PartialEq, Eq, Structural)]
pub enum Calculator {
    /// The calculator of the stable curve.
    Stable(StableCurve),
}

/// Everything that a swap changes.
#[derive(Clone, Copy, Debug, PartialEq, Eq, Structural)]
pub struct SwapResult {
    /// New amount of the source token in the pool.
    pub new_swap_source_amount: u128,
    /// New amount of the destination token in the pool.
    pub new_swap_destination_amount: u128,
    /// Amount of the source token that came in, fees included.
    pub source_amount_swapped: u128,
    /// Amount of the destination token that went out.
    pub destination_amount_swapped: u128,
    /// Amount of the source token that stays with the pool's holders.
    pub trade_fee: u128,
    /// Amount of the source token that goes to the owner.
    pub owner_fee: u128,
}

/// A curve type together with the calculator that prices it.
#[derive(Debug)]
pub struct SwapCurve {
    /// The type of the curve that the calculator holds.
    pub curve_type: CurveType,
    /// The calculator itself.
    pub calculator: Calculator,
}

impl CurveType {
    /// The discriminant in the packed record.
    pub open spec fn discriminant(self) -> u8 {
        match self {
            CurveType::Stable => STABLE_DISCRIMINANT,
        }
    }

    /// The curve type of a discriminant: an unknown one is an error, never a
    /// default.
    pub open spec fn of_discriminant(discriminant: u8) -> Result<CurveType, SwapError> {
        if discriminant == STABLE_DISCRIMINANT {
            Ok(CurveType::Stable)
        } else {
            Err(SwapError::InvalidAccountData)
        }
    }

    /// Gives the discriminant in the packed record.
    pub fn to_u8(&self) -> (discriminant: u8)
        ensures
            discriminant == self.discriminant(),
            CurveType::of_discriminant(discriminant) == Ok::<CurveType, SwapError>(*self),
    {
        match self {
            CurveType::Stable => STABLE_DISCRIMINANT,
        }
    }
}

impl Default for CurveType {
    fn default() -> (curve_type: CurveType)
        ensures
            curve_type == CurveType::Stable,
    {
        CurveType::Stable
    }
}

impl TryFrom<u8> for CurveType {
    type Error = SwapError;

    fn try_from(curve_type: u8) -> (converted: Result<CurveType, SwapError>) {
        if curve_type == STABLE_DISCRIMINANT {
            Ok(CurveType::Stable)
        } else {
            Err(SwapError::InvalidAccountData)
        }
    }
}

impl TryFromSpecImpl<u8> for CurveType {
    open spec fn obeys_try_from_spec() -> bool {
        true
    }

    open spec fn try_from_spec(curve_type: u8) -> Result<CurveType, SwapError> {
        CurveType::of_discriminant(curve_type)
    }
}

impl Calculator {
    /// The curve type that the calculator prices.
    pub open spec fn curve_type(self) -> CurveType {
        match self {
            Calculator::Stable(_) => CurveType::Stable,
        }
    }

    /// What a swap yields, fees aside.
    pub open spec fn swap_outcome(
        self,
        source_amount: u128,
        swap_source_amount: u128,
        swap_destination_amount: u128,
        trade_direction: TradeDirection,
    ) -> Option<SwapWithoutFeesResult> {
        match self {
            Calculator::Stable(curve) => curve.swap_outcome(
                source_amount,
                swap_source_amount,
                swap_destination_amount,
                trade_direction,
            ),
        }
    }

    /// The amounts of both tokens behind `pool_tokens` out of a supply of
    /// `pool_token_supply`.
    pub open spec fn proportional_amounts(
        self,
        pool_tokens: u128,
        pool_token_supply: u128,
        swap_token_a_amount: u128,
        swap_token_b_amount: u128,
        round_direction: RoundDirection,
    ) -> Option<TradingTokenResult> {
        match self {
            Calculator::Stable(curve) => curve.proportional_amounts(
                pool_tokens,
                pool_token_supply,
                swap_token_a_amount,
                swap_token_b_amount,
                round_direction,
            ),
        }
    }

    /// The pool tokens that a deposit of one token alone is worth.
    pub open spec fn single_deposit_value(
        self,
        source_amount: u128,
        swap_token_a_amount: u128,
        swap_token_b_amount: u128,
        pool_supply: u128,
        trade_direction: TradeDirection,
    ) -> Option<u128> {
        match self {
            Calculator::Stable(curve) => curve.single_deposit_value(
                source_amount,
                swap_token_a_amount,
                swap_token_b_amount,
                pool_supply,
                trade_direction,
            ),
        }
    }

    /// The pool tokens that a withdrawal of one token alone costs.
    pub open spec fn single_withdrawal_cost(
        self,
        source_amount: u128,
        swap_token_a_amount: u128,
        swap_token_b_amount: u128,
        pool_supply: u128,
        trade_direction: TradeDirection,
    ) -> Option<u128> {
        match self {
            Calculator::Stable(curve) => curve.single_withdrawal_cost(
                source_amount,
                swap_token_a_amount,
                swap_token_b_amount,
                pool_supply,
                trade_direction,
            ),
        }
    }

    /// Whether the curve lets one token be withdrawn alone.
    pub open spec fn single_withdrawal_allowed(self) -> bool {
        match self {
            Calculator::Stable(curve) => curve.single_withdrawal_allowed(),
        }
    }

    /// Number of bytes that the parameters pack into.
    pub open spec fn packed_size(self) -> nat {
        match self {
            Calculator::Stable(_) => StableCurve::packed_size(),
        }
    }

    /// The packed parameters.
    pub open spec fn packed(self) -> Seq<u8> {
        match self {
            Calculator::Stable(curve) => curve.packed(),
        }
    }

    /// The calculator of type `curve_type` that the first bytes of `bytes`
    /// encode.
    pub open spec fn unpacked(curve_type: CurveType, bytes: Seq<u8>) -> Result<
        Calculator,
        SwapError,
    > {
        match curve_type {
            CurveType::Stable => match StableCurve::unpacked(bytes) {
                Ok(curve) => Ok(Calculator::Stable(curve)),
                Err(e) => Err(e),
            },
        }
    }

    /// Tells which curve type the calculator prices.
    pub fn kind(&self) -> (curve_type: CurveType)
        ensures
            curve_type == self.curve_type(),
    {
        match self {
            Calculator::Stable(_) => CurveType::Stable,
        }
    }

    /// Computes a swap on an amount from which the fees are already taken.
    pub fn swap_without_fees(
        &self,
        source_amount: u128,
        swap_source_amount: u128,
        swap_destination_amount: u128,
        trade_direction: TradeDirection,
    ) -> (outcome: Option<SwapWithoutFeesResult>)
        ensures
            outcome == self.swap_outcome(
                source_amount,
                swap_source_amount,
                swap_destination_amount,
                trade_direction,
            ),
            outcome matches Some(swapped) ==> {
                &&& 0 < swapped.source_amount_swapped <= source_amount
                &&& swapped.destination_amount_swapped < swap_destination_amount
            },
    {
        match self {
            Calculator::Stable(curve) => curve.swap_without_fees(
                source_amount,
                swap_source_amount,
                swap_destination_amount,
                trade_direction,
            ),
        }
    }

    /// Converts pool tokens into the amounts of both tokens that stand behind
    /// them.
    pub fn pool_tokens_to_trading_tokens(
        &self,
        pool_tokens: u128,
        pool_token_supply: u128,
        swap_token_a_amount: u128,
        swap_token_b_amount: u128,
        round_direction: RoundDirection,
    ) -> (amounts: Option<TradingTokenResult>)
        ensures
            amounts == self.proportional_amounts(
                pool_tokens,
                pool_token_supply,
                swap_token_a_amount,
                swap_token_b_amount,
                round_direction,
            ),
            amounts matches Some(both) ==> {
                &&& pool_tokens <= pool_token_supply
                &&& both.token_a_amount <= swap_token_a_amount
                &&& both.token_b_amount <= swap_token_b_amount
            },
    {
        match self {
            Calculator::Stable(curve) => curve.pool_tokens_to_trading_tokens(
                pool_tokens,
                pool_token_supply,
                swap_token_a_amount,
                swap_token_b_amount,
                round_direction,
            ),
        }
    }

    /// Values a deposit of `source_amount` of one token in pool tokens.
    pub fn deposit_single_token_type(
        &self,
        source_amount: u128,
        swap_token_a_amount: u128,
        swap_token_b_amount: u128,
        pool_supply: u128,
        trade_direction: TradeDirection,
    ) -> (pool_tokens: Option<u128>)
        ensures
            pool_tokens == self.single_deposit_value(
                source_amount,
                swap_token_a_amount,
                swap_token_b_amount,
                pool_supply,
                trade_direction,
            ),
    {
        match self {
            Calculator::Stable(curve) => curve.deposit_single_token_type(
                source_amount,
                swap_token_a_amount,
                swap_token_b_amount,
                pool_supply,
                trade_direction,
            ),
        }
    }

    /// Prices a withdrawal of exactly `source_amount` of one token in pool
    /// tokens.
    pub fn withdraw_single_token_type_exact_out(
        &self,
        source_amount: u128,
        swap_token_a_amount: u128,
        swap_token_b_amount: u128,
        pool_supply: u128,
        trade_direction: TradeDirection,
    ) -> (pool_tokens: Option<u128>)
        ensures
            pool_tokens == self.single_withdrawal_cost(
                source_amount,
                swap_token_a_amount,
                swap_token_b_amount,
                pool_supply,
                trade_direction,
            ),
            pool_tokens is Some ==> {
                &&& self.single_withdrawal_allowed()
                &&& source_amount <= match trade_direction {
                    TradeDirection::AtoB => swap_token_a_amount,
                    TradeDirection::BtoA => swap_token_b_amount,
                }
            },
    {
        match self {
            Calculator::Stable(curve) => curve.withdraw_single_token_type_exact_out(
                source_amount,
                swap_token_a_amount,
                swap_token_b_amount,
                pool_supply,
                trade_direction,
            ),
        }
    }

    /// Tells whether one token can be withdrawn alone.
    pub fn allows_single_token_withdrawal(&self) -> (allowed: bool)
        ensures
            allowed == self.single_withdrawal_allowed(),
    {
        match self {
            Calculator::Stable(curve) => curve.allows_single_token_withdrawal(),
        }
    }

    /// Writes the parameters over the first bytes of `output`; the bytes after
    /// them stay as they were.
    pub fn pack_into_slice(&self, output: &mut [u8])
        requires
            old(output)@.len() >= CALCULATOR_LEN,
        ensures
            self.packed().len() == self.packed_size(),
            self.packed_size() <= CALCULATOR_LEN,
            final(output)@ == self.packed() + old(output)@.subrange(
                self.packed_size() as int,
                old(output)@.len() as int,
            ),
    {
        match self {
            Calculator::Stable(curve) => curve.pack_into_slice(output),
        }
    }

    /// Reads the parameters of a calculator of type `curve_type` from the
    /// first bytes of `input`.
    pub fn unpack_from_slice(curve_type: CurveType, input: &[u8]) -> (calculator: Result<
        Calculator,
        SwapError,
    >)
        requires
            input@.len() >= CALCULATOR_LEN,
        ensures
            calculator == Calculator::unpacked(curve_type, input@),
            calculator matches Ok(unpacked) ==> unpacked.curve_type() == curve_type,
    {
        match curve_type {
            CurveType::Stable => match StableCurve::unpack_from_slice(input) {
                Ok(curve) => Ok(Calculator::Stable(curve)),
                Err(e) => Err(e),
            },
        }
    }
}

impl SwapCurve {
    /// The pairing that every curve record keeps: the calculator is of the
    /// type that the record names.
    pub open spec fn wf(&self) -> bool {
        self.curve_type == self.calculator.curve_type()
    }

    /// What `swap` returns.
    ///
    /// Both fees are taken from the whole of `source_amount`, and what is left
    /// is priced by the calculator. The source side of the result counts the
    /// fees in, since they stay in the pool; the destination side is what the
    /// calculator gave. Nothing comes of a fee that cannot be computed, of
    /// fees that exceed the amount, of a trade that the calculator refuses
    /// and of a reserve that would leave 128 bits.
    pub open spec fn swap_result(
        &self,
        source_amount: u128,
        swap_source_amount: u128,
        swap_destination_amount: u128,
        trade_direction: TradeDirection,
        fees: Fees,
    ) -> Option<SwapResult> {
        let trade_fee = ratio_of(
            source_amount,
            fees.trade_fee_numerator,
            fees.trade_fee_denominator,
        );
        let owner_fee = ratio_of(
            source_amount,
            fees.owner_trade_fee_numerator,
            fees.owner_trade_fee_denominator,
        );
        let total_fees = opt_add(trade_fee, owner_fee);
        match opt_sub(Some(source_amount), total_fees) {
            None => None,
            Some(source_amount_less_fees) => match self.calculator.swap_outcome(
                source_amount_less_fees,
                swap_source_amount,
                swap_destination_amount,
                trade_direction,
            ) {
                None => None,
                Some(swapped) => {
                    let source_amount_swapped = opt_add(
                        Some(swapped.source_amount_swapped),
                        total_fees,
                    );
                    match (
                        source_amount_swapped,
                        opt_add(Some(swap_source_amount), source_amount_swapped),
                        opt_sub(
                            Some(swap_destination_amount),
                            Some(swapped.destination_amount_swapped),
                        ),
                    ) {
                        (
                            Some(source_amount_swapped),
                            Some(new_swap_source_amount),
                            Some(new_swap_destination_amount),
                        ) => Some(
                            SwapResult {
                                new_swap_source_amount,
                                new_swap_destination_amount,
                                source_amount_swapped,
                                destination_amount_swapped: swapped.destination_amount_swapped,
                                trade_fee: trade_fee.unwrap(),
                                owner_fee: owner_fee.unwrap(),
                            },
                        ),
                        _ => None,
                    }
                },
            },
        }
    }

    /// What `pack_into_slice` leaves in a buffer that held `before`: the
    /// discriminant of the calculator's curve type, the calculator's
    /// parameters, and after them what was there.
    pub open spec fn written_over(&self, before: Seq<u8>) -> Seq<u8> {
        seq![self.calculator.curve_type().discriminant()] + self.calculator.packed()
            + before.subrange(1 + self.calculator.packed_size() as int, before.len() as int)
    }

    /// The canonical packed record: written over zeros.
    pub open spec fn packed(&self) -> Seq<u8> {
        self.written_over(zeros(SWAP_CURVE_LEN as nat))
    }

    /// The record that the first 33 bytes of `bytes` encode.
    pub open spec fn unpacked(bytes: Seq<u8>) -> Result<SwapCurve, SwapError> {
        match CurveType::of_discriminant(bytes[0]) {
            Err(e) => Err(e),
            Ok(curve_type) => match Calculator::unpacked(
                curve_type,
                bytes.subrange(1, SWAP_CURVE_LEN as int),
            ) {
                Err(e) => Err(e),
                Ok(calculator) => Ok(SwapCurve { curve_type, calculator }),
            },
        }
    }

    /// The record that `bytes` are, if they are one: exactly 33 bytes with a
    /// known discriminant.
    pub open spec fn decoded(bytes: Seq<u8>) -> Result<SwapCurve, SwapError> {
        if bytes.len() != SWAP_CURVE_LEN {
            Err(SwapError::InvalidAccountData)
        } else {
            SwapCurve::unpacked(bytes)
        }
    }

    /// Subtracts the fees and computes how much of the destination token a
    /// given amount of the source token buys.
    ///
    /// The reserves that come back are the old ones plus what came in and
    /// minus what went out, exactly, and the two fees together never exceed
    /// the amount that was offered.
    pub fn swap(
        &self,
        source_amount: u128,
        swap_source_amount: u128,
        swap_destination_amount: u128,
        trade_direction: TradeDirection,
        fees: &Fees,
    ) -> (result: Option<SwapResult>)
        ensures
            result == self.swap_result(
                source_amount,
                swap_source_amount,
                swap_destination_amount,
                trade_direction,
                *fees,
            ),
            result matches Some(swap) ==> {
                &&& swap.new_swap_source_amount == swap_source_amount + swap.source_amount_swapped
                &&& swap.new_swap_destination_amount == swap_destination_amount
                    - swap.destination_amount_swapped
                &&& swap.trade_fee + swap.owner_fee < source_amount
                &&& swap.trade_fee + swap.owner_fee < swap.source_amount_swapped <= source_amount
                &&& swap.destination_amount_swapped < swap_destination_amount
            },
    {
        let trade_fee: u128 = match fees.trading_fee(source_amount) {
            None => { return None; },
            Some(fee) => fee,
        };
        let owner_fee: u128 = match fees.owner_trading_fee(source_amount) {
            None => { return None; },
            Some(fee) => fee,
        };
        let total_fees: u128 = match trade_fee.checked_add(owner_fee) {
            None => { return None; },
            Some(total) => total,
        };
        let source_amount_less_fees: u128 = match source_amount.checked_sub(total_fees) {
            None => { return None; },
            Some(rest) => rest,
        };
        let swapped = match self.calculator.swap_without_fees(
            source_amount_less_fees,
            swap_source_amount,
            swap_destination_amount,
            trade_direction,
        ) {
            None => { return None; },
            Some(swapped) => swapped,
        };
        let source_amount_swapped: u128 = match swapped.source_amount_swapped.checked_add(
            total_fees,
        ) {
            None => { return None; },
            Some(gross) => gross,
        };
        let new_swap_source_amount: u128 = match swap_source_amount.checked_add(
            source_amount_swapped,
        ) {
            None => { return None; },
            Some(reserve) => reserve,
        };
        let new_swap_destination_amount: u128 = match swap_destination_amount.checked_sub(
            swapped.destination_amount_swapped,
        ) {
            None => { return None; },
            Some(reserve) => reserve,
        };
        Some(
            SwapResult {
                new_swap_source_amount,
                new_swap_destination_amount,
                source_amount_swapped,
                destination_amount_swapped: swapped.destination_amount_swapped,
                trade_fee,
                owner_fee,
            },
        )
    }

    /// Reads a record from the first 33 bytes of `input`.
    ///
    /// The discriminant is checked before the parameters are read, and what
    /// comes back pairs the curve type with a calculator of that type.
    pub fn unpack_from_slice(input: &[u8]) -> (curve: Result<SwapCurve, SwapError>)
        requires
            input@.len() >= SWAP_CURVE_LEN,
        ensures
            curve == SwapCurve::unpacked(input@),
            curve is Ok <==> input@[0] == STABLE_DISCRIMINANT,
            curve matches Err(e) ==> e == SwapError::InvalidAccountData,
            curve matches Ok(unpacked) ==> unpacked.wf(),
    {
        let (discriminant, parameters) = input.split_at(1);
        let (parameters, _) = parameters.split_at(CALCULATOR_LEN);
        assert(parameters@ =~= input@.subrange(1, SWAP_CURVE_LEN as int));
        let curve_type = match CurveType::try_from(discriminant[0]) {
            Err(e) => { return Err(e); },
            Ok(curve_type) => curve_type,
        };
        match Calculator::unpack_from_slice(curve_type, parameters) {
            Err(e) => Err(e),
            Ok(calculator) => Ok(SwapCurve { curve_type, calculator }),
        }
    }

    /// Reads a record from a buffer of exactly 33 bytes, and refuses any
    /// other buffer.
    pub fn unpack_unchecked(input: &[u8]) -> (curve: Result<SwapCurve, SwapError>)
        ensures
            curve == SwapCurve::decoded(input@),
            curve is Ok <==> input@.len() == SWAP_CURVE_LEN && input@[0] == STABLE_DISCRIMINANT,
            curve matches Err(e) ==> e == SwapError::InvalidAccountData,
            curve matches Ok(unpacked) ==> unpacked.wf(),
    {
        if input.len() != SWAP_CURVE_LEN {
            return Err(SwapError::InvalidAccountData);
        }
        SwapCurve::unpack_from_slice(input)
    }

    /// Writes the record over the first bytes of `output`: the discriminant
    /// of the curve type that the calculator prices, then the calculator's
    /// parameters. The rest of the buffer stays as it was.
    pub fn pack_into_slice(&self, output: &mut [u8])
        requires
            old(output)@.len() >= SWAP_CURVE_LEN,
        ensures
            final(output)@ == self.written_over(old(output)@),
            final(output)@.len() == old(output)@.len(),
    {
        let ghost before = output@;
        let (curve_type, calculator) = output.split_at_mut(1);
        curve_type[0] = self.calculator.kind().to_u8();
        self.calculator.pack_into_slice(calculator);
        proof {
            assert(output@ =~= self.written_over(before));
        }
    }

    /// Gives the canonical packed record.
    pub fn to_bytes(&self) -> (bytes: [u8; SWAP_CURVE_LEN])
        ensures
            bytes@ == self.packed(),
    {
        let mut bytes = [0u8;SWAP_CURVE_LEN];
        assert(bytes@ =~= zeros(SWAP_CURVE_LEN as nat));
        self.pack_into_slice(&mut bytes);
        bytes
    }
}

impl Default for SwapCurve {
    /// The default curve type with the default calculator of that type.
    fn default() -> (curve: SwapCurve)
        ensures
            curve.curve_type == CurveType::Stable,
            curve.calculator == Calculator::Stable(StableCurve { amp: 0 }),
            curve.wf(),
    {
        let curve_type: CurveType = CurveType::default();
        let calculator: StableCurve = StableCurve::default();
        SwapCurve { curve_type, calculator: Calculator::Stable(calculator) }
    }
}

impl Clone for SwapCurve {
    /// A copy made by packing the record and unpacking it again.
    fn clone(&self) -> (copy: SwapCurve)
        ensures
            copy == *self,
    {
        let packed_self = self.to_bytes();
        proof {
            lemma_unpack_written(*self, zeros(SWAP_CURVE_LEN as nat));
        }
        SwapCurve::unpack_from_slice(&packed_self).unwrap()
    }
}

impl PartialEq for SwapCurve {
    /// Two records are equal when they pack into the same bytes.
    fn eq(&self, other: &Self) -> (equal: bool) {
        let packed_self = self.to_bytes();
        let packed_other = other.to_bytes();
        bytes_equal(&packed_self, &packed_other)
    }
}

impl PartialEqSpecImpl for SwapCurve {
    open spec fn obeys_eq_spec() -> bool {
        true
    }

    open spec fn eq_spec(&self, other: &SwapCurve) -> bool {
        self.packed() == other.packed()
    }
}

/// Unpacking what a record was written into gives the record back, whatever
/// the buffer held before.
pub proof fn lemma_unpack_written(curve: SwapCurve, before: Seq<u8>)
    requires
        curve.wf(),
        before.len() >= SWAP_CURVE_LEN,
    ensures
        SwapCurve::unpacked(curve.written_over(before)) == Ok::<SwapCurve, SwapError>(curve),
        curve.written_over(before).len() == before.len(),
{
    let written = curve.written_over(before);
    match curve.calculator {
        Calculator::Stable(stable) => {
            let rest = before.subrange(
                1 + curve.calculator.packed_size() as int,
                SWAP_CURVE_LEN as int,
            );
            crate::wire::lemma_read_first(stable.amp, rest);
            assert(written.subrange(1, SWAP_CURVE_LEN as int) =~= stable.packed() + rest);
        },
    }
}

/// Decoding the canonical packed record gives the record back.
pub proof fn lemma_decode_packed(curve: SwapCurve)
    requires
        curve.wf(),
    ensures
        curve.packed().len() == SWAP_CURVE_LEN,
        SwapCurve::decoded(curve.packed()) == Ok::<SwapCurve, SwapError>(curve),
{
    lemma_unpack_written(curve, zeros(SWAP_CURVE_LEN as nat));
}

/// Two records that pack into the same bytes are the same record.
pub proof fn lemma_packed_injective(a: SwapCurve, b: SwapCurve)
    requires
        a.wf(),
        b.wf(),
        a.packed() == b.packed(),
    ensures
        a == b,
{
    lemma_decode_packed(a);
    lemma_decode_packed(b);
}

/// Conservation: after a swap the source reserve is what it was plus what
/// came in, and the destination reserve is what it was minus what went out.
pub proof fn lemma_swap_conserves(
    curve: SwapCurve,
    source_amount: u128,
    swap_source_amount: u128,
    swap_destination_amount: u128,
    trade_direction: TradeDirection,
    fees: Fees,
)
    requires
        curve.swap_result(
            source_amount,
            swap_source_amount,
            swap_destination_amount,
            trade_direction,
            fees,
        ) is Some,
    ensures
        ({
            let swap = curve.swap_result(
                source_amount,
                swap_source_amount,
                swap_destination_amount,
                trade_direction,
                fees,
            ).unwrap();
            &&& swap.new_swap_source_amount == swap_source_amount + swap.source_amount_swapped
            &&& swap.new_swap_destination_amount == swap_destination_amount
                - swap.destination_amount_swapped
        }),
{
}

/// The fees of a swap that succeeds are the two ratios of the whole amount,
/// and together they do not exceed it.
pub proof fn lemma_swap_fees_bounded(
    curve: SwapCurve,
    source_amount: u128,
    swap_source_amount: u128,
    swap_destination_amount: u128,
    trade_direction: TradeDirection,
    fees: Fees,
)
    requires
        curve.swap_result(
            source_amount,
            swap_source_amount,
            swap_destination_amount,
            trade_direction,
            fees,
        ) is Some,
    ensures
        ({
            let swap = curve.swap_result(
                source_amount,
                swap_source_amount,
                swap_destination_amount,
                trade_direction,
                fees,
            ).unwrap();
            &&& Some(swap.trade_fee) == ratio_of(
                source_amount,
                fees.trade_fee_numerator,
                fees.trade_fee_denominator,
            )
            &&& Some(swap.owner_fee) == ratio_of(
                source_amount,
                fees.owner_trade_fee_numerator,
                fees.owner_trade_fee_denominator,
            )
            &&& swap.trade_fee + swap.owner_fee <= source_amount
        }),
{
}

/// A swap whose fees alone exceed the amount has no result, and neither has
/// one whose fees cannot be computed.
pub proof fn lemma_swap_refuses_excess_fees(
    curve: SwapCurve,
    source_amount: u128,
    swap_source_amount: u128,
    swap_destination_amount: u128,
    trade_direction: TradeDirection,
    fees: Fees,
)
    requires
        ({
            let trade_fee = ratio_of(
                source_amount,
                fees.trade_fee_numerator,
                fees.trade_fee_denominator,
            );
            let owner_fee = ratio_of(
                source_amount,
                fees.owner_trade_fee_numerator,
                fees.owner_trade_fee_denominator,
            );
            trade_fee is None || owner_fee is None || trade_fee.unwrap() + owner_fee.unwrap()
                > source_amount
        }),
    ensures
        curve.swap_result(
            source_amount,
            swap_source_amount,
            swap_destination_amount,
            trade_direction,
            fees,
        ) is None,
{
}

/// A swap whose fees take the whole amount has no result: no calculator
/// prices an empty trade.
pub proof fn lemma_swap_refuses_empty_trade(
    curve: SwapCurve,
    source_amount: u128,
    swap_source_amount: u128,
    swap_destination_amount: u128,
    trade_direction: TradeDirection,
    fees: Fees,
)
    requires
        ({
            let trade_fee = ratio_of(
                source_amount,
                fees.trade_fee_numerator,
                fees.trade_fee_denominator,
            );
            let owner_fee = ratio_of(
                source_amount,
                fees.owner_trade_fee_numerator,
                fees.owner_trade_fee_denominator,
            );
            trade_fee is Some && owner_fee is Some && trade_fee.unwrap() + owner_fee.unwrap()
                == source_amount
        }),
    ensures
        curve.swap_result(
            source_amount,
            swap_source_amount,
            swap_destination_amount,
            trade_direction,
            fees,
        ) is None,
{
}

/// Determinism: the result of a swap depends on nothing but the record and
/// the arguments, so two swaps on equal inputs agree, in what they yield and
/// in whether they yield anything.
pub proof fn lemma_swap_deterministic(
    first: SwapCurve,
    second: SwapCurve,
    source_amount: (u128, u128),
    swap_source_amount: (u128, u128),
    swap_destination_amount: (u128, u128),
    trade_direction: (TradeDirection, TradeDirection),
    fees: (Fees, Fees),
)
    requires
        first == second,
        source_amount.0 == source_amount.1,
        swap_source_amount.0 == swap_source_amount.1,
        swap_destination_amount.0 == swap_destination_amount.1,
        trade_direction.0 == trade_direction.1,
        fees.0 == fees.1,
    ensures
        first.swap_result(
            source_amount.0,
            swap_source_amount.0,
            swap_destination_amount.0,
            trade_direction.0,
            fees.0,
        ) == second.swap_result(
            source_amount.1,
            swap_source_amount.1,
            swap_destination_amount.1,
            trade_direction.1,
            fees.1,
        ),
{
}

/// Packing what 33 bytes decode into gives the 33 bytes back, where they are
/// zero behind the calculator's parameters.
pub proof fn lemma_curve_repacked(bytes: Seq<u8>)
    requires
        SwapCurve::decoded(bytes) is Ok,
        ({
            let size = SwapCurve::decoded(bytes).unwrap().calculator.packed_size();
            bytes.subrange(1 + size as int, SWAP_CURVE_LEN as int) == zeros(
                (SWAP_CURVE_LEN - 1 - size) as nat,
            )
        }),
    ensures
        SwapCurve::decoded(bytes).unwrap().packed() == bytes,
{
    let curve = SwapCurve::decoded(bytes).unwrap();
    vstd::bytes::lemma_auto_spec_u64_to_from_le_bytes();
    match curve.calculator {
        Calculator::Stable(stable) => {
            let size = curve.calculator.packed_size() as int;
            assert(bytes.subrange(1, SWAP_CURVE_LEN as int).subrange(0, 8) =~= bytes.subrange(
                1,
                9,
            ));
            assert(zeros(SWAP_CURVE_LEN as nat).subrange(1 + size, SWAP_CURVE_LEN as int)
                =~= zeros((SWAP_CURVE_LEN - 1 - size) as nat));
            assert(curve.packed() =~= seq![bytes[0]] + bytes.subrange(1, 9) + bytes.subrange(
                9,
                SWAP_CURVE_LEN as int,
            ));
            assert(curve.packed() =~= bytes);
        },
    }
}

/// A swap on the stable curve keeps the invariant of the reserves that the
/// curve priced: what came in less the fees on the source side, what went
/// out on the destination side. The fees themselves stay in the pool on top
/// of that, so the invariant of the reserves that the swap reports can only
/// be the larger for them.
pub proof fn lemma_swap_keeps_invariant_before_fees(
    curve: SwapCurve,
    source_amount: u128,
    swap_source_amount: u128,
    swap_destination_amount: u128,
    trade_direction: TradeDirection,
    fees: Fees,
)
    requires
        curve.swap_result(
            source_amount,
            swap_source_amount,
            swap_destination_amount,
            trade_direction,
            fees,
        ) is Some,
    ensures
        ({
            let swap = curve.swap_result(
                source_amount,
                swap_source_amount,
                swap_destination_amount,
                trade_direction,
                fees,
            ).unwrap();
            let Calculator::Stable(stable) = curve.calculator;
            let priced = swap.source_amount_swapped - swap.trade_fee - swap.owner_fee;
            let before = invariant_of(stable.amp, swap_source_amount, swap_destination_amount);
            let after = invariant_of(
                stable.amp,
                (swap_source_amount + priced) as u128,
                swap.new_swap_destination_amount,
            );
            &&& 0 < priced
            &&& swap_source_amount + priced <= swap.new_swap_source_amount
            &&& before is Some
            &&& after is Some
            &&& within_tolerance(before.unwrap(), after.unwrap())
        }),
{
    let Calculator::Stable(stable) = curve.calculator;
    let swap = curve.swap_result(
        source_amount,
        swap_source_amount,
        swap_destination_amount,
        trade_direction,
        fees,
    ).unwrap();
    let priced = (swap.source_amount_swapped - swap.trade_fee - swap.owner_fee) as u128;
    crate::curve::stable::lemma_swap_keeps_invariant(
        stable.amp,
        priced,
        swap_source_amount,
        swap_destination_amount,
    );
}

} // verus!
