//! The fee model: four ratios, each applied with floor division.

use crate::error::SwapError;
use crate::wire::{read_u64, u64_at, write_u64};
use vstd::prelude::*;

verus! {

/// The ratios by which a pool charges its users.
///
/// A ratio whose denominator is zero is inactive: it yields no fee at all,
/// which is not the same as a fee of zero.
#[derive(Clone, Copy, Debug, PartialEq, Eq, Structural)]
pub struct Fees {
    /// Numerator of the share of a trade's input that stays in the pool.
    pub trade_fee_numerator: u64,
    /// Denominator of the share of a trade's input that stays in the pool.
    pub trade_fee_denominator: u64,
    /// Numerator of the share of a trade's input that goes to the owner.
    pub owner_trade_fee_numerator: u64,
    /// Denominator of the share of a trade's input that goes to the owner.
    pub owner_trade_fee_denominator: u64,
    /// Numerator of the share of a withdrawal that goes to the owner.
    pub owner_withdraw_fee_numerator: u64,
    /// Denominator of the share of a withdrawal that goes to the owner.
    pub owner_withdraw_fee_denominator: u64,
    /// Numerator of the share of the owner's fee that goes to the host.
    pub host_fee_numerator: u64,
    /// Denominator of the share of the owner's fee that goes to the host.
    pub host_fee_denominator: u64,
}

/// Length in bytes of a packed `Fees` record.
pub const FEES_LEN: usize = 64;

/// `amount * numerator / denominator`, rounded down: nothing when the
/// denominator is zero or the product does not fit in 128 bits.
pub open spec fn ratio_of(amount: u128, numerator: u64, denominator: u64) -> Option<u128> {
    if denominator == 0 || amount * numerator > u128::MAX {
        None
    } else {
        Some((amount * numerator / (denominator as int)) as u128)
    }
}

/// Applies one ratio to an amount.
pub fn calculate_fee(amount: u128, numerator: u64, denominator: u64) -> (fee: Option<u128>)
    ensures
        fee == ratio_of(amount, numerator, denominator),
{
    let wide_numerator: u128 = numerator as u128;
    let wide_denominator: u128 = denominator as u128;
    match amount.checked_mul(wide_numerator) {
        None => None,
        Some(product) => product.checked_div(wide_denominator),
    }
}

/// A fee never exceeds the amount it is taken from when the ratio is at most
/// one.
pub proof fn lemma_ratio_bounded(amount: u128, numerator: u64, denominator: u64)
    requires
        numerator <= denominator,
        ratio_of(amount, numerator, denominator) is Some,
    ensures
        ratio_of(amount, numerator, denominator).unwrap() <= amount,
{
    let d = denominator as int;
    assert(amount * numerator <= amount * d) by (nonlinear_arith)
        requires
            numerator <= d,
            amount >= 0,
    ;
    assert((amount * numerator) / d <= amount) by (nonlinear_arith)
        requires
            amount * numerator <= amount * d,
            d > 0,
            amount >= 0,
    ;
}

impl Fees {
    /// The packed form: eight little-endian integers in the order of the
    /// fields.
    pub open spec fn packed(self) -> Seq<u8> {
        Seq::<u8>::empty() + vstd::bytes::spec_u64_to_le_bytes(self.trade_fee_numerator)
            + vstd::bytes::spec_u64_to_le_bytes(self.trade_fee_denominator)
            + vstd::bytes::spec_u64_to_le_bytes(self.owner_trade_fee_numerator)
            + vstd::bytes::spec_u64_to_le_bytes(self.owner_trade_fee_denominator)
            + vstd::bytes::spec_u64_to_le_bytes(self.owner_withdraw_fee_numerator)
            + vstd::bytes::spec_u64_to_le_bytes(self.owner_withdraw_fee_denominator)
            + vstd::bytes::spec_u64_to_le_bytes(self.host_fee_numerator)
            + vstd::bytes::spec_u64_to_le_bytes(self.host_fee_denominator)
    }

    /// The record that the first 64 bytes of `s` encode.
    pub open spec fn unpacked(s: Seq<u8>) -> Fees {
        Fees {
            trade_fee_numerator: u64_at(s, 0),
            trade_fee_denominator: u64_at(s, 8),
            owner_trade_fee_numerator: u64_at(s, 16),
            owner_trade_fee_denominator: u64_at(s, 24),
            owner_withdraw_fee_numerator: u64_at(s, 32),
            owner_withdraw_fee_denominator: u64_at(s, 40),
            host_fee_numerator: u64_at(s, 48),
            host_fee_denominator: u64_at(s, 56),
        }
    }

    /// The share of a trade's input that stays in the pool.
    pub fn trading_fee(&self, trading_tokens: u128) -> (fee: Option<u128>)
        ensures
            fee == ratio_of(trading_tokens, self.trade_fee_numerator, self.trade_fee_denominator),
    {
        calculate_fee(trading_tokens, self.trade_fee_numerator, self.trade_fee_denominator)
    }

    /// The share of a trade's input that goes to the pool's owner.
    pub fn owner_trading_fee(&self, trading_tokens: u128) -> (fee: Option<u128>)
        ensures
            fee == ratio_of(
                trading_tokens,
                self.owner_trade_fee_numerator,
                self.owner_trade_fee_denominator,
            ),
    {
        calculate_fee(
            trading_tokens,
            self.owner_trade_fee_numerator,
            self.owner_trade_fee_denominator,
        )
    }

    /// The share of withdrawn pool tokens that goes to the pool's owner.
    pub fn owner_withdraw_fee(&self, pool_tokens: u128) -> (fee: Option<u128>)
        ensures
            fee == ratio_of(
                pool_tokens,
                self.owner_withdraw_fee_numerator,
                self.owner_withdraw_fee_denominator,
            ),
    {
        calculate_fee(
            pool_tokens,
            self.owner_withdraw_fee_numerator,
            self.owner_withdraw_fee_denominator,
        )
    }

    /// The share of the owner's fee that goes to the host of the trade.
    pub fn host_fee(&self, owner_fee: u128) -> (fee: Option<u128>)
        ensures
            fee == ratio_of(owner_fee, self.host_fee_numerator, self.host_fee_denominator),
    {
        calculate_fee(owner_fee, self.host_fee_numerator, self.host_fee_denominator)
    }

    /// Reads a record from the first 64 bytes of `input`.
    pub fn unpack_from_slice(input: &[u8]) -> (fees: Fees)
        requires
            input@.len() >= FEES_LEN,
        ensures
            fees == Fees::unpacked(input@),
    {
        Fees {
            trade_fee_numerator: read_u64(input, 0),
            trade_fee_denominator: read_u64(input, 8),
            owner_trade_fee_numerator: read_u64(input, 16),
            owner_trade_fee_denominator: read_u64(input, 24),
            owner_withdraw_fee_numerator: read_u64(input, 32),
            owner_withdraw_fee_denominator: read_u64(input, 40),
            host_fee_numerator: read_u64(input, 48),
            host_fee_denominator: read_u64(input, 56),
        }
    }

    /// Reads a record from a buffer of exactly 64 bytes, and refuses any
    /// other buffer.
    pub fn unpack_unchecked(input: &[u8]) -> (fees: Result<Fees, SwapError>)
        ensures
            fees == if input@.len() == FEES_LEN {
                Ok::<Fees, SwapError>(Fees::unpacked(input@))
            } else {
                Err::<Fees, SwapError>(SwapError::InvalidAccountData)
            },
    {
        if input.len() != FEES_LEN {
            return Err(SwapError::InvalidAccountData);
        }
        Ok(Fees::unpack_from_slice(input))
    }

    /// Writes the record over the first 64 bytes of `output`; the bytes after
    /// them stay as they were.
    pub fn pack_into_slice(&self, output: &mut [u8])
        requires
            old(output)@.len() >= FEES_LEN,
        ensures
            final(output)@ == self.packed() + old(output)@.subrange(
                FEES_LEN as int,
                old(output)@.len() as int,
            ),
    {
        let ghost before = output@;
        write_u64(output, 0, self.trade_fee_numerator);
        write_u64(output, 8, self.trade_fee_denominator);
        write_u64(output, 16, self.owner_trade_fee_numerator);
        write_u64(output, 24, self.owner_trade_fee_denominator);
        write_u64(output, 32, self.owner_withdraw_fee_numerator);
        write_u64(output, 40, self.owner_withdraw_fee_denominator);
        write_u64(output, 48, self.host_fee_numerator);
        write_u64(output, 56, self.host_fee_denominator);
        proof {
            vstd::bytes::lemma_auto_spec_u64_to_from_le_bytes();
            assert(output@ =~= self.packed() + before.subrange(
                FEES_LEN as int,
                before.len() as int,
            ));
        }
    }
}

/// Unpacking a packed record gives the record back, whatever follows it in
/// the buffer.
pub proof fn lemma_fees_round_trip(fees: Fees, rest: Seq<u8>)
    ensures
        fees.packed().len() == FEES_LEN,
        Fees::unpacked(fees.packed() + rest) == fees,
{
    let f0 = vstd::bytes::spec_u64_to_le_bytes(fees.trade_fee_numerator);
    let f1 = vstd::bytes::spec_u64_to_le_bytes(fees.trade_fee_denominator);
    let f2 = vstd::bytes::spec_u64_to_le_bytes(fees.owner_trade_fee_numerator);
    let f3 = vstd::bytes::spec_u64_to_le_bytes(fees.owner_trade_fee_denominator);
    let f4 = vstd::bytes::spec_u64_to_le_bytes(fees.owner_withdraw_fee_numerator);
    let f5 = vstd::bytes::spec_u64_to_le_bytes(fees.owner_withdraw_fee_denominator);
    let f6 = vstd::bytes::spec_u64_to_le_bytes(fees.host_fee_numerator);
    let f7 = vstd::bytes::spec_u64_to_le_bytes(fees.host_fee_denominator);
    let all = fees.packed() + rest;
    vstd::bytes::lemma_auto_spec_u64_to_from_le_bytes();
    assert(all.subrange(0, 8) =~= f0);
    assert(all.subrange(8, 16) =~= f1);
    assert(all.subrange(16, 24) =~= f2);
    assert(all.subrange(24, 32) =~= f3);
    assert(all.subrange(32, 40) =~= f4);
    assert(all.subrange(40, 48) =~= f5);
    assert(all.subrange(48, 56) =~= f6);
    assert(all.subrange(56, 64) =~= f7);
}

/// Packing what 64 bytes unpack into gives the 64 bytes back.
pub proof fn lemma_fees_repacked(bytes: Seq<u8>)
    requires
        bytes.len() == FEES_LEN,
    ensures
        Fees::unpacked(bytes).packed() == bytes,
{
    vstd::bytes::lemma_auto_spec_u64_to_from_le_bytes();
    assert(Fees::unpacked(bytes).packed() =~= bytes.subrange(0, 8) + bytes.subrange(8, 16)
        + bytes.subrange(16, 24) + bytes.subrange(24, 32) + bytes.subrange(32, 40)
        + bytes.subrange(40, 48) + bytes.subrange(48, 56) + bytes.subrange(56, 64));
    assert(bytes =~= bytes.subrange(0, 8) + bytes.subrange(8, 16) + bytes.subrange(16, 24)
        + bytes.subrange(24, 32) + bytes.subrange(32, 40) + bytes.subrange(40, 48)
        + bytes.subrange(48, 56) + bytes.subrange(56, 64));
}

} // verus!
