//! The operation requests and their wire form.
//!
//! A request is one tag byte and a payload of fixed width for that tag, every
//! integer little-endian and nothing between the fields:
//!
//! | tag | request | payload |
//! |---|---|---|
//! | 0 | `Initialize` | the fees (64 bytes), the curve record (33 bytes) |
//! | 1 | `Swap` | `amount_in`, `minimum_amount_out` |
//! | 2 | `DepositAllTokenTypes` | `pool_token_amount`, `maximum_token_a_amount`, `maximum_token_b_amount` |
//! | 3 | `WithdrawAllTokenTypes` | `pool_token_amount`, `minimum_token_a_amount`, `minimum_token_b_amount` |

use crate::curve::base::{SwapCurve, SWAP_CURVE_LEN};
use crate::curve::fees::{Fees, FEES_LEN};
use crate::error::SwapError;
use crate::host::{readonly, writable};
use crate::wire::{lemma_read_behind, lemma_read_first, u64_at, zeros};
use solana_program::instruction::{AccountMeta, Instruction};
use solana_program::pubkey::Pubkey;
use vstd::bytes::{spec_u64_to_le_bytes, u64_from_le_bytes, u64_to_le_bytes};
use vstd::prelude::*;

verus! {

/// Tag of an `Initialize` request.
pub const INITIALIZE_TAG: u8 = 0;

/// Tag of a `Swap` request.
pub const SWAP_TAG: u8 = 1;

/// Tag of a `DepositAllTokenTypes` request.
pub const DEPOSIT_ALL_TOKEN_TYPES_TAG: u8 = 2;

/// Tag of a `WithdrawAllTokenTypes` request.
pub const WITHDRAW_ALL_TOKEN_TYPES_TAG: u8 = 3;

/// Sets up a new pool.
#[derive(Debug, PartialEq)]
pub struct Initialize {
    /// All fees of the pool.
    pub fees: Fees,
    /// The curve of the pool: its type and the parameters of that type.
    pub swap_curve: SwapCurve,
}

/// Trades one token of the pool for the other.
#[derive(Clone, Copy, Debug, PartialEq, Eq, Structural)]
pub struct Swap {
    /// Amount of the source token to pay in.
    pub amount_in: u64,
    /// Least amount of the destination token to accept.
    pub minimum_amount_out: u64,
}

/// Deposits both tokens at the pool's current ratio.
#[derive(Clone, Copy, Debug, PartialEq, Eq, Structural)]
pub struct DepositAllTokenTypes {
    /// Amount of pool tokens to receive.
    pub pool_token_amount: u64,
    /// Most of token A to pay for them.
    pub maximum_token_a_amount: u64,
    /// Most of token B to pay for them.
    pub maximum_token_b_amount: u64,
}

/// Withdraws both tokens at the pool's current ratio.
#[derive(Clone, Copy, Debug, PartialEq, Eq, Structural)]
pub struct WithdrawAllTokenTypes {
    /// Amount of pool tokens to give up.
    pub pool_token_amount: u64,
    /// Least of token A to accept for them.
    pub minimum_token_a_amount: u64,
    /// Least of token B to accept for them.
    pub minimum_token_b_amount: u64,
}

/// A request to the pool.
#[derive(Debug, PartialEq)]
pub enum SwapInstruction {
    /// Sets up a new pool.
    Initialize(Initialize),
    /// Trades one token of the pool for the other.
    Swap(Swap),
    /// Deposits both tokens at the pool's current ratio.
    DepositAllTokenTypes(DepositAllTokenTypes),
    /// Withdraws both tokens at the pool's current ratio.
    WithdrawAllTokenTypes(WithdrawAllTokenTypes),
}

/// The integer that starts `input` and the bytes after it: an error for
/// fewer than eight bytes.
pub open spec fn leading_u64(input: Seq<u8>) -> Result<(u64, Seq<u8>), SwapError> {
    if input.len() >= 8 {
        Ok((u64_at(input, 0), input.subrange(8, input.len() as int)))
    } else {
        Err(SwapError::InvalidInstruction)
    }
}

impl SwapInstruction {
    /// Whether the request is one that can be sent: its curve record, if it
    /// has one, pairs the curve type with a calculator of that type.
    pub open spec fn wf(&self) -> bool {
        match self {
            SwapInstruction::Initialize(initialize) => initialize.swap_curve.wf(),
            _ => true,
        }
    }

    /// The wire form: the tag, then the fields in their order.
    pub open spec fn packed(&self) -> Seq<u8> {
        match self {
            SwapInstruction::Initialize(initialize) => seq![INITIALIZE_TAG]
                + initialize.fees.packed() + initialize.swap_curve.packed(),
            SwapInstruction::Swap(swap) => seq![SWAP_TAG] + spec_u64_to_le_bytes(swap.amount_in)
                + spec_u64_to_le_bytes(swap.minimum_amount_out),
            SwapInstruction::DepositAllTokenTypes(deposit) => seq![DEPOSIT_ALL_TOKEN_TYPES_TAG]
                + spec_u64_to_le_bytes(deposit.pool_token_amount) + spec_u64_to_le_bytes(
                deposit.maximum_token_a_amount,
            ) + spec_u64_to_le_bytes(deposit.maximum_token_b_amount),
            SwapInstruction::WithdrawAllTokenTypes(withdraw) => seq![
                WITHDRAW_ALL_TOKEN_TYPES_TAG,
            ] + spec_u64_to_le_bytes(withdraw.pool_token_amount) + spec_u64_to_le_bytes(
                withdraw.minimum_token_a_amount,
            ) + spec_u64_to_le_bytes(withdraw.minimum_token_b_amount),
        }
    }

    /// The `Initialize` request that a payload encodes.
    ///
    /// A payload that stops short of the fees and the curve record is no
    /// request. One that goes on after them, or whose curve record has an
    /// unknown discriminant, holds no valid record.
    pub open spec fn unpacked_initialize(payload: Seq<u8>) -> Result<SwapInstruction, SwapError> {
        if payload.len() < FEES_LEN + SWAP_CURVE_LEN {
            Err(SwapError::InvalidInstruction)
        } else {
            match SwapCurve::decoded(payload.subrange(FEES_LEN as int, payload.len() as int)) {
                Err(e) => Err(e),
                Ok(swap_curve) => Ok(
                    SwapInstruction::Initialize(
                        Initialize {
                            fees: Fees::unpacked(payload.subrange(0, FEES_LEN as int)),
                            swap_curve,
                        },
                    ),
                ),
            }
        }
    }

    /// The request that `input` encodes.
    ///
    /// An empty input, an unknown tag and a payload that stops short are the
    /// same error. Bytes after the payload of a swap, a deposit or a
    /// withdrawal are passed over.
    pub open spec fn unpacked(input: Seq<u8>) -> Result<SwapInstruction, SwapError> {
        if input.len() == 0 {
            Err(SwapError::InvalidInstruction)
        } else {
            let payload = input.subrange(1, input.len() as int);
            if input[0] == INITIALIZE_TAG {
                SwapInstruction::unpacked_initialize(payload)
            } else if input[0] == SWAP_TAG {
                if payload.len() < 16 {
                    Err(SwapError::InvalidInstruction)
                } else {
                    Ok(
                        SwapInstruction::Swap(
                            Swap {
                                amount_in: u64_at(payload, 0),
                                minimum_amount_out: u64_at(payload, 8),
                            },
                        ),
                    )
                }
            } else if input[0] == DEPOSIT_ALL_TOKEN_TYPES_TAG {
                if payload.len() < 24 {
                    Err(SwapError::InvalidInstruction)
                } else {
                    Ok(
                        SwapInstruction::DepositAllTokenTypes(
                            DepositAllTokenTypes {
                                pool_token_amount: u64_at(payload, 0),
                                maximum_token_a_amount: u64_at(payload, 8),
                                maximum_token_b_amount: u64_at(payload, 16),
                            },
                        ),
                    )
                }
            } else if input[0] == WITHDRAW_ALL_TOKEN_TYPES_TAG {
                if payload.len() < 24 {
                    Err(SwapError::InvalidInstruction)
                } else {
                    Ok(
                        SwapInstruction::WithdrawAllTokenTypes(
                            WithdrawAllTokenTypes {
                                pool_token_amount: u64_at(payload, 0),
                                minimum_token_a_amount: u64_at(payload, 8),
                                minimum_token_b_amount: u64_at(payload, 16),
                            },
                        ),
                    )
                }
            } else {
                Err(SwapError::InvalidInstruction)
            }
        }
    }

    /// Unpacks a byte buffer into a request.
    ///
    /// Every buffer has an answer: the request, or the reason why it is none.
    pub fn unpack(input: &[u8]) -> (instruction: Result<SwapInstruction, SwapError>)
        ensures
            instruction == SwapInstruction::unpacked(input@),
            instruction matches Ok(unpacked) ==> unpacked.wf(),
    {
        if input.len() == 0 {
            return Err(SwapError::InvalidInstruction);
        }
        let (tag, rest) = input.split_at(1);
        let tag: u8 = tag[0];
        if tag == INITIALIZE_TAG {
            if rest.len() >= FEES_LEN + SWAP_CURVE_LEN {
                let (fees, rest) = rest.split_at(FEES_LEN);
                let fees = match Fees::unpack_unchecked(fees) {
                    Err(e) => { return Err(e); },
                    Ok(fees) => fees,
                };
                let swap_curve = match SwapCurve::unpack_unchecked(rest) {
                    Err(e) => { return Err(e); },
                    Ok(swap_curve) => swap_curve,
                };
                Ok(SwapInstruction::Initialize(Initialize { fees, swap_curve }))
            } else {
                Err(SwapError::InvalidInstruction)
            }
        } else if tag == SWAP_TAG {
            let ghost payload = rest@;
            let (amount_in, rest) = match SwapInstruction::unpack_u64(rest) {
                Err(e) => { return Err(e); },
                Ok(pair) => pair,
            };
            let (minimum_amount_out, _rest) = match SwapInstruction::unpack_u64(rest) {
                Err(e) => { return Err(e); },
                Ok(pair) => pair,
            };
            proof {
                assert(payload.subrange(8, payload.len() as int).subrange(0, 8)
                    =~= payload.subrange(8, 16));
            }
            Ok(SwapInstruction::Swap(Swap { amount_in, minimum_amount_out }))
        } else if tag == DEPOSIT_ALL_TOKEN_TYPES_TAG {
            let ghost payload = rest@;
            let (pool_token_amount, rest) = match SwapInstruction::unpack_u64(rest) {
                Err(e) => { return Err(e); },
                Ok(pair) => pair,
            };
            let (maximum_token_a_amount, rest) = match SwapInstruction::unpack_u64(rest) {
                Err(e) => { return Err(e); },
                Ok(pair) => pair,
            };
            let (maximum_token_b_amount, _rest) = match SwapInstruction::unpack_u64(rest) {
                Err(e) => { return Err(e); },
                Ok(pair) => pair,
            };
            proof {
                lemma_three_fields(payload);
            }
            Ok(
                SwapInstruction::DepositAllTokenTypes(
                    DepositAllTokenTypes {
                        pool_token_amount,
                        maximum_token_a_amount,
                        maximum_token_b_amount,
                    },
                ),
            )
        } else if tag == WITHDRAW_ALL_TOKEN_TYPES_TAG {
            let ghost payload = rest@;
            let (pool_token_amount, rest) = match SwapInstruction::unpack_u64(rest) {
                Err(e) => { return Err(e); },
                Ok(pair) => pair,
            };
            let (minimum_token_a_amount, rest) = match SwapInstruction::unpack_u64(rest) {
                Err(e) => { return Err(e); },
                Ok(pair) => pair,
            };
            let (minimum_token_b_amount, _rest) = match SwapInstruction::unpack_u64(rest) {
                Err(e) => { return Err(e); },
                Ok(pair) => pair,
            };
            proof {
                lemma_three_fields(payload);
            }
            Ok(
                SwapInstruction::WithdrawAllTokenTypes(
                    WithdrawAllTokenTypes {
                        pool_token_amount,
                        minimum_token_a_amount,
                        minimum_token_b_amount,
                    },
                ),
            )
        } else {
            Err(SwapError::InvalidInstruction)
        }
    }

    /// Splits the little-endian integer that starts `input` from the bytes
    /// after it.
    pub fn unpack_u64(input: &[u8]) -> (split: Result<(u64, &[u8]), SwapError>)
        ensures
            input@.len() < 8 ==> split == Err::<(u64, &[u8]), SwapError>(
                SwapError::InvalidInstruction,
            ),
            input@.len() >= 8 ==> split is Ok,
            split matches Ok((amount, rest)) ==> leading_u64(input@) == Ok::<
                (u64, Seq<u8>),
                SwapError,
            >((amount, rest@)),
    {
        if input.len() >= 8 {
            let (amount, rest) = input.split_at(8);
            let amount = u64_from_le_bytes(amount);
            Ok((amount, rest))
        } else {
            Err(SwapError::InvalidInstruction)
        }
    }

    /// Packs a request into its wire form.
    pub fn pack(&self) -> (buf: Vec<u8>)
        ensures
            buf@ == self.packed(),
    {
        let mut buf: Vec<u8> = Vec::new();
        match self {
            SwapInstruction::Initialize(Initialize { fees, swap_curve }) => {
                buf.push(INITIALIZE_TAG);
                let mut fees_slice = [0u8;FEES_LEN];
                fees.pack_into_slice(&mut fees_slice);
                buf.extend_from_slice(&fees_slice);
                let swap_curve_slice = swap_curve.to_bytes();
                buf.extend_from_slice(&swap_curve_slice);
                assert(buf@ =~= self.packed());
            },
            SwapInstruction::Swap(Swap { amount_in, minimum_amount_out }) => {
                buf.push(SWAP_TAG);
                buf.extend_from_slice(u64_to_le_bytes(*amount_in).as_slice());
                buf.extend_from_slice(u64_to_le_bytes(*minimum_amount_out).as_slice());
                assert(buf@ =~= self.packed());
            },
            SwapInstruction::DepositAllTokenTypes(
                DepositAllTokenTypes {
                    pool_token_amount,
                    maximum_token_a_amount,
                    maximum_token_b_amount,
                },
            ) => {
                buf.push(DEPOSIT_ALL_TOKEN_TYPES_TAG);
                buf.extend_from_slice(u64_to_le_bytes(*pool_token_amount).as_slice());
                buf.extend_from_slice(u64_to_le_bytes(*maximum_token_a_amount).as_slice());
                buf.extend_from_slice(u64_to_le_bytes(*maximum_token_b_amount).as_slice());
                assert(buf@ =~= self.packed());
            },
            SwapInstruction::WithdrawAllTokenTypes(
                WithdrawAllTokenTypes {
                    pool_token_amount,
                    minimum_token_a_amount,
                    minimum_token_b_amount,
                },
            ) => {
                buf.push(WITHDRAW_ALL_TOKEN_TYPES_TAG);
                buf.extend_from_slice(u64_to_le_bytes(*pool_token_amount).as_slice());
                buf.extend_from_slice(u64_to_le_bytes(*minimum_token_a_amount).as_slice());
                buf.extend_from_slice(u64_to_le_bytes(*minimum_token_b_amount).as_slice());
                assert(buf@ =~= self.packed());
            },
        }
        buf
    }
}

/// Creates an `Initialize` instruction.
///
/// The new pool is writable and signs; the pool token mint and the account
/// that receives the first pool tokens are writable; the rest is read.
pub fn initialize(
    program_id: &Pubkey,
    token_program_id: &Pubkey,
    swap_pubkey: &Pubkey,
    authority_pubkey: &Pubkey,
    token_a_pubkey: &Pubkey,
    token_b_pubkey: &Pubkey,
    pool_pubkey: &Pubkey,
    fee_pubkey: &Pubkey,
    destination_pubkey: &Pubkey,
    fees: Fees,
    swap_curve: SwapCurve,
) -> (instruction: Result<Instruction, SwapError>)
    ensures
        instruction matches Ok(built) && {
            &&& built.program_id == *program_id
            &&& built.data@ == SwapInstruction::Initialize(Initialize { fees, swap_curve }).packed()
            &&& built.accounts@ == seq![
                writable(*swap_pubkey, true),
                readonly(*authority_pubkey, false),
                readonly(*token_a_pubkey, false),
                readonly(*token_b_pubkey, false),
                writable(*pool_pubkey, false),
                readonly(*fee_pubkey, false),
                writable(*destination_pubkey, false),
                readonly(*token_program_id, false),
            ]
        },
{
    let init_data = SwapInstruction::Initialize(Initialize { fees, swap_curve });
    let data = init_data.pack();

    let accounts = vec![
        AccountMeta::new(*swap_pubkey, true),
        AccountMeta::new_readonly(*authority_pubkey, false),
        AccountMeta::new_readonly(*token_a_pubkey, false),
        AccountMeta::new_readonly(*token_b_pubkey, false),
        AccountMeta::new(*pool_pubkey, false),
        AccountMeta::new_readonly(*fee_pubkey, false),
        AccountMeta::new(*destination_pubkey, false),
        AccountMeta::new_readonly(*token_program_id, false),
    ];

    Ok(Instruction { program_id: *program_id, accounts, data })
}

/// Creates a `DepositAllTokenTypes` instruction.
///
/// The user's transfer authority signs; the accounts that tokens leave or
/// reach and the pool token mint are writable.
pub fn deposit_all_token_types(
    program_id: &Pubkey,
    token_program_id: &Pubkey,
    swap_pubkey: &Pubkey,
    authority_pubkey: &Pubkey,
    user_transfer_authority_pubkey: &Pubkey,
    deposit_token_a_pubkey: &Pubkey,
    deposit_token_b_pubkey: &Pubkey,
    swap_token_a_pubkey: &Pubkey,
    swap_token_b_pubkey: &Pubkey,
    pool_mint_pubkey: &Pubkey,
    destination_pubkey: &Pubkey,
    instruction: DepositAllTokenTypes,
) -> (built: Result<Instruction, SwapError>)
    ensures
        built matches Ok(built) && {
            &&& built.program_id == *program_id
            &&& built.data@ == SwapInstruction::DepositAllTokenTypes(instruction).packed()
            &&& built.accounts@ == seq![
                readonly(*swap_pubkey, false),
                readonly(*authority_pubkey, false),
                readonly(*user_transfer_authority_pubkey, true),
                writable(*deposit_token_a_pubkey, false),
                writable(*deposit_token_b_pubkey, false),
                writable(*swap_token_a_pubkey, false),
                writable(*swap_token_b_pubkey, false),
                writable(*pool_mint_pubkey, false),
                writable(*destination_pubkey, false),
                readonly(*token_program_id, false),
            ]
        },
{
    let data = SwapInstruction::DepositAllTokenTypes(instruction).pack();

    let accounts = vec![
        AccountMeta::new_readonly(*swap_pubkey, false),
        AccountMeta::new_readonly(*authority_pubkey, false),
        AccountMeta::new_readonly(*user_transfer_authority_pubkey, true),
        AccountMeta::new(*deposit_token_a_pubkey, false),
        AccountMeta::new(*deposit_token_b_pubkey, false),
        AccountMeta::new(*swap_token_a_pubkey, false),
        AccountMeta::new(*swap_token_b_pubkey, false),
        AccountMeta::new(*pool_mint_pubkey, false),
        AccountMeta::new(*destination_pubkey, false),
        AccountMeta::new_readonly(*token_program_id, false),
    ];

    Ok(Instruction { program_id: *program_id, accounts, data })
}

/// Creates a `WithdrawAllTokenTypes` instruction.
///
/// The user's transfer authority signs; the pool token mint, the accounts
/// that tokens leave or reach and the fee account are writable.
pub fn withdraw_all_token_types(
    program_id: &Pubkey,
    token_program_id: &Pubkey,
    swap_pubkey: &Pubkey,
    authority_pubkey: &Pubkey,
    user_transfer_authority_pubkey: &Pubkey,
    pool_mint_pubkey: &Pubkey,
    fee_account_pubkey: &Pubkey,
    source_pubkey: &Pubkey,
    swap_token_a_pubkey: &Pubkey,
    swap_token_b_pubkey: &Pubkey,
    destination_token_a_pubkey: &Pubkey,
    destination_token_b_pubkey: &Pubkey,
    instruction: WithdrawAllTokenTypes,
) -> (built: Result<Instruction, SwapError>)
    ensures
        built matches Ok(built) && {
            &&& built.program_id == *program_id
            &&& built.data@ == SwapInstruction::WithdrawAllTokenTypes(instruction).packed()
            &&& built.accounts@ == seq![
                readonly(*swap_pubkey, false),
                readonly(*authority_pubkey, false),
                readonly(*user_transfer_authority_pubkey, true),
                writable(*pool_mint_pubkey, false),
                writable(*source_pubkey, false),
                writable(*swap_token_a_pubkey, false),
                writable(*swap_token_b_pubkey, false),
                writable(*destination_token_a_pubkey, false),
                writable(*destination_token_b_pubkey, false),
                writable(*fee_account_pubkey, false),
                readonly(*token_program_id, false),
            ]
        },
{
    let data = SwapInstruction::WithdrawAllTokenTypes(instruction).pack();

    let accounts = vec![
        AccountMeta::new_readonly(*swap_pubkey, false),
        AccountMeta::new_readonly(*authority_pubkey, false),
        AccountMeta::new_readonly(*user_transfer_authority_pubkey, true),
        AccountMeta::new(*pool_mint_pubkey, false),
        AccountMeta::new(*source_pubkey, false),
        AccountMeta::new(*swap_token_a_pubkey, false),
        AccountMeta::new(*swap_token_b_pubkey, false),
        AccountMeta::new(*destination_token_a_pubkey, false),
        AccountMeta::new(*destination_token_b_pubkey, false),
        AccountMeta::new(*fee_account_pubkey, false),
        AccountMeta::new_readonly(*token_program_id, false),
    ];

    Ok(Instruction { program_id: *program_id, accounts, data })
}

/// The accounts of a `Swap` instruction without a host: the user's transfer
/// authority signs; the four token accounts, the pool token mint and the
/// pool's fee account are writable.
pub open spec fn swap_accounts(
    token_program_id: Pubkey,
    swap_pubkey: Pubkey,
    authority_pubkey: Pubkey,
    user_transfer_authority_pubkey: Pubkey,
    source_pubkey: Pubkey,
    swap_source_pubkey: Pubkey,
    swap_destination_pubkey: Pubkey,
    destination_pubkey: Pubkey,
    pool_mint_pubkey: Pubkey,
    pool_fee_pubkey: Pubkey,
) -> Seq<AccountMeta> {
    seq![
        readonly(swap_pubkey, false),
        readonly(authority_pubkey, false),
        readonly(user_transfer_authority_pubkey, true),
        writable(source_pubkey, false),
        writable(swap_source_pubkey, false),
        writable(swap_destination_pubkey, false),
        writable(destination_pubkey, false),
        writable(pool_mint_pubkey, false),
        writable(pool_fee_pubkey, false),
        readonly(token_program_id, false),
    ]
}

/// Creates a `Swap` instruction.
///
/// The fee account of the host, where there is one, comes last and is
/// writable.
pub fn swap(
    program_id: &Pubkey,
    token_program_id: &Pubkey,
    swap_pubkey: &Pubkey,
    authority_pubkey: &Pubkey,
    user_transfer_authority_pubkey: &Pubkey,
    source_pubkey: &Pubkey,
    swap_source_pubkey: &Pubkey,
    swap_destination_pubkey: &Pubkey,
    destination_pubkey: &Pubkey,
    pool_mint_pubkey: &Pubkey,
    pool_fee_pubkey: &Pubkey,
    host_fee_pubkey: Option<&Pubkey>,
    instruction: Swap,
) -> (built: Result<Instruction, SwapError>)
    ensures
        built matches Ok(built) && {
            &&& built.program_id == *program_id
            &&& built.data@ == SwapInstruction::Swap(instruction).packed()
            &&& built.accounts@ == swap_accounts(
                *token_program_id,
                *swap_pubkey,
                *authority_pubkey,
                *user_transfer_authority_pubkey,
                *source_pubkey,
                *swap_source_pubkey,
                *swap_destination_pubkey,
                *destination_pubkey,
                *pool_mint_pubkey,
                *pool_fee_pubkey,
            ) + match host_fee_pubkey {
                Some(host) => seq![writable(*host, false)],
                None => Seq::<AccountMeta>::empty(),
            }
        },
{
    let data = SwapInstruction::Swap(instruction).pack();

    let mut accounts = vec![
        AccountMeta::new_readonly(*swap_pubkey, false),
        AccountMeta::new_readonly(*authority_pubkey, false),
        AccountMeta::new_readonly(*user_transfer_authority_pubkey, true),
        AccountMeta::new(*source_pubkey, false),
        AccountMeta::new(*swap_source_pubkey, false),
        AccountMeta::new(*swap_destination_pubkey, false),
        AccountMeta::new(*destination_pubkey, false),
        AccountMeta::new(*pool_mint_pubkey, false),
        AccountMeta::new(*pool_fee_pubkey, false),
        AccountMeta::new_readonly(*token_program_id, false),
    ];
    if let Some(host_fee_pubkey) = host_fee_pubkey {
        accounts.push(AccountMeta::new(*host_fee_pubkey, false));
    }
    proof {
        assert(accounts@ =~= swap_accounts(
            *token_program_id,
            *swap_pubkey,
            *authority_pubkey,
            *user_transfer_authority_pubkey,
            *source_pubkey,
            *swap_source_pubkey,
            *swap_destination_pubkey,
            *destination_pubkey,
            *pool_mint_pubkey,
            *pool_fee_pubkey,
        ) + match host_fee_pubkey {
            Some(host) => seq![writable(*host, false)],
            None => Seq::<AccountMeta>::empty(),
        });
    }

    Ok(Instruction { program_id: *program_id, accounts, data })
}

/// Three integers read one after the other are the integers at the offsets
/// 0, 8 and 16.
proof fn lemma_three_fields(payload: Seq<u8>)
    requires
        payload.len() >= 24,
    ensures
        u64_at(payload.subrange(8, payload.len() as int), 0) == u64_at(payload, 8),
        u64_at(
            payload.subrange(8, payload.len() as int).subrange(8, payload.len() - 8),
            0,
        ) == u64_at(payload, 16),
{
    let second = payload.subrange(8, payload.len() as int);
    let third = second.subrange(8, second.len() as int);
    assert(second.subrange(0, 8) =~= payload.subrange(8, 16));
    assert(third.subrange(0, 8) =~= payload.subrange(16, 24));
}

/// Unpacking the wire form of a request gives the request back.
pub proof fn lemma_unpack_packed(instruction: SwapInstruction)
    requires
        instruction.wf(),
    ensures
        SwapInstruction::unpacked(instruction.packed()) == Ok::<SwapInstruction, SwapError>(
            instruction,
        ),
{
    let packed = instruction.packed();
    let payload = packed.subrange(1, packed.len() as int);
    vstd::bytes::lemma_auto_spec_u64_to_from_le_bytes();
    match instruction {
        SwapInstruction::Initialize(initialize) => {
            crate::curve::fees::lemma_fees_round_trip(initialize.fees, Seq::<u8>::empty());
            crate::curve::base::lemma_decode_packed(initialize.swap_curve);
            assert(payload =~= initialize.fees.packed() + initialize.swap_curve.packed());
            assert(payload.subrange(0, FEES_LEN as int) =~= initialize.fees.packed()
                + Seq::<u8>::empty());
            assert(payload.subrange(FEES_LEN as int, payload.len() as int)
                =~= initialize.swap_curve.packed());
        },
        SwapInstruction::Swap(swap) => {
            let first = spec_u64_to_le_bytes(swap.amount_in);
            let second = spec_u64_to_le_bytes(swap.minimum_amount_out);
            assert(payload =~= first + second);
            lemma_read_first(swap.amount_in, second);
            lemma_read_behind(first, second, 0);
            lemma_read_first(swap.minimum_amount_out, Seq::<u8>::empty());
            assert(second + Seq::<u8>::empty() =~= second);
        },
        SwapInstruction::DepositAllTokenTypes(deposit) => {
            lemma_three_packed(
                deposit.pool_token_amount,
                deposit.maximum_token_a_amount,
                deposit.maximum_token_b_amount,
            );
            assert(payload =~= spec_u64_to_le_bytes(deposit.pool_token_amount)
                + spec_u64_to_le_bytes(deposit.maximum_token_a_amount) + spec_u64_to_le_bytes(
                deposit.maximum_token_b_amount,
            ));
        },
        SwapInstruction::WithdrawAllTokenTypes(withdraw) => {
            lemma_three_packed(
                withdraw.pool_token_amount,
                withdraw.minimum_token_a_amount,
                withdraw.minimum_token_b_amount,
            );
            assert(payload =~= spec_u64_to_le_bytes(withdraw.pool_token_amount)
                + spec_u64_to_le_bytes(withdraw.minimum_token_a_amount) + spec_u64_to_le_bytes(
                withdraw.minimum_token_b_amount,
            ));
        },
    }
}

/// Three integers packed one after the other are read back at the offsets
/// 0, 8 and 16.
proof fn lemma_three_packed(a: u64, b: u64, c: u64)
    ensures
        ({
            let payload = spec_u64_to_le_bytes(a) + spec_u64_to_le_bytes(b)
                + spec_u64_to_le_bytes(c);
            &&& payload.len() == 24
            &&& u64_at(payload, 0) == a
            &&& u64_at(payload, 8) == b
            &&& u64_at(payload, 16) == c
        }),
{
    let payload = spec_u64_to_le_bytes(a) + spec_u64_to_le_bytes(b) + spec_u64_to_le_bytes(c);
    vstd::bytes::lemma_auto_spec_u64_to_from_le_bytes();
    assert(payload.subrange(0, 8) =~= spec_u64_to_le_bytes(a));
    assert(payload.subrange(8, 16) =~= spec_u64_to_le_bytes(b));
    assert(payload.subrange(16, 24) =~= spec_u64_to_le_bytes(c));
}

/// Packing what a buffer unpacks into gives the buffer back, where the buffer
/// is as long as the wire form and, for a curve record, zero behind the
/// calculator's parameters.
pub proof fn lemma_pack_unpacked(input: Seq<u8>, instruction: SwapInstruction)
    requires
        SwapInstruction::unpacked(input) == Ok::<SwapInstruction, SwapError>(instruction),
        input.len() == instruction.packed().len(),
        instruction matches SwapInstruction::Initialize(initialize) ==> input.subrange(
            1 + FEES_LEN + 1 + initialize.swap_curve.calculator.packed_size(),
            input.len() as int,
        ) == zeros(
            (SWAP_CURVE_LEN - 1 - initialize.swap_curve.calculator.packed_size()) as nat,
        ),
    ensures
        instruction.packed() == input,
{
    let payload = input.subrange(1, input.len() as int);
    vstd::bytes::lemma_auto_spec_u64_to_from_le_bytes();
    match instruction {
        SwapInstruction::Initialize(initialize) => {
            crate::curve::fees::lemma_fees_round_trip(initialize.fees, Seq::<u8>::empty());
            let fees_bytes = payload.subrange(0, FEES_LEN as int);
            let curve_bytes = payload.subrange(FEES_LEN as int, payload.len() as int);
            crate::curve::base::lemma_decode_packed(initialize.swap_curve);
            assert(input.len() == 1 + FEES_LEN + SWAP_CURVE_LEN);
            assert(curve_bytes.subrange(
                1 + initialize.swap_curve.calculator.packed_size() as int,
                SWAP_CURVE_LEN as int,
            ) =~= input.subrange(
                1 + FEES_LEN + 1 + initialize.swap_curve.calculator.packed_size(),
                input.len() as int,
            ));
            crate::curve::fees::lemma_fees_repacked(fees_bytes);
            crate::curve::base::lemma_curve_repacked(curve_bytes);
            assert(input =~= seq![INITIALIZE_TAG] + fees_bytes + curve_bytes);
        },
        SwapInstruction::Swap(swap) => {
            assert(input =~= seq![SWAP_TAG] + payload.subrange(0, 8) + payload.subrange(8, 16));
        },
        SwapInstruction::DepositAllTokenTypes(deposit) => {
            assert(input =~= seq![DEPOSIT_ALL_TOKEN_TYPES_TAG] + payload.subrange(0, 8)
                + payload.subrange(8, 16) + payload.subrange(16, 24));
        },
        SwapInstruction::WithdrawAllTokenTypes(withdraw) => {
            assert(input =~= seq![WITHDRAW_ALL_TOKEN_TYPES_TAG] + payload.subrange(0, 8)
                + payload.subrange(8, 16) + payload.subrange(16, 24));
        },
    }
}

} // verus!
