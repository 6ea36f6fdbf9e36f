//! What the library takes from the runtime's crates.
//!
//! Nothing in this file is proved: each item states what the crate's source
//! shows, and the proofs elsewhere rest on it.

use solana_program::instruction::{AccountMeta, Instruction};
use solana_program::program_pack::Pack;
use solana_program::pubkey::Pubkey;
use spl_token::state::{Account, Mint};
use vstd::bytes::spec_u64_to_le_bytes;
use vstd::prelude::*;

verus! {

/// `solana_program::pubkey::Pubkey`: the address of an account, 32 bytes
/// behind a private field.
#[verifier::external_type_specification]
#[verifier::external_body]
pub struct ExPubkey(Pubkey);

/// `solana_program::instruction::AccountMeta`: an account that an instruction
/// names, with its three public fields.
#[verifier::external_type_specification]
pub struct ExAccountMeta(AccountMeta);

/// `solana_program::instruction::Instruction`: a program, the accounts it is
/// handed and the data it reads, with its three public fields.
#[verifier::external_type_specification]
pub struct ExInstruction(Instruction);

/// `spl_token::state::Account`: the state of a token account. The library
/// hands it on and reads nothing in it.
#[verifier::external_type_specification]
#[verifier::external_body]
pub struct ExAccount(Account);

/// `spl_token::state::Mint`: the state of a token mint. The library hands it
/// on and reads nothing in it.
#[verifier::external_type_specification]
#[verifier::external_body]
pub struct ExMint(Mint);

/// The 32 bytes that an address holds.
pub uninterp spec fn key_bytes(key: Pubkey) -> Seq<u8>;

/// The program address that `Pubkey::create_program_address` derives from
/// the seeds `seed` and `[bump_seed]` for the program `program_id`: the
/// SHA-256 hash of the seeds, the program's address and a marker, unless
/// that hash is a point of the ed25519 curve, in which case there is none.
pub uninterp spec fn program_address(seed: Seq<u8>, bump_seed: u8, program_id: Seq<u8>) -> Option<
    Seq<u8>,
>;

/// Whether `spl_token::state::Account::unpack` accepts `data`: 165 bytes that
/// hold valid tags and the state of an initialized account.
pub uninterp spec fn is_token_account(data: Seq<u8>) -> bool;

/// Whether `spl_token::state::Mint::unpack` accepts `data`: 82 bytes that
/// hold valid tags and the flag of an initialized mint.
pub uninterp spec fn is_token_mint(data: Seq<u8>) -> bool;

/// The address of the token program, `spl_token::ID`.
pub open spec fn token_program_id() -> Seq<u8> {
    seq![
        6u8, 221, 246, 225, 215, 101, 161, 147, 217, 203, 225, 70, 206, 235, 121, 172, 28, 180, 133,
        237, 95, 91, 55, 145, 58, 140, 245, 133, 126, 255, 0, 169,
    ]
}

/// An account that an instruction may write to.
pub open spec fn writable(pubkey: Pubkey, is_signer: bool) -> AccountMeta {
    AccountMeta { pubkey, is_signer, is_writable: true }
}

/// An account that an instruction only reads.
pub open spec fn readonly(pubkey: Pubkey, is_signer: bool) -> AccountMeta {
    AccountMeta { pubkey, is_signer, is_writable: false }
}

/// The accounts of an instruction to the token program that moves `amount`
/// between or at two accounts on the word of an authority that signs: both
/// accounts writable, the authority read.
pub open spec fn token_accounts(first: Pubkey, second: Pubkey, authority: Pubkey) -> Seq<
    AccountMeta,
> {
    seq![writable(first, false), writable(second, false), readonly(authority, true)]
}

/// The data of an instruction to the token program that carries one amount:
/// its tag and the amount, little-endian.
pub open spec fn token_data(tag: u8, amount: u64) -> Seq<u8> {
    seq![tag] + spec_u64_to_le_bytes(amount)
}

/// `AccountMeta::new` fills in the address and the signer flag and marks the
/// account as writable.
pub assume_specification[ AccountMeta::new ](pubkey: Pubkey, is_signer: bool) -> (meta:
    AccountMeta)
    ensures
        meta == (AccountMeta { pubkey, is_signer, is_writable: true }),
;

/// `AccountMeta::new_readonly` fills in the address and the signer flag and
/// marks the account as read-only.
pub assume_specification[ AccountMeta::new_readonly ](pubkey: Pubkey, is_signer: bool) -> (meta:
    AccountMeta)
    ensures
        meta == (AccountMeta { pubkey, is_signer, is_writable: false }),
;

/// `Pubkey::to_bytes` hands out the bytes that the address holds.
#[verifier::external_body]
pub(crate) fn key_to_bytes(key: &Pubkey) -> (bytes: [u8; 32])
    ensures
        bytes@ == key_bytes(*key),
{
    key.to_bytes()
}

/// The `==` of `Pubkey` compares the bytes that the two addresses hold.
#[verifier::external_body]
pub(crate) fn same_key(a: &Pubkey, b: &Pubkey) -> (same: bool)
    ensures
        same == (key_bytes(*a) == key_bytes(*b)),
{
    a == b
}

/// `Pubkey::create_program_address` on two seeds, the 32 bytes of `seed` and
/// the one byte `bump_seed`. Both are within the limits on seeds, so the only
/// failure left is a hash that lies on the curve. The result depends on the
/// bytes alone.
#[verifier::external_body]
pub(crate) fn create_program_address(seed: &Pubkey, bump_seed: u8, program_id: &Pubkey) -> (address:
    Option<Pubkey>)
    ensures
        match address {
            Some(derived) => program_address(key_bytes(*seed), bump_seed, key_bytes(*program_id))
                == Some(key_bytes(derived)),
            None => program_address(key_bytes(*seed), bump_seed, key_bytes(*program_id)) is None,
        },
{
    Pubkey::create_program_address(&[&seed.to_bytes()[..32], &[bump_seed]], program_id).ok()
}

/// `spl_token::state::Account::unpack`: the account that `data` holds, where
/// it holds one.
#[verifier::external_body]
pub(crate) fn unpack_account(data: &[u8]) -> (account: Option<Account>)
    ensures
        account is Some <==> is_token_account(data@),
{
    Account::unpack(data).ok()
}

/// `spl_token::state::Mint::unpack`: the mint that `data` holds, where it
/// holds one.
#[verifier::external_body]
pub(crate) fn unpack_mint(data: &[u8]) -> (mint: Option<Mint>)
    ensures
        mint is Some <==> is_token_mint(data@),
{
    Mint::unpack(data).ok()
}

/// `spl_token::instruction::burn` without further signers. It refuses every
/// program but the token program; otherwise the instruction goes to that
/// program, names the account, the mint and the signing authority, and
/// carries the tag 8 and the amount.
#[verifier::external_body]
pub(crate) fn burn_instruction(
    token_program: &Pubkey,
    account: &Pubkey,
    mint: &Pubkey,
    authority: &Pubkey,
    amount: u64,
) -> (built: Option<Instruction>)
    ensures
        built is Some <==> key_bytes(*token_program) == token_program_id(),
        built matches Some(instruction) ==> {
            &&& instruction.program_id == *token_program
            &&& instruction.accounts@ == token_accounts(*account, *mint, *authority)
            &&& instruction.data@ == token_data(8, amount)
        },
{
    spl_token::instruction::burn(token_program, account, mint, authority, &[], amount).ok()
}

/// `spl_token::instruction::mint_to` without further signers. It refuses
/// every program but the token program; otherwise the instruction goes to
/// that program, names the mint, the receiving account and the signing
/// authority, and carries the tag 7 and the amount.
#[verifier::external_body]
pub(crate) fn mint_to_instruction(
    token_program: &Pubkey,
    mint: &Pubkey,
    destination: &Pubkey,
    authority: &Pubkey,
    amount: u64,
) -> (built: Option<Instruction>)
    ensures
        built is Some <==> key_bytes(*token_program) == token_program_id(),
        built matches Some(instruction) ==> {
            &&& instruction.program_id == *token_program
            &&& instruction.accounts@ == token_accounts(*mint, *destination, *authority)
            &&& instruction.data@ == token_data(7, amount)
        },
{
    spl_token::instruction::mint_to(token_program, mint, destination, authority, &[], amount).ok()
}

/// `spl_token::instruction::transfer` without further signers. It refuses
/// every program but the token program; otherwise the instruction goes to
/// that program, names the source, the destination and the signing
/// authority, and carries the tag 3 and the amount.
#[verifier::external_body]
pub(crate) fn transfer_instruction(
    token_program: &Pubkey,
    source: &Pubkey,
    destination: &Pubkey,
    authority: &Pubkey,
    amount: u64,
) -> (built: Option<Instruction>)
    ensures
        built is Some <==> key_bytes(*token_program) == token_program_id(),
        built matches Some(instruction) ==> {
            &&& instruction.program_id == *token_program
            &&& instruction.accounts@ == token_accounts(*source, *destination, *authority)
            &&& instruction.data@ == token_data(3, amount)
        },
{
    spl_token::instruction::transfer(token_program, source, destination, authority, &[], amount)
        .ok()
}

} // verus!
