//! The dispatch surface: from the bytes of a request to the handler that
//! serves it.

use crate::curve::base::SwapCurve;
use crate::curve::fees::Fees;
use crate::error::SwapError;
use crate::host::{
    burn_instruction,
    create_program_address,
    is_token_account,
    is_token_mint,
    key_bytes,
    key_to_bytes,
    mint_to_instruction,
    program_address,
    same_key,
    token_accounts,
    token_data,
    token_program_id,
    transfer_instruction,
    unpack_account,
    unpack_mint,
};
use crate::instruction::{
    DepositAllTokenTypes,
    Initialize,
    Swap,
    SwapInstruction,
    WithdrawAllTokenTypes,
};
use solana_program::instruction::Instruction;
use solana_program::pubkey::Pubkey;
use spl_token::state::{Account, Mint};
use vstd::prelude::*;

verus! {

/// The handler of the program's state.
pub struct Processor {}

/// A call into the token program that the runtime is to make on behalf of
/// the pool's authority.
#[derive(Debug)]
pub struct SignedCall {
    /// The instruction to invoke.
    pub instruction: Instruction,
    /// The first seed of the authority's address: the bytes of the pool's
    /// address.
    pub authority_seed: [u8; 32],
    /// The second seed of the authority's address.
    pub bump_seed: u8,
}

impl Processor {
    /// What `process` answers to `input`: success for every request that
    /// unpacks, and for the others the reason why they do not.
    pub open spec fn outcome(input: Seq<u8>) -> Result<(), SwapError> {
        match SwapInstruction::unpacked(input) {
            Ok(_) => Ok(()),
            Err(e) => Err(e),
        }
    }

    /// Reads the state of a token account from the data of an account.
    ///
    /// `owner` is the program that owns the account: any but the token
    /// program that was named is refused before the data is looked at.
    pub fn unpack_token_account(owner: &Pubkey, data: &[u8], token_program_id: &Pubkey) -> (account:
        Result<Account, SwapError>)
        ensures
            account is Ok <==> key_bytes(*owner) == key_bytes(*token_program_id)
                && is_token_account(data@),
            account matches Err(e) ==> e == if key_bytes(*owner) != key_bytes(*token_program_id) {
                SwapError::IncorrectTokenProgramId
            } else {
                SwapError::ExpectedAccount
            },
    {
        if !same_key(owner, token_program_id) {
            Err(SwapError::IncorrectTokenProgramId)
        } else {
            match unpack_account(data) {
                Some(account) => Ok(account),
                None => Err(SwapError::ExpectedAccount),
            }
        }
    }

    /// Reads the state of a token mint from the data of an account.
    ///
    /// `owner` is the program that owns the account: any but the token
    /// program that was named is refused before the data is looked at.
    pub fn unpack_mint(owner: &Pubkey, data: &[u8], token_program_id: &Pubkey) -> (mint: Result<
        Mint,
        SwapError,
    >)
        ensures
            mint is Ok <==> key_bytes(*owner) == key_bytes(*token_program_id) && is_token_mint(
                data@,
            ),
            mint matches Err(e) ==> e == if key_bytes(*owner) != key_bytes(*token_program_id) {
                SwapError::IncorrectTokenProgramId
            } else {
                SwapError::ExpectedMint
            },
    {
        if !same_key(owner, token_program_id) {
            Err(SwapError::IncorrectTokenProgramId)
        } else {
            match unpack_mint(data) {
                Some(mint) => Ok(mint),
                None => Err(SwapError::ExpectedMint),
            }
        }
    }

    /// Derives the address of the authority over a pool: the program address
    /// of the pool's own address and a bump seed.
    pub fn authority_id(program_id: &Pubkey, my_info: &Pubkey, bump_seed: u8) -> (authority: Result<
        Pubkey,
        SwapError,
    >)
        ensures
            match program_address(key_bytes(*my_info), bump_seed, key_bytes(*program_id)) {
                Some(bytes) => authority matches Ok(address) && key_bytes(address) == bytes,
                None => authority == Err::<Pubkey, SwapError>(SwapError::InvalidProgramAddress),
            },
    {
        match create_program_address(my_info, bump_seed, program_id) {
            Some(address) => Ok(address),
            None => Err(SwapError::InvalidProgramAddress),
        }
    }

    /// Prepares the burning of `amount` tokens of `mint` out of
    /// `burn_account`, signed for by the pool's authority.
    pub fn token_burn(
        swap: &Pubkey,
        token_program: &Pubkey,
        burn_account: &Pubkey,
        mint: &Pubkey,
        authority: &Pubkey,
        bump_seed: u8,
        amount: u64,
    ) -> (call: Result<SignedCall, SwapError>)
        ensures
            call is Ok <==> key_bytes(*token_program) == token_program_id(),
            call matches Err(e) ==> e == SwapError::IncorrectProgramId,
            call matches Ok(signed) ==> {
                &&& signed.instruction.program_id == *token_program
                &&& signed.instruction.accounts@ == token_accounts(
                    *burn_account,
                    *mint,
                    *authority,
                )
                &&& signed.instruction.data@ == token_data(8, amount)
                &&& signed.authority_seed@ == key_bytes(*swap)
                &&& signed.bump_seed == bump_seed
            },
    {
        let authority_seed = key_to_bytes(swap);
        match burn_instruction(token_program, burn_account, mint, authority, amount) {
            Some(instruction) => Ok(SignedCall { instruction, authority_seed, bump_seed }),
            None => Err(SwapError::IncorrectProgramId),
        }
    }

    /// Prepares the minting of `amount` tokens of `mint` into `destination`,
    /// signed for by the pool's authority.
    pub fn token_mint_to(
        swap: &Pubkey,
        token_program: &Pubkey,
        mint: &Pubkey,
        destination: &Pubkey,
        authority: &Pubkey,
        bump_seed: u8,
        amount: u64,
    ) -> (call: Result<SignedCall, SwapError>)
        ensures
            call is Ok <==> key_bytes(*token_program) == token_program_id(),
            call matches Err(e) ==> e == SwapError::IncorrectProgramId,
            call matches Ok(signed) ==> {
                &&& signed.instruction.program_id == *token_program
                &&& signed.instruction.accounts@ == token_accounts(
                    *mint,
                    *destination,
                    *authority,
                )
                &&& signed.instruction.data@ == token_data(7, amount)
                &&& signed.authority_seed@ == key_bytes(*swap)
                &&& signed.bump_seed == bump_seed
            },
    {
        let authority_seed = key_to_bytes(swap);
        match mint_to_instruction(token_program, mint, destination, authority, amount) {
            Some(instruction) => Ok(SignedCall { instruction, authority_seed, bump_seed }),
            None => Err(SwapError::IncorrectProgramId),
        }
    }

    /// Prepares the transfer of `amount` tokens from `source` to
    /// `destination`, signed for by the pool's authority.
    pub fn token_transfer(
        swap: &Pubkey,
        token_program: &Pubkey,
        source: &Pubkey,
        destination: &Pubkey,
        authority: &Pubkey,
        bump_seed: u8,
        amount: u64,
    ) -> (call: Result<SignedCall, SwapError>)
        ensures
            call is Ok <==> key_bytes(*token_program) == token_program_id(),
            call matches Err(e) ==> e == SwapError::IncorrectProgramId,
            call matches Ok(signed) ==> {
                &&& signed.instruction.program_id == *token_program
                &&& signed.instruction.accounts@ == token_accounts(
                    *source,
                    *destination,
                    *authority,
                )
                &&& signed.instruction.data@ == token_data(3, amount)
                &&& signed.authority_seed@ == key_bytes(*swap)
                &&& signed.bump_seed == bump_seed
            },
    {
        let authority_seed = key_to_bytes(swap);
        match transfer_instruction(token_program, source, destination, authority, amount) {
            Some(instruction) => Ok(SignedCall { instruction, authority_seed, bump_seed }),
            None => Err(SwapError::IncorrectProgramId),
        }
    }

    /// Handles an `Initialize` request.
    pub fn process_initialize(_fees: Fees, _swap_curve: SwapCurve) -> (result: Result<
        (),
        SwapError,
    >)
        ensures
            result == Ok::<(), SwapError>(()),
    {
        Ok(())
    }

    /// Handles a `Swap` request.
    pub fn process_swap(_amount_in: u64, _minimum_amount_out: u64) -> (result: Result<
        (),
        SwapError,
    >)
        ensures
            result == Ok::<(), SwapError>(()),
    {
        Ok(())
    }

    /// Handles a `DepositAllTokenTypes` request.
    pub fn process_deposit_all_token_types(
        _pool_token_amount: u64,
        _maximum_token_a_amount: u64,
        _maximum_token_b_amount: u64,
    ) -> (result: Result<(), SwapError>)
        ensures
            result == Ok::<(), SwapError>(()),
    {
        Ok(())
    }

    /// Handles a `WithdrawAllTokenTypes` request.
    pub fn process_withdraw_all_token_types(
        _pool_token_amount: u64,
        _minimum_token_a_amount: u64,
        _minimum_token_b_amount: u64,
    ) -> (result: Result<(), SwapError>)
        ensures
            result == Ok::<(), SwapError>(()),
    {
        Ok(())
    }

    /// Handles the request that `input` encodes.
    pub fn process(input: &[u8]) -> (result: Result<(), SwapError>)
        ensures
            result == Processor::outcome(input@),
    {
        Processor::process_with_constraints(input)
    }

    /// Unpacks `input` and hands the request to its handler.
    ///
    /// A buffer that is no request reaches no handler: what comes back is the
    /// error of the unpacking.
    pub fn process_with_constraints(input: &[u8]) -> (result: Result<(), SwapError>)
        ensures
            result == Processor::outcome(input@),
    {
        let instruction = match SwapInstruction::unpack(input) {
            Err(e) => { return Err(e); },
            Ok(instruction) => instruction,
        };
        match instruction {
            SwapInstruction::Initialize(Initialize { fees, swap_curve }) => {
                Processor::process_initialize(fees, swap_curve)
            },
            SwapInstruction::Swap(Swap { amount_in, minimum_amount_out }) => {
                Processor::process_swap(amount_in, minimum_amount_out)
            },
            SwapInstruction::DepositAllTokenTypes(
                DepositAllTokenTypes {
                    pool_token_amount,
                    maximum_token_a_amount,
                    maximum_token_b_amount,
                },
            ) => {
                Processor::process_deposit_all_token_types(
                    pool_token_amount,
                    maximum_token_a_amount,
                    maximum_token_b_amount,
                )
            },
            SwapInstruction::WithdrawAllTokenTypes(
                WithdrawAllTokenTypes {
                    pool_token_amount,
                    minimum_token_a_amount,
                    minimum_token_b_amount,
                },
            ) => {
                Processor::process_withdraw_all_token_types(
                    pool_token_amount,
                    minimum_token_a_amount,
                    minimum_token_b_amount,
                )
            },
        }
    }
}

} // verus!
