use solana_program::instruction::{AccountMeta, Instruction};
use solana_program::pubkey::Pubkey;
use token_swap::curve::base::{Calculator, CurveType, SwapCurve};
use token_swap::curve::fees::Fees;
use token_swap::curve::stable::StableCurve;
use token_swap::error::SwapError;
use token_swap::instruction::{
    deposit_all_token_types, initialize, swap, withdraw_all_token_types, DepositAllTokenTypes,
    Initialize, Swap, SwapInstruction, WithdrawAllTokenTypes,
};
use token_swap::wire::{bytes_equal, read_u64, write_u64};

fn sample_fees() -> Fees {
    Fees {
        trade_fee_numerator: 1,
        trade_fee_denominator: 4,
        owner_trade_fee_numerator: 2,
        owner_trade_fee_denominator: 5,
        owner_withdraw_fee_numerator: 1,
        owner_withdraw_fee_denominator: 3,
        host_fee_numerator: 7,
        host_fee_denominator: 100,
    }
}

fn sample_curve() -> SwapCurve {
    SwapCurve {
        curve_type: CurveType::Stable,
        calculator: Calculator::Stable(StableCurve { amp: 300 }),
    }
}

fn key(byte: u8) -> Pubkey {
    Pubkey::new_from_array([byte; 32])
}

#[test]
fn unpack_swap_and_pack_it_again() {
    let mut buffer = vec![1u8];
    buffer.extend_from_slice(&1000u64.to_le_bytes());
    buffer.extend_from_slice(&1u64.to_le_bytes());
    assert_eq!(buffer.len(), 17);
    let unpacked = SwapInstruction::unpack(&buffer).unwrap();
    assert_eq!(
        unpacked,
        SwapInstruction::Swap(Swap { amount_in: 1000, minimum_amount_out: 1 })
    );
    assert_eq!(unpacked.pack(), buffer);
    assert_eq!(
        buffer,
        vec![1, 0xE8, 0x03, 0, 0, 0, 0, 0, 0, 1, 0, 0, 0, 0, 0, 0, 0]
    );
}

#[test]
fn unpack_empty_buffer_is_invalid() {
    assert_eq!(SwapInstruction::unpack(&[]), Err(SwapError::InvalidInstruction));
}

#[test]
fn unpack_unknown_tag_is_invalid() {
    assert_eq!(SwapInstruction::unpack(&[0xFF]), Err(SwapError::InvalidInstruction));
    assert_eq!(SwapInstruction::unpack(&[4u8; 200]), Err(SwapError::InvalidInstruction));
}

#[test]
fn pack_initialize_layout() {
    let instruction = SwapInstruction::Initialize(Initialize {
        fees: sample_fees(),
        swap_curve: sample_curve(),
    });
    let packed = instruction.pack();
    let mut expected = vec![0u8];
    for field in [1u64, 4, 2, 5, 1, 3, 7, 100] {
        expected.extend_from_slice(&field.to_le_bytes());
    }
    expected.push(2);
    expected.extend_from_slice(&300u64.to_le_bytes());
    expected.extend_from_slice(&[0u8; 24]);
    assert_eq!(packed.len(), 98);
    assert_eq!(packed, expected);
    assert_eq!(SwapInstruction::unpack(&packed), Ok(instruction));
}

#[test]
fn pack_deposit_layout() {
    let instruction = SwapInstruction::DepositAllTokenTypes(DepositAllTokenTypes {
        pool_token_amount: 5,
        maximum_token_a_amount: 10,
        maximum_token_b_amount: 20,
    });
    let packed = instruction.pack();
    let mut expected = vec![2u8];
    expected.extend_from_slice(&5u64.to_le_bytes());
    expected.extend_from_slice(&10u64.to_le_bytes());
    expected.extend_from_slice(&20u64.to_le_bytes());
    assert_eq!(packed, expected);
    assert_eq!(SwapInstruction::unpack(&packed), Ok(instruction));
}

#[test]
fn pack_withdraw_layout() {
    let instruction = SwapInstruction::WithdrawAllTokenTypes(WithdrawAllTokenTypes {
        pool_token_amount: 1212438012089,
        minimum_token_a_amount: 102198761982612,
        minimum_token_b_amount: 2011239855213,
    });
    let packed = instruction.pack();
    let mut expected = vec![3u8];
    expected.extend_from_slice(&1212438012089u64.to_le_bytes());
    expected.extend_from_slice(&102198761982612u64.to_le_bytes());
    expected.extend_from_slice(&2011239855213u64.to_le_bytes());
    assert_eq!(packed, expected);
    assert_eq!(SwapInstruction::unpack(&packed), Ok(instruction));
}

#[test]
fn round_trip_of_extreme_values() {
    let requests = [
        SwapInstruction::Swap(Swap { amount_in: u64::MAX, minimum_amount_out: 0 }),
        SwapInstruction::DepositAllTokenTypes(DepositAllTokenTypes {
            pool_token_amount: 0,
            maximum_token_a_amount: u64::MAX,
            maximum_token_b_amount: 1 << 63,
        }),
        SwapInstruction::WithdrawAllTokenTypes(WithdrawAllTokenTypes {
            pool_token_amount: u64::MAX,
            minimum_token_a_amount: u64::MAX,
            minimum_token_b_amount: u64::MAX,
        }),
        SwapInstruction::Initialize(Initialize {
            fees: Fees {
                trade_fee_numerator: u64::MAX,
                trade_fee_denominator: 0,
                owner_trade_fee_numerator: 0,
                owner_trade_fee_denominator: u64::MAX,
                owner_withdraw_fee_numerator: 1,
                owner_withdraw_fee_denominator: 2,
                host_fee_numerator: 3,
                host_fee_denominator: 4,
            },
            swap_curve: SwapCurve {
                curve_type: CurveType::Stable,
                calculator: Calculator::Stable(StableCurve { amp: u64::MAX }),
            },
        }),
    ];
    for request in requests {
        let packed = request.pack();
        assert_eq!(SwapInstruction::unpack(&packed), Ok(request));
    }
}

#[test]
fn truncated_payload_is_invalid() {
    let requests = [
        SwapInstruction::Swap(Swap { amount_in: 9, minimum_amount_out: 8 }),
        SwapInstruction::DepositAllTokenTypes(DepositAllTokenTypes {
            pool_token_amount: 1,
            maximum_token_a_amount: 2,
            maximum_token_b_amount: 3,
        }),
        SwapInstruction::WithdrawAllTokenTypes(WithdrawAllTokenTypes {
            pool_token_amount: 1,
            minimum_token_a_amount: 2,
            minimum_token_b_amount: 3,
        }),
        SwapInstruction::Initialize(Initialize {
            fees: sample_fees(),
            swap_curve: sample_curve(),
        }),
    ];
    for request in requests {
        let packed = request.pack();
        for len in 0..packed.len() {
            assert_eq!(
                SwapInstruction::unpack(&packed[..len]),
                Err(SwapError::InvalidInstruction)
            );
        }
    }
}

#[test]
fn trailing_bytes_after_amounts_are_passed_over() {
    let request = SwapInstruction::Swap(Swap { amount_in: 9, minimum_amount_out: 8 });
    let mut packed = request.pack();
    packed.extend_from_slice(&[0xAB; 5]);
    assert_eq!(SwapInstruction::unpack(&packed), Ok(request));
}

#[test]
fn trailing_bytes_after_a_curve_record_are_refused() {
    let mut packed = SwapInstruction::Initialize(Initialize {
        fees: sample_fees(),
        swap_curve: sample_curve(),
    })
    .pack();
    packed.push(0);
    assert_eq!(SwapInstruction::unpack(&packed), Err(SwapError::InvalidAccountData));
}

#[test]
fn initialize_with_unknown_curve_is_refused() {
    let mut packed = SwapInstruction::Initialize(Initialize {
        fees: sample_fees(),
        swap_curve: sample_curve(),
    })
    .pack();
    for discriminant in [0u8, 1, 3, 0xFF] {
        packed[65] = discriminant;
        assert_eq!(SwapInstruction::unpack(&packed), Err(SwapError::InvalidAccountData));
    }
}

#[test]
fn unpack_never_panics_on_any_length() {
    for tag in [0u8, 1, 2, 3, 4, 0xFF] {
        for fill in [0u8, 0xFF] {
            for len in 0..=196usize {
                let mut buffer = vec![fill; len];
                if len > 0 {
                    buffer[0] = tag;
                }
                let unpacked = SwapInstruction::unpack(&buffer);
                let needed: Option<usize> = match tag {
                    0 => Some(98),
                    1 => Some(17),
                    2 | 3 => Some(25),
                    _ => None,
                };
                match needed {
                    Some(needed) if len >= needed && tag != 0 => assert!(unpacked.is_ok()),
                    Some(needed) if len < needed => {
                        assert_eq!(unpacked, Err(SwapError::InvalidInstruction))
                    }
                    Some(_) => assert_eq!(unpacked, Err(SwapError::InvalidAccountData)),
                    None => assert_eq!(unpacked, Err(SwapError::InvalidInstruction)),
                }
            }
        }
    }
    let all_ones = [0xFFu8; 17];
    assert_eq!(SwapInstruction::unpack(&all_ones), Err(SwapError::InvalidInstruction));
    let all_zero = [0u8; 98];
    assert_eq!(SwapInstruction::unpack(&all_zero), Err(SwapError::InvalidAccountData));
}

#[test]
fn unpack_u64_splits_eight_bytes_off() {
    let buffer = [1u8, 2, 3, 4, 5, 6, 7, 8, 9, 10];
    let (amount, rest) = SwapInstruction::unpack_u64(&buffer).unwrap();
    assert_eq!(amount, 0x0807_0605_0403_0201);
    assert_eq!(rest, &[9u8, 10]);
    let (amount, rest) = SwapInstruction::unpack_u64(&buffer[..8]).unwrap();
    assert_eq!(amount, 0x0807_0605_0403_0201);
    assert!(rest.is_empty());
    assert_eq!(SwapInstruction::unpack_u64(&buffer[..7]), Err(SwapError::InvalidInstruction));
    assert_eq!(SwapInstruction::unpack_u64(&[]), Err(SwapError::InvalidInstruction));
}

#[test]
fn fields_are_read_and_written_in_place() {
    let mut buffer = [0x77u8; 12];
    write_u64(&mut buffer, 2, 0x0102_0304_0506_0708);
    assert_eq!(buffer, [0x77, 0x77, 8, 7, 6, 5, 4, 3, 2, 1, 0x77, 0x77]);
    assert_eq!(read_u64(&buffer, 2), 0x0102_0304_0506_0708);
    assert_eq!(read_u64(&buffer, 4), 0x7777_0102_0304_0506);
    assert!(bytes_equal(&buffer, &[0x77, 0x77, 8, 7, 6, 5, 4, 3, 2, 1, 0x77, 0x77]));
    assert!(!bytes_equal(&buffer, &[0x77, 0x77, 8, 7, 6, 5, 4, 3, 2, 1, 0x77, 0x78]));
    assert!(!bytes_equal(&buffer, &buffer[..11]));
    assert!(bytes_equal(&[], &[]));
}

#[test]
fn initialize_instruction_names_its_accounts() {
    let built = initialize(
        &key(1),
        &key(2),
        &key(3),
        &key(4),
        &key(5),
        &key(6),
        &key(7),
        &key(8),
        &key(9),
        sample_fees(),
        sample_curve(),
    )
    .unwrap();
    let expected = Instruction {
        program_id: key(1),
        accounts: vec![
            AccountMeta { pubkey: key(3), is_signer: true, is_writable: true },
            AccountMeta { pubkey: key(4), is_signer: false, is_writable: false },
            AccountMeta { pubkey: key(5), is_signer: false, is_writable: false },
            AccountMeta { pubkey: key(6), is_signer: false, is_writable: false },
            AccountMeta { pubkey: key(7), is_signer: false, is_writable: true },
            AccountMeta { pubkey: key(8), is_signer: false, is_writable: false },
            AccountMeta { pubkey: key(9), is_signer: false, is_writable: true },
            AccountMeta { pubkey: key(2), is_signer: false, is_writable: false },
        ],
        data: SwapInstruction::Initialize(Initialize {
            fees: sample_fees(),
            swap_curve: sample_curve(),
        })
        .pack(),
    };
    assert_eq!(built, expected);
    assert_eq!(built.data.len(), 98);
}

#[test]
fn deposit_instruction_names_its_accounts() {
    let request = DepositAllTokenTypes {
        pool_token_amount: 5,
        maximum_token_a_amount: 10,
        maximum_token_b_amount: 20,
    };
    let built = deposit_all_token_types(
        &key(1),
        &key(2),
        &key(3),
        &key(4),
        &key(5),
        &key(6),
        &key(7),
        &key(8),
        &key(9),
        &key(10),
        &key(11),
        request,
    )
    .unwrap();
    let expected = Instruction {
        program_id: key(1),
        accounts: vec![
            AccountMeta { pubkey: key(3), is_signer: false, is_writable: false },
            AccountMeta { pubkey: key(4), is_signer: false, is_writable: false },
            AccountMeta { pubkey: key(5), is_signer: true, is_writable: false },
            AccountMeta { pubkey: key(6), is_signer: false, is_writable: true },
            AccountMeta { pubkey: key(7), is_signer: false, is_writable: true },
            AccountMeta { pubkey: key(8), is_signer: false, is_writable: true },
            AccountMeta { pubkey: key(9), is_signer: false, is_writable: true },
            AccountMeta { pubkey: key(10), is_signer: false, is_writable: true },
            AccountMeta { pubkey: key(11), is_signer: false, is_writable: true },
            AccountMeta { pubkey: key(2), is_signer: false, is_writable: false },
        ],
        data: SwapInstruction::DepositAllTokenTypes(request).pack(),
    };
    assert_eq!(built, expected);
}

#[test]
fn withdraw_instruction_names_its_accounts() {
    let request = WithdrawAllTokenTypes {
        pool_token_amount: 5,
        minimum_token_a_amount: 10,
        minimum_token_b_amount: 20,
    };
    let built = withdraw_all_token_types(
        &key(1),
        &key(2),
        &key(3),
        &key(4),
        &key(5),
        &key(6),
        &key(7),
        &key(8),
        &key(9),
        &key(10),
        &key(11),
        &key(12),
        request,
    )
    .unwrap();
    let expected = Instruction {
        program_id: key(1),
        accounts: vec![
            AccountMeta { pubkey: key(3), is_signer: false, is_writable: false },
            AccountMeta { pubkey: key(4), is_signer: false, is_writable: false },
            AccountMeta { pubkey: key(5), is_signer: true, is_writable: false },
            AccountMeta { pubkey: key(6), is_signer: false, is_writable: true },
            AccountMeta { pubkey: key(8), is_signer: false, is_writable: true },
            AccountMeta { pubkey: key(9), is_signer: false, is_writable: true },
            AccountMeta { pubkey: key(10), is_signer: false, is_writable: true },
            AccountMeta { pubkey: key(11), is_signer: false, is_writable: true },
            AccountMeta { pubkey: key(12), is_signer: false, is_writable: true },
            AccountMeta { pubkey: key(7), is_signer: false, is_writable: true },
            AccountMeta { pubkey: key(2), is_signer: false, is_writable: false },
        ],
        data: SwapInstruction::WithdrawAllTokenTypes(request).pack(),
    };
    assert_eq!(built, expected);
}

#[test]
fn swap_instruction_names_its_accounts() {
    let request = Swap { amount_in: 1000, minimum_amount_out: 1 };
    let mut expected_accounts = vec![
        AccountMeta { pubkey: key(3), is_signer: false, is_writable: false },
        AccountMeta { pubkey: key(4), is_signer: false, is_writable: false },
        AccountMeta { pubkey: key(5), is_signer: true, is_writable: false },
        AccountMeta { pubkey: key(6), is_signer: false, is_writable: true },
        AccountMeta { pubkey: key(7), is_signer: false, is_writable: true },
        AccountMeta { pubkey: key(8), is_signer: false, is_writable: true },
        AccountMeta { pubkey: key(9), is_signer: false, is_writable: true },
        AccountMeta { pubkey: key(10), is_signer: false, is_writable: true },
        AccountMeta { pubkey: key(11), is_signer: false, is_writable: true },
        AccountMeta { pubkey: key(2), is_signer: false, is_writable: false },
    ];
    let without_host = swap(
        &key(1),
        &key(2),
        &key(3),
        &key(4),
        &key(5),
        &key(6),
        &key(7),
        &key(8),
        &key(9),
        &key(10),
        &key(11),
        None,
        request,
    )
    .unwrap();
    assert_eq!(without_host.program_id, key(1));
    assert_eq!(without_host.accounts, expected_accounts);
    assert_eq!(without_host.data, SwapInstruction::Swap(request).pack());
    assert_eq!(without_host.data.len(), 17);

    let host = key(12);
    let with_host = swap(
        &key(1),
        &key(2),
        &key(3),
        &key(4),
        &key(5),
        &key(6),
        &key(7),
        &key(8),
        &key(9),
        &key(10),
        &key(11),
        Some(&host),
        request,
    )
    .unwrap();
    expected_accounts.push(AccountMeta { pubkey: key(12), is_signer: false, is_writable: true });
    assert_eq!(with_host.accounts, expected_accounts);
    assert_eq!(with_host.data, without_host.data);
}

#[test]
fn canonical_buffers_pack_back_into_themselves() {
    let mut deposit = vec![2u8];
    deposit.extend_from_slice(&[0x5A; 24]);
    assert_eq!(SwapInstruction::unpack(&deposit).unwrap().pack(), deposit);
    let mut withdraw = vec![3u8];
    withdraw.extend_from_slice(&[0xFF; 24]);
    assert_eq!(SwapInstruction::unpack(&withdraw).unwrap().pack(), withdraw);
    let mut swap = vec![1u8];
    swap.extend_from_slice(&[0u8; 16]);
    assert_eq!(SwapInstruction::unpack(&swap).unwrap().pack(), swap);
    let mut initialize = vec![0u8];
    initialize.extend_from_slice(&[0xC3; 64]);
    initialize.push(2);
    initialize.extend_from_slice(&[0x99; 8]);
    initialize.extend_from_slice(&[0u8; 24]);
    assert_eq!(SwapInstruction::unpack(&initialize).unwrap().pack(), initialize);
}
