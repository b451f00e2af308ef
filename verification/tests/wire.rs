use stable_swap::error::{ProcessError, SwapError};
use stable_swap::fees::Fees;
use stable_swap::instruction::SwapInstruction;
use stable_swap::pubkey::Pubkey;
use stable_swap::state::{SwapInfo, SWAP_INFO_LEN};

fn fees() -> Fees {
    Fees {
        admin_trade_fee_numerator: 3,
        admin_trade_fee_denominator: 4,
        admin_withdraw_fee_numerator: 7,
        admin_withdraw_fee_denominator: 8,
        trade_fee_numerator: 1,
        trade_fee_denominator: 2,
        withdraw_fee_numerator: 5,
        withdraw_fee_denominator: 6,
    }
}

fn fee_bytes() -> Vec<u8> {
    let mut bytes = Vec::new();
    for value in 1u64..=8 {
        bytes.extend_from_slice(&value.to_le_bytes());
    }
    bytes
}

fn record() -> SwapInfo {
    SwapInfo {
        is_initialized: true,
        nonce: 254,
        amp_factor: 0x0102_0304_0506_0708,
        token_a: Pubkey::new_from_array([1; 32]),
        token_b: Pubkey::new_from_array([2; 32]),
        pool_mint: Pubkey::new_from_array([5; 32]),
        token_a_mint: Pubkey::new_from_array([3; 32]),
        token_b_mint: Pubkey::new_from_array([4; 32]),
        admin_fee_account_a: Pubkey::new_from_array([6; 32]),
        admin_fee_account_b: Pubkey::new_from_array([7; 32]),
        fees: fees(),
    }
}

#[test]
fn fees_are_eight_integers_in_order() {
    assert_eq!(fees().pack(), fee_bytes());
    assert_eq!(Fees::unpack(&fee_bytes()), Ok(fees()));
}

#[test]
fn fees_of_another_length_are_refused() {
    assert_eq!(
        Fees::unpack(&fee_bytes()[..63]),
        Err(ProcessError::InvalidAccountData)
    );
    let mut long = fee_bytes();
    long.push(0);
    assert_eq!(Fees::unpack(&long), Err(ProcessError::InvalidAccountData));
    assert_eq!(Fees::unpack(&[]), Err(ProcessError::InvalidAccountData));
}

#[test]
fn fees_know_whether_they_are_fractions() {
    assert!(fees().is_well_formed());
    let mut above_one = fees();
    above_one.trade_fee_numerator = 3;
    assert!(!above_one.is_well_formed());
    let mut undivided = fees();
    undivided.admin_withdraw_fee_numerator = 0;
    undivided.admin_withdraw_fee_denominator = 0;
    assert!(!undivided.is_well_formed());
    let mut free = fees();
    free.withdraw_fee_numerator = 0;
    assert!(free.is_well_formed());
}

#[test]
fn initialize_is_tag_zero() {
    let mut bytes = vec![0u8, 254];
    bytes.extend_from_slice(&85u64.to_le_bytes());
    bytes.extend_from_slice(&fee_bytes());
    assert_eq!(bytes.len(), 74);
    let operation = SwapInstruction::Initialize {
        nonce: 254,
        amp_factor: 85,
        fees: fees(),
    };
    assert_eq!(SwapInstruction::unpack(&bytes), Ok(operation));
    assert_eq!(operation.pack(), bytes);
}

#[test]
fn swap_is_tag_one() {
    let mut bytes = vec![1u8];
    bytes.extend_from_slice(&100u64.to_le_bytes());
    bytes.extend_from_slice(&94u64.to_le_bytes());
    let operation = SwapInstruction::Swap {
        amount_in: 100,
        minimum_amount_out: 94,
    };
    assert_eq!(SwapInstruction::unpack(&bytes), Ok(operation));
    assert_eq!(operation.pack(), bytes);
    assert_eq!(
        bytes,
        vec![1, 100, 0, 0, 0, 0, 0, 0, 0, 94, 0, 0, 0, 0, 0, 0, 0]
    );
}

#[test]
fn deposit_is_tag_two() {
    let mut bytes = vec![2u8];
    bytes.extend_from_slice(&100u64.to_le_bytes());
    bytes.extend_from_slice(&900u64.to_le_bytes());
    bytes.extend_from_slice(&u64::MAX.to_le_bytes());
    let operation = SwapInstruction::Deposit {
        token_a_amount: 100,
        token_b_amount: 900,
        min_mint_amount: u64::MAX,
    };
    assert_eq!(SwapInstruction::unpack(&bytes), Ok(operation));
    assert_eq!(operation.pack(), bytes);
}

#[test]
fn withdraw_is_tag_three() {
    let mut bytes = vec![3u8];
    bytes.extend_from_slice(&291u64.to_le_bytes());
    bytes.extend_from_slice(&99u64.to_le_bytes());
    bytes.extend_from_slice(&199u64.to_le_bytes());
    let operation = SwapInstruction::Withdraw {
        pool_token_amount: 291,
        minimum_token_a_amount: 99,
        minimum_token_b_amount: 199,
    };
    assert_eq!(SwapInstruction::unpack(&bytes), Ok(operation));
    assert_eq!(operation.pack(), bytes);
}

#[test]
fn unknown_tags_are_refused() {
    for tag in 4u8..=255 {
        let mut bytes = vec![tag];
        bytes.extend_from_slice(&[0u8; 80]);
        assert_eq!(
            SwapInstruction::unpack(&bytes),
            Err(SwapError::InvalidInstruction)
        );
    }
}

#[test]
fn truncated_payloads_are_refused() {
    assert_eq!(
        SwapInstruction::unpack(&[]),
        Err(SwapError::InvalidInstruction)
    );
    let operations = [
        SwapInstruction::Initialize {
            nonce: 1,
            amp_factor: 2,
            fees: fees(),
        },
        SwapInstruction::Swap {
            amount_in: 1,
            minimum_amount_out: 2,
        },
        SwapInstruction::Deposit {
            token_a_amount: 1,
            token_b_amount: 2,
            min_mint_amount: 3,
        },
        SwapInstruction::Withdraw {
            pool_token_amount: 1,
            minimum_token_a_amount: 2,
            minimum_token_b_amount: 3,
        },
    ];
    for operation in operations.iter() {
        let bytes = operation.pack();
        for len in 0..bytes.len() {
            assert_eq!(
                SwapInstruction::unpack(&bytes[..len]),
                Err(SwapError::InvalidInstruction)
            );
        }
        assert_eq!(SwapInstruction::unpack(&bytes), Ok(*operation));
    }
}

#[test]
fn bytes_behind_the_arguments_are_not_read() {
    let operation = SwapInstruction::Swap {
        amount_in: 100,
        minimum_amount_out: 94,
    };
    let mut bytes = operation.pack();
    bytes.extend_from_slice(&[9, 9, 9]);
    assert_eq!(SwapInstruction::unpack(&bytes), Ok(operation));
}

#[test]
fn record_has_a_fixed_layout() {
    let bytes = record().pack();
    assert_eq!(bytes.len(), SWAP_INFO_LEN);
    assert_eq!(bytes.len(), 298);
    assert_eq!(bytes[0], 1);
    assert_eq!(bytes[1], 254);
    assert_eq!(&bytes[2..10], &[8, 7, 6, 5, 4, 3, 2, 1]);
    for (place, value) in (1u8..=7).enumerate() {
        let start = 10 + 32 * place;
        assert_eq!(&bytes[start..start + 32], &[value; 32]);
    }
    assert_eq!(&bytes[234..], &fee_bytes()[..]);
}

#[test]
fn record_is_read_back() {
    let bytes = record().pack();
    let read = SwapInfo::unpack(&bytes).unwrap();
    assert!(read.is_initialized);
    assert_eq!(read.nonce, 254);
    assert_eq!(read.amp_factor, 0x0102_0304_0506_0708);
    assert_eq!(read.token_a, Pubkey::new_from_array([1; 32]));
    assert_eq!(read.token_b, Pubkey::new_from_array([2; 32]));
    assert_eq!(read.token_a_mint, Pubkey::new_from_array([3; 32]));
    assert_eq!(read.token_b_mint, Pubkey::new_from_array([4; 32]));
    assert_eq!(read.pool_mint, Pubkey::new_from_array([5; 32]));
    assert_eq!(read.admin_fee_account_a, Pubkey::new_from_array([6; 32]));
    assert_eq!(read.admin_fee_account_b, Pubkey::new_from_array([7; 32]));
    assert_eq!(read.fees, fees());
    assert_eq!(read.pack(), bytes);
}

#[test]
fn record_that_is_not_initialized_is_told_apart() {
    let blank = vec![0u8; SWAP_INFO_LEN];
    assert_eq!(
        SwapInfo::unpack(&blank).unwrap_err(),
        ProcessError::UninitializedAccount
    );
    let read = SwapInfo::unpack_unchecked(&blank).unwrap();
    assert!(!read.is_initialized);
    assert_eq!(read.nonce, 0);
    assert_eq!(read.token_a, Pubkey::new_from_array([0; 32]));
}

#[test]
fn record_of_another_shape_is_refused() {
    let bytes = record().pack();
    assert_eq!(
        SwapInfo::unpack(&bytes[..297]).unwrap_err(),
        ProcessError::InvalidAccountData
    );
    assert_eq!(
        SwapInfo::unpack_unchecked(&[]).unwrap_err(),
        ProcessError::InvalidAccountData
    );
    let mut long = bytes.clone();
    long.push(0);
    assert_eq!(
        SwapInfo::unpack_unchecked(&long).unwrap_err(),
        ProcessError::InvalidAccountData
    );
    let mut flagged = bytes;
    flagged[0] = 2;
    assert_eq!(
        SwapInfo::unpack(&flagged).unwrap_err(),
        ProcessError::InvalidAccountData
    );
    assert_eq!(
        SwapInfo::unpack_unchecked(&flagged).unwrap_err(),
        ProcessError::InvalidAccountData
    );
}

#[test]
fn identifiers_compare_by_their_bytes() {
    let mut bytes = [7u8; 32];
    let key = Pubkey::new_from_array(bytes);
    assert_eq!(key, Pubkey::new_from_array([7u8; 32]));
    assert_eq!(key.to_bytes(), bytes);
    bytes[31] = 8;
    assert_ne!(key, Pubkey::new_from_array(bytes));
    bytes[31] = 7;
    bytes[0] = 6;
    assert_ne!(key, Pubkey::new_from_array(bytes));
}

#[test]
fn errors_have_their_numbers_and_lines() {
    let kinds = [
        SwapError::AlreadyInUse,
        SwapError::InvalidProgramAddress,
        SwapError::InvalidOwner,
        SwapError::InvalidAdmin,
        SwapError::ExpectedMint,
        SwapError::ExpectedAccount,
        SwapError::EmptySupply,
        SwapError::EmptyPool,
        SwapError::InvalidSupply,
        SwapError::RepeatedMint,
        SwapError::InvalidDelegate,
        SwapError::InvalidInput,
        SwapError::IncorrectSwapAccount,
        SwapError::IncorrectPoolMint,
        SwapError::CalculationFailure,
        SwapError::InvalidInstruction,
        SwapError::ExceededSlippage,
        SwapError::ConversionFailure,
    ];
    for (place, kind) in kinds.iter().enumerate() {
        assert_eq!(kind.code() as usize, place);
        assert!(kind.message().starts_with("Error: "));
    }
    assert_eq!(
        SwapError::AlreadyInUse.message(),
        "Error: Swap account already in use"
    );
    assert_eq!(
        SwapError::ConversionFailure.message(),
        "Error: Conversion to or from u64 failed."
    );
    assert_eq!(SwapError::EmptyPool.message(), "Error: Pool token supply is 0");
}
