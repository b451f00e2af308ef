use stable_swap::error::{ProcessError, SwapError};
use stable_swap::fees::Fees;
use stable_swap::pool::{
    check_authority, deposit, deposit_amount, initialize, swap, swap_amount, withdraw,
    withdraw_amounts, DepositAccounts, InitializeAccounts, SwapAccounts, TokenIntent,
    WithdrawAccounts,
};
use stable_swap::pubkey::Pubkey;
use stable_swap::state::SwapInfo;
use stable_swap::token::{Mint, TokenAccount};

fn key(n: u8) -> Pubkey {
    Pubkey::new_from_array([n; 32])
}

const AUTHORITY: u8 = 10;
const TOKEN_A: u8 = 11;
const TOKEN_B: u8 = 12;
const POOL_MINT: u8 = 13;
const MINT_A: u8 = 14;
const MINT_B: u8 = 15;
const ADMIN_A: u8 = 16;
const ADMIN_B: u8 = 17;
const USER_A: u8 = 20;
const USER_B: u8 = 21;
const USER_POOL: u8 = 22;

fn fees() -> Fees {
    Fees {
        admin_trade_fee_numerator: 1,
        admin_trade_fee_denominator: 1,
        admin_withdraw_fee_numerator: 1,
        admin_withdraw_fee_denominator: 1,
        trade_fee_numerator: 6,
        trade_fee_denominator: 100,
        withdraw_fee_numerator: 1,
        withdraw_fee_denominator: 1,
    }
}

fn reserve(mint: u8, amount: u64) -> TokenAccount {
    TokenAccount {
        mint: key(mint),
        owner: key(AUTHORITY),
        amount,
        delegate: None,
    }
}

fn share_mint(supply: u64) -> Mint {
    Mint {
        mint_authority: Some(key(AUTHORITY)),
        supply,
    }
}

fn record(amp_factor: u64) -> SwapInfo {
    SwapInfo {
        is_initialized: true,
        nonce: 255,
        amp_factor,
        token_a: key(TOKEN_A),
        token_b: key(TOKEN_B),
        pool_mint: key(POOL_MINT),
        token_a_mint: key(MINT_A),
        token_b_mint: key(MINT_B),
        admin_fee_account_a: key(ADMIN_A),
        admin_fee_account_b: key(ADMIN_B),
        fees: fees(),
    }
}

fn fresh(a: u64, b: u64) -> InitializeAccounts {
    InitializeAccounts {
        is_initialized: false,
        authority: key(AUTHORITY),
        derived_authority: Some(key(AUTHORITY)),
        token_a_key: key(TOKEN_A),
        token_a: Some(reserve(MINT_A, a)),
        token_b_key: key(TOKEN_B),
        token_b: Some(reserve(MINT_B, b)),
        pool_mint_key: key(POOL_MINT),
        pool_mint: Some(share_mint(0)),
        destination_key: key(USER_POOL),
        admin_fee_a_key: key(ADMIN_A),
        admin_fee_a: Some(reserve(MINT_A, 0)),
        admin_fee_b_key: key(ADMIN_B),
        admin_fee_b: Some(reserve(MINT_B, 0)),
    }
}

fn swapping(a: u64, b: u64) -> SwapAccounts {
    SwapAccounts {
        authority: key(AUTHORITY),
        derived_authority: Some(key(AUTHORITY)),
        source_key: key(USER_A),
        swap_source_key: key(TOKEN_A),
        swap_source: Some(reserve(MINT_A, a)),
        swap_destination_key: key(TOKEN_B),
        swap_destination: Some(reserve(MINT_B, b)),
        destination_key: key(USER_B),
    }
}

fn depositing(a: u64, b: u64, supply: u64) -> DepositAccounts {
    DepositAccounts {
        authority: key(AUTHORITY),
        derived_authority: Some(key(AUTHORITY)),
        source_a_key: key(USER_A),
        source_b_key: key(USER_B),
        token_a_key: key(TOKEN_A),
        token_a: Some(reserve(MINT_A, a)),
        token_b_key: key(TOKEN_B),
        token_b: Some(reserve(MINT_B, b)),
        pool_mint_key: key(POOL_MINT),
        pool_mint: Some(share_mint(supply)),
        destination_key: key(USER_POOL),
    }
}

fn withdrawing(a: u64, b: u64, supply: u64) -> WithdrawAccounts {
    WithdrawAccounts {
        authority: key(AUTHORITY),
        derived_authority: Some(key(AUTHORITY)),
        pool_mint_key: key(POOL_MINT),
        pool_mint: Some(share_mint(supply)),
        source_key: key(USER_POOL),
        token_a_key: key(TOKEN_A),
        token_a: Some(reserve(MINT_A, a)),
        token_b_key: key(TOKEN_B),
        token_b: Some(reserve(MINT_B, b)),
        destination_a_key: key(USER_A),
        destination_b_key: key(USER_B),
    }
}

fn refused<T: std::fmt::Debug>(r: Result<T, ProcessError>) -> SwapError {
    match r.unwrap_err() {
        ProcessError::Swap(e) => e,
        other => panic!("not an error of the pool: {:?}", other),
    }
}

fn transfer(intent: &TokenIntent) -> (Pubkey, Pubkey, u64, Pubkey) {
    match intent {
        TokenIntent::Transfer {
            source,
            destination,
            amount,
            authority,
        } => (*source, *destination, *amount, *authority),
        other => panic!("not a transfer: {:?}", other),
    }
}

#[test]
fn authority_must_be_the_derived_one() {
    assert!(check_authority(&key(1), &Some(key(1))));
    assert!(!check_authority(&key(1), &Some(key(2))));
    assert!(!check_authority(&key(1), &None));
}

#[test]
fn initialize_mints_the_invariant() {
    let done = initialize(254, 1, fees(), &fresh(1000, 2000)).unwrap();
    match done.intent {
        TokenIntent::MintTo {
            mint,
            destination,
            amount,
            authority,
        } => {
            assert_eq!(mint, key(POOL_MINT));
            assert_eq!(destination, key(USER_POOL));
            assert_eq!(amount, 2912);
            assert_eq!(authority, key(AUTHORITY));
        }
        other => panic!("not a minting: {:?}", other),
    }
    let record = done.record;
    assert!(record.is_initialized);
    assert_eq!(record.nonce, 254);
    assert_eq!(record.amp_factor, 1);
    assert_eq!(record.token_a, key(TOKEN_A));
    assert_eq!(record.token_b, key(TOKEN_B));
    assert_eq!(record.pool_mint, key(POOL_MINT));
    assert_eq!(record.token_a_mint, key(MINT_A));
    assert_eq!(record.token_b_mint, key(MINT_B));
    assert_eq!(record.admin_fee_account_a, key(ADMIN_A));
    assert_eq!(record.admin_fee_account_b, key(ADMIN_B));
    assert_eq!(record.fees, fees());
}

#[test]
fn initialize_accepts_a_mint_without_authority() {
    let mut acc = fresh(5000, 5000);
    acc.pool_mint = Some(Mint {
        mint_authority: None,
        supply: 0,
    });
    let done = initialize(1, 85, fees(), &acc).unwrap();
    match done.intent {
        TokenIntent::MintTo { amount, .. } => assert_eq!(amount, 10000),
        other => panic!("not a minting: {:?}", other),
    }
}

#[test]
fn initialize_twice_is_refused() {
    let mut acc = fresh(1000, 2000);
    acc.is_initialized = true;
    assert_eq!(
        initialize(254, 1, fees(), &acc).unwrap_err(),
        SwapError::AlreadyInUse
    );
    // whatever else is wrong
    acc.derived_authority = None;
    acc.token_a = None;
    assert_eq!(
        initialize(254, 0, fees(), &acc).unwrap_err(),
        SwapError::AlreadyInUse
    );
}

#[test]
fn initialize_checks_in_order() {
    let good = fresh(1000, 2000);

    let mut acc = good;
    acc.derived_authority = Some(key(99));
    acc.token_a = None;
    assert_eq!(
        initialize(1, 1, fees(), &acc).unwrap_err(),
        SwapError::InvalidProgramAddress
    );
    acc.derived_authority = None;
    assert_eq!(
        initialize(1, 1, fees(), &acc).unwrap_err(),
        SwapError::InvalidProgramAddress
    );

    let mut acc = good;
    acc.token_a = None;
    acc.pool_mint = None;
    assert_eq!(
        initialize(1, 1, fees(), &acc).unwrap_err(),
        SwapError::ExpectedAccount
    );
    let mut acc = good;
    acc.token_b = None;
    assert_eq!(
        initialize(1, 1, fees(), &acc).unwrap_err(),
        SwapError::ExpectedAccount
    );

    let mut acc = good;
    acc.pool_mint = None;
    acc.token_a = Some(TokenAccount {
        owner: key(99),
        ..reserve(MINT_A, 1000)
    });
    assert_eq!(
        initialize(1, 1, fees(), &acc).unwrap_err(),
        SwapError::ExpectedMint
    );

    let mut acc = good;
    acc.token_a = Some(TokenAccount {
        owner: key(99),
        ..reserve(MINT_B, 1000)
    });
    assert_eq!(
        initialize(1, 1, fees(), &acc).unwrap_err(),
        SwapError::InvalidOwner
    );
    let mut acc = good;
    acc.token_b = Some(TokenAccount {
        owner: key(99),
        ..reserve(MINT_B, 2000)
    });
    assert_eq!(
        initialize(1, 1, fees(), &acc).unwrap_err(),
        SwapError::InvalidOwner
    );
    let mut acc = good;
    acc.pool_mint = Some(Mint {
        mint_authority: Some(key(99)),
        supply: 0,
    });
    acc.token_b = Some(reserve(MINT_A, 2000));
    assert_eq!(
        initialize(1, 1, fees(), &acc).unwrap_err(),
        SwapError::InvalidOwner
    );

    let mut acc = good;
    acc.token_b = Some(reserve(MINT_A, 0));
    assert_eq!(
        initialize(1, 1, fees(), &acc).unwrap_err(),
        SwapError::RepeatedMint
    );

    let mut acc = good;
    acc.token_a = Some(TokenAccount {
        delegate: Some(key(98)),
        ..reserve(MINT_A, 0)
    });
    assert_eq!(
        initialize(1, 1, fees(), &acc).unwrap_err(),
        SwapError::EmptySupply
    );
    let mut acc = good;
    acc.token_b = Some(reserve(MINT_B, 0));
    assert_eq!(
        initialize(1, 1, fees(), &acc).unwrap_err(),
        SwapError::EmptySupply
    );

    let mut acc = good;
    acc.token_a = Some(TokenAccount {
        delegate: Some(key(98)),
        ..reserve(MINT_A, 1000)
    });
    acc.pool_mint = Some(share_mint(10));
    assert_eq!(
        initialize(1, 1, fees(), &acc).unwrap_err(),
        SwapError::InvalidDelegate
    );
    let mut acc = good;
    acc.token_b = Some(TokenAccount {
        delegate: Some(key(98)),
        ..reserve(MINT_B, 2000)
    });
    assert_eq!(
        initialize(1, 1, fees(), &acc).unwrap_err(),
        SwapError::InvalidDelegate
    );

    let mut acc = good;
    acc.pool_mint = Some(share_mint(10));
    acc.admin_fee_a = None;
    assert_eq!(
        initialize(1, 1, fees(), &acc).unwrap_err(),
        SwapError::InvalidSupply
    );

    let mut acc = good;
    acc.admin_fee_a = None;
    assert_eq!(
        initialize(1, 0, fees(), &acc).unwrap_err(),
        SwapError::ExpectedAccount
    );
    let mut acc = good;
    acc.admin_fee_b = None;
    assert_eq!(
        initialize(1, 1, fees(), &acc).unwrap_err(),
        SwapError::ExpectedAccount
    );

    let mut acc = good;
    acc.admin_fee_a = Some(reserve(MINT_B, 0));
    assert_eq!(
        initialize(1, 0, fees(), &acc).unwrap_err(),
        SwapError::InvalidAdmin
    );
    let mut acc = good;
    acc.admin_fee_b = Some(reserve(MINT_A, 0));
    assert_eq!(
        initialize(1, 1, fees(), &acc).unwrap_err(),
        SwapError::InvalidAdmin
    );

    assert_eq!(
        initialize(1, 0, fees(), &good).unwrap_err(),
        SwapError::CalculationFailure
    );
}

#[test]
fn initialize_fails_where_the_invariant_does() {
    assert_eq!(
        initialize(1, 1, fees(), &fresh(u64::MAX, u64::MAX)).unwrap_err(),
        SwapError::CalculationFailure
    );
}

#[test]
fn swap_asks_for_both_transfers() {
    let intents = swap(&record(85), 100, 94, &swapping(5000, 5000)).unwrap();
    assert_eq!(intents.len(), 2);
    assert_eq!(
        transfer(&intents[0]),
        (key(USER_A), key(TOKEN_A), 100, key(AUTHORITY))
    );
    assert_eq!(
        transfer(&intents[1]),
        (key(TOKEN_B), key(USER_B), 94, key(AUTHORITY))
    );
}

#[test]
fn swap_goes_either_way() {
    let mut acc = swapping(4906, 5100);
    acc.swap_source_key = key(TOKEN_B);
    acc.swap_destination_key = key(TOKEN_A);
    acc.source_key = key(USER_B);
    acc.destination_key = key(USER_A);
    let intents = swap(&record(85), 100, 0, &acc).unwrap();
    assert_eq!(
        transfer(&intents[0]),
        (key(USER_B), key(TOKEN_B), 100, key(AUTHORITY))
    );
    assert_eq!(
        transfer(&intents[1]),
        (key(TOKEN_A), key(USER_A), 94, key(AUTHORITY))
    );
}

#[test]
fn swap_below_the_minimum_is_refused() {
    assert_eq!(
        refused(swap(&record(85), 100, 95, &swapping(5000, 5000))),
        SwapError::ExceededSlippage
    );
    assert!(swap(&record(85), 100, 94, &swapping(5000, 5000)).is_ok());
}

#[test]
fn swap_checks_in_order() {
    let good = swapping(5000, 5000);

    let mut blank = record(85);
    blank.is_initialized = false;
    let mut acc = good;
    acc.derived_authority = None;
    assert_eq!(
        swap(&blank, 100, 0, &acc).unwrap_err(),
        ProcessError::UninitializedAccount
    );

    let mut acc = good;
    acc.derived_authority = Some(key(99));
    acc.swap_source_key = key(99);
    assert_eq!(
        refused(swap(&record(85), 100, 0, &acc)),
        SwapError::InvalidProgramAddress
    );

    let mut acc = good;
    acc.swap_source_key = key(99);
    assert_eq!(
        refused(swap(&record(85), 100, 0, &acc)),
        SwapError::IncorrectSwapAccount
    );
    let mut acc = good;
    acc.swap_destination_key = key(99);
    assert_eq!(
        refused(swap(&record(85), 100, 0, &acc)),
        SwapError::IncorrectSwapAccount
    );

    let mut acc = good;
    acc.swap_destination_key = key(TOKEN_A);
    acc.swap_source = None;
    assert_eq!(
        refused(swap(&record(85), 100, 0, &acc)),
        SwapError::InvalidInput
    );

    let mut acc = good;
    acc.swap_source = None;
    assert_eq!(
        refused(swap(&record(0), 100, 0, &acc)),
        SwapError::ExpectedAccount
    );
    let mut acc = good;
    acc.swap_destination = None;
    assert_eq!(
        refused(swap(&record(85), 100, 0, &acc)),
        SwapError::ExpectedAccount
    );

    assert_eq!(
        refused(swap(&record(0), 100, 0, &good)),
        SwapError::CalculationFailure
    );
    assert_eq!(
        refused(swap(&record(85), 0, 0, &good)),
        SwapError::CalculationFailure
    );
}

#[test]
fn swap_amount_is_what_the_curve_gives() {
    assert_eq!(swap_amount(85, 100, 5000, 5000, &fees()), Ok(94));
    assert_eq!(swap_amount(85, 100, 4906, 5100, &fees()), Ok(94));
    assert_eq!(
        swap_amount(0, 100, 5000, 5000, &fees()),
        Err(SwapError::CalculationFailure)
    );
    assert_eq!(
        swap_amount(85, 100, 0, 0, &fees()),
        Err(SwapError::CalculationFailure)
    );
    let mut undivided = fees();
    undivided.trade_fee_denominator = 0;
    assert_eq!(
        swap_amount(85, 100, 5000, 5000, &undivided),
        Err(SwapError::CalculationFailure)
    );
}

#[test]
fn deposit_asks_for_both_transfers_and_the_minting() {
    let intents = deposit(&record(1), 100, 900, 0, &depositing(1000, 9000, 7635)).unwrap();
    assert_eq!(intents.len(), 3);
    assert_eq!(
        transfer(&intents[0]),
        (key(USER_A), key(TOKEN_A), 100, key(AUTHORITY))
    );
    assert_eq!(
        transfer(&intents[1]),
        (key(USER_B), key(TOKEN_B), 900, key(AUTHORITY))
    );
    match intents[2] {
        TokenIntent::MintTo {
            mint,
            destination,
            amount,
            authority,
        } => {
            assert_eq!(mint, key(POOL_MINT));
            assert_eq!(destination, key(USER_POOL));
            assert_eq!(amount, 764);
            assert_eq!(authority, key(AUTHORITY));
        }
        other => panic!("not a minting: {:?}", other),
    }
}

#[test]
fn deposit_charges_the_trade_fee_on_the_imbalance() {
    assert_eq!(deposit_amount(1, 100, 900, 1000, 9000, 7635, &fees()), Ok(764));
    assert_eq!(deposit_amount(1, 1000, 0, 1000, 9000, 7635, &fees()), Ok(1816));
    let mut free = fees();
    free.trade_fee_numerator = 0;
    assert_eq!(deposit_amount(1, 1000, 0, 1000, 9000, 7635, &free), Ok(1988));
    assert_eq!(
        deposit_amount(85, 5000, 5000, 5000, 5000, 10000, &free),
        Ok(10000)
    );
}

#[test]
fn deposit_of_nothing_is_refused() {
    assert_eq!(
        deposit_amount(1, 0, 0, 1000, 9000, 7635, &fees()),
        Err(SwapError::CalculationFailure)
    );
    assert_eq!(
        refused(deposit(&record(1), 0, 0, 0, &depositing(1000, 9000, 7635))),
        SwapError::CalculationFailure
    );
    assert_eq!(
        refused(deposit(&record(85), 0, 0, 0, &depositing(0, 0, 0))),
        SwapError::CalculationFailure
    );
}

#[test]
fn deposit_fails_where_the_computation_does() {
    assert_eq!(
        deposit_amount(0, 100, 900, 1000, 9000, 7635, &fees()),
        Err(SwapError::CalculationFailure)
    );
    // an empty pool has no invariant to grow from
    assert_eq!(
        deposit_amount(1, 100, 900, 0, 0, 0, &fees()),
        Err(SwapError::CalculationFailure)
    );
    let mut undivided = fees();
    undivided.trade_fee_denominator = 0;
    assert_eq!(
        deposit_amount(1, 100, 900, 1000, 9000, 7635, &undivided),
        Err(SwapError::CalculationFailure)
    );
    assert_eq!(
        deposit_amount(1, u64::MAX, u64::MAX, 1000, 9000, 7635, &fees()),
        Err(SwapError::CalculationFailure)
    );
}

#[test]
fn deposit_of_more_shares_than_fit_is_refused() {
    let mut free = fees();
    free.trade_fee_numerator = 0;
    assert_eq!(
        deposit_amount(85, 5000, 5000, 5000, 5000, u64::MAX, &free),
        Ok(u64::MAX)
    );
    assert_eq!(
        deposit_amount(85, 10000, 10000, 5000, 5000, u64::MAX, &free),
        Err(SwapError::ConversionFailure)
    );
}

#[test]
fn deposit_below_the_minimum_is_refused() {
    assert_eq!(
        refused(deposit(
            &record(1),
            100,
            900,
            765,
            &depositing(1000, 9000, 7635)
        )),
        SwapError::ExceededSlippage
    );
    assert!(deposit(&record(1), 100, 900, 764, &depositing(1000, 9000, 7635)).is_ok());
}

#[test]
fn deposit_checks_in_order() {
    let good = depositing(1000, 9000, 7635);

    let mut blank = record(1);
    blank.is_initialized = false;
    let mut acc = good;
    acc.derived_authority = None;
    assert_eq!(
        deposit(&blank, 100, 900, 0, &acc).unwrap_err(),
        ProcessError::UninitializedAccount
    );

    let mut acc = good;
    acc.derived_authority = None;
    acc.token_a_key = key(99);
    assert_eq!(
        refused(deposit(&record(1), 100, 900, 0, &acc)),
        SwapError::InvalidProgramAddress
    );

    let mut acc = good;
    acc.token_a_key = key(99);
    acc.pool_mint_key = key(99);
    assert_eq!(
        refused(deposit(&record(1), 100, 900, 0, &acc)),
        SwapError::IncorrectSwapAccount
    );
    let mut acc = good;
    acc.token_b_key = key(TOKEN_A);
    assert_eq!(
        refused(deposit(&record(1), 100, 900, 0, &acc)),
        SwapError::IncorrectSwapAccount
    );

    let mut acc = good;
    acc.pool_mint_key = key(99);
    acc.token_a = None;
    assert_eq!(
        refused(deposit(&record(1), 100, 900, 0, &acc)),
        SwapError::IncorrectPoolMint
    );

    let mut acc = good;
    acc.token_a = None;
    acc.pool_mint = None;
    assert_eq!(
        refused(deposit(&record(1), 100, 900, 0, &acc)),
        SwapError::ExpectedAccount
    );
    let mut acc = good;
    acc.token_b = None;
    assert_eq!(
        refused(deposit(&record(1), 100, 900, 0, &acc)),
        SwapError::ExpectedAccount
    );

    let mut acc = good;
    acc.pool_mint = None;
    assert_eq!(
        refused(deposit(&record(0), 100, 900, 0, &acc)),
        SwapError::ExpectedMint
    );
}

#[test]
fn withdraw_asks_for_both_transfers_and_the_burning() {
    let intents = withdraw(&record(1), 291, 99, 199, &withdrawing(1000, 2000, 2912)).unwrap();
    assert_eq!(intents.len(), 3);
    assert_eq!(
        transfer(&intents[0]),
        (key(TOKEN_A), key(USER_A), 99, key(AUTHORITY))
    );
    assert_eq!(
        transfer(&intents[1]),
        (key(TOKEN_B), key(USER_B), 199, key(AUTHORITY))
    );
    match intents[2] {
        TokenIntent::Burn {
            source,
            mint,
            amount,
            authority,
        } => {
            assert_eq!(source, key(USER_POOL));
            assert_eq!(mint, key(POOL_MINT));
            assert_eq!(amount, 291);
            assert_eq!(authority, key(AUTHORITY));
        }
        other => panic!("not a burning: {:?}", other),
    }
}

#[test]
fn withdraw_of_nothing_pays_nothing() {
    let intents = withdraw(&record(1), 0, 0, 0, &withdrawing(1000, 2000, 2912)).unwrap();
    assert_eq!(transfer(&intents[0]).2, 0);
    assert_eq!(transfer(&intents[1]).2, 0);
    match intents[2] {
        TokenIntent::Burn { amount, .. } => assert_eq!(amount, 0),
        other => panic!("not a burning: {:?}", other),
    }
    assert_eq!(withdraw_amounts(0, 1000, 2000, 2912, 0, 0), Ok((0, 0)));
}

#[test]
fn withdraw_applies_no_fee() {
    // the withdraw fee of the record is one whole
    let intents = withdraw(&record(1), 2912, 0, 0, &withdrawing(1000, 2000, 2912)).unwrap();
    assert_eq!(transfer(&intents[0]).2, 1000);
    assert_eq!(transfer(&intents[1]).2, 2000);
}

#[test]
fn withdraw_amounts_are_pro_rata() {
    assert_eq!(withdraw_amounts(291, 1000, 2000, 2912, 0, 0), Ok((99, 199)));
    assert_eq!(withdraw_amounts(291, 1000, 2000, 2912, 99, 199), Ok((99, 199)));
    assert_eq!(
        withdraw_amounts(291, 1000, 2000, 2912, 100, 0),
        Err(SwapError::ExceededSlippage)
    );
    assert_eq!(
        withdraw_amounts(291, 1000, 2000, 2912, 0, 200),
        Err(SwapError::ExceededSlippage)
    );
    assert_eq!(
        withdraw_amounts(291, 1000, 2000, 0, 0, 0),
        Err(SwapError::CalculationFailure)
    );
    assert_eq!(
        withdraw_amounts(u64::MAX, u64::MAX, 1, 1, 0, 0),
        Err(SwapError::ConversionFailure)
    );
    assert_eq!(
        withdraw_amounts(u64::MAX, 1, u64::MAX, 1, 0, 0),
        Err(SwapError::ConversionFailure)
    );
    assert_eq!(
        withdraw_amounts(u64::MAX, u64::MAX, 0, u64::MAX, 0, 0),
        Ok((u64::MAX, 0))
    );
}

#[test]
fn withdraw_undoes_a_deposit_in_proportion() {
    let mut free = record(85);
    free.fees.trade_fee_numerator = 0;
    // doubling a pool of (5000, 5000) with 10000 shares
    let shares = deposit_amount(85, 5000, 5000, 5000, 5000, 10000, &free.fees).unwrap();
    assert_eq!(shares, 10000);
    let intents = withdraw(&free, shares, 0, 0, &withdrawing(10000, 10000, 10000 + shares)).unwrap();
    assert_eq!(transfer(&intents[0]).2, 5000);
    assert_eq!(transfer(&intents[1]).2, 5000);
}

#[test]
fn withdraw_below_a_minimum_is_refused() {
    assert_eq!(
        refused(withdraw(
            &record(1),
            291,
            100,
            0,
            &withdrawing(1000, 2000, 2912)
        )),
        SwapError::ExceededSlippage
    );
    assert_eq!(
        refused(withdraw(
            &record(1),
            291,
            0,
            200,
            &withdrawing(1000, 2000, 2912)
        )),
        SwapError::ExceededSlippage
    );
}

#[test]
fn withdraw_checks_in_order() {
    let good = withdrawing(1000, 2000, 2912);

    let mut blank = record(1);
    blank.is_initialized = false;
    assert_eq!(
        withdraw(&blank, 291, 0, 0, &good).unwrap_err(),
        ProcessError::UninitializedAccount
    );

    let mut acc = good;
    acc.derived_authority = Some(key(99));
    acc.token_b_key = key(99);
    assert_eq!(
        refused(withdraw(&record(1), 291, 0, 0, &acc)),
        SwapError::InvalidProgramAddress
    );

    let mut acc = good;
    acc.token_b_key = key(99);
    acc.pool_mint_key = key(99);
    assert_eq!(
        refused(withdraw(&record(1), 291, 0, 0, &acc)),
        SwapError::IncorrectSwapAccount
    );
    let mut acc = good;
    acc.token_a_key = key(TOKEN_B);
    assert_eq!(
        refused(withdraw(&record(1), 291, 0, 0, &acc)),
        SwapError::IncorrectSwapAccount
    );

    let mut acc = good;
    acc.pool_mint_key = key(99);
    acc.pool_mint = None;
    assert_eq!(
        refused(withdraw(&record(1), 291, 0, 0, &acc)),
        SwapError::IncorrectPoolMint
    );

    let mut acc = good;
    acc.pool_mint = None;
    acc.token_a = None;
    assert_eq!(
        refused(withdraw(&record(1), 291, 0, 0, &acc)),
        SwapError::ExpectedMint
    );

    let mut acc = good;
    acc.pool_mint = Some(share_mint(0));
    acc.token_a = None;
    assert_eq!(
        refused(withdraw(&record(1), 291, 0, 0, &acc)),
        SwapError::EmptyPool
    );

    let mut acc = good;
    acc.token_a = None;
    assert_eq!(
        refused(withdraw(&record(1), 291, 1000, 0, &acc)),
        SwapError::ExpectedAccount
    );
    let mut acc = good;
    acc.token_b = None;
    assert_eq!(
        refused(withdraw(&record(1), 291, 1000, 0, &acc)),
        SwapError::ExpectedAccount
    );

    // the first token is settled before the second
    assert_eq!(
        refused(withdraw(
            &record(1),
            u64::MAX,
            0,
            0,
            &withdrawing(u64::MAX, 2000, 1)
        )),
        SwapError::ConversionFailure
    );
    assert_eq!(
        refused(withdraw(
            &record(1),
            1 << 32,
            (1 << 32) + 1,
            0,
            &withdrawing(1, u64::MAX, 1)
        )),
        SwapError::ExceededSlippage
    );
    assert_eq!(
        refused(withdraw(
            &record(1),
            1 << 32,
            1 << 32,
            0,
            &withdrawing(1, u64::MAX, 1)
        )),
        SwapError::ConversionFailure
    );
}

#[test]
fn withdraw_after_a_deposit_into_a_thin_pool_rounds_down() {
    let mut free = fees();
    free.trade_fee_numerator = 0;
    // a pool of (134, 6) with as many shares as its invariant, tripled
    let shares = deposit_amount(1, 268, 12, 134, 6, 86, &free).unwrap();
    assert_eq!(shares, 170);
    assert_eq!(withdraw_amounts(shares, 402, 18, 86 + shares, 0, 0), Ok((266, 11)));
}
