//! The state machine of a pool: what each of the four operations checks, in
//! which order, what it computes, and which token movements it asks for.
//!
//! Every function here works on values that have already been read: the pool
//! record, the token accounts and mints as far as they could be decoded, and
//! the authority as far as it could be derived. Each either fails, and then
//! nothing is to be done, or returns the movements that the host has to carry
//! out, in order, under the pool's authority.

use vstd::prelude::*;
use crate::curve::{
    invariant_d,
    lemma_d_iteration_is_bounded,
    limit,
    pro_rata,
    same,
    swap_outcome,
    MAX_ITERATIONS,
};
use crate::curve::{PoolTokenConverter, StableSwap};
use crate::error::{ProcessError, SwapError};
use crate::fees::Fees;
use crate::helpers::{to_u128, to_u64};
use crate::pubkey::Pubkey;
use crate::state::{PoolRecord, SwapInfo};
use crate::token::{Mint, TokenAccount};

verus! {

/// A movement of tokens that the pool asks the host to carry out.
#[derive(Clone, Copy, Debug)]
pub enum TokenIntent {
    /// Moves `amount` tokens from `source` to `destination`.
    Transfer {
        /// Account that pays.
        source: Pubkey,
        /// Account that receives.
        destination: Pubkey,
        /// Amount moved.
        amount: u64,
        /// Authority under which the movement is made.
        authority: Pubkey,
    },
    /// Creates `amount` tokens of `mint` in `destination`.
    MintTo {
        /// Token type of which tokens are created.
        mint: Pubkey,
        /// Account that receives.
        destination: Pubkey,
        /// Amount created.
        amount: u64,
        /// Authority under which the tokens are created.
        authority: Pubkey,
    },
    /// Destroys `amount` tokens of `mint` in `source`.
    Burn {
        /// Account whose tokens are destroyed.
        source: Pubkey,
        /// Token type of which tokens are destroyed.
        mint: Pubkey,
        /// Amount destroyed.
        amount: u64,
        /// Authority under which the tokens are destroyed.
        authority: Pubkey,
    },
}

/// Whether the authority handed in is the one that was derived.
pub open spec fn authority_matches(authority: Pubkey, derived: Option<Pubkey>) -> bool {
    derived matches Some(k) && k@ == authority@
}

/// Tells whether the authority handed in is the one that was derived.
pub fn check_authority(authority: &Pubkey, derived: &Option<Pubkey>) -> (r: bool)
    ensures
        r == authority_matches(*authority, *derived),
{
    match derived {
        Some(k) => *k == *authority,
        None => false,
    }
}

/// What `initialize` is handed: the state of the record, the authority, and
/// the accounts of the operation as far as they could be decoded.
#[derive(Clone, Copy, Debug)]
pub struct InitializeAccounts {
    /// Whether the record is already initialized.
    pub is_initialized: bool,
    /// Authority handed in.
    pub authority: Pubkey,
    /// Authority derived from the pool id and the nonce, if there is one.
    pub derived_authority: Option<Pubkey>,
    /// Identifier of the first reserve.
    pub token_a_key: Pubkey,
    /// The first reserve, if its bytes are a token account.
    pub token_a: Option<TokenAccount>,
    /// Identifier of the second reserve.
    pub token_b_key: Pubkey,
    /// The second reserve, if its bytes are a token account.
    pub token_b: Option<TokenAccount>,
    /// Identifier of the share mint.
    pub pool_mint_key: Pubkey,
    /// The share mint, if its bytes are a mint.
    pub pool_mint: Option<Mint>,
    /// Account that receives the first shares.
    pub destination_key: Pubkey,
    /// Identifier of the admin-fee account of the first token.
    pub admin_fee_a_key: Pubkey,
    /// That account, if its bytes are a token account.
    pub admin_fee_a: Option<TokenAccount>,
    /// Identifier of the admin-fee account of the second token.
    pub admin_fee_b_key: Pubkey,
    /// That account, if its bytes are a token account.
    pub admin_fee_b: Option<TokenAccount>,
}

/// What a successful `initialize` returns.
#[derive(Clone, Copy, Debug)]
pub struct Initialized {
    /// The record to persist.
    pub record: SwapInfo,
    /// The minting of the first shares.
    pub intent: TokenIntent,
}

/// The first precondition of `initialize` that fails, if any, in the order in
/// which they are checked.
pub open spec fn initialize_refusal(amp_factor: u64, acc: InitializeAccounts) -> Option<SwapError> {
    if acc.is_initialized {
        Some(SwapError::AlreadyInUse)
    } else if !authority_matches(acc.authority, acc.derived_authority) {
        Some(SwapError::InvalidProgramAddress)
    } else if acc.token_a is None || acc.token_b is None {
        Some(SwapError::ExpectedAccount)
    } else if acc.pool_mint is None {
        Some(SwapError::ExpectedMint)
    } else {
        let a = acc.token_a.unwrap();
        let b = acc.token_b.unwrap();
        let m = acc.pool_mint.unwrap();
        if a.owner@ != acc.authority@ || b.owner@ != acc.authority@ {
            Some(SwapError::InvalidOwner)
        } else if m.mint_authority matches Some(k) && k@ != acc.authority@ {
            Some(SwapError::InvalidOwner)
        } else if a.mint@ == b.mint@ {
            Some(SwapError::RepeatedMint)
        } else if a.amount == 0 || b.amount == 0 {
            Some(SwapError::EmptySupply)
        } else if a.delegate is Some || b.delegate is Some {
            Some(SwapError::InvalidDelegate)
        } else if m.supply != 0 {
            Some(SwapError::InvalidSupply)
        } else if acc.admin_fee_a is None || acc.admin_fee_b is None {
            Some(SwapError::ExpectedAccount)
        } else if a.mint@ != acc.admin_fee_a.unwrap().mint@ || b.mint@
            != acc.admin_fee_b.unwrap().mint@ {
            Some(SwapError::InvalidAdmin)
        } else if amp_factor == 0 {
            Some(SwapError::CalculationFailure)
        } else {
            None
        }
    }
}

/// The record that `initialize` writes.
pub open spec fn initial_record(nonce: u8, amp_factor: u64, fees: Fees, acc: InitializeAccounts)
    -> SwapInfo {
    SwapInfo {
        is_initialized: true,
        nonce,
        amp_factor,
        token_a: acc.token_a_key,
        token_b: acc.token_b_key,
        pool_mint: acc.pool_mint_key,
        token_a_mint: acc.token_a.unwrap().mint,
        token_b_mint: acc.token_b.unwrap().mint,
        admin_fee_account_a: acc.admin_fee_a_key,
        admin_fee_account_b: acc.admin_fee_b_key,
        fees,
    }
}

/// What `initialize` returns.
///
/// Where no precondition fails, the invariant of the two reserves is
/// computed, which fails with `CalculationFailure`, and narrowed to 64 bits,
/// which fails with `ConversionFailure`. That many shares are minted to the
/// destination, and the record is written with the parameters handed in.
pub open spec fn initialize_result(nonce: u8, amp_factor: u64, fees: Fees, acc: InitializeAccounts)
    -> Result<Initialized, SwapError> {
    if initialize_refusal(amp_factor, acc) is Some {
        Err(initialize_refusal(amp_factor, acc).unwrap())
    } else {
        let d = invariant_d(
            amp_factor as int,
            acc.token_a.unwrap().amount as int,
            acc.token_b.unwrap().amount as int,
        );
        if d is None {
            Err(SwapError::CalculationFailure)
        } else if d.unwrap() > u64::MAX {
            Err(SwapError::ConversionFailure)
        } else {
            Ok(
                Initialized {
                    record: initial_record(nonce, amp_factor, fees, acc),
                    intent: TokenIntent::MintTo {
                        mint: acc.pool_mint_key,
                        destination: acc.destination_key,
                        amount: d.unwrap() as u64,
                        authority: acc.authority,
                    },
                },
            )
        }
    }
}

/// Creates the pool: checks the preconditions in order, computes the
/// invariant of the two reserves, and returns the record to persist together
/// with the minting of as many shares as the invariant.
pub fn initialize(nonce: u8, amp_factor: u64, fees: Fees, acc: &InitializeAccounts) -> (r: Result<
    Initialized,
    SwapError,
>)
    ensures
        r == initialize_result(nonce, amp_factor, fees, *acc),
{
    if acc.is_initialized {
        return Err(SwapError::AlreadyInUse);
    }
    if !check_authority(&acc.authority, &acc.derived_authority) {
        return Err(SwapError::InvalidProgramAddress);
    }
    let token_a = match acc.token_a {
        Some(a) => a,
        None => {
            return Err(SwapError::ExpectedAccount);
        },
    };
    let token_b = match acc.token_b {
        Some(b) => b,
        None => {
            return Err(SwapError::ExpectedAccount);
        },
    };
    let pool_mint = match acc.pool_mint {
        Some(m) => m,
        None => {
            return Err(SwapError::ExpectedMint);
        },
    };
    if !(acc.authority == token_a.owner) {
        return Err(SwapError::InvalidOwner);
    }
    if !(acc.authority == token_b.owner) {
        return Err(SwapError::InvalidOwner);
    }
    match pool_mint.mint_authority {
        Some(k) => {
            if !(acc.authority == k) {
                return Err(SwapError::InvalidOwner);
            }
        },
        None => {},
    }
    if token_a.mint == token_b.mint {
        return Err(SwapError::RepeatedMint);
    }
    if token_b.amount == 0 {
        return Err(SwapError::EmptySupply);
    }
    if token_a.amount == 0 {
        return Err(SwapError::EmptySupply);
    }
    if token_a.delegate.is_some() {
        return Err(SwapError::InvalidDelegate);
    }
    if token_b.delegate.is_some() {
        return Err(SwapError::InvalidDelegate);
    }
    if pool_mint.supply != 0 {
        return Err(SwapError::InvalidSupply);
    }
    let admin_fee_a = match acc.admin_fee_a {
        Some(a) => a,
        None => {
            return Err(SwapError::ExpectedAccount);
        },
    };
    let admin_fee_b = match acc.admin_fee_b {
        Some(b) => b,
        None => {
            return Err(SwapError::ExpectedAccount);
        },
    };
    if !(token_a.mint == admin_fee_a.mint) {
        return Err(SwapError::InvalidAdmin);
    }
    if !(token_b.mint == admin_fee_b.mint) {
        return Err(SwapError::InvalidAdmin);
    }
    let curve = StableSwap::new(amp_factor)?;
    let amount_a = to_u128(token_a.amount)?;
    let amount_b = to_u128(token_b.amount)?;
    let mint_amount = match curve.compute_d(amount_a, amount_b) {
        Some(d) => to_u64(d)?,
        None => {
            return Err(SwapError::CalculationFailure);
        },
    };
    let record = SwapInfo {
        is_initialized: true,
        nonce,
        amp_factor,
        token_a: acc.token_a_key,
        token_b: acc.token_b_key,
        pool_mint: acc.pool_mint_key,
        token_a_mint: token_a.mint,
        token_b_mint: token_b.mint,
        admin_fee_account_a: acc.admin_fee_a_key,
        admin_fee_account_b: acc.admin_fee_b_key,
        fees,
    };
    let intent = TokenIntent::MintTo {
        mint: acc.pool_mint_key,
        destination: acc.destination_key,
        amount: mint_amount,
        authority: acc.authority,
    };
    Ok(Initialized { record, intent })
}

/// What `swap` is handed: the authority and the accounts of the operation, the
/// two reserves as far as they could be decoded.
#[derive(Clone, Copy, Debug)]
pub struct SwapAccounts {
    /// Authority handed in.
    pub authority: Pubkey,
    /// Authority derived from the pool id and the nonce, if there is one.
    pub derived_authority: Option<Pubkey>,
    /// The user's account that pays in.
    pub source_key: Pubkey,
    /// Identifier of the reserve that is paid into.
    pub swap_source_key: Pubkey,
    /// That reserve, if its bytes are a token account.
    pub swap_source: Option<TokenAccount>,
    /// Identifier of the reserve that pays out.
    pub swap_destination_key: Pubkey,
    /// That reserve, if its bytes are a token account.
    pub swap_destination: Option<TokenAccount>,
    /// The user's account that is paid out to.
    pub destination_key: Pubkey,
}

/// A failure of the pool itself, as the failure of a whole operation.
pub open spec fn refused<T>(e: SwapError) -> Result<T, ProcessError> {
    Err(ProcessError::Swap(e))
}

/// Whether `key` names one of the two reserves of the pool.
pub open spec fn is_reserve(record: PoolRecord, key: Pubkey) -> bool {
    key@ == record.token_a || key@ == record.token_b
}

/// What `swap` returns.
///
/// The pool must be initialized and the authority the derived one; the two
/// declared reserves must be the pool's, and differ, and be token accounts.
/// The output follows from the curve at the pool's trade fee, which fails with
/// `CalculationFailure`; an output below the minimum is refused with
/// `ExceededSlippage`. The movements are the user's payment into the source
/// reserve and the pool's payment out of the destination reserve.
pub open spec fn swap_result(
    record: PoolRecord,
    amount_in: u64,
    minimum_amount_out: u64,
    acc: SwapAccounts,
) -> Result<Seq<TokenIntent>, ProcessError> {
    if !record.is_initialized {
        Err(ProcessError::UninitializedAccount)
    } else if !authority_matches(acc.authority, acc.derived_authority) {
        refused(SwapError::InvalidProgramAddress)
    } else if !is_reserve(record, acc.swap_source_key) || !is_reserve(
        record,
        acc.swap_destination_key,
    ) {
        refused(SwapError::IncorrectSwapAccount)
    } else if acc.swap_source_key@ == acc.swap_destination_key@ {
        refused(SwapError::InvalidInput)
    } else if acc.swap_source is None || acc.swap_destination is None {
        refused(SwapError::ExpectedAccount)
    } else {
        match swap_amount_result(
            record.amp_factor,
            amount_in,
            acc.swap_source.unwrap().amount,
            acc.swap_destination.unwrap().amount,
            record.fees,
        ) {
            Err(e) => refused(e),
            Ok(amount_out) => if amount_out < minimum_amount_out {
                refused(SwapError::ExceededSlippage)
            } else {
                Ok(
                    seq![
                        TokenIntent::Transfer {
                            source: acc.source_key,
                            destination: acc.swap_source_key,
                            amount: amount_in,
                            authority: acc.authority,
                        },
                        TokenIntent::Transfer {
                            source: acc.swap_destination_key,
                            destination: acc.destination_key,
                            amount: amount_out,
                            authority: acc.authority,
                        },
                    ],
                )
            },
        }
    }
}

/// Whether an executable outcome is the given mathematical one: the same
/// failure, or the same movements in the same order.
pub open spec fn same_intents(
    r: Result<Vec<TokenIntent>, ProcessError>,
    m: Result<Seq<TokenIntent>, ProcessError>,
) -> bool {
    match r {
        Ok(v) => m == Ok::<Seq<TokenIntent>, ProcessError>(v@),
        Err(e) => m == Err::<Seq<TokenIntent>, ProcessError>(e),
    }
}

/// Tells whether `key` names one of the two reserves of the pool.
fn names_reserve(record: &SwapInfo, key: &Pubkey) -> (r: bool)
    ensures
        r == is_reserve(record@, *key),
{
    *key == record.token_a || *key == record.token_b
}

/// Trades `amount_in` of the source reserve's token for the other token:
/// checks the preconditions in order, computes the output on the curve, and
/// returns the two transfers.
pub fn swap(record: &SwapInfo, amount_in: u64, minimum_amount_out: u64, acc: &SwapAccounts) -> (r:
    Result<Vec<TokenIntent>, ProcessError>)
    ensures
        same_intents(r, swap_result(record@, amount_in, minimum_amount_out, *acc)),
{
    if !record.is_initialized {
        return Err(ProcessError::UninitializedAccount);
    }
    if !check_authority(&acc.authority, &acc.derived_authority) {
        return Err(ProcessError::Swap(SwapError::InvalidProgramAddress));
    }
    if !names_reserve(record, &acc.swap_source_key) {
        return Err(ProcessError::Swap(SwapError::IncorrectSwapAccount));
    }
    if !names_reserve(record, &acc.swap_destination_key) {
        return Err(ProcessError::Swap(SwapError::IncorrectSwapAccount));
    }
    if acc.swap_source_key == acc.swap_destination_key {
        return Err(ProcessError::Swap(SwapError::InvalidInput));
    }
    let swap_source = match acc.swap_source {
        Some(a) => a,
        None => {
            return Err(ProcessError::Swap(SwapError::ExpectedAccount));
        },
    };
    let swap_destination = match acc.swap_destination {
        Some(a) => a,
        None => {
            return Err(ProcessError::Swap(SwapError::ExpectedAccount));
        },
    };
    let amount_swapped = match swap_amount(
        record.amp_factor,
        amount_in,
        swap_source.amount,
        swap_destination.amount,
        &record.fees,
    ) {
        Ok(v) => v,
        Err(e) => {
            return Err(ProcessError::Swap(e));
        },
    };
    if amount_swapped < minimum_amount_out {
        return Err(ProcessError::Swap(SwapError::ExceededSlippage));
    }
    let mut intents: Vec<TokenIntent> = Vec::new();
    intents.push(
        TokenIntent::Transfer {
            source: acc.source_key,
            destination: acc.swap_source_key,
            amount: amount_in,
            authority: acc.authority,
        },
    );
    intents.push(
        TokenIntent::Transfer {
            source: acc.swap_destination_key,
            destination: acc.destination_key,
            amount: amount_swapped,
            authority: acc.authority,
        },
    );
    proof {
        let expected = swap_result(record@, amount_in, minimum_amount_out, *acc);
        assert(expected is Ok);
        assert(intents@ =~= expected.unwrap());
    }
    Ok(intents)
}

/// The amount that a swap pays out, in 64 bits.
pub open spec fn swap_amount_result(
    amp_factor: u64,
    amount_in: u64,
    source_reserve: u64,
    destination_reserve: u64,
    fees: Fees,
) -> Result<u64, SwapError> {
    if amp_factor == 0 {
        Err(SwapError::CalculationFailure)
    } else {
        let outcome = swap_outcome(
            amp_factor as int,
            amount_in as int,
            source_reserve as int,
            destination_reserve as int,
            fees.trade_fee_numerator as int,
            fees.trade_fee_denominator as int,
        );
        if outcome is None {
            Err(SwapError::CalculationFailure)
        } else if outcome.unwrap().swapped > u64::MAX {
            Err(SwapError::ConversionFailure)
        } else {
            Ok(outcome.unwrap().swapped as u64)
        }
    }
}

/// Computes the amount that a swap of `amount_in` pays out of a pool with the
/// given reserves, at the trade fee of `fees`. Fails with
/// `CalculationFailure` where the amplification is zero or the curve gives no
/// output, and with `ConversionFailure` where the output exceeds 64 bits.
pub fn swap_amount(
    amp_factor: u64,
    amount_in: u64,
    source_reserve: u64,
    destination_reserve: u64,
    fees: &Fees,
) -> (r: Result<u64, SwapError>)
    ensures
        r == swap_amount_result(amp_factor, amount_in, source_reserve, destination_reserve, *fees),
{
    let curve = StableSwap::new(amp_factor)?;
    let result = match curve.swap_to(
        to_u128(amount_in)?,
        to_u128(source_reserve)?,
        to_u128(destination_reserve)?,
        to_u128(fees.trade_fee_numerator)?,
        to_u128(fees.trade_fee_denominator)?,
    ) {
        Some(v) => v,
        None => {
            return Err(SwapError::CalculationFailure);
        },
    };
    to_u64(result.amount_swapped)
}

/// A reserve after the fee on its imbalance has been taken from it.
///
/// The reserve `old` would have grown to `d1 * old / d0` had the deposit kept
/// the pool's proportions; the fee is the rate `fee_num / fee_den` of the
/// distance between that and `new`, rounded down. `None` where the
/// computation fails.
pub open spec fn reserve_after_fee(
    d0: int,
    d1: int,
    old: int,
    new: int,
    fee_num: int,
    fee_den: int,
) -> Option<int> {
    if d0 == 0 || d1 * old > limit() {
        None
    } else {
        let ideal = (d1 * old) / d0;
        let difference = if ideal > new {
            ideal - new
        } else {
            new - ideal
        };
        if fee_den == 0 || fee_num * difference > limit() || (fee_num * difference) / fee_den
            > new {
            None
        } else {
            Some(new - (fee_num * difference) / fee_den)
        }
    }
}

/// The shares that a deposit of `da` and `db` into the reserves `a` and `b`
/// earns, out of `supply` shares in circulation.
///
/// The invariant must grow by the deposit. It is then computed once more,
/// with the fee on the imbalance taken from either side, and the shares in
/// circulation grow by as much as that invariant has grown over the first.
/// `None` where the computation fails.
pub open spec fn deposit_shares(
    amp: int,
    a: int,
    b: int,
    da: int,
    db: int,
    supply: int,
    fee_num: int,
    fee_den: int,
) -> Option<int> {
    let d0 = invariant_d(amp, a, b);
    let d1 = invariant_d(amp, a + da, b + db);
    if d0 is None || d1 is None || d1.unwrap() <= d0.unwrap() {
        None
    } else {
        let new_a = reserve_after_fee(d0.unwrap(), d1.unwrap(), a, a + da, fee_num, fee_den);
        let new_b = reserve_after_fee(d0.unwrap(), d1.unwrap(), b, b + db, fee_num, fee_den);
        if new_a is None || new_b is None {
            None
        } else {
            let d2 = invariant_d(amp, new_a.unwrap(), new_b.unwrap());
            if d2 is None || d2.unwrap() < d0.unwrap() || supply * (d2.unwrap() - d0.unwrap())
                > limit() {
                None
            } else {
                Some((supply * (d2.unwrap() - d0.unwrap())) / d0.unwrap())
            }
        }
    }
}

/// The shares that a deposit earns, in 64 bits.
pub open spec fn deposit_amount_result(
    amp_factor: u64,
    token_a_amount: u64,
    token_b_amount: u64,
    reserve_a: u64,
    reserve_b: u64,
    supply: u64,
    fees: Fees,
) -> Result<u64, SwapError> {
    if amp_factor == 0 {
        Err(SwapError::CalculationFailure)
    } else {
        let shares = deposit_shares(
            amp_factor as int,
            reserve_a as int,
            reserve_b as int,
            token_a_amount as int,
            token_b_amount as int,
            supply as int,
            fees.trade_fee_numerator as int,
            fees.trade_fee_denominator as int,
        );
        if shares is None {
            Err(SwapError::CalculationFailure)
        } else if shares.unwrap() > u64::MAX {
            Err(SwapError::ConversionFailure)
        } else {
            Ok(shares.unwrap() as u64)
        }
    }
}

/// One reserve after the fee on its imbalance.
fn take_imbalance_fee(d0: u128, d1: u128, old: u128, new: u128, fee_num: u128, fee_den: u128) -> (r:
    Option<u128>)
    ensures
        same(
            r,
            reserve_after_fee(
                d0 as int,
                d1 as int,
                old as int,
                new as int,
                fee_num as int,
                fee_den as int,
            ),
        ),
{
    if d0 == 0 {
        return None;
    }
    let scaled = d1.checked_mul(old)?;
    let ideal = scaled / d0;
    let difference = if ideal > new {
        ideal - new
    } else {
        new - ideal
    };
    if fee_den == 0 {
        return None;
    }
    let product = fee_num.checked_mul(difference)?;
    let fee = product / fee_den;
    new.checked_sub(fee)
}

/// Computes the shares that a deposit of `token_a_amount` and
/// `token_b_amount` earns from a pool with the given reserves and `supply`
/// shares, at the trade fee of `fees` on the imbalance. Fails with
/// `CalculationFailure` where the amplification is zero, the invariant does
/// not grow or a step of the computation fails, and with `ConversionFailure`
/// where the shares exceed 64 bits.
pub fn deposit_amount(
    amp_factor: u64,
    token_a_amount: u64,
    token_b_amount: u64,
    reserve_a: u64,
    reserve_b: u64,
    supply: u64,
    fees: &Fees,
) -> (r: Result<u64, SwapError>)
    ensures
        r == deposit_amount_result(
            amp_factor,
            token_a_amount,
            token_b_amount,
            reserve_a,
            reserve_b,
            supply,
            *fees,
        ),
{
    let curve = StableSwap::new(amp_factor)?;
    let old_a = to_u128(reserve_a)?;
    let old_b = to_u128(reserve_b)?;
    let fee_num = to_u128(fees.trade_fee_numerator)?;
    let fee_den = to_u128(fees.trade_fee_denominator)?;
    let failure: Result<u64, SwapError> = Err(SwapError::CalculationFailure);
    let d_0 = match curve.compute_d(old_a, old_b) {
        Some(d) => d,
        None => {
            return failure;
        },
    };
    let grown_a = old_a + to_u128(token_a_amount)?;
    let grown_b = old_b + to_u128(token_b_amount)?;
    let d_1 = match curve.compute_d(grown_a, grown_b) {
        Some(d) => d,
        None => {
            return failure;
        },
    };
    if d_1 <= d_0 {
        return failure;
    }
    let new_a = match take_imbalance_fee(d_0, d_1, old_a, grown_a, fee_num, fee_den) {
        Some(v) => v,
        None => {
            return failure;
        },
    };
    let new_b = match take_imbalance_fee(d_0, d_1, old_b, grown_b, fee_num, fee_den) {
        Some(v) => v,
        None => {
            return failure;
        },
    };
    let d_2 = match curve.compute_d(new_a, new_b) {
        Some(d) => d,
        None => {
            return failure;
        },
    };
    if d_2 < d_0 {
        return failure;
    }
    let product = match to_u128(supply)?.checked_mul(d_2 - d_0) {
        Some(v) => v,
        None => {
            return failure;
        },
    };
    to_u64(product / d_0)
}

/// A deposit of nothing is refused with `CalculationFailure`, whatever the
/// pool holds: the invariant does not grow.
pub proof fn lemma_empty_deposit_is_refused(
    amp_factor: u64,
    reserve_a: u64,
    reserve_b: u64,
    supply: u64,
    fees: Fees,
)
    ensures
        deposit_amount_result(amp_factor, 0, 0, reserve_a, reserve_b, supply, fees) == Err::<
            u64,
            SwapError,
        >(SwapError::CalculationFailure),
{
}

/// What `deposit` is handed: the authority and the accounts of the operation,
/// the two reserves and the share mint as far as they could be decoded.
#[derive(Clone, Copy, Debug)]
pub struct DepositAccounts {
    /// Authority handed in.
    pub authority: Pubkey,
    /// Authority derived from the pool id and the nonce, if there is one.
    pub derived_authority: Option<Pubkey>,
    /// The user's account of the first token.
    pub source_a_key: Pubkey,
    /// The user's account of the second token.
    pub source_b_key: Pubkey,
    /// Identifier of the first reserve.
    pub token_a_key: Pubkey,
    /// The first reserve, if its bytes are a token account.
    pub token_a: Option<TokenAccount>,
    /// Identifier of the second reserve.
    pub token_b_key: Pubkey,
    /// The second reserve, if its bytes are a token account.
    pub token_b: Option<TokenAccount>,
    /// Identifier of the share mint.
    pub pool_mint_key: Pubkey,
    /// The share mint, if its bytes are a mint.
    pub pool_mint: Option<Mint>,
    /// The user's account that receives the shares.
    pub destination_key: Pubkey,
}

/// The first of the checks that deposit and withdrawal share that fails, if
/// any: the pool is initialized, the authority is the derived one, and the
/// two reserves and the share mint are the pool's.
pub open spec fn membership_refusal(
    record: PoolRecord,
    authority: Pubkey,
    derived: Option<Pubkey>,
    token_a_key: Pubkey,
    token_b_key: Pubkey,
    pool_mint_key: Pubkey,
) -> Option<ProcessError> {
    if !record.is_initialized {
        Some(ProcessError::UninitializedAccount)
    } else if !authority_matches(authority, derived) {
        Some(ProcessError::Swap(SwapError::InvalidProgramAddress))
    } else if token_a_key@ != record.token_a || token_b_key@ != record.token_b {
        Some(ProcessError::Swap(SwapError::IncorrectSwapAccount))
    } else if pool_mint_key@ != record.pool_mint {
        Some(ProcessError::Swap(SwapError::IncorrectPoolMint))
    } else {
        None
    }
}

/// Makes the checks that deposit and withdrawal share, in order.
fn check_membership(
    record: &SwapInfo,
    authority: &Pubkey,
    derived: &Option<Pubkey>,
    token_a_key: &Pubkey,
    token_b_key: &Pubkey,
    pool_mint_key: &Pubkey,
) -> (r: Option<ProcessError>)
    ensures
        r == membership_refusal(
            record@,
            *authority,
            *derived,
            *token_a_key,
            *token_b_key,
            *pool_mint_key,
        ),
{
    if !record.is_initialized {
        return Some(ProcessError::UninitializedAccount);
    }
    if !check_authority(authority, derived) {
        return Some(ProcessError::Swap(SwapError::InvalidProgramAddress));
    }
    if !(*token_a_key == record.token_a) {
        return Some(ProcessError::Swap(SwapError::IncorrectSwapAccount));
    }
    if !(*token_b_key == record.token_b) {
        return Some(ProcessError::Swap(SwapError::IncorrectSwapAccount));
    }
    if !(*pool_mint_key == record.pool_mint) {
        return Some(ProcessError::Swap(SwapError::IncorrectPoolMint));
    }
    None
}

/// What `deposit` returns.
///
/// After the shared checks, the two reserves must be token accounts and the
/// share mint a mint. The shares follow from the curve at the pool's trade
/// fee; fewer shares than the minimum are refused with `ExceededSlippage`.
/// The movements are the user's two payments into the reserves and the
/// minting of the shares.
pub open spec fn deposit_result(
    record: PoolRecord,
    token_a_amount: u64,
    token_b_amount: u64,
    min_mint_amount: u64,
    acc: DepositAccounts,
) -> Result<Seq<TokenIntent>, ProcessError> {
    let refusal = membership_refusal(
        record,
        acc.authority,
        acc.derived_authority,
        acc.token_a_key,
        acc.token_b_key,
        acc.pool_mint_key,
    );
    if refusal is Some {
        Err(refusal.unwrap())
    } else if acc.token_a is None || acc.token_b is None {
        refused(SwapError::ExpectedAccount)
    } else if acc.pool_mint is None {
        refused(SwapError::ExpectedMint)
    } else {
        match deposit_amount_result(
            record.amp_factor,
            token_a_amount,
            token_b_amount,
            acc.token_a.unwrap().amount,
            acc.token_b.unwrap().amount,
            acc.pool_mint.unwrap().supply,
            record.fees,
        ) {
            Err(e) => refused(e),
            Ok(shares) => if shares < min_mint_amount {
                refused(SwapError::ExceededSlippage)
            } else {
                Ok(
                    seq![
                        TokenIntent::Transfer {
                            source: acc.source_a_key,
                            destination: acc.token_a_key,
                            amount: token_a_amount,
                            authority: acc.authority,
                        },
                        TokenIntent::Transfer {
                            source: acc.source_b_key,
                            destination: acc.token_b_key,
                            amount: token_b_amount,
                            authority: acc.authority,
                        },
                        TokenIntent::MintTo {
                            mint: acc.pool_mint_key,
                            destination: acc.destination_key,
                            amount: shares,
                            authority: acc.authority,
                        },
                    ],
                )
            },
        }
    }
}

/// Adds `token_a_amount` and `token_b_amount` to the reserves in return for
/// shares: makes the checks in order, computes the shares, and returns the
/// two transfers and the minting.
pub fn deposit(
    record: &SwapInfo,
    token_a_amount: u64,
    token_b_amount: u64,
    min_mint_amount: u64,
    acc: &DepositAccounts,
) -> (r: Result<Vec<TokenIntent>, ProcessError>)
    ensures
        same_intents(
            r,
            deposit_result(record@, token_a_amount, token_b_amount, min_mint_amount, *acc),
        ),
{
    match check_membership(
        record,
        &acc.authority,
        &acc.derived_authority,
        &acc.token_a_key,
        &acc.token_b_key,
        &acc.pool_mint_key,
    ) {
        Some(e) => {
            return Err(e);
        },
        None => {},
    }
    let token_a = match acc.token_a {
        Some(a) => a,
        None => {
            return Err(ProcessError::Swap(SwapError::ExpectedAccount));
        },
    };
    let token_b = match acc.token_b {
        Some(b) => b,
        None => {
            return Err(ProcessError::Swap(SwapError::ExpectedAccount));
        },
    };
    let pool_mint = match acc.pool_mint {
        Some(m) => m,
        None => {
            return Err(ProcessError::Swap(SwapError::ExpectedMint));
        },
    };
    let mint_amount = match deposit_amount(
        record.amp_factor,
        token_a_amount,
        token_b_amount,
        token_a.amount,
        token_b.amount,
        pool_mint.supply,
        &record.fees,
    ) {
        Ok(v) => v,
        Err(e) => {
            return Err(ProcessError::Swap(e));
        },
    };
    if mint_amount < min_mint_amount {
        return Err(ProcessError::Swap(SwapError::ExceededSlippage));
    }
    let mut intents: Vec<TokenIntent> = Vec::new();
    intents.push(
        TokenIntent::Transfer {
            source: acc.source_a_key,
            destination: acc.token_a_key,
            amount: token_a_amount,
            authority: acc.authority,
        },
    );
    intents.push(
        TokenIntent::Transfer {
            source: acc.source_b_key,
            destination: acc.token_b_key,
            amount: token_b_amount,
            authority: acc.authority,
        },
    );
    intents.push(
        TokenIntent::MintTo {
            mint: acc.pool_mint_key,
            destination: acc.destination_key,
            amount: mint_amount,
            authority: acc.authority,
        },
    );
    proof {
        let expected = deposit_result(
            record@,
            token_a_amount,
            token_b_amount,
            min_mint_amount,
            *acc,
        );
        assert(expected is Ok);
        assert(intents@ =~= expected.unwrap());
    }
    Ok(intents)
}

/// What `withdraw` is handed: the authority and the accounts of the
/// operation, the share mint and the two reserves as far as they could be
/// decoded.
#[derive(Clone, Copy, Debug)]
pub struct WithdrawAccounts {
    /// Authority handed in.
    pub authority: Pubkey,
    /// Authority derived from the pool id and the nonce, if there is one.
    pub derived_authority: Option<Pubkey>,
    /// Identifier of the share mint.
    pub pool_mint_key: Pubkey,
    /// The share mint, if its bytes are a mint.
    pub pool_mint: Option<Mint>,
    /// The user's account whose shares are handed back.
    pub source_key: Pubkey,
    /// Identifier of the first reserve.
    pub token_a_key: Pubkey,
    /// The first reserve, if its bytes are a token account.
    pub token_a: Option<TokenAccount>,
    /// Identifier of the second reserve.
    pub token_b_key: Pubkey,
    /// The second reserve, if its bytes are a token account.
    pub token_b: Option<TokenAccount>,
    /// The user's account that receives the first token.
    pub destination_a_key: Pubkey,
    /// The user's account that receives the second token.
    pub destination_b_key: Pubkey,
}

/// The amount of one reserve that a withdrawal pays out, in 64 bits: the
/// part of the reserve that the shares stand for. `CalculationFailure` where
/// there are no shares in circulation, `ConversionFailure` where the amount
/// exceeds 64 bits, `ExceededSlippage` where it is below the minimum.
pub open spec fn withdraw_amount_result(shares: u64, reserve: u64, supply: u64, minimum: u64)
    -> Result<u64, SwapError> {
    let part = pro_rata(shares as int, reserve as int, supply as int);
    if part is None {
        Err(SwapError::CalculationFailure)
    } else if part.unwrap() > u64::MAX {
        Err(SwapError::ConversionFailure)
    } else if part.unwrap() < minimum {
        Err(SwapError::ExceededSlippage)
    } else {
        Ok(part.unwrap() as u64)
    }
}

/// What `withdraw` returns.
///
/// After the shared checks, the share mint must be a mint with shares in
/// circulation and the two reserves token accounts. Each reserve pays out the
/// part that the shares stand for; the first token is settled before the
/// second. The movements are the two payments out of the reserves and the
/// burning of the shares.
pub open spec fn withdraw_result(
    record: PoolRecord,
    pool_token_amount: u64,
    minimum_token_a_amount: u64,
    minimum_token_b_amount: u64,
    acc: WithdrawAccounts,
) -> Result<Seq<TokenIntent>, ProcessError> {
    let refusal = membership_refusal(
        record,
        acc.authority,
        acc.derived_authority,
        acc.token_a_key,
        acc.token_b_key,
        acc.pool_mint_key,
    );
    if refusal is Some {
        Err(refusal.unwrap())
    } else if acc.pool_mint is None {
        refused(SwapError::ExpectedMint)
    } else if acc.pool_mint.unwrap().supply == 0 {
        refused(SwapError::EmptyPool)
    } else if acc.token_a is None || acc.token_b is None {
        refused(SwapError::ExpectedAccount)
    } else {
        match withdraw_amounts_result(
            pool_token_amount,
            acc.token_a.unwrap().amount,
            acc.token_b.unwrap().amount,
            acc.pool_mint.unwrap().supply,
            minimum_token_a_amount,
            minimum_token_b_amount,
        ) {
            Err(e) => refused(e),
            Ok(amounts) => Ok(
                seq![
                    TokenIntent::Transfer {
                        source: acc.token_a_key,
                        destination: acc.destination_a_key,
                        amount: amounts.0,
                        authority: acc.authority,
                    },
                    TokenIntent::Transfer {
                        source: acc.token_b_key,
                        destination: acc.destination_b_key,
                        amount: amounts.1,
                        authority: acc.authority,
                    },
                    TokenIntent::Burn {
                        source: acc.source_key,
                        mint: acc.pool_mint_key,
                        amount: pool_token_amount,
                        authority: acc.authority,
                    },
                ],
            ),
        }
    }
}

/// Narrows what the converter gives for one reserve and holds it against the
/// minimum.
fn settle(part: Option<u128>, minimum: u64) -> (r: Result<u64, SwapError>)
    ensures
        r == match part {
            None => Err::<u64, SwapError>(SwapError::CalculationFailure),
            Some(v) => if v > u64::MAX {
                Err::<u64, SwapError>(SwapError::ConversionFailure)
            } else if v < minimum {
                Err::<u64, SwapError>(SwapError::ExceededSlippage)
            } else {
                Ok::<u64, SwapError>(v as u64)
            },
        },
{
    let amount = match part {
        Some(v) => to_u64(v)?,
        None => {
            return Err(SwapError::CalculationFailure);
        },
    };
    if amount < minimum {
        return Err(SwapError::ExceededSlippage);
    }
    Ok(amount)
}

/// The two amounts that a withdrawal pays out: the first reserve is settled
/// before the second.
pub open spec fn withdraw_amounts_result(
    shares: u64,
    reserve_a: u64,
    reserve_b: u64,
    supply: u64,
    minimum_a: u64,
    minimum_b: u64,
) -> Result<(u64, u64), SwapError> {
    match withdraw_amount_result(shares, reserve_a, supply, minimum_a) {
        Err(e) => Err(e),
        Ok(a_amount) => match withdraw_amount_result(shares, reserve_b, supply, minimum_b) {
            Err(e) => Err(e),
            Ok(b_amount) => Ok((a_amount, b_amount)),
        },
    }
}

/// Computes the amounts of the two reserves that `shares` out of `supply`
/// shares stand for, and refuses either where it is below its minimum.
pub fn withdraw_amounts(
    shares: u64,
    reserve_a: u64,
    reserve_b: u64,
    supply: u64,
    minimum_a: u64,
    minimum_b: u64,
) -> (r: Result<(u64, u64), SwapError>)
    ensures
        r == withdraw_amounts_result(shares, reserve_a, reserve_b, supply, minimum_a, minimum_b),
{
    let pool_tokens = to_u128(shares)?;
    let converter = PoolTokenConverter::new(
        to_u128(supply)?,
        to_u128(reserve_a)?,
        to_u128(reserve_b)?,
    );
    let a_amount = settle(converter.token_a_rate(pool_tokens), minimum_a)?;
    let b_amount = settle(converter.token_b_rate(pool_tokens), minimum_b)?;
    Ok((a_amount, b_amount))
}

/// Hands back `pool_token_amount` shares for a part of both reserves: makes
/// the checks in order, computes the two amounts, and returns the two
/// transfers and the burning.
pub fn withdraw(
    record: &SwapInfo,
    pool_token_amount: u64,
    minimum_token_a_amount: u64,
    minimum_token_b_amount: u64,
    acc: &WithdrawAccounts,
) -> (r: Result<Vec<TokenIntent>, ProcessError>)
    ensures
        same_intents(
            r,
            withdraw_result(
                record@,
                pool_token_amount,
                minimum_token_a_amount,
                minimum_token_b_amount,
                *acc,
            ),
        ),
{
    match check_membership(
        record,
        &acc.authority,
        &acc.derived_authority,
        &acc.token_a_key,
        &acc.token_b_key,
        &acc.pool_mint_key,
    ) {
        Some(e) => {
            return Err(e);
        },
        None => {},
    }
    let pool_mint = match acc.pool_mint {
        Some(m) => m,
        None => {
            return Err(ProcessError::Swap(SwapError::ExpectedMint));
        },
    };
    if pool_mint.supply == 0 {
        return Err(ProcessError::Swap(SwapError::EmptyPool));
    }
    let token_a = match acc.token_a {
        Some(a) => a,
        None => {
            return Err(ProcessError::Swap(SwapError::ExpectedAccount));
        },
    };
    let token_b = match acc.token_b {
        Some(b) => b,
        None => {
            return Err(ProcessError::Swap(SwapError::ExpectedAccount));
        },
    };
    let (a_amount, b_amount) = match withdraw_amounts(
        pool_token_amount,
        token_a.amount,
        token_b.amount,
        pool_mint.supply,
        minimum_token_a_amount,
        minimum_token_b_amount,
    ) {
        Ok(v) => v,
        Err(e) => {
            return Err(ProcessError::Swap(e));
        },
    };
    let mut intents: Vec<TokenIntent> = Vec::new();
    intents.push(
        TokenIntent::Transfer {
            source: acc.token_a_key,
            destination: acc.destination_a_key,
            amount: a_amount,
            authority: acc.authority,
        },
    );
    intents.push(
        TokenIntent::Transfer {
            source: acc.token_b_key,
            destination: acc.destination_b_key,
            amount: b_amount,
            authority: acc.authority,
        },
    );
    intents.push(
        TokenIntent::Burn {
            source: acc.source_key,
            mint: acc.pool_mint_key,
            amount: pool_token_amount,
            authority: acc.authority,
        },
    );
    proof {
        let expected = withdraw_result(
            record@,
            pool_token_amount,
            minimum_token_a_amount,
            minimum_token_b_amount,
            *acc,
        );
        assert(expected is Ok);
        assert(intents@ =~= expected.unwrap());
    }
    Ok(intents)
}

/// Handing back no shares pays out nothing from either reserve and is
/// allowed, whatever the pool holds, as long as it has shares in circulation.
pub proof fn lemma_empty_withdrawal_pays_nothing(reserve: u64, supply: u64)
    requires
        supply > 0,
    ensures
        withdraw_amount_result(0, reserve, supply, 0) == Ok::<u64, SwapError>(0),
{
    assert(0 * (reserve as int) == 0);
    assert(0int / (supply as int) == 0);
}

/// Handing back every share in circulation pays out the whole reserve.
pub proof fn lemma_full_withdrawal_pays_the_reserve(reserve: u64, supply: u64)
    requires
        supply > 0,
    ensures
        withdraw_amount_result(supply, reserve, supply, 0) == Ok::<u64, SwapError>(reserve),
{
    assert((supply * reserve) / (supply as int) == reserve) by (nonlinear_arith)
        requires
            0 < supply,
            0 <= reserve,
    ;
    assert(supply * reserve <= limit()) by (nonlinear_arith)
        requires
            0 <= supply <= u64::MAX,
            0 <= reserve <= u64::MAX,
    ;
}

/// A withdrawal never pays out more of a reserve than the reserve holds, as
/// long as no more shares are handed back than are in circulation.
pub proof fn lemma_withdrawal_within_reserve(shares: u64, reserve: u64, supply: u64, minimum: u64)
    requires
        shares <= supply,
    ensures
        withdraw_amount_result(shares, reserve, supply, minimum) matches Ok(amount) ==> amount
            <= reserve,
{
    if supply > 0 {
        assert((shares * reserve) / (supply as int) <= reserve) by (nonlinear_arith)
            requires
                0 <= shares <= supply,
                0 < supply,
                0 <= reserve,
        ;
    }
}

/// An initialization that succeeds starts from a record that is not
/// initialized, writes a live record with the parameters handed in, and mints
/// as many shares as the invariant of the two reserves.
pub proof fn lemma_initialize_gives_a_live_record(
    nonce: u8,
    amp_factor: u64,
    fees: Fees,
    acc: InitializeAccounts,
)
    requires
        initialize_result(nonce, amp_factor, fees, acc) is Ok,
    ensures
        ({
            let done = initialize_result(nonce, amp_factor, fees, acc).unwrap();
            &&& !acc.is_initialized
            &&& done.record@.live()
            &&& done.record.nonce == nonce
            &&& done.record.amp_factor == amp_factor
            &&& done.record.fees == fees
            &&& done.intent matches TokenIntent::MintTo { amount, .. } && Some(amount as int)
                == invariant_d(
                amp_factor as int,
                acc.token_a.unwrap().amount as int,
                acc.token_b.unwrap().amount as int,
            )
        }),
{
    lemma_d_iteration_is_bounded(
        amp_factor as int * 2,
        acc.token_a.unwrap().amount as int,
        acc.token_b.unwrap().amount as int,
        acc.token_a.unwrap().amount as int + acc.token_b.unwrap().amount as int,
        MAX_ITERATIONS as nat,
    );
}

/// A pool is initialized once: on a record that is initialized already the
/// operation is refused with `AlreadyInUse`, whatever else it is handed.
pub proof fn lemma_initialize_once(
    nonce: u8,
    amp_factor: u64,
    fees: Fees,
    acc: InitializeAccounts,
)
    requires
        acc.is_initialized,
    ensures
        initialize_result(nonce, amp_factor, fees, acc) == Err::<Initialized, SwapError>(
            SwapError::AlreadyInUse,
        ),
{
}

/// Swap, deposit and withdrawal need a live pool: on a record that is not
/// initialized each is refused with `UninitializedAccount`.
pub proof fn lemma_operations_need_a_live_pool(
    record: PoolRecord,
    first: u64,
    second: u64,
    third: u64,
    swapping: SwapAccounts,
    depositing: DepositAccounts,
    withdrawing: WithdrawAccounts,
)
    requires
        !record.is_initialized,
    ensures
        swap_result(record, first, second, swapping) == Err::<Seq<TokenIntent>, ProcessError>(
            ProcessError::UninitializedAccount,
        ),
        deposit_result(record, first, second, third, depositing) == Err::<
            Seq<TokenIntent>,
            ProcessError,
        >(ProcessError::UninitializedAccount),
        withdraw_result(record, first, second, third, withdrawing) == Err::<
            Seq<TokenIntent>,
            ProcessError,
        >(ProcessError::UninitializedAccount),
{
}

/// The authority under which a movement is made.
pub open spec fn intent_authority(intent: TokenIntent) -> Pubkey {
    match intent {
        TokenIntent::Transfer { authority, .. } => authority,
        TokenIntent::MintTo { authority, .. } => authority,
        TokenIntent::Burn { authority, .. } => authority,
    }
}

/// Whether every movement is made under the authority `derived`.
pub open spec fn all_under(intents: Seq<TokenIntent>, derived: Option<Pubkey>) -> bool {
    forall|i: int|
        0 <= i < intents.len() ==> authority_matches(
            #[trigger] intent_authority(intents[i]),
            derived,
        )
}

/// Every movement that an operation asks for is made under the authority
/// derived for the pool.
pub proof fn lemma_movements_are_under_the_pool_s_authority(
    record: PoolRecord,
    nonce: u8,
    fees: Fees,
    first: u64,
    second: u64,
    third: u64,
    initializing: InitializeAccounts,
    swapping: SwapAccounts,
    depositing: DepositAccounts,
    withdrawing: WithdrawAccounts,
)
    ensures
        initialize_result(nonce, first, fees, initializing) matches Ok(done) ==> authority_matches(
            intent_authority(done.intent),
            initializing.derived_authority,
        ),
        swap_result(record, first, second, swapping) matches Ok(intents) ==> all_under(
            intents,
            swapping.derived_authority,
        ),
        deposit_result(record, first, second, third, depositing) matches Ok(intents) ==> all_under(
            intents,
            depositing.derived_authority,
        ),
        withdraw_result(record, first, second, third, withdrawing) matches Ok(intents)
            ==> all_under(intents, withdrawing.derived_authority),
{
}

} // verus!
