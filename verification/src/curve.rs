//! The StableSwap invariant for two assets: the solver for `D`, the solver for
//! the counter-balance `y`, and the output of a swap with its fee.
//!
//! All arithmetic is unsigned 128-bit with truncating division. A step whose
//! intermediate value leaves the 128-bit range, or whose divisor is zero, makes
//! the whole computation fail; nothing wraps.

use vstd::prelude::*;
use crate::error::SwapError;
use crate::helpers::to_u128;

verus! {

/// Number of assets in the pool.
pub const N_COINS: u128 = 2;

/// Greatest number of Newton steps that either solver takes.
pub const MAX_ITERATIONS: u32 = 256;

/// Largest value that an intermediate result may take.
pub open spec fn limit() -> int {
    u128::MAX as int
}

/// Whether two values differ by at most one.
pub open spec fn within_one(p: int, q: int) -> bool {
    p - q <= 1 && q - p <= 1
}

/// `D_P` of a Newton step: `d`, multiplied by `d / (2 x)` for each reserve `x`
/// in turn, each division truncating.
pub open spec fn d_product(a: int, b: int, d: int) -> int {
    (((d * d) / (2 * a)) * d) / (2 * b)
}

/// Numerator of a Newton step for the invariant.
pub open spec fn d_numerator(leverage: int, a: int, b: int, d: int) -> int {
    (leverage * (a + b) + d_product(a, b, d) * 2) * d
}

/// Denominator of a Newton step for the invariant.
pub open spec fn d_denominator(leverage: int, a: int, b: int, d: int) -> int {
    (leverage - 1) * d + 3 * d_product(a, b, d)
}

/// Whether a Newton step for the invariant from the estimate `d` stays within
/// 128 bits and divides by nothing that is zero.
pub open spec fn d_step_defined(leverage: int, a: int, b: int, d: int) -> bool {
    &&& 0 < 2 * a <= limit()
    &&& 0 < 2 * b <= limit()
    &&& d * d <= limit()
    &&& ((d * d) / (2 * a)) * d <= limit()
    &&& leverage * (a + b) <= limit()
    &&& d_product(a, b, d) * 2 <= limit()
    &&& leverage * (a + b) + d_product(a, b, d) * 2 <= limit()
    &&& d_numerator(leverage, a, b, d) <= limit()
    &&& 1 <= leverage
    &&& (leverage - 1) * d <= limit()
    &&& 3 * d_product(a, b, d) <= limit()
    &&& 0 < d_denominator(leverage, a, b, d) <= limit()
}

/// The estimate that follows `d` in the Newton iteration for the invariant.
pub open spec fn d_next(leverage: int, a: int, b: int, d: int) -> int {
    d_numerator(leverage, a, b, d) / d_denominator(leverage, a, b, d)
}

/// The Newton iteration for the invariant, started at `d`, with at most `fuel`
/// steps: the first estimate that differs from the one before it by at most
/// one. `None` where a step is not defined or the steps run out.
pub open spec fn d_iterate(leverage: int, a: int, b: int, d: int, fuel: nat) -> Option<int>
    decreases fuel,
{
    if fuel == 0 || !d_step_defined(leverage, a, b, d) {
        None
    } else if within_one(d_next(leverage, a, b, d), d) {
        Some(d_next(leverage, a, b, d))
    } else {
        d_iterate(leverage, a, b, d_next(leverage, a, b, d), (fuel - 1) as nat)
    }
}

/// The invariant `D` of the reserves `a` and `b` under amplification `amp`.
/// Zero for an empty pool; otherwise the result of the Newton iteration that
/// starts at `a + b` and runs for at most 256 steps. `None` where the
/// computation fails.
pub open spec fn invariant_d(amp: int, a: int, b: int) -> Option<int> {
    if a + b > limit() {
        None
    } else if a + b == 0 {
        Some(0)
    } else if amp * 2 > limit() {
        None
    } else {
        d_iterate(amp * 2, a, b, a + b, MAX_ITERATIONS as nat)
    }
}

/// The constant `c` of the counter-balance equation `y^2 + b y = c` for the
/// known reserve `x` and the invariant `d`.
pub open spec fn y_constant(leverage: int, x: int, d: int) -> int {
    (((d * d) / (2 * x)) * d) / (leverage * 2)
}

/// The coefficient `b` of the counter-balance equation, before `d` is taken
/// from it.
pub open spec fn y_coefficient(leverage: int, x: int, d: int) -> int {
    x + d / leverage
}

/// Whether `c` and `b` of the counter-balance equation stay within 128 bits
/// and divide by nothing that is zero.
pub open spec fn y_setup_defined(leverage: int, x: int, d: int) -> bool {
    &&& 0 < 2 * x <= limit()
    &&& d * d <= limit()
    &&& ((d * d) / (2 * x)) * d <= limit()
    &&& 0 < leverage
    &&& leverage * 2 <= limit()
    &&& y_coefficient(leverage, x, d) <= limit()
}

/// Whether a Newton step for the counter-balance from the estimate `y` stays
/// within 128 bits and has a positive divisor.
pub open spec fn y_step_defined(c: int, b: int, d: int, y: int) -> bool {
    &&& y * y <= limit()
    &&& y * y + c <= limit()
    &&& 2 * y <= limit()
    &&& 2 * y + b <= limit()
    &&& 0 < 2 * y + b - d
}

/// The estimate that follows `y` in the Newton iteration for the
/// counter-balance.
pub open spec fn y_next(c: int, b: int, d: int, y: int) -> int {
    (y * y + c) / (2 * y + b - d)
}

/// The Newton iteration for the counter-balance, started at `y`, with at most
/// `fuel` steps: the first estimate that differs from the one before it by at
/// most one. `None` where a step is not defined or the steps run out.
pub open spec fn y_iterate(c: int, b: int, d: int, y: int, fuel: nat) -> Option<int>
    decreases fuel,
{
    if fuel == 0 || !y_step_defined(c, b, d, y) {
        None
    } else if within_one(y_next(c, b, d, y), y) {
        Some(y_next(c, b, d, y))
    } else {
        y_iterate(c, b, d, y_next(c, b, d, y), (fuel - 1) as nat)
    }
}

/// The reserve `y` that balances the reserve `x` at the invariant `d` under
/// amplification `amp`: the result of the Newton iteration that starts at `d`
/// and runs for at most 256 steps. `None` where the computation fails.
pub open spec fn counter_balance(amp: int, x: int, d: int) -> Option<int> {
    if amp * 2 > limit() || !y_setup_defined(amp * 2, x, d) {
        None
    } else {
        y_iterate(
            y_constant(amp * 2, x, d),
            y_coefficient(amp * 2, x, d),
            d,
            d,
            MAX_ITERATIONS as nat,
        )
    }
}

/// The fee on the amount `gross` at the rate `numerator / denominator`,
/// rounded up. Zero where the numerator is zero, whatever the denominator.
/// `None` where the product leaves 128 bits or the denominator is zero.
pub open spec fn fee_rounded_up(gross: int, numerator: int, denominator: int) -> Option<int> {
    if numerator == 0 {
        Some(0)
    } else if denominator == 0 || gross * numerator > limit() || gross * numerator + denominator
        - 1 > limit() {
        None
    } else {
        Some((gross * numerator + denominator - 1) / denominator)
    }
}

/// What a swap does to the pool, as mathematical integers.
pub struct SwapOutcome {
    /// Source reserve after the swap.
    pub new_source: int,
    /// Destination reserve after the swap.
    pub new_destination: int,
    /// Amount paid out to the user.
    pub swapped: int,
}

/// The outcome of swapping `dx` into a pool with the source reserve `x` and
/// the destination reserve `y`, at the trade fee `fee_num / fee_den`.
///
/// The invariant is taken before the swap; the destination reserve that
/// balances `x + dx` at that invariant gives the gross output, which must be at
/// least one; the fee is taken from the gross output, rounded up, and stays in
/// the destination reserve. `None` where any step fails.
pub open spec fn swap_outcome(amp: int, dx: int, x: int, y: int, fee_num: int, fee_den: int)
    -> Option<SwapOutcome> {
    if invariant_d(amp, x, y) is None || x + dx > limit() {
        None
    } else {
        let d = invariant_d(amp, x, y).unwrap();
        if counter_balance(amp, x + dx, d) is None {
            None
        } else {
            let gross = y - counter_balance(amp, x + dx, d).unwrap();
            if gross < 1 || fee_rounded_up(gross, fee_num, fee_den) is None {
                None
            } else {
                let fee = fee_rounded_up(gross, fee_num, fee_den).unwrap();
                if fee > gross {
                    None
                } else {
                    Some(
                        SwapOutcome {
                            new_source: x + dx,
                            new_destination: y - (gross - fee),
                            swapped: gross - fee,
                        },
                    )
                }
            }
        }
    }
}

/// Whether the Newton iteration for the invariant, started at `d`, takes `n`
/// steps that do not settle and then one that settles on `v`.
pub open spec fn d_settles_at(leverage: int, a: int, b: int, d: int, n: nat, v: int) -> bool
    decreases n,
{
    d_step_defined(leverage, a, b, d) && if n == 0 {
        within_one(d_next(leverage, a, b, d), d) && v == d_next(leverage, a, b, d)
    } else {
        !within_one(d_next(leverage, a, b, d), d) && d_settles_at(
            leverage,
            a,
            b,
            d_next(leverage, a, b, d),
            (n - 1) as nat,
            v,
        )
    }
}

/// Whether the Newton iteration for the counter-balance, started at `y`, takes
/// `n` steps that do not settle and then one that settles on `v`.
pub open spec fn y_settles_at(c: int, b: int, d: int, y: int, n: nat, v: int) -> bool
    decreases n,
{
    y_step_defined(c, b, d, y) && if n == 0 {
        within_one(y_next(c, b, d, y), y) && v == y_next(c, b, d, y)
    } else {
        !within_one(y_next(c, b, d, y), y) && y_settles_at(
            c,
            b,
            d,
            y_next(c, b, d, y),
            (n - 1) as nat,
            v,
        )
    }
}

/// Whether an executable result is the given mathematical one.
pub open spec fn same(r: Option<u128>, m: Option<int>) -> bool {
    match r {
        Some(v) => m == Some(v as int),
        None => m is None,
    }
}

/// Whether two executable values differ by at most one.
fn close(p: u128, q: u128) -> (r: bool)
    ensures
        r == within_one(p as int, q as int),
{
    if p > q {
        p - q <= 1
    } else {
        q - p <= 1
    }
}

/// One Newton step for the invariant.
fn d_step(leverage: u128, a: u128, b: u128, sum: u128, d: u128) -> (r: Option<u128>)
    requires
        sum == a + b,
    ensures
        r is Some <==> d_step_defined(leverage as int, a as int, b as int, d as int),
        r matches Some(v) ==> v == d_next(leverage as int, a as int, b as int, d as int),
{
    let a2 = N_COINS.checked_mul(a)?;
    let b2 = N_COINS.checked_mul(b)?;
    let dd = d.checked_mul(d)?;
    let scaled = dd.checked_div(a2)?;
    let cubed = scaled.checked_mul(d)?;
    let d_p = cubed.checked_div(b2)?;
    let ls = leverage.checked_mul(sum)?;
    let dp2 = d_p.checked_mul(N_COINS)?;
    let s = ls.checked_add(dp2)?;
    let numerator = s.checked_mul(d)?;
    let l1 = leverage.checked_sub(1)?;
    let l1d = l1.checked_mul(d)?;
    let dp3 = 3u128.checked_mul(d_p)?;
    let denominator = l1d.checked_add(dp3)?;
    numerator.checked_div(denominator)
}

/// `c` and `b` of the counter-balance equation.
fn y_setup(leverage: u128, x: u128, d: u128) -> (r: Option<(u128, u128)>)
    ensures
        r is Some <==> y_setup_defined(leverage as int, x as int, d as int),
        r matches Some(cb) ==> cb.0 == y_constant(leverage as int, x as int, d as int) && cb.1
            == y_coefficient(leverage as int, x as int, d as int),
{
    let x2 = N_COINS.checked_mul(x)?;
    let dd = d.checked_mul(d)?;
    let scaled = dd.checked_div(x2)?;
    let cubed = scaled.checked_mul(d)?;
    let l2 = leverage.checked_mul(N_COINS)?;
    let c = cubed.checked_div(l2)?;
    let dl = d.checked_div(leverage)?;
    let b = x.checked_add(dl)?;
    Some((c, b))
}

/// One Newton step for the counter-balance.
fn y_step(c: u128, b: u128, d: u128, y: u128) -> (r: Option<u128>)
    ensures
        r is Some <==> y_step_defined(c as int, b as int, d as int, y as int),
        r matches Some(v) ==> v == y_next(c as int, b as int, d as int, y as int),
{
    let yy = y.checked_mul(y)?;
    let numerator = yy.checked_add(c)?;
    let y2 = N_COINS.checked_mul(y)?;
    let y2b = y2.checked_add(b)?;
    let denominator = y2b.checked_sub(d)?;
    numerator.checked_div(denominator)
}

/// The fee on `gross` at the rate `numerator / denominator`, rounded up.
fn fee_on(gross: u128, numerator: u128, denominator: u128) -> (r: Option<u128>)
    ensures
        same(r, fee_rounded_up(gross as int, numerator as int, denominator as int)),
{
    if numerator == 0 {
        return Some(0);
    }
    if denominator == 0 {
        return None;
    }
    let product = gross.checked_mul(numerator)?;
    let padded = product.checked_add(denominator - 1)?;
    padded.checked_div(denominator)
}

/// What a swap does to the pool.
#[derive(Clone, Copy, Debug)]
pub struct SwapResult {
    /// Source reserve after the swap.
    pub new_source_amount: u128,
    /// Destination reserve after the swap.
    pub new_destination_amount: u128,
    /// Amount paid out to the user.
    pub amount_swapped: u128,
}

impl SwapResult {
    /// The result as mathematical integers.
    pub open spec fn outcome(self) -> SwapOutcome {
        SwapOutcome {
            new_source: self.new_source_amount as int,
            new_destination: self.new_destination_amount as int,
            swapped: self.amount_swapped as int,
        }
    }
}

/// The StableSwap invariant calculator.
#[derive(Clone, Copy, Debug)]
pub struct StableSwap {
    /// Amplification coefficient `A`.
    pub amp_factor: u128,
}

impl StableSwap {
    /// A calculator for the amplification coefficient `amp_factor`, which must
    /// be at least one; zero is answered with `CalculationFailure`.
    pub fn new(amp_factor: u64) -> (r: Result<StableSwap, SwapError>)
        ensures
            amp_factor >= 1 ==> (r matches Ok(s) && s.amp_factor == amp_factor),
            amp_factor == 0 ==> (r matches Err(e) && e == SwapError::CalculationFailure),
    {
        if amp_factor == 0 {
            return Err(SwapError::CalculationFailure);
        }
        match to_u128(amp_factor) {
            Ok(amp) => Ok(StableSwap { amp_factor: amp }),
            Err(e) => Err(e),
        }
    }

    /// Computes the invariant `D` of the reserves `amount_a` and `amount_b`.
    ///
    /// Returns zero for an empty pool. Fails where exactly one reserve is
    /// empty, where an intermediate value leaves 128 bits, and where the
    /// iteration has not settled within 256 steps.
    pub fn compute_d(&self, amount_a: u128, amount_b: u128) -> (r: Option<u128>)
        ensures
            same(r, invariant_d(self.amp_factor as int, amount_a as int, amount_b as int)),
    {
        let sum_x = amount_a.checked_add(amount_b)?;
        if sum_x == 0 {
            return Some(0);
        }
        let leverage = self.amp_factor.checked_mul(N_COINS)?;
        let mut d = sum_x;
        let mut i: u32 = 0;
        while i < MAX_ITERATIONS
            invariant
                i <= MAX_ITERATIONS,
                sum_x == amount_a + amount_b,
                d_iterate(
                    leverage as int,
                    amount_a as int,
                    amount_b as int,
                    d as int,
                    (MAX_ITERATIONS - i) as nat,
                ) == invariant_d(self.amp_factor as int, amount_a as int, amount_b as int),
            decreases MAX_ITERATIONS - i,
        {
            let d_new = match d_step(leverage, amount_a, amount_b, sum_x, d) {
                Some(v) => v,
                None => {
                    return None;
                },
            };
            if close(d_new, d) {
                return Some(d_new);
            }
            d = d_new;
            i = i + 1;
        }
        None
    }

    /// Computes the reserve `y` that balances the reserve `x` at the invariant
    /// `d`.
    ///
    /// Fails where `x` is zero, where an intermediate value leaves 128 bits,
    /// where a divisor is not positive, and where the iteration has not
    /// settled within 256 steps.
    pub fn compute_y(&self, x: u128, d: u128) -> (r: Option<u128>)
        ensures
            same(r, counter_balance(self.amp_factor as int, x as int, d as int)),
    {
        let leverage = self.amp_factor.checked_mul(N_COINS)?;
        let (c, b) = y_setup(leverage, x, d)?;
        let mut y = d;
        let mut i: u32 = 0;
        while i < MAX_ITERATIONS
            invariant
                i <= MAX_ITERATIONS,
                y_iterate(c as int, b as int, d as int, y as int, (MAX_ITERATIONS - i) as nat)
                    == counter_balance(self.amp_factor as int, x as int, d as int),
            decreases MAX_ITERATIONS - i,
        {
            let y_new = match y_step(c, b, d, y) {
                Some(v) => v,
                None => {
                    return None;
                },
            };
            if close(y_new, y) {
                return Some(y_new);
            }
            y = y_new;
            i = i + 1;
        }
        None
    }

    /// Computes the outcome of swapping `source_amount` into a pool with the
    /// reserves `swap_source_amount` and `swap_destination_amount`, at the
    /// trade fee `fee_numerator / fee_denominator`.
    ///
    /// Fails where either solver fails, where the gross output is less than
    /// one, and where the fee cannot be computed or exceeds the gross output.
    pub fn swap_to(
        &self,
        source_amount: u128,
        swap_source_amount: u128,
        swap_destination_amount: u128,
        fee_numerator: u128,
        fee_denominator: u128,
    ) -> (r: Option<SwapResult>)
        ensures
            r is Some <==> swap_outcome(
                self.amp_factor as int,
                source_amount as int,
                swap_source_amount as int,
                swap_destination_amount as int,
                fee_numerator as int,
                fee_denominator as int,
            ) is Some,
            r matches Some(v) ==> swap_outcome(
                self.amp_factor as int,
                source_amount as int,
                swap_source_amount as int,
                swap_destination_amount as int,
                fee_numerator as int,
                fee_denominator as int,
            ) == Some(v.outcome()),
    {
        let d = self.compute_d(swap_source_amount, swap_destination_amount)?;
        let new_source_amount = swap_source_amount.checked_add(source_amount)?;
        let y = self.compute_y(new_source_amount, d)?;
        let gross = swap_destination_amount.checked_sub(y)?;
        if gross < 1 {
            return None;
        }
        let fee = fee_on(gross, fee_numerator, fee_denominator)?;
        let amount_swapped = gross.checked_sub(fee)?;
        let new_destination_amount = swap_destination_amount.checked_sub(amount_swapped)?;
        Some(SwapResult { new_source_amount, new_destination_amount, amount_swapped })
    }
}

/// The part of `reserve` that `shares` out of `supply` shares stand for,
/// rounded down. `None` where there are no shares at all or the product
/// leaves 128 bits.
pub open spec fn pro_rata(shares: int, reserve: int, supply: int) -> Option<int> {
    if supply == 0 || shares * reserve > limit() {
        None
    } else {
        Some((shares * reserve) / supply)
    }
}

/// Converts pool shares into the amounts of the two reserves that they stand
/// for.
#[derive(Clone, Copy, Debug)]
pub struct PoolTokenConverter {
    /// Shares in circulation.
    pub supply: u128,
    /// Reserve of the first token.
    pub token_a: u128,
    /// Reserve of the second token.
    pub token_b: u128,
}

impl PoolTokenConverter {
    /// A converter for a pool with `supply` shares and the two reserves.
    pub fn new(supply: u128, token_a: u128, token_b: u128) -> (r: Self)
        ensures
            r.supply == supply,
            r.token_a == token_a,
            r.token_b == token_b,
    {
        PoolTokenConverter { supply, token_a, token_b }
    }

    /// Amount of the first token that `pool_tokens` shares stand for.
    pub fn token_a_rate(&self, pool_tokens: u128) -> (r: Option<u128>)
        ensures
            same(r, pro_rata(pool_tokens as int, self.token_a as int, self.supply as int)),
    {
        let product = pool_tokens.checked_mul(self.token_a)?;
        product.checked_div(self.supply)
    }

    /// Amount of the second token that `pool_tokens` shares stand for.
    pub fn token_b_rate(&self, pool_tokens: u128) -> (r: Option<u128>)
        ensures
            same(r, pro_rata(pool_tokens as int, self.token_b as int, self.supply as int)),
    {
        let product = pool_tokens.checked_mul(self.token_b)?;
        product.checked_div(self.supply)
    }
}

/// The invariant of an empty pool is zero, whatever the amplification.
pub proof fn lemma_empty_pool_has_zero_invariant(amp: int)
    ensures
        invariant_d(amp, 0, 0) == Some(0int),
{
}

/// Where exactly one reserve is empty the invariant is not defined: the
/// computation fails instead of returning a value.
pub proof fn lemma_one_empty_reserve_fails(amp: int, a: int, b: int)
    requires
        0 <= a,
        0 <= b,
        a + b > 0,
        a == 0 || b == 0,
    ensures
        invariant_d(amp, a, b) is None,
{
}

/// The iteration for the invariant is bounded: a value that it returns with
/// `fuel` steps allowed is settled on after fewer than `fuel` steps that did
/// not settle, and lies within 128 bits.
pub proof fn lemma_d_iteration_is_bounded(leverage: int, a: int, b: int, d: int, fuel: nat)
    requires
        0 <= a,
        0 <= b,
        0 <= d,
    ensures
        d_iterate(leverage, a, b, d, fuel) matches Some(v) ==> 0 <= v <= limit() && exists|
            n: nat,
        |
            n < fuel && d_settles_at(leverage, a, b, d, n, v),
    decreases fuel,
{
    if fuel > 0 && d_step_defined(leverage, a, b, d) {
        let dn = d_next(leverage, a, b, d);
        let p = d_product(a, b, d);
        assert(0 <= p) by (nonlinear_arith)
            requires
                p == (((d * d) / (2 * a)) * d) / (2 * b),
                0 < a,
                0 < b,
                0 <= d,
        ;
        assert(0 <= d_numerator(leverage, a, b, d)) by (nonlinear_arith)
            requires
                d_numerator(leverage, a, b, d) == (leverage * (a + b) + p * 2) * d,
                1 <= leverage,
                0 <= a,
                0 <= b,
                0 <= p,
                0 <= d,
        ;
        assert(0 <= dn <= d_numerator(leverage, a, b, d)) by (nonlinear_arith)
            requires
                dn == d_numerator(leverage, a, b, d) / d_denominator(leverage, a, b, d),
                0 < d_denominator(leverage, a, b, d),
                0 <= d_numerator(leverage, a, b, d),
        ;
        if within_one(dn, d) {
            assert(d_settles_at(leverage, a, b, d, 0, dn));
        } else {
            lemma_d_iteration_is_bounded(leverage, a, b, dn, (fuel - 1) as nat);
            match d_iterate(leverage, a, b, dn, (fuel - 1) as nat) {
                Some(v) => {
                    let n = choose|n: nat|
                        n < (fuel - 1) as nat && d_settles_at(leverage, a, b, dn, n, v);
                    assert(d_settles_at(leverage, a, b, d, n + 1, v));
                },
                None => {},
            }
        }
    }
}

/// The iteration for the counter-balance is bounded: a value that it returns
/// with `fuel` steps allowed is settled on after fewer than `fuel` steps that
/// did not settle, and lies within 128 bits.
pub proof fn lemma_y_iteration_is_bounded(c: int, b: int, d: int, y: int, fuel: nat)
    requires
        0 <= c,
    ensures
        y_iterate(c, b, d, y, fuel) matches Some(v) ==> 0 <= v <= limit() && exists|n: nat|
            n < fuel && y_settles_at(c, b, d, y, n, v),
    decreases fuel,
{
    if fuel > 0 && y_step_defined(c, b, d, y) {
        let yn = y_next(c, b, d, y);
        assert(0 <= yn <= y * y + c) by (nonlinear_arith)
            requires
                yn == (y * y + c) / (2 * y + b - d),
                0 < 2 * y + b - d,
                0 <= c,
        ;
        if within_one(yn, y) {
            assert(y_settles_at(c, b, d, y, 0, yn));
        } else {
            lemma_y_iteration_is_bounded(c, b, d, yn, (fuel - 1) as nat);
            match y_iterate(c, b, d, yn, (fuel - 1) as nat) {
                Some(v) => {
                    let n = choose|n: nat|
                        n < (fuel - 1) as nat && y_settles_at(c, b, d, yn, n, v);
                    assert(y_settles_at(c, b, d, y, n + 1, v));
                },
                None => {},
            }
        }
    }
}

/// A swap pays out of the destination reserve alone, and leaves that reserve
/// above the balance that keeps the invariant by exactly the fee: by nothing
/// where the fee rate is zero, by at least one where it is not.
pub proof fn lemma_swap_keeps_fee_in_pool(
    amp: int,
    dx: int,
    x: int,
    y: int,
    fee_num: int,
    fee_den: int,
)
    requires
        0 <= fee_num,
        0 <= fee_den,
        swap_outcome(amp, dx, x, y, fee_num, fee_den) is Some,
    ensures
        ({
            let o = swap_outcome(amp, dx, x, y, fee_num, fee_den).unwrap();
            let balance = counter_balance(amp, x + dx, invariant_d(amp, x, y).unwrap()).unwrap();
            &&& o.new_source == x + dx
            &&& o.new_destination + o.swapped == y
            &&& Some(o.new_destination - balance) == fee_rounded_up(y - balance, fee_num, fee_den)
            &&& fee_num == 0 ==> o.new_destination == balance
            &&& fee_num > 0 ==> o.new_destination > balance
        }),
{
    let balance = counter_balance(amp, x + dx, invariant_d(amp, x, y).unwrap()).unwrap();
    let gross = y - balance;
    if fee_num > 0 {
        assert((gross * fee_num + fee_den - 1) / fee_den >= 1) by (nonlinear_arith)
            requires
                gross >= 1,
                fee_num >= 1,
                fee_den >= 1,
        ;
    }
}

/// The invariant of a balanced pool is the sum of its reserves: the first
/// Newton step, where it is defined, returns the estimate it started from.
pub proof fn lemma_balanced_pool_has_the_sum(amp: int, x: int)
    requires
        1 <= amp,
        1 <= x,
        2 * x <= limit(),
        amp * 2 <= limit(),
        d_step_defined(amp * 2, x, x, 2 * x),
    ensures
        invariant_d(amp, x, x) == Some(2 * x),
{
    let d = 2 * x;
    let leverage = amp * 2;
    assert((d * d) / (2 * x) == d) by (nonlinear_arith)
        requires
            d == 2 * x,
            1 <= x,
    ;
    assert(d_product(x, x, d) == d);
    assert(d_numerator(leverage, x, x, d) == (leverage + 2) * d * d) by (nonlinear_arith)
        requires
            d_numerator(leverage, x, x, d) == (leverage * (x + x) + d * 2) * d,
            d == 2 * x,
    ;
    assert(d_denominator(leverage, x, x, d) == (leverage + 2) * d) by (nonlinear_arith)
        requires
            d_denominator(leverage, x, x, d) == (leverage - 1) * d + 3 * d,
    ;
    assert(((leverage + 2) * d * d) / ((leverage + 2) * d) == d) by (nonlinear_arith)
        requires
            1 <= leverage,
            1 <= d,
    ;
    assert(d_next(leverage, x, x, d) == d);
    assert(MAX_ITERATIONS as nat > 0);
}

} // verus!
