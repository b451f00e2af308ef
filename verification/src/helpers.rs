//! Widening and narrowing between the 64-bit amounts of the token ledger and
//! the 128-bit integers in which all curve arithmetic is carried out.

use vstd::prelude::*;
use crate::error::SwapError;

verus! {

/// Widens a 64-bit amount to 128 bits. Never fails.
pub fn to_u128(val: u64) -> (r: Result<u128, SwapError>)
    ensures
        r == Ok::<u128, SwapError>(val as u128),
{
    Ok(val as u128)
}

/// Narrows a 128-bit amount to 64 bits; fails with `ConversionFailure` exactly
/// when the amount exceeds `u64::MAX`.
pub fn to_u64(val: u128) -> (r: Result<u64, SwapError>)
    ensures
        val <= u64::MAX ==> r == Ok::<u64, SwapError>(val as u64),
        val > u64::MAX ==> r == Err::<u64, SwapError>(SwapError::ConversionFailure),
{
    if val > u64::MAX as u128 {
        Err(SwapError::ConversionFailure)
    } else {
        Ok(val as u64)
    }
}

} // verus!
