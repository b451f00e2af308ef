//! The fee rates of a pool.

use vstd::prelude::*;
use vstd::bytes::spec_u64_to_le_bytes;
use crate::codec::{lemma_u64_read_back, read_u64, u64_at, write_u64};
use crate::error::ProcessError;

verus! {

/// Four fee rates, each a fraction of two 64-bit integers.
#[derive(Clone, Copy, Debug, PartialEq, Eq, Structural)]
pub struct Fees {
    /// Numerator of the administrator's share of the trade fee.
    pub admin_trade_fee_numerator: u64,
    /// Denominator of the administrator's share of the trade fee.
    pub admin_trade_fee_denominator: u64,
    /// Numerator of the administrator's share of the withdraw fee.
    pub admin_withdraw_fee_numerator: u64,
    /// Denominator of the administrator's share of the withdraw fee.
    pub admin_withdraw_fee_denominator: u64,
    /// Numerator of the trade fee.
    pub trade_fee_numerator: u64,
    /// Denominator of the trade fee.
    pub trade_fee_denominator: u64,
    /// Numerator of the withdraw fee.
    pub withdraw_fee_numerator: u64,
    /// Denominator of the withdraw fee.
    pub withdraw_fee_denominator: u64,
}

/// Length of the encoding of the fee rates.
pub const FEES_LEN: usize = 64;

/// The fee rates whose encoding starts at `offset` in `s`: trade fee, the
/// administrator's share of it, withdraw fee, the administrator's share of it,
/// each as numerator and denominator.
pub open spec fn fees_at(s: Seq<u8>, offset: int) -> Fees {
    Fees {
        trade_fee_numerator: u64_at(s, offset),
        trade_fee_denominator: u64_at(s, offset + 8),
        admin_trade_fee_numerator: u64_at(s, offset + 16),
        admin_trade_fee_denominator: u64_at(s, offset + 24),
        withdraw_fee_numerator: u64_at(s, offset + 32),
        withdraw_fee_denominator: u64_at(s, offset + 40),
        admin_withdraw_fee_numerator: u64_at(s, offset + 48),
        admin_withdraw_fee_denominator: u64_at(s, offset + 56),
    }
}

/// The encoding of fee rates: eight little-endian integers.
pub open spec fn fees_bytes(f: Fees) -> Seq<u8> {
    spec_u64_to_le_bytes(f.trade_fee_numerator) + spec_u64_to_le_bytes(f.trade_fee_denominator)
        + spec_u64_to_le_bytes(f.admin_trade_fee_numerator) + spec_u64_to_le_bytes(
        f.admin_trade_fee_denominator,
    ) + spec_u64_to_le_bytes(f.withdraw_fee_numerator) + spec_u64_to_le_bytes(
        f.withdraw_fee_denominator,
    ) + spec_u64_to_le_bytes(f.admin_withdraw_fee_numerator) + spec_u64_to_le_bytes(
        f.admin_withdraw_fee_denominator,
    )
}

impl Fees {
    /// Whether every rate is a fraction between zero and one: no denominator
    /// is zero and no numerator exceeds its denominator.
    pub open spec fn well_formed(self) -> bool {
        &&& self.trade_fee_numerator <= self.trade_fee_denominator
        &&& self.admin_trade_fee_numerator <= self.admin_trade_fee_denominator
        &&& self.withdraw_fee_numerator <= self.withdraw_fee_denominator
        &&& self.admin_withdraw_fee_numerator <= self.admin_withdraw_fee_denominator
        &&& self.trade_fee_denominator >= 1
        &&& self.admin_trade_fee_denominator >= 1
        &&& self.withdraw_fee_denominator >= 1
        &&& self.admin_withdraw_fee_denominator >= 1
    }

    /// Tells whether every rate is a fraction between zero and one.
    pub fn is_well_formed(&self) -> (r: bool)
        ensures
            r == self.well_formed(),
    {
        self.trade_fee_numerator <= self.trade_fee_denominator && self.admin_trade_fee_numerator
            <= self.admin_trade_fee_denominator && self.withdraw_fee_numerator
            <= self.withdraw_fee_denominator && self.admin_withdraw_fee_numerator
            <= self.admin_withdraw_fee_denominator && self.trade_fee_denominator >= 1
            && self.admin_trade_fee_denominator >= 1 && self.withdraw_fee_denominator >= 1
            && self.admin_withdraw_fee_denominator >= 1
    }

    /// Reads the fee rates whose encoding starts at `offset`.
    pub fn read_at(input: &[u8], offset: usize) -> (r: Fees)
        requires
            offset + FEES_LEN <= input@.len(),
        ensures
            r == fees_at(input@, offset as int),
    {
        let len = input.len();
        assert(offset + 64 <= len);
        Fees {
            trade_fee_numerator: read_u64(input, offset),
            trade_fee_denominator: read_u64(input, offset + 8),
            admin_trade_fee_numerator: read_u64(input, offset + 16),
            admin_trade_fee_denominator: read_u64(input, offset + 24),
            withdraw_fee_numerator: read_u64(input, offset + 32),
            withdraw_fee_denominator: read_u64(input, offset + 40),
            admin_withdraw_fee_numerator: read_u64(input, offset + 48),
            admin_withdraw_fee_denominator: read_u64(input, offset + 56),
        }
    }

    /// Appends the encoding of the fee rates.
    pub fn write_to(&self, buf: &mut Vec<u8>)
        ensures
            final(buf)@ == old(buf)@ + fees_bytes(*self),
    {
        let ghost before = buf@;
        write_u64(buf, self.trade_fee_numerator);
        write_u64(buf, self.trade_fee_denominator);
        write_u64(buf, self.admin_trade_fee_numerator);
        write_u64(buf, self.admin_trade_fee_denominator);
        write_u64(buf, self.withdraw_fee_numerator);
        write_u64(buf, self.withdraw_fee_denominator);
        write_u64(buf, self.admin_withdraw_fee_numerator);
        write_u64(buf, self.admin_withdraw_fee_denominator);
        assert(buf@ =~= before + fees_bytes(*self));
    }

    /// Decodes fee rates from exactly 64 bytes; any other length is answered
    /// with `InvalidAccountData`.
    pub fn unpack(input: &[u8]) -> (r: Result<Fees, ProcessError>)
        ensures
            input@.len() == FEES_LEN ==> r == Ok::<Fees, ProcessError>(fees_at(input@, 0)),
            input@.len() != FEES_LEN ==> r == Err::<Fees, ProcessError>(
                ProcessError::InvalidAccountData,
            ),
    {
        if input.len() != FEES_LEN {
            return Err(ProcessError::InvalidAccountData);
        }
        Ok(Fees::read_at(input, 0))
    }

    /// Encodes the fee rates in 64 bytes.
    pub fn pack(&self) -> (r: Vec<u8>)
        ensures
            r@ == fees_bytes(*self),
    {
        let mut buf = Vec::new();
        self.write_to(&mut buf);
        assert(buf@ =~= fees_bytes(*self));
        buf
    }
}

/// Fee rates written between two byte strings are read back at the place
/// where they were written, and take 64 bytes.
pub proof fn lemma_fees_read_back(prefix: Seq<u8>, f: Fees, rest: Seq<u8>)
    ensures
        fees_bytes(f).len() == FEES_LEN,
        fees_at(prefix + fees_bytes(f) + rest, prefix.len() as int) == f,
{
    let b0 = spec_u64_to_le_bytes(f.trade_fee_numerator);
    let b1 = spec_u64_to_le_bytes(f.trade_fee_denominator);
    let b2 = spec_u64_to_le_bytes(f.admin_trade_fee_numerator);
    let b3 = spec_u64_to_le_bytes(f.admin_trade_fee_denominator);
    let b4 = spec_u64_to_le_bytes(f.withdraw_fee_numerator);
    let b5 = spec_u64_to_le_bytes(f.withdraw_fee_denominator);
    let b6 = spec_u64_to_le_bytes(f.admin_withdraw_fee_numerator);
    let b7 = spec_u64_to_le_bytes(f.admin_withdraw_fee_denominator);
    let whole = prefix + fees_bytes(f) + rest;
    lemma_u64_read_back(prefix, f.trade_fee_numerator, b1 + b2 + b3 + b4 + b5 + b6 + b7 + rest);
    lemma_u64_read_back(prefix + b0, f.trade_fee_denominator, b2 + b3 + b4 + b5 + b6 + b7 + rest);
    lemma_u64_read_back(prefix + b0 + b1, f.admin_trade_fee_numerator, b3 + b4 + b5 + b6 + b7 + rest);
    lemma_u64_read_back(
        prefix + b0 + b1 + b2,
        f.admin_trade_fee_denominator,
        b4 + b5 + b6 + b7 + rest,
    );
    lemma_u64_read_back(prefix + b0 + b1 + b2 + b3, f.withdraw_fee_numerator, b5 + b6 + b7 + rest);
    lemma_u64_read_back(prefix + b0 + b1 + b2 + b3 + b4, f.withdraw_fee_denominator, b6 + b7 + rest);
    lemma_u64_read_back(
        prefix + b0 + b1 + b2 + b3 + b4 + b5,
        f.admin_withdraw_fee_numerator,
        b7 + rest,
    );
    lemma_u64_read_back(
        prefix + b0 + b1 + b2 + b3 + b4 + b5 + b6,
        f.admin_withdraw_fee_denominator,
        rest,
    );
    assert(whole =~= prefix + b0 + (b1 + b2 + b3 + b4 + b5 + b6 + b7 + rest));
    assert(whole =~= prefix + b0 + b1 + (b2 + b3 + b4 + b5 + b6 + b7 + rest));
    assert(whole =~= prefix + b0 + b1 + b2 + (b3 + b4 + b5 + b6 + b7 + rest));
    assert(whole =~= prefix + b0 + b1 + b2 + b3 + (b4 + b5 + b6 + b7 + rest));
    assert(whole =~= prefix + b0 + b1 + b2 + b3 + b4 + (b5 + b6 + b7 + rest));
    assert(whole =~= prefix + b0 + b1 + b2 + b3 + b4 + b5 + (b6 + b7 + rest));
    assert(whole =~= prefix + b0 + b1 + b2 + b3 + b4 + b5 + b6 + (b7 + rest));
    assert(whole =~= prefix + b0 + b1 + b2 + b3 + b4 + b5 + b6 + b7 + rest);
}

} // verus!
