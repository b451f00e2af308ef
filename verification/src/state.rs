//! The persisted record of a pool and its fixed-size encoding.

use vstd::prelude::*;
use vstd::bytes::spec_u64_to_le_bytes;
use crate::codec::{
    key_at,
    lemma_key_read_back,
    lemma_u64_read_back,
    read_key,
    read_u64,
    u64_at,
    write_key,
    write_u64,
};
use crate::error::ProcessError;
use crate::fees::{fees_at, fees_bytes, lemma_fees_read_back, Fees};
use crate::pubkey::Pubkey;

verus! {

/// Length of the encoding of a pool record: two bytes, one integer, seven
/// identifiers and the fee rates.
pub const SWAP_INFO_LEN: usize = 298;

/// The record of a pool as a mathematical value: identifiers are byte
/// sequences.
pub struct PoolRecord {
    /// Whether the pool has been initialized.
    pub is_initialized: bool,
    /// Nonce from which the pool's authority is derived.
    pub nonce: u8,
    /// Amplification coefficient of the curve.
    pub amp_factor: u64,
    /// Reserve account of the first token.
    pub token_a: Seq<u8>,
    /// Reserve account of the second token.
    pub token_b: Seq<u8>,
    /// Token type of the first reserve.
    pub token_a_mint: Seq<u8>,
    /// Token type of the second reserve.
    pub token_b_mint: Seq<u8>,
    /// Token type of the pool's shares.
    pub pool_mint: Seq<u8>,
    /// Account that receives the administrator's fees in the first token.
    pub admin_fee_account_a: Seq<u8>,
    /// Account that receives the administrator's fees in the second token.
    pub admin_fee_account_b: Seq<u8>,
    /// Fee rates of the pool.
    pub fees: Fees,
}

impl PoolRecord {
    /// What holds of every initialized pool: the reserves hold different
    /// tokens, the amplification is at least one, and every identifier has 32
    /// bytes.
    pub open spec fn live(self) -> bool {
        &&& self.is_initialized
        &&& self.well_sized()
        &&& self.token_a_mint != self.token_b_mint
        &&& self.amp_factor >= 1
    }

    /// Whether every identifier has 32 bytes.
    pub open spec fn well_sized(self) -> bool {
        &&& self.token_a.len() == 32
        &&& self.token_b.len() == 32
        &&& self.token_a_mint.len() == 32
        &&& self.token_b_mint.len() == 32
        &&& self.pool_mint.len() == 32
        &&& self.admin_fee_account_a.len() == 32
        &&& self.admin_fee_account_b.len() == 32
    }
}

/// The persisted record of a pool.
#[derive(Clone, Copy, Debug)]
pub struct SwapInfo {
    /// Whether the pool has been initialized.
    pub is_initialized: bool,
    /// Nonce from which the pool's authority is derived.
    pub nonce: u8,
    /// Amplification coefficient of the curve.
    pub amp_factor: u64,
    /// Reserve account of the first token.
    pub token_a: Pubkey,
    /// Reserve account of the second token.
    pub token_b: Pubkey,
    /// Token type of the pool's shares.
    pub pool_mint: Pubkey,
    /// Token type of the first reserve.
    pub token_a_mint: Pubkey,
    /// Token type of the second reserve.
    pub token_b_mint: Pubkey,
    /// Account that receives the administrator's fees in the first token.
    pub admin_fee_account_a: Pubkey,
    /// Account that receives the administrator's fees in the second token.
    pub admin_fee_account_b: Pubkey,
    /// Fee rates of the pool.
    pub fees: Fees,
}

impl View for SwapInfo {
    type V = PoolRecord;

    open spec fn view(&self) -> PoolRecord {
        PoolRecord {
            is_initialized: self.is_initialized,
            nonce: self.nonce,
            amp_factor: self.amp_factor,
            token_a: self.token_a@,
            token_b: self.token_b@,
            token_a_mint: self.token_a_mint@,
            token_b_mint: self.token_b_mint@,
            pool_mint: self.pool_mint@,
            admin_fee_account_a: self.admin_fee_account_a@,
            admin_fee_account_b: self.admin_fee_account_b@,
            fees: self.fees,
        }
    }
}

/// Whether a byte string has the shape of a pool record: 298 bytes, the first
/// of them zero or one.
pub open spec fn record_shaped(s: Seq<u8>) -> bool {
    s.len() == SWAP_INFO_LEN && s[0] <= 1
}

/// The record that a byte string of that shape holds: the flag, the nonce, the
/// amplification, the two reserves, their two token types, the share token,
/// the two admin-fee accounts, and the fee rates.
pub open spec fn record_at(s: Seq<u8>) -> PoolRecord {
    PoolRecord {
        is_initialized: s[0] == 1,
        nonce: s[1],
        amp_factor: u64_at(s, 2),
        token_a: key_at(s, 10),
        token_b: key_at(s, 42),
        token_a_mint: key_at(s, 74),
        token_b_mint: key_at(s, 106),
        pool_mint: key_at(s, 138),
        admin_fee_account_a: key_at(s, 170),
        admin_fee_account_b: key_at(s, 202),
        fees: fees_at(s, 234),
    }
}

/// The encoding of a record.
pub open spec fn record_bytes(r: PoolRecord) -> Seq<u8> {
    seq![if r.is_initialized { 1u8 } else { 0u8 }, r.nonce] + spec_u64_to_le_bytes(r.amp_factor)
        + r.token_a + r.token_b + r.token_a_mint + r.token_b_mint + r.pool_mint
        + r.admin_fee_account_a + r.admin_fee_account_b + fees_bytes(r.fees)
}

impl SwapInfo {
    /// Decodes a record, initialized or not. A byte string that has not the
    /// shape of a record is answered with `InvalidAccountData`.
    pub fn unpack_unchecked(input: &[u8]) -> (r: Result<SwapInfo, ProcessError>)
        ensures
            record_shaped(input@) ==> (r matches Ok(info) && info@ == record_at(input@)),
            !record_shaped(input@) ==> r == Err::<SwapInfo, ProcessError>(
                ProcessError::InvalidAccountData,
            ),
    {
        if input.len() != SWAP_INFO_LEN {
            return Err(ProcessError::InvalidAccountData);
        }
        let flag = input[0];
        if flag > 1 {
            return Err(ProcessError::InvalidAccountData);
        }
        Ok(
            SwapInfo {
                is_initialized: flag == 1,
                nonce: input[1],
                amp_factor: read_u64(input, 2),
                token_a: read_key(input, 10),
                token_b: read_key(input, 42),
                token_a_mint: read_key(input, 74),
                token_b_mint: read_key(input, 106),
                pool_mint: read_key(input, 138),
                admin_fee_account_a: read_key(input, 170),
                admin_fee_account_b: read_key(input, 202),
                fees: Fees::read_at(input, 234),
            },
        )
    }

    /// Decodes the record of an initialized pool. A byte string that has not
    /// the shape of a record is answered with `InvalidAccountData`, the record
    /// of a pool that has not been initialized with `UninitializedAccount`.
    pub fn unpack(input: &[u8]) -> (r: Result<SwapInfo, ProcessError>)
        ensures
            record_shaped(input@) && input@[0] == 1 ==> (r matches Ok(info) && info@ == record_at(
                input@,
            )),
            record_shaped(input@) && input@[0] == 0 ==> r == Err::<SwapInfo, ProcessError>(
                ProcessError::UninitializedAccount,
            ),
            !record_shaped(input@) ==> r == Err::<SwapInfo, ProcessError>(
                ProcessError::InvalidAccountData,
            ),
    {
        match SwapInfo::unpack_unchecked(input) {
            Ok(info) => {
                if info.is_initialized {
                    Ok(info)
                } else {
                    Err(ProcessError::UninitializedAccount)
                }
            },
            Err(e) => Err(e),
        }
    }

    /// Encodes the record in 298 bytes.
    pub fn pack(&self) -> (r: Vec<u8>)
        ensures
            r@ == record_bytes(self@),
            r@.len() == SWAP_INFO_LEN,
    {
        let mut buf: Vec<u8> = Vec::new();
        buf.push(if self.is_initialized { 1 } else { 0 });
        buf.push(self.nonce);
        write_u64(&mut buf, self.amp_factor);
        write_key(&mut buf, &self.token_a);
        write_key(&mut buf, &self.token_b);
        write_key(&mut buf, &self.token_a_mint);
        write_key(&mut buf, &self.token_b_mint);
        write_key(&mut buf, &self.pool_mint);
        write_key(&mut buf, &self.admin_fee_account_a);
        write_key(&mut buf, &self.admin_fee_account_b);
        self.fees.write_to(&mut buf);
        proof {
            assert(buf@ =~= record_bytes(self@));
            lemma_record_read_back(self@);
        }
        buf
    }
}

/// Decoding undoes encoding: the encoding of a record with identifiers of 32
/// bytes has the shape of a record and holds that record.
pub proof fn lemma_record_read_back(r: PoolRecord)
    requires
        r.well_sized(),
    ensures
        record_bytes(r).len() == SWAP_INFO_LEN,
        record_shaped(record_bytes(r)),
        record_at(record_bytes(r)) == r,
{
    let head = seq![if r.is_initialized { 1u8 } else { 0u8 }, r.nonce];
    let amp = spec_u64_to_le_bytes(r.amp_factor);
    let fb = fees_bytes(r.fees);
    let none = Seq::<u8>::empty();
    let whole = record_bytes(r);
    let upto1 = head + amp;
    let upto2 = upto1 + r.token_a;
    let upto3 = upto2 + r.token_b;
    let upto4 = upto3 + r.token_a_mint;
    let upto5 = upto4 + r.token_b_mint;
    let upto6 = upto5 + r.pool_mint;
    let upto7 = upto6 + r.admin_fee_account_a;
    let upto8 = upto7 + r.admin_fee_account_b;
    let tail8 = fb;
    let tail7 = r.admin_fee_account_b + tail8;
    let tail6 = r.admin_fee_account_a + tail7;
    let tail5 = r.pool_mint + tail6;
    let tail4 = r.token_b_mint + tail5;
    let tail3 = r.token_a_mint + tail4;
    let tail2 = r.token_b + tail3;
    let tail1 = r.token_a + tail2;
    lemma_u64_read_back(head, r.amp_factor, tail1);
    lemma_key_read_back(upto1, r.token_a, tail2);
    lemma_key_read_back(upto2, r.token_b, tail3);
    lemma_key_read_back(upto3, r.token_a_mint, tail4);
    lemma_key_read_back(upto4, r.token_b_mint, tail5);
    lemma_key_read_back(upto5, r.pool_mint, tail6);
    lemma_key_read_back(upto6, r.admin_fee_account_a, tail7);
    lemma_key_read_back(upto7, r.admin_fee_account_b, tail8);
    lemma_fees_read_back(upto8, r.fees, none);
    assert(whole =~= head + amp + tail1);
    assert(whole =~= upto1 + r.token_a + tail2);
    assert(whole =~= upto2 + r.token_b + tail3);
    assert(whole =~= upto3 + r.token_a_mint + tail4);
    assert(whole =~= upto4 + r.token_b_mint + tail5);
    assert(whole =~= upto5 + r.pool_mint + tail6);
    assert(whole =~= upto6 + r.admin_fee_account_a + tail7);
    assert(whole =~= upto7 + r.admin_fee_account_b + tail8);
    assert(whole =~= upto8 + fb + none);
    assert(whole[0] == head[0]);
    assert(whole[1] == head[1]);
}

} // verus!
