//! The four operations of the pool and their wire encoding: one tag byte,
//! then the arguments as little-endian integers.

use vstd::prelude::*;
use vstd::bytes::spec_u64_to_le_bytes;
use crate::codec::{lemma_u64_read_back, read_u64, u64_at, write_u64};
use crate::error::SwapError;
use crate::fees::{fees_at, fees_bytes, lemma_fees_read_back, Fees};

verus! {

/// An operation on the pool, with its arguments.
#[derive(Clone, Copy, Debug, PartialEq, Eq, Structural)]
pub enum SwapInstruction {
    /// Creates the pool over two funded reserves.
    Initialize {
        /// Nonce from which the pool's authority is derived.
        nonce: u8,
        /// Amplification coefficient of the curve.
        amp_factor: u64,
        /// Fee rates of the pool.
        fees: Fees,
    },
    /// Trades one token of the pool for the other.
    Swap {
        /// Amount that the user pays in.
        amount_in: u64,
        /// Least amount that the user accepts.
        minimum_amount_out: u64,
    },
    /// Adds to both reserves in return for shares.
    Deposit {
        /// Amount of the first token.
        token_a_amount: u64,
        /// Amount of the second token.
        token_b_amount: u64,
        /// Least number of shares that the user accepts.
        min_mint_amount: u64,
    },
    /// Returns shares for a part of both reserves.
    Withdraw {
        /// Number of shares handed back.
        pool_token_amount: u64,
        /// Least amount of the first token that the user accepts.
        minimum_token_a_amount: u64,
        /// Least amount of the second token that the user accepts.
        minimum_token_b_amount: u64,
    },
}

/// What a byte string decodes to, if to anything. Bytes after the last
/// argument are not looked at.
pub open spec fn decoded(input: Seq<u8>) -> Option<SwapInstruction> {
    if input.len() == 0 {
        None
    } else if input[0] == 0 {
        if input.len() < 74 {
            None
        } else {
            Some(
                SwapInstruction::Initialize {
                    nonce: input[1],
                    amp_factor: u64_at(input, 2),
                    fees: fees_at(input, 10),
                },
            )
        }
    } else if input[0] == 1 {
        if input.len() < 17 {
            None
        } else {
            Some(
                SwapInstruction::Swap {
                    amount_in: u64_at(input, 1),
                    minimum_amount_out: u64_at(input, 9),
                },
            )
        }
    } else if input[0] == 2 {
        if input.len() < 25 {
            None
        } else {
            Some(
                SwapInstruction::Deposit {
                    token_a_amount: u64_at(input, 1),
                    token_b_amount: u64_at(input, 9),
                    min_mint_amount: u64_at(input, 17),
                },
            )
        }
    } else if input[0] == 3 {
        if input.len() < 25 {
            None
        } else {
            Some(
                SwapInstruction::Withdraw {
                    pool_token_amount: u64_at(input, 1),
                    minimum_token_a_amount: u64_at(input, 9),
                    minimum_token_b_amount: u64_at(input, 17),
                },
            )
        }
    } else {
        None
    }
}

/// The encoding of an operation.
pub open spec fn encoded(instruction: SwapInstruction) -> Seq<u8> {
    match instruction {
        SwapInstruction::Initialize { nonce, amp_factor, fees } => seq![0u8, nonce]
            + spec_u64_to_le_bytes(amp_factor) + fees_bytes(fees),
        SwapInstruction::Swap { amount_in, minimum_amount_out } => seq![1u8] + spec_u64_to_le_bytes(
            amount_in,
        ) + spec_u64_to_le_bytes(minimum_amount_out),
        SwapInstruction::Deposit { token_a_amount, token_b_amount, min_mint_amount } => seq![2u8]
            + spec_u64_to_le_bytes(token_a_amount) + spec_u64_to_le_bytes(token_b_amount)
            + spec_u64_to_le_bytes(min_mint_amount),
        SwapInstruction::Withdraw {
            pool_token_amount,
            minimum_token_a_amount,
            minimum_token_b_amount,
        } => seq![3u8] + spec_u64_to_le_bytes(pool_token_amount) + spec_u64_to_le_bytes(
            minimum_token_a_amount,
        ) + spec_u64_to_le_bytes(minimum_token_b_amount),
    }
}

impl SwapInstruction {
    /// Decodes an operation. An empty input, an unknown tag and a payload
    /// shorter than the arguments of its tag are answered with
    /// `InvalidInstruction`.
    pub fn unpack(input: &[u8]) -> (r: Result<SwapInstruction, SwapError>)
        ensures
            match decoded(input@) {
                Some(i) => r == Ok::<SwapInstruction, SwapError>(i),
                None => r == Err::<SwapInstruction, SwapError>(SwapError::InvalidInstruction),
            },
    {
        let len = input.len();
        if len == 0 {
            return Err(SwapError::InvalidInstruction);
        }
        let tag = input[0];
        if tag == 0 {
            if len < 74 {
                return Err(SwapError::InvalidInstruction);
            }
            Ok(
                SwapInstruction::Initialize {
                    nonce: input[1],
                    amp_factor: read_u64(input, 2),
                    fees: Fees::read_at(input, 10),
                },
            )
        } else if tag == 1 {
            if len < 17 {
                return Err(SwapError::InvalidInstruction);
            }
            Ok(
                SwapInstruction::Swap {
                    amount_in: read_u64(input, 1),
                    minimum_amount_out: read_u64(input, 9),
                },
            )
        } else if tag == 2 {
            if len < 25 {
                return Err(SwapError::InvalidInstruction);
            }
            Ok(
                SwapInstruction::Deposit {
                    token_a_amount: read_u64(input, 1),
                    token_b_amount: read_u64(input, 9),
                    min_mint_amount: read_u64(input, 17),
                },
            )
        } else if tag == 3 {
            if len < 25 {
                return Err(SwapError::InvalidInstruction);
            }
            Ok(
                SwapInstruction::Withdraw {
                    pool_token_amount: read_u64(input, 1),
                    minimum_token_a_amount: read_u64(input, 9),
                    minimum_token_b_amount: read_u64(input, 17),
                },
            )
        } else {
            Err(SwapError::InvalidInstruction)
        }
    }

    /// Encodes the operation.
    pub fn pack(&self) -> (r: Vec<u8>)
        ensures
            r@ == encoded(*self),
    {
        let mut buf: Vec<u8> = Vec::new();
        match *self {
            SwapInstruction::Initialize { nonce, amp_factor, fees } => {
                buf.push(0);
                buf.push(nonce);
                write_u64(&mut buf, amp_factor);
                fees.write_to(&mut buf);
            },
            SwapInstruction::Swap { amount_in, minimum_amount_out } => {
                buf.push(1);
                write_u64(&mut buf, amount_in);
                write_u64(&mut buf, minimum_amount_out);
            },
            SwapInstruction::Deposit { token_a_amount, token_b_amount, min_mint_amount } => {
                buf.push(2);
                write_u64(&mut buf, token_a_amount);
                write_u64(&mut buf, token_b_amount);
                write_u64(&mut buf, min_mint_amount);
            },
            SwapInstruction::Withdraw {
                pool_token_amount,
                minimum_token_a_amount,
                minimum_token_b_amount,
            } => {
                buf.push(3);
                write_u64(&mut buf, pool_token_amount);
                write_u64(&mut buf, minimum_token_a_amount);
                write_u64(&mut buf, minimum_token_b_amount);
            },
        }
        assert(buf@ =~= encoded(*self));
        buf
    }
}

/// Decoding undoes encoding: every operation is read back from its encoding,
/// whatever bytes follow it.
pub proof fn lemma_decode_encode(instruction: SwapInstruction, rest: Seq<u8>)
    ensures
        decoded(encoded(instruction) + rest) == Some(instruction),
{
    let whole = encoded(instruction) + rest;
    match instruction {
        SwapInstruction::Initialize { nonce, amp_factor, fees } => {
            let head = seq![0u8, nonce];
            let amp = spec_u64_to_le_bytes(amp_factor);
            lemma_u64_read_back(head, amp_factor, fees_bytes(fees) + rest);
            lemma_fees_read_back(head + amp, fees, rest);
            assert(whole =~= head + amp + (fees_bytes(fees) + rest));
            assert(whole =~= head + amp + fees_bytes(fees) + rest);
        },
        SwapInstruction::Swap { amount_in, minimum_amount_out } => {
            let head = seq![1u8];
            let b0 = spec_u64_to_le_bytes(amount_in);
            let b1 = spec_u64_to_le_bytes(minimum_amount_out);
            lemma_u64_read_back(head, amount_in, b1 + rest);
            lemma_u64_read_back(head + b0, minimum_amount_out, rest);
            assert(whole =~= head + b0 + (b1 + rest));
            assert(whole =~= head + b0 + b1 + rest);
        },
        SwapInstruction::Deposit { token_a_amount, token_b_amount, min_mint_amount } => {
            lemma_three_read_back(2, token_a_amount, token_b_amount, min_mint_amount, rest);
        },
        SwapInstruction::Withdraw {
            pool_token_amount,
            minimum_token_a_amount,
            minimum_token_b_amount,
        } => {
            lemma_three_read_back(
                3,
                pool_token_amount,
                minimum_token_a_amount,
                minimum_token_b_amount,
                rest,
            );
        },
    }
}

/// Three integers written behind a tag are read back at offsets 1, 9 and 17.
proof fn lemma_three_read_back(tag: u8, p: u64, q: u64, r: u64, rest: Seq<u8>)
    ensures
        ({
            let whole = seq![tag] + spec_u64_to_le_bytes(p) + spec_u64_to_le_bytes(q)
                + spec_u64_to_le_bytes(r) + rest;
            &&& whole.len() >= 25
            &&& whole[0] == tag
            &&& u64_at(whole, 1) == p
            &&& u64_at(whole, 9) == q
            &&& u64_at(whole, 17) == r
        }),
{
    let head = seq![tag];
    let b0 = spec_u64_to_le_bytes(p);
    let b1 = spec_u64_to_le_bytes(q);
    let b2 = spec_u64_to_le_bytes(r);
    let whole = head + b0 + b1 + b2 + rest;
    lemma_u64_read_back(head, p, b1 + b2 + rest);
    lemma_u64_read_back(head + b0, q, b2 + rest);
    lemma_u64_read_back(head + b0 + b1, r, rest);
    assert(whole =~= head + b0 + (b1 + b2 + rest));
    assert(whole =~= head + b0 + b1 + (b2 + rest));
}

} // verus!
