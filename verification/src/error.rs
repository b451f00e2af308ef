//! Error kinds reported by the pool.

use vstd::prelude::*;

verus! {

/// Everything that can make an operation of the pool fail. Every failure aborts
/// the whole operation; none is recovered from locally.
#[derive(Clone, Copy, Debug, PartialEq, Eq, Structural)]
pub enum SwapError {
    /// The pool record is already initialized.
    AlreadyInUse,
    /// The authority handed in is not the one derived from the pool id and nonce.
    InvalidProgramAddress,
    /// A reserve or the share mint is owned by something other than the authority.
    InvalidOwner,
    /// The mint of an admin-fee account is not the mint of its side.
    InvalidAdmin,
    /// The bytes at the share-mint slot are not a token mint.
    ExpectedMint,
    /// The bytes at a token-account slot are not a token account.
    ExpectedAccount,
    /// A reserve is empty at initialization.
    EmptySupply,
    /// A withdrawal was attempted from a pool without shares.
    EmptyPool,
    /// The share mint has shares in circulation at initialization.
    InvalidSupply,
    /// Both reserves hold the same token.
    RepeatedMint,
    /// A reserve has a delegate.
    InvalidDelegate,
    /// The source and the destination of a swap are the same reserve.
    InvalidInput,
    /// A declared reserve is not one of the pool's reserves.
    IncorrectSwapAccount,
    /// The declared share mint is not the pool's.
    IncorrectPoolMint,
    /// The curve arithmetic overflowed, divided by zero, did not converge, or
    /// reached a state that the curve excludes.
    CalculationFailure,
    /// The operation tag or its payload cannot be decoded.
    InvalidInstruction,
    /// The computed amount is below the minimum that the user asked for.
    ExceededSlippage,
    /// A 128-bit amount does not fit in 64 bits.
    ConversionFailure,
}

/// Failures of a whole operation: the pool's own, and those of reading the
/// records that the host hands in.
#[derive(Clone, Copy, Debug, PartialEq, Eq, Structural)]
pub enum ProcessError {
    /// A failure of the pool itself.
    Swap(SwapError),
    /// Fewer account records were handed in than the operation reads.
    NotEnoughAccountKeys,
    /// The pool record has never been initialized.
    UninitializedAccount,
    /// The pool record has the wrong size.
    InvalidAccountData,
}

impl SwapError {
    /// The number under which the host knows the error: its place in the
    /// list of kinds, counted from zero.
    pub open spec fn spec_code(self) -> u32 {
        match self {
            SwapError::AlreadyInUse => 0,
            SwapError::InvalidProgramAddress => 1,
            SwapError::InvalidOwner => 2,
            SwapError::InvalidAdmin => 3,
            SwapError::ExpectedMint => 4,
            SwapError::ExpectedAccount => 5,
            SwapError::EmptySupply => 6,
            SwapError::EmptyPool => 7,
            SwapError::InvalidSupply => 8,
            SwapError::RepeatedMint => 9,
            SwapError::InvalidDelegate => 10,
            SwapError::InvalidInput => 11,
            SwapError::IncorrectSwapAccount => 12,
            SwapError::IncorrectPoolMint => 13,
            SwapError::CalculationFailure => 14,
            SwapError::InvalidInstruction => 15,
            SwapError::ExceededSlippage => 16,
            SwapError::ConversionFailure => 17,
        }
    }

    /// The line that describes the error in the log.
    pub open spec fn spec_message(self) -> Seq<char> {
        match self {
            SwapError::AlreadyInUse => "Error: Swap account already in use"@,
            SwapError::InvalidProgramAddress => "Error: Invalid program address generated from nonce and key"@,
            SwapError::InvalidOwner => "Error: The input account owner is not the program address"@,
            SwapError::InvalidAdmin => "Error: Address of the admin fee account is incorrect"@,
            SwapError::ExpectedMint => "Error: Deserialized account is not an SPL Token mint"@,
            SwapError::ExpectedAccount => "Error: Deserialized account is not an SPL Token account"@,
            SwapError::EmptySupply => "Error: Input token account empty"@,
            SwapError::EmptyPool => "Error: Pool token supply is 0"@,
            SwapError::InvalidSupply => "Error: Pool token mint has a non-zero supply"@,
            SwapError::RepeatedMint => "Error: Swap input token accounts have the same mint"@,
            SwapError::InvalidDelegate => "Error: Token account has a delegate"@,
            SwapError::InvalidInput => "Error: InvalidInput"@,
            SwapError::IncorrectSwapAccount => "Error: Address of the provided swap token account is incorrect"@,
            SwapError::IncorrectPoolMint => "Error: Address of the provided pool token mint is incorrect"@,
            SwapError::CalculationFailure => "Error: CalculationFailure"@,
            SwapError::InvalidInstruction => "Error: InvalidInstruction"@,
            SwapError::ExceededSlippage => "Error: Swap instruction exceeds desired slippage limit"@,
            SwapError::ConversionFailure => "Error: Conversion to or from u64 failed."@,
        }
    }

    /// Returns the number under which the host knows the error.
    pub fn code(&self) -> (r: u32)
        ensures
            r == self.spec_code(),
            r < 18,
    {
        match self {
            SwapError::AlreadyInUse => 0,
            SwapError::InvalidProgramAddress => 1,
            SwapError::InvalidOwner => 2,
            SwapError::InvalidAdmin => 3,
            SwapError::ExpectedMint => 4,
            SwapError::ExpectedAccount => 5,
            SwapError::EmptySupply => 6,
            SwapError::EmptyPool => 7,
            SwapError::InvalidSupply => 8,
            SwapError::RepeatedMint => 9,
            SwapError::InvalidDelegate => 10,
            SwapError::InvalidInput => 11,
            SwapError::IncorrectSwapAccount => 12,
            SwapError::IncorrectPoolMint => 13,
            SwapError::CalculationFailure => 14,
            SwapError::InvalidInstruction => 15,
            SwapError::ExceededSlippage => 16,
            SwapError::ConversionFailure => 17,
        }
    }

    /// Returns the line that describes the error in the log.
    pub fn message(&self) -> (r: &'static str)
        ensures
            r@ == self.spec_message(),
    {
        match self {
            SwapError::AlreadyInUse => "Error: Swap account already in use",
            SwapError::InvalidProgramAddress => "Error: Invalid program address generated from nonce and key",
            SwapError::InvalidOwner => "Error: The input account owner is not the program address",
            SwapError::InvalidAdmin => "Error: Address of the admin fee account is incorrect",
            SwapError::ExpectedMint => "Error: Deserialized account is not an SPL Token mint",
            SwapError::ExpectedAccount => "Error: Deserialized account is not an SPL Token account",
            SwapError::EmptySupply => "Error: Input token account empty",
            SwapError::EmptyPool => "Error: Pool token supply is 0",
            SwapError::InvalidSupply => "Error: Pool token mint has a non-zero supply",
            SwapError::RepeatedMint => "Error: Swap input token accounts have the same mint",
            SwapError::InvalidDelegate => "Error: Token account has a delegate",
            SwapError::InvalidInput => "Error: InvalidInput",
            SwapError::IncorrectSwapAccount => "Error: Address of the provided swap token account is incorrect",
            SwapError::IncorrectPoolMint => "Error: Address of the provided pool token mint is incorrect",
            SwapError::CalculationFailure => "Error: CalculationFailure",
            SwapError::InvalidInstruction => "Error: InvalidInstruction",
            SwapError::ExceededSlippage => "Error: Swap instruction exceeds desired slippage limit",
            SwapError::ConversionFailure => "Error: Conversion to or from u64 failed.",
        }
    }
}

/// Different kinds of error have different numbers.
pub proof fn lemma_codes_are_distinct(p: SwapError, q: SwapError)
    ensures
        p.spec_code() == q.spec_code() <==> p == q,
{
}

} // verus!
