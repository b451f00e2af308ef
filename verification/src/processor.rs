//! The operations of the pool on the account records that the host hands in:
//! each reads its accounts by position, decodes them, and leaves the decision
//! to the state machine.

use vstd::prelude::*;
use crate::error::{ProcessError, SwapError};
use crate::fees::Fees;
use crate::instruction::{decoded, SwapInstruction};
use crate::pool::{
    deposit,
    deposit_result,
    initialize,
    initialize_result,
    same_intents,
    swap,
    swap_result,
    withdraw,
    withdraw_result,
    DepositAccounts,
    InitializeAccounts,
    Initialized,
    SwapAccounts,
    TokenIntent,
    WithdrawAccounts,
};
use crate::pubkey::Pubkey;
use crate::state::{record_at, record_shaped, SwapInfo};
use crate::token::{
    burn_instruction,
    decode_mint,
    decode_token_account,
    derive_program_address,
    is_token_instruction,
    mint_in,
    mint_to_instruction,
    program_address,
    token_account_in,
    transfer_instruction,
    AccountMeta,
    Instruction,
    Mint,
    TokenAccount,
};

verus! {

/// An account record as the host hands it in: its identifier and its data.
#[derive(Clone, Debug)]
pub struct AccountInfo {
    /// Identifier of the account.
    pub key: Pubkey,
    /// Data of the account.
    pub data: Vec<u8>,
}

/// The operations of the pool.
pub struct Processor {}

/// What `process_initialize` hands to the state machine, for the accounts in
/// the order: pool record, authority, first reserve, second reserve, share
/// mint, destination of the first shares, token program, first admin-fee
/// account, second admin-fee account.
pub open spec fn initialize_accounts(program_id: Pubkey, nonce: u8, accounts: Seq<AccountInfo>)
    -> InitializeAccounts {
    InitializeAccounts {
        is_initialized: record_at(accounts[0].data@).is_initialized,
        authority: accounts[1].key,
        derived_authority: program_address(accounts[0].key@, nonce, program_id@),
        token_a_key: accounts[2].key,
        token_a: token_account_in(accounts[2].data@),
        token_b_key: accounts[3].key,
        token_b: token_account_in(accounts[3].data@),
        pool_mint_key: accounts[4].key,
        pool_mint: mint_in(accounts[4].data@),
        destination_key: accounts[5].key,
        admin_fee_a_key: accounts[7].key,
        admin_fee_a: token_account_in(accounts[7].data@),
        admin_fee_b_key: accounts[8].key,
        admin_fee_b: token_account_in(accounts[8].data@),
    }
}

/// What `process_initialize` returns: too few accounts and a pool record of
/// the wrong shape are refused, and the state machine decides on the rest.
pub open spec fn process_initialize_result(
    program_id: Pubkey,
    nonce: u8,
    amp_factor: u64,
    fees: Fees,
    accounts: Seq<AccountInfo>,
) -> Result<Initialized, ProcessError> {
    if accounts.len() < 9 {
        Err(ProcessError::NotEnoughAccountKeys)
    } else if !record_shaped(accounts[0].data@) {
        Err(ProcessError::InvalidAccountData)
    } else {
        match initialize_result(
            nonce,
            amp_factor,
            fees,
            initialize_accounts(program_id, nonce, accounts),
        ) {
            Ok(done) => Ok(done),
            Err(e) => Err(ProcessError::Swap(e)),
        }
    }
}

/// The pool record in the first account of an operation on a live pool:
/// a record of the wrong shape is refused with `InvalidAccountData`, one that
/// is not initialized with `UninitializedAccount`.
pub open spec fn live_record_refusal(data: Seq<u8>) -> Option<ProcessError> {
    if !record_shaped(data) {
        Some(ProcessError::InvalidAccountData)
    } else if data[0] != 1 {
        Some(ProcessError::UninitializedAccount)
    } else {
        None
    }
}

/// What `process_swap` hands to the state machine, for the accounts in the
/// order: pool record, authority, the user's source, the reserve paid into,
/// the reserve that pays out, the user's destination, token program.
pub open spec fn swap_accounts(program_id: Pubkey, accounts: Seq<AccountInfo>) -> SwapAccounts {
    SwapAccounts {
        authority: accounts[1].key,
        derived_authority: program_address(
            accounts[0].key@,
            record_at(accounts[0].data@).nonce,
            program_id@,
        ),
        source_key: accounts[2].key,
        swap_source_key: accounts[3].key,
        swap_source: token_account_in(accounts[3].data@),
        swap_destination_key: accounts[4].key,
        swap_destination: token_account_in(accounts[4].data@),
        destination_key: accounts[5].key,
    }
}

/// What `process_swap` returns.
pub open spec fn process_swap_result(
    program_id: Pubkey,
    amount_in: u64,
    minimum_amount_out: u64,
    accounts: Seq<AccountInfo>,
) -> Result<Seq<TokenIntent>, ProcessError> {
    if accounts.len() < 7 {
        Err(ProcessError::NotEnoughAccountKeys)
    } else if live_record_refusal(accounts[0].data@) is Some {
        Err(live_record_refusal(accounts[0].data@).unwrap())
    } else {
        swap_result(
            record_at(accounts[0].data@),
            amount_in,
            minimum_amount_out,
            swap_accounts(program_id, accounts),
        )
    }
}

/// What `process_deposit` hands to the state machine, for the accounts in the
/// order: pool record, authority, the user's two sources, the two reserves,
/// share mint, the user's destination for the shares, token program.
pub open spec fn deposit_accounts(program_id: Pubkey, accounts: Seq<AccountInfo>)
    -> DepositAccounts {
    DepositAccounts {
        authority: accounts[1].key,
        derived_authority: program_address(
            accounts[0].key@,
            record_at(accounts[0].data@).nonce,
            program_id@,
        ),
        source_a_key: accounts[2].key,
        source_b_key: accounts[3].key,
        token_a_key: accounts[4].key,
        token_a: token_account_in(accounts[4].data@),
        token_b_key: accounts[5].key,
        token_b: token_account_in(accounts[5].data@),
        pool_mint_key: accounts[6].key,
        pool_mint: mint_in(accounts[6].data@),
        destination_key: accounts[7].key,
    }
}

/// What `process_deposit` returns.
pub open spec fn process_deposit_result(
    program_id: Pubkey,
    token_a_amount: u64,
    token_b_amount: u64,
    min_mint_amount: u64,
    accounts: Seq<AccountInfo>,
) -> Result<Seq<TokenIntent>, ProcessError> {
    if accounts.len() < 9 {
        Err(ProcessError::NotEnoughAccountKeys)
    } else if live_record_refusal(accounts[0].data@) is Some {
        Err(live_record_refusal(accounts[0].data@).unwrap())
    } else {
        deposit_result(
            record_at(accounts[0].data@),
            token_a_amount,
            token_b_amount,
            min_mint_amount,
            deposit_accounts(program_id, accounts),
        )
    }
}

/// What `process_withdraw` hands to the state machine, for the accounts in
/// the order: pool record, authority, share mint, the user's source of
/// shares, the two reserves, the user's two destinations, token program.
pub open spec fn withdraw_accounts(program_id: Pubkey, accounts: Seq<AccountInfo>)
    -> WithdrawAccounts {
    WithdrawAccounts {
        authority: accounts[1].key,
        derived_authority: program_address(
            accounts[0].key@,
            record_at(accounts[0].data@).nonce,
            program_id@,
        ),
        pool_mint_key: accounts[2].key,
        pool_mint: mint_in(accounts[2].data@),
        source_key: accounts[3].key,
        token_a_key: accounts[4].key,
        token_a: token_account_in(accounts[4].data@),
        token_b_key: accounts[5].key,
        token_b: token_account_in(accounts[5].data@),
        destination_a_key: accounts[6].key,
        destination_b_key: accounts[7].key,
    }
}

/// What `process_withdraw` returns.
pub open spec fn process_withdraw_result(
    program_id: Pubkey,
    pool_token_amount: u64,
    minimum_token_a_amount: u64,
    minimum_token_b_amount: u64,
    accounts: Seq<AccountInfo>,
) -> Result<Seq<TokenIntent>, ProcessError> {
    if accounts.len() < 9 {
        Err(ProcessError::NotEnoughAccountKeys)
    } else if live_record_refusal(accounts[0].data@) is Some {
        Err(live_record_refusal(accounts[0].data@).unwrap())
    } else {
        withdraw_result(
            record_at(accounts[0].data@),
            pool_token_amount,
            minimum_token_a_amount,
            minimum_token_b_amount,
            withdraw_accounts(program_id, accounts),
        )
    }
}

/// An instruction for the token program, ready to be invoked under the
/// pool's authority.
#[derive(Clone, Debug)]
pub struct Invocation {
    /// The instruction.
    pub instruction: Instruction,
    /// Identifiers of the accounts that are handed along, in order: the three
    /// that the instruction names, then the token program.
    pub account_keys: Vec<Pubkey>,
    /// First seed of the authority's signature: the pool's identifier.
    pub swap: Pubkey,
    /// Second seed of the authority's signature.
    pub nonce: u8,
}

/// Whether `v` is the invocation of the token instruction with the tag `tag`
/// on the accounts `first` and `second` under `authority`, signed with the
/// seeds `swap` and `nonce`.
pub open spec fn is_invocation(
    v: Invocation,
    tag: u8,
    swap: Pubkey,
    token_program: Pubkey,
    first: Pubkey,
    second: Pubkey,
    authority: Pubkey,
    nonce: u8,
    amount: u64,
) -> bool {
    &&& is_token_instruction(
        v.instruction,
        tag,
        token_program@,
        first@,
        second@,
        authority@,
        amount,
    )
    &&& v.account_keys@ == seq![first, second, authority, token_program]
    &&& v.swap == swap
    &&& v.nonce == nonce
}

/// What `process` returns on success: the record to persist, where the
/// operation writes one, and the token movements to carry out, in order.
#[derive(Clone, Debug)]
pub struct Processed {
    /// The record to persist, after an initialization.
    pub record: Option<SwapInfo>,
    /// The token movements, in order.
    pub intents: Vec<TokenIntent>,
}

/// What `process` returns: the record to persist, if any, and the movements.
/// An input that decodes to no operation is refused with
/// `InvalidInstruction`; the decoded operation decides on the rest.
pub open spec fn process_result(program_id: Pubkey, accounts: Seq<AccountInfo>, input: Seq<u8>)
    -> Result<(Option<SwapInfo>, Seq<TokenIntent>), ProcessError> {
    match decoded(input) {
        None => Err(ProcessError::Swap(SwapError::InvalidInstruction)),
        Some(SwapInstruction::Initialize { nonce, amp_factor, fees }) => {
            match process_initialize_result(program_id, nonce, amp_factor, fees, accounts) {
                Ok(done) => Ok((Some(done.record), seq![done.intent])),
                Err(e) => Err(e),
            }
        },
        Some(SwapInstruction::Swap { amount_in, minimum_amount_out }) => {
            match process_swap_result(program_id, amount_in, minimum_amount_out, accounts) {
                Ok(intents) => Ok((None, intents)),
                Err(e) => Err(e),
            }
        },
        Some(SwapInstruction::Deposit { token_a_amount, token_b_amount, min_mint_amount }) => {
            match process_deposit_result(
                program_id,
                token_a_amount,
                token_b_amount,
                min_mint_amount,
                accounts,
            ) {
                Ok(intents) => Ok((None, intents)),
                Err(e) => Err(e),
            }
        },
        Some(
            SwapInstruction::Withdraw {
                pool_token_amount,
                minimum_token_a_amount,
                minimum_token_b_amount,
            },
        ) => {
            match process_withdraw_result(
                program_id,
                pool_token_amount,
                minimum_token_a_amount,
                minimum_token_b_amount,
                accounts,
            ) {
                Ok(intents) => Ok((None, intents)),
                Err(e) => Err(e),
            }
        },
    }
}

impl Processor {
    /// Decodes a token account; bytes that are none are answered with
    /// `ExpectedAccount`.
    pub fn unpack_token_account(data: &[u8]) -> (r: Result<TokenAccount, SwapError>)
        ensures
            match token_account_in(data@) {
                Some(a) => r == Ok::<TokenAccount, SwapError>(a),
                None => r == Err::<TokenAccount, SwapError>(SwapError::ExpectedAccount),
            },
    {
        match decode_token_account(data) {
            Some(a) => Ok(a),
            None => Err(SwapError::ExpectedAccount),
        }
    }

    /// Decodes a token mint; bytes that are none are answered with
    /// `ExpectedMint`.
    pub fn unpack_mint(data: &[u8]) -> (r: Result<Mint, SwapError>)
        ensures
            match mint_in(data@) {
                Some(m) => r == Ok::<Mint, SwapError>(m),
                None => r == Err::<Mint, SwapError>(SwapError::ExpectedMint),
            },
    {
        match decode_mint(data) {
            Some(m) => Ok(m),
            None => Err(SwapError::ExpectedMint),
        }
    }

    /// Derives the authority of the pool `my_info` for its nonce; seeds that
    /// give no address are answered with `InvalidProgramAddress`.
    pub fn authority_id(program_id: &Pubkey, my_info: &Pubkey, nonce: u8) -> (r: Result<
        Pubkey,
        SwapError,
    >)
        ensures
            match program_address(my_info@, nonce, program_id@) {
                Some(k) => r == Ok::<Pubkey, SwapError>(k),
                None => r == Err::<Pubkey, SwapError>(SwapError::InvalidProgramAddress),
            },
    {
        match derive_program_address(my_info, nonce, program_id) {
            Some(k) => Ok(k),
            None => Err(SwapError::InvalidProgramAddress),
        }
    }

    /// Creates the pool from the nine accounts of the operation.
    pub fn process_initialize(
        program_id: &Pubkey,
        nonce: u8,
        amp_factor: u64,
        fees: Fees,
        accounts: &[AccountInfo],
    ) -> (r: Result<Initialized, ProcessError>)
        ensures
            r == process_initialize_result(*program_id, nonce, amp_factor, fees, accounts@),
    {
        if accounts.len() < 9 {
            return Err(ProcessError::NotEnoughAccountKeys);
        }
        let token_swap = SwapInfo::unpack_unchecked(accounts[0].data.as_slice())?;
        let acc = InitializeAccounts {
            is_initialized: token_swap.is_initialized,
            authority: accounts[1].key,
            derived_authority: derive_program_address(&accounts[0].key, nonce, program_id),
            token_a_key: accounts[2].key,
            token_a: decode_token_account(accounts[2].data.as_slice()),
            token_b_key: accounts[3].key,
            token_b: decode_token_account(accounts[3].data.as_slice()),
            pool_mint_key: accounts[4].key,
            pool_mint: decode_mint(accounts[4].data.as_slice()),
            destination_key: accounts[5].key,
            admin_fee_a_key: accounts[7].key,
            admin_fee_a: decode_token_account(accounts[7].data.as_slice()),
            admin_fee_b_key: accounts[8].key,
            admin_fee_b: decode_token_account(accounts[8].data.as_slice()),
        };
        match initialize(nonce, amp_factor, fees, &acc) {
            Ok(done) => Ok(done),
            Err(e) => Err(ProcessError::Swap(e)),
        }
    }

    /// Trades one token for the other, on the seven accounts of the
    /// operation.
    pub fn process_swap(
        program_id: &Pubkey,
        amount_in: u64,
        minimum_amount_out: u64,
        accounts: &[AccountInfo],
    ) -> (r: Result<Vec<TokenIntent>, ProcessError>)
        ensures
            same_intents(
                r,
                process_swap_result(*program_id, amount_in, minimum_amount_out, accounts@),
            ),
    {
        if accounts.len() < 7 {
            return Err(ProcessError::NotEnoughAccountKeys);
        }
        let token_swap = SwapInfo::unpack(accounts[0].data.as_slice())?;
        let acc = SwapAccounts {
            authority: accounts[1].key,
            derived_authority: derive_program_address(
                &accounts[0].key,
                token_swap.nonce,
                program_id,
            ),
            source_key: accounts[2].key,
            swap_source_key: accounts[3].key,
            swap_source: decode_token_account(accounts[3].data.as_slice()),
            swap_destination_key: accounts[4].key,
            swap_destination: decode_token_account(accounts[4].data.as_slice()),
            destination_key: accounts[5].key,
        };
        swap(&token_swap, amount_in, minimum_amount_out, &acc)
    }

    /// Adds to both reserves in return for shares, on the nine accounts of
    /// the operation.
    pub fn process_deposit(
        program_id: &Pubkey,
        token_a_amount: u64,
        token_b_amount: u64,
        min_mint_amount: u64,
        accounts: &[AccountInfo],
    ) -> (r: Result<Vec<TokenIntent>, ProcessError>)
        ensures
            same_intents(
                r,
                process_deposit_result(
                    *program_id,
                    token_a_amount,
                    token_b_amount,
                    min_mint_amount,
                    accounts@,
                ),
            ),
    {
        if accounts.len() < 9 {
            return Err(ProcessError::NotEnoughAccountKeys);
        }
        let token_swap = SwapInfo::unpack(accounts[0].data.as_slice())?;
        let acc = DepositAccounts {
            authority: accounts[1].key,
            derived_authority: derive_program_address(
                &accounts[0].key,
                token_swap.nonce,
                program_id,
            ),
            source_a_key: accounts[2].key,
            source_b_key: accounts[3].key,
            token_a_key: accounts[4].key,
            token_a: decode_token_account(accounts[4].data.as_slice()),
            token_b_key: accounts[5].key,
            token_b: decode_token_account(accounts[5].data.as_slice()),
            pool_mint_key: accounts[6].key,
            pool_mint: decode_mint(accounts[6].data.as_slice()),
            destination_key: accounts[7].key,
        };
        deposit(&token_swap, token_a_amount, token_b_amount, min_mint_amount, &acc)
    }

    /// Hands back shares for a part of both reserves, on the nine accounts of
    /// the operation.
    pub fn process_withdraw(
        program_id: &Pubkey,
        pool_token_amount: u64,
        minimum_token_a_amount: u64,
        minimum_token_b_amount: u64,
        accounts: &[AccountInfo],
    ) -> (r: Result<Vec<TokenIntent>, ProcessError>)
        ensures
            same_intents(
                r,
                process_withdraw_result(
                    *program_id,
                    pool_token_amount,
                    minimum_token_a_amount,
                    minimum_token_b_amount,
                    accounts@,
                ),
            ),
    {
        if accounts.len() < 9 {
            return Err(ProcessError::NotEnoughAccountKeys);
        }
        let token_swap = SwapInfo::unpack(accounts[0].data.as_slice())?;
        let acc = WithdrawAccounts {
            authority: accounts[1].key,
            derived_authority: derive_program_address(
                &accounts[0].key,
                token_swap.nonce,
                program_id,
            ),
            pool_mint_key: accounts[2].key,
            pool_mint: decode_mint(accounts[2].data.as_slice()),
            source_key: accounts[3].key,
            token_a_key: accounts[4].key,
            token_a: decode_token_account(accounts[4].data.as_slice()),
            token_b_key: accounts[5].key,
            token_b: decode_token_account(accounts[5].data.as_slice()),
            destination_a_key: accounts[6].key,
            destination_b_key: accounts[7].key,
        };
        withdraw(
            &token_swap,
            pool_token_amount,
            minimum_token_a_amount,
            minimum_token_b_amount,
            &acc,
        )
    }

    /// Decodes an operation and carries it out on the accounts handed in.
    pub fn process(program_id: &Pubkey, accounts: &[AccountInfo], input: &[u8]) -> (r: Result<
        Processed,
        ProcessError,
    >)
        ensures
            match r {
                Ok(done) => process_result(*program_id, accounts@, input@) == Ok::<
                    (Option<SwapInfo>, Seq<TokenIntent>),
                    ProcessError,
                >((done.record, done.intents@)),
                Err(e) => process_result(*program_id, accounts@, input@) == Err::<
                    (Option<SwapInfo>, Seq<TokenIntent>),
                    ProcessError,
                >(e),
            },
    {
        let instruction = match SwapInstruction::unpack(input) {
            Ok(i) => i,
            Err(e) => {
                return Err(ProcessError::Swap(e));
            },
        };
        match instruction {
            SwapInstruction::Initialize { nonce, amp_factor, fees } => {
                let done = Self::process_initialize(program_id, nonce, amp_factor, fees, accounts)?;
                let mut intents: Vec<TokenIntent> = Vec::new();
                intents.push(done.intent);
                assert(intents@ =~= seq![done.intent]);
                Ok(Processed { record: Some(done.record), intents })
            },
            SwapInstruction::Swap { amount_in, minimum_amount_out } => {
                let intents = Self::process_swap(
                    program_id,
                    amount_in,
                    minimum_amount_out,
                    accounts,
                )?;
                Ok(Processed { record: None, intents })
            },
            SwapInstruction::Deposit { token_a_amount, token_b_amount, min_mint_amount } => {
                let intents = Self::process_deposit(
                    program_id,
                    token_a_amount,
                    token_b_amount,
                    min_mint_amount,
                    accounts,
                )?;
                Ok(Processed { record: None, intents })
            },
            SwapInstruction::Withdraw {
                pool_token_amount,
                minimum_token_a_amount,
                minimum_token_b_amount,
            } => {
                let intents = Self::process_withdraw(
                    program_id,
                    pool_token_amount,
                    minimum_token_a_amount,
                    minimum_token_b_amount,
                    accounts,
                )?;
                Ok(Processed { record: None, intents })
            },
        }
    }

    /// Builds the burning of `amount` tokens of `mint` in `burn_account`, to
    /// be invoked under the pool's authority.
    pub fn token_burn(
        swap: &Pubkey,
        token_program: &Pubkey,
        burn_account: &Pubkey,
        mint: &Pubkey,
        authority: &Pubkey,
        nonce: u8,
        amount: u64,
    ) -> (r: Option<Invocation>)
        ensures
            r matches Some(v) && is_invocation(
                v,
                8,
                *swap,
                *token_program,
                *burn_account,
                *mint,
                *authority,
                nonce,
                amount,
            ),
    {
        let instruction = burn_instruction(token_program, burn_account, mint, authority, amount)?;
        Some(
            Invocation {
                instruction,
                account_keys: four_keys(burn_account, mint, authority, token_program),
                swap: *swap,
                nonce,
            },
        )
    }

    /// Builds the minting of `amount` tokens of `mint` to `destination`, to be
    /// invoked under the pool's authority.
    pub fn token_mint_to(
        swap: &Pubkey,
        token_program: &Pubkey,
        mint: &Pubkey,
        destination: &Pubkey,
        authority: &Pubkey,
        nonce: u8,
        amount: u64,
    ) -> (r: Option<Invocation>)
        ensures
            r matches Some(v) && is_invocation(
                v,
                7,
                *swap,
                *token_program,
                *mint,
                *destination,
                *authority,
                nonce,
                amount,
            ),
    {
        let instruction = mint_to_instruction(token_program, mint, destination, authority, amount)?;
        Some(
            Invocation {
                instruction,
                account_keys: four_keys(mint, destination, authority, token_program),
                swap: *swap,
                nonce,
            },
        )
    }

    /// Builds the transfer of `amount` tokens from `source` to `destination`,
    /// to be invoked under the pool's authority.
    pub fn token_transfer(
        swap: &Pubkey,
        token_program: &Pubkey,
        source: &Pubkey,
        destination: &Pubkey,
        authority: &Pubkey,
        nonce: u8,
        amount: u64,
    ) -> (r: Option<Invocation>)
        ensures
            r matches Some(v) && is_invocation(
                v,
                3,
                *swap,
                *token_program,
                *source,
                *destination,
                *authority,
                nonce,
                amount,
            ),
    {
        let instruction = transfer_instruction(
            token_program,
            source,
            destination,
            authority,
            amount,
        )?;
        Some(
            Invocation {
                instruction,
                account_keys: four_keys(source, destination, authority, token_program),
                swap: *swap,
                nonce,
            },
        )
    }
}

/// The four identifiers, in order.
fn four_keys(first: &Pubkey, second: &Pubkey, third: &Pubkey, fourth: &Pubkey) -> (r: Vec<Pubkey>)
    ensures
        r@ == seq![*first, *second, *third, *fourth],
{
    let mut keys: Vec<Pubkey> = Vec::new();
    keys.push(*first);
    keys.push(*second);
    keys.push(*third);
    keys.push(*fourth);
    assert(keys@ =~= seq![*first, *second, *third, *fourth]);
    keys
}

/// An account that goes along with an instruction to the token program.
#[derive(Clone, Copy, Debug, PartialEq, Eq, Structural)]
pub struct RoutedAccount {
    /// Place of the account among those handed in.
    pub index: usize,
    /// Whether the pool signs for the account.
    pub is_signer: bool,
}

/// Whether `key` is among `keys`.
pub open spec fn is_among(keys: Seq<Pubkey>, key: Pubkey) -> bool {
    exists|i: int| 0 <= i < keys.len() && keys[i]@ == key@
}

/// The accounts among the first `n` handed in that the instruction names by
/// `name`, in the order in which they were handed in, each signed for where
/// its identifier is among `signers`.
pub open spec fn routed_for(name: Pubkey, keys: Seq<Pubkey>, signers: Seq<Pubkey>, n: nat) -> Seq<
    RoutedAccount,
>
    decreases n,
{
    if n == 0 {
        Seq::empty()
    } else {
        let before = routed_for(name, keys, signers, (n - 1) as nat);
        if keys[n - 1]@ == name@ {
            before.push(
                RoutedAccount { index: (n - 1) as usize, is_signer: is_among(signers, keys[n - 1]) },
            )
        } else {
            before
        }
    }
}

/// The accounts that go along with an instruction: for each of the first `n`
/// accounts that it names, in order, every account handed in that has that
/// identifier.
pub open spec fn routed(names: Seq<AccountMeta>, keys: Seq<Pubkey>, signers: Seq<Pubkey>, n: nat)
    -> Seq<RoutedAccount>
    decreases n,
{
    if n == 0 {
        Seq::empty()
    } else {
        routed(names, keys, signers, (n - 1) as nat) + routed_for(
            names[n - 1].pubkey,
            keys,
            signers,
            keys.len(),
        )
    }
}

/// Tells whether `key` is among `keys`.
fn contains_key(keys: &[Pubkey], key: &Pubkey) -> (r: bool)
    ensures
        r == is_among(keys@, *key),
{
    let mut i: usize = 0;
    while i < keys.len()
        invariant
            i <= keys.len(),
            forall|j: int| 0 <= j < i ==> keys@[j]@ != key@,
        decreases keys.len() - i,
    {
        if keys[i] == *key {
            return true;
        }
        i = i + 1;
    }
    false
}

/// Routes an instruction to the token program: picks the accounts that go
/// along with it and marks those that the pool signs for.
///
/// `account_keys` are the identifiers of the accounts handed in, `signers`
/// the addresses derived from the signer seeds. Where the token program is
/// not among the accounts, the instruction is refused with
/// `InvalidAccountData`.
pub fn invoke_signed(
    instruction: &Instruction,
    account_keys: &[Pubkey],
    signers: &[Pubkey],
    token_program_id: &Pubkey,
) -> (r: Result<Vec<RoutedAccount>, ProcessError>)
    ensures
        is_among(account_keys@, *token_program_id) ==> (r matches Ok(v) && v@ == routed(
            instruction.accounts@,
            account_keys@,
            signers@,
            instruction.accounts@.len(),
        )),
        !is_among(account_keys@, *token_program_id) ==> r == Err::<
            Vec<RoutedAccount>,
            ProcessError,
        >(ProcessError::InvalidAccountData),
{
    if !contains_key(account_keys, token_program_id) {
        return Err(ProcessError::InvalidAccountData);
    }
    let mut picked: Vec<RoutedAccount> = Vec::new();
    let mut m: usize = 0;
    while m < instruction.accounts.len()
        invariant
            m <= instruction.accounts@.len(),
            picked@ == routed(instruction.accounts@, account_keys@, signers@, m as nat),
        decreases instruction.accounts@.len() - m,
    {
        let name = instruction.accounts[m].pubkey;
        let ghost before = picked@;
        let mut i: usize = 0;
        while i < account_keys.len()
            invariant
                i <= account_keys@.len(),
                m < instruction.accounts@.len(),
                name == instruction.accounts@[m as int].pubkey,
                picked@ == before + routed_for(name, account_keys@, signers@, i as nat),
            decreases account_keys@.len() - i,
        {
            if name == account_keys[i] {
                let is_signer = contains_key(signers, &account_keys[i]);
                picked.push(RoutedAccount { index: i, is_signer });
            }
            i = i + 1;
            assert(picked@ =~= before + routed_for(name, account_keys@, signers@, i as nat));
        }
        m = m + 1;
    }
    Ok(picked)
}

/// The record is written once: an operation that succeeds returns a record to
/// persist exactly where it is an initialization.
pub proof fn lemma_only_initialize_writes_the_record(
    program_id: Pubkey,
    accounts: Seq<AccountInfo>,
    input: Seq<u8>,
)
    requires
        process_result(program_id, accounts, input) is Ok,
    ensures
        process_result(program_id, accounts, input).unwrap().0 is Some <==> decoded(
            input,
        ) matches Some(SwapInstruction::Initialize { .. }),
{
}

} // verus!
