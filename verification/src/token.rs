//! The token ledger as the pool sees it: what it reads of token accounts and
//! mints, the derivation of the pool's authority, and the instructions that
//! move tokens. The ledger's own formats and the address derivation are those
//! of the `spl_token` and `solana_sdk` crates, called here and nowhere else.

use vstd::prelude::*;
use vstd::bytes::spec_u64_to_le_bytes;
use solana_sdk::program_pack::Pack;
use crate::pubkey::Pubkey;

verus! {

/// What the pool reads of a token account.
#[derive(Clone, Copy, Debug)]
pub struct TokenAccount {
    /// Token type that the account holds.
    pub mint: Pubkey,
    /// Owner of the account.
    pub owner: Pubkey,
    /// Amount of tokens in the account.
    pub amount: u64,
    /// Delegate of the account, if it has one.
    pub delegate: Option<Pubkey>,
}

/// What the pool reads of a token mint.
#[derive(Clone, Copy, Debug)]
pub struct Mint {
    /// Authority that may mint new tokens, if there is one.
    pub mint_authority: Option<Pubkey>,
    /// Tokens in circulation.
    pub supply: u64,
}

/// An account named by an instruction.
#[derive(Clone, Copy, Debug)]
pub struct AccountMeta {
    /// Identifier of the account.
    pub pubkey: Pubkey,
    /// Whether the account must sign.
    pub is_signer: bool,
    /// Whether the account may be written to.
    pub is_writable: bool,
}

/// An instruction for another program.
#[derive(Clone, Debug)]
pub struct Instruction {
    /// Program that executes the instruction.
    pub program_id: Pubkey,
    /// Accounts that the instruction names, in order.
    pub accounts: Vec<AccountMeta>,
    /// Encoded operation.
    pub data: Vec<u8>,
}

/// The token account that `spl_token` decodes from `data`; `None` where it
/// rejects the bytes or the account is not initialized.
pub uninterp spec fn token_account_in(data: Seq<u8>) -> Option<TokenAccount>;

/// The mint that `spl_token` decodes from `data`; `None` where it rejects the
/// bytes or the mint is not initialized.
pub uninterp spec fn mint_in(data: Seq<u8>) -> Option<Mint>;

/// The program address that `solana_sdk` derives for the program `program_id`
/// from the two seeds `seed` and `[nonce]`; `None` where the seeds give no
/// valid address.
pub uninterp spec fn program_address(seed: Seq<u8>, nonce: u8, program_id: Seq<u8>) -> Option<
    Pubkey,
>;

/// Whether `i` is the token instruction with the operation tag `tag` and the
/// amount `amount`, addressed to `program`, that names three accounts: `first`
/// and `second`, both writable and not signing, and `authority`, read-only
/// and signing.
pub open spec fn is_token_instruction(
    i: Instruction,
    tag: u8,
    program: Seq<u8>,
    first: Seq<u8>,
    second: Seq<u8>,
    authority: Seq<u8>,
    amount: u64,
) -> bool {
    &&& i.program_id@ == program
    &&& i.data@ == seq![tag] + spec_u64_to_le_bytes(amount)
    &&& i.accounts@.len() == 3
    &&& i.accounts@[0].pubkey@ == first
    &&& !i.accounts@[0].is_signer
    &&& i.accounts@[0].is_writable
    &&& i.accounts@[1].pubkey@ == second
    &&& !i.accounts@[1].is_signer
    &&& i.accounts@[1].is_writable
    &&& i.accounts@[2].pubkey@ == authority
    &&& i.accounts@[2].is_signer
    &&& !i.accounts@[2].is_writable
}

/// Calls `Pack::unpack` of `spl_token::state::Account`. The contract claims
/// that what comes back depends on the bytes alone, and hands over the four
/// fields that the pool reads.
#[verifier::external_body]
pub(crate) fn decode_token_account(data: &[u8]) -> (r: Option<TokenAccount>)
    ensures
        r == token_account_in(data@),
{
    match spl_token::state::Account::unpack(data) {
        Ok(a) => {
            let delegate: Option<solana_sdk::pubkey::Pubkey> = a.delegate.into();
            Some(
                TokenAccount {
                    mint: Pubkey { bytes: a.mint.to_bytes() },
                    owner: Pubkey { bytes: a.owner.to_bytes() },
                    amount: a.amount,
                    delegate: delegate.map(|k| Pubkey { bytes: k.to_bytes() }),
                },
            )
        },
        Err(_) => None,
    }
}

/// Calls `Pack::unpack` of `spl_token::state::Mint`. The contract claims that
/// what comes back depends on the bytes alone, and hands over the two fields
/// that the pool reads.
#[verifier::external_body]
pub(crate) fn decode_mint(data: &[u8]) -> (r: Option<Mint>)
    ensures
        r == mint_in(data@),
{
    match spl_token::state::Mint::unpack(data) {
        Ok(m) => {
            let authority: Option<solana_sdk::pubkey::Pubkey> = m.mint_authority.into();
            Some(
                Mint {
                    mint_authority: authority.map(|k| Pubkey { bytes: k.to_bytes() }),
                    supply: m.supply,
                },
            )
        },
        Err(_) => None,
    }
}

/// Calls `Pubkey::create_program_address` of `solana_sdk` with the seeds
/// `seed` and `[nonce]`. The contract claims that what comes back depends on
/// the seeds and the program id alone.
#[verifier::external_body]
pub(crate) fn derive_program_address(seed: &Pubkey, nonce: u8, program_id: &Pubkey) -> (r: Option<
    Pubkey,
>)
    ensures
        r == program_address(seed@, nonce, program_id@),
{
    let program = solana_sdk::pubkey::Pubkey::new_from_array(program_id.bytes);
    match solana_sdk::pubkey::Pubkey::create_program_address(&[&seed.bytes[..], &[nonce]], &program) {
        Ok(k) => Some(Pubkey { bytes: k.to_bytes() }),
        Err(_) => None,
    }
}

/// Calls `spl_token::instruction::transfer` without further signers. The
/// contract claims that it always answers, with the instruction tagged 3
/// that carries the amount and names the source, the destination and the
/// authority, as `is_token_instruction` spells out.
#[verifier::external_body]
pub(crate) fn transfer_instruction(
    token_program: &Pubkey,
    source: &Pubkey,
    destination: &Pubkey,
    authority: &Pubkey,
    amount: u64,
) -> (r: Option<Instruction>)
    ensures
        r is Some,
        is_token_instruction(
            r.unwrap(),
            3,
            token_program@,
            source@,
            destination@,
            authority@,
            amount,
        ),
{
    let program = solana_sdk::pubkey::Pubkey::new_from_array(token_program.bytes);
    let first = solana_sdk::pubkey::Pubkey::new_from_array(source.bytes);
    let second = solana_sdk::pubkey::Pubkey::new_from_array(destination.bytes);
    let signer = solana_sdk::pubkey::Pubkey::new_from_array(authority.bytes);
    let made = spl_token::instruction::transfer(&program, &first, &second, &signer, &[], amount).ok()?;
    let mut accounts: Vec<AccountMeta> = Vec::new();
    for m in made.accounts.iter() {
        let pubkey = Pubkey { bytes: m.pubkey.to_bytes() };
        accounts.push(AccountMeta { pubkey, is_signer: m.is_signer, is_writable: m.is_writable });
    }
    Some(Instruction { program_id: Pubkey { bytes: made.program_id.to_bytes() }, accounts, data: made.data })
}

/// Calls `spl_token::instruction::mint_to` without further signers. The
/// contract claims that it always answers, with the instruction tagged 7
/// that carries the amount and names the mint, the destination and the
/// authority, as `is_token_instruction` spells out.
#[verifier::external_body]
pub(crate) fn mint_to_instruction(
    token_program: &Pubkey,
    mint: &Pubkey,
    destination: &Pubkey,
    authority: &Pubkey,
    amount: u64,
) -> (r: Option<Instruction>)
    ensures
        r is Some,
        is_token_instruction(
            r.unwrap(),
            7,
            token_program@,
            mint@,
            destination@,
            authority@,
            amount,
        ),
{
    let program = solana_sdk::pubkey::Pubkey::new_from_array(token_program.bytes);
    let first = solana_sdk::pubkey::Pubkey::new_from_array(mint.bytes);
    let second = solana_sdk::pubkey::Pubkey::new_from_array(destination.bytes);
    let signer = solana_sdk::pubkey::Pubkey::new_from_array(authority.bytes);
    let made = spl_token::instruction::mint_to(&program, &first, &second, &signer, &[], amount).ok()?;
    let mut accounts: Vec<AccountMeta> = Vec::new();
    for m in made.accounts.iter() {
        let pubkey = Pubkey { bytes: m.pubkey.to_bytes() };
        accounts.push(AccountMeta { pubkey, is_signer: m.is_signer, is_writable: m.is_writable });
    }
    Some(Instruction { program_id: Pubkey { bytes: made.program_id.to_bytes() }, accounts, data: made.data })
}

/// Calls `spl_token::instruction::burn` without further signers. The
/// contract claims that it always answers, with the instruction tagged 8
/// that carries the amount and names the account, the mint and the
/// authority, as `is_token_instruction` spells out.
#[verifier::external_body]
pub(crate) fn burn_instruction(
    token_program: &Pubkey,
    account: &Pubkey,
    mint: &Pubkey,
    authority: &Pubkey,
    amount: u64,
) -> (r: Option<Instruction>)
    ensures
        r is Some,
        is_token_instruction(
            r.unwrap(),
            8,
            token_program@,
            account@,
            mint@,
            authority@,
            amount,
        ),
{
    let program = solana_sdk::pubkey::Pubkey::new_from_array(token_program.bytes);
    let first = solana_sdk::pubkey::Pubkey::new_from_array(account.bytes);
    let second = solana_sdk::pubkey::Pubkey::new_from_array(mint.bytes);
    let signer = solana_sdk::pubkey::Pubkey::new_from_array(authority.bytes);
    let made = spl_token::instruction::burn(&program, &first, &second, &signer, &[], amount).ok()?;
    let mut accounts: Vec<AccountMeta> = Vec::new();
    for m in made.accounts.iter() {
        let pubkey = Pubkey { bytes: m.pubkey.to_bytes() };
        accounts.push(AccountMeta { pubkey, is_signer: m.is_signer, is_writable: m.is_writable });
    }
    Some(Instruction { program_id: Pubkey { bytes: made.program_id.to_bytes() }, accounts, data: made.data })
}

} // verus!
