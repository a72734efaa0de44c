//! The two external programs that the module calls, the allocation service
//! and the token program: their identities and the requests they accept.

use crate::address::Address;
use crate::call::{
    readonly, readonly_signer, writable, writable_signer, AccountRole, Call, CallView,
};
use solana_program::program_error::ProgramError;
use solana_program::program_pack::Pack;
use solana_program::pubkey::Pubkey;
use vstd::bytes::spec_u64_to_le_bytes;
use vstd::prelude::*;

verus! {

/// Size in bytes of the token program's account record.
pub const TOKEN_ACCOUNT_LEN: usize = 165;

/// Identity of the allocation service (the runtime's system program).
pub open spec fn system_program_id() -> Seq<u8> {
    seq![
        0u8, 0, 0, 0, 0, 0, 0, 0, 0, 0, 0, 0, 0, 0, 0, 0,
        0, 0, 0, 0, 0, 0, 0, 0, 0, 0, 0, 0, 0, 0, 0, 0,
    ]
}

/// Identity of the token program.
pub open spec fn token_program_id() -> Seq<u8> {
    seq![
        6u8, 221, 246, 225, 215, 101, 161, 147, 217, 203, 225, 70, 206, 235, 121, 172,
        28, 180, 133, 237, 95, 91, 55, 145, 58, 140, 245, 133, 126, 255, 0, 169,
    ]
}

/// Address of the account in which the runtime publishes its rent schedule.
pub open spec fn rent_sysvar_id() -> Seq<u8> {
    seq![
        6u8, 167, 213, 23, 25, 44, 92, 81, 33, 140, 201, 76, 61, 74, 241, 127,
        88, 218, 238, 8, 155, 161, 253, 68, 227, 219, 217, 138, 0, 0, 0, 0,
    ]
}

/// The request bytes with which the allocation service is asked to create an
/// account holding `lamports`, of `space` bytes, owned by `owner`.
pub uninterp spec fn create_account_data(lamports: u64, space: u64, owner: Seq<u8>) -> Seq<u8>;

/// The call that asks the allocation service to create the account `to`,
/// paid for by `from`.
pub open spec fn create_account_call(
    from: Seq<u8>,
    to: Seq<u8>,
    lamports: u64,
    space: u64,
    owner: Seq<u8>,
) -> CallView {
    CallView {
        program: system_program_id(),
        accounts: seq![writable_signer(from), writable_signer(to)],
        data: create_account_data(lamports, space, owner),
    }
}

/// The call that asks the token program to initialize `account` as a record
/// holding tokens of `mint` under the authority of `owner`.
pub open spec fn initialize_account_call(
    program: Seq<u8>,
    account: Seq<u8>,
    mint: Seq<u8>,
    owner: Seq<u8>,
) -> CallView {
    CallView {
        program,
        accounts: seq![
            writable(account),
            readonly(mint),
            readonly(owner),
            readonly(rent_sysvar_id()),
        ],
        data: seq![1u8],
    }
}

/// The call that asks the token program to close `account` and send what it
/// holds to `destination`, on the signature of `owner`.
pub open spec fn close_account_call(
    program: Seq<u8>,
    account: Seq<u8>,
    destination: Seq<u8>,
    owner: Seq<u8>,
) -> CallView {
    CallView {
        program,
        accounts: seq![writable(account), writable(destination), readonly_signer(owner)],
        data: seq![9u8],
    }
}

/// The call that asks the token program to mint `amount` tokens of `mint`
/// into `account`, on the signature of the mint authority `owner`.
pub open spec fn mint_to_call(
    program: Seq<u8>,
    mint: Seq<u8>,
    account: Seq<u8>,
    owner: Seq<u8>,
    amount: u64,
) -> CallView {
    CallView {
        program,
        accounts: seq![writable(mint), writable(account), readonly_signer(owner)],
        data: seq![7u8] + spec_u64_to_le_bytes(amount),
    }
}

/// Calls `spl_token::id`.
///
/// Trusted: it returns the token program's identity, the 32 bytes written
/// out in `token_program_id`.
#[verifier::external_body]
pub(crate) fn token_program() -> (id: Address)
    ensures
        id@ == token_program_id(),
{
    Address { bytes: spl_token::id().to_bytes() }
}

/// Calls `get_packed_len` of `solana_program::program_pack::Pack` on
/// `spl_token::state::Account`.
///
/// Trusted: it returns the constant size of the token program's account
/// record, 165 bytes.
#[verifier::external_body]
pub(crate) fn token_account_len() -> (len: usize)
    ensures
        len == TOKEN_ACCOUNT_LEN,
{
    spl_token::state::Account::get_packed_len()
}

/// Calls `solana_program::system_instruction::create_account`.
///
/// Trusted: the call built is addressed to the system program and names
/// `from` and `to`, in that order, both writable and both signing; its
/// request bytes are a function of `lamports`, `space` and `owner` alone,
/// named `create_account_data`.
#[verifier::external_body]
pub(crate) fn system_create_account(
    from: &Address,
    to: &Address,
    lamports: u64,
    space: u64,
    owner: &Address,
) -> (call: Call)
    ensures
        call@.program == system_program_id(),
        call@.accounts == seq![writable_signer(from@), writable_signer(to@)],
        call@.data == create_account_data(lamports, space, owner@),
{
    let built = solana_program::system_instruction::create_account(
        &Pubkey::new_from_array(from.bytes),
        &Pubkey::new_from_array(to.bytes),
        lamports,
        space,
        &Pubkey::new_from_array(owner.bytes),
    );
    let accounts = built.accounts.iter()
        .map(|m| AccountRole::of(m.pubkey.to_bytes(), m.is_signer, m.is_writable))
        .collect();
    Call { program: Address::new(built.program_id.to_bytes()), accounts, data: built.data }
}

/// Calls `spl_token::instruction::initialize_account`.
///
/// Trusted: it fails exactly when `program` is not the token program;
/// otherwise the call built is addressed to `program`, names `account`
/// (writable), `mint`, `owner` and the rent sysvar (read-only), none of
/// them signing, and its request is the single byte 1.
#[verifier::external_body]
pub(crate) fn token_initialize_account(
    program: &Address,
    account: &Address,
    mint: &Address,
    owner: &Address,
) -> (built: Result<Call, ProgramError>)
    ensures
        built is Ok <==> program@ == token_program_id(),
        built matches Ok(call) ==> call@ == initialize_account_call(
            program@,
            account@,
            mint@,
            owner@,
        ),
{
    let built = spl_token::instruction::initialize_account(
        &Pubkey::new_from_array(program.bytes),
        &Pubkey::new_from_array(account.bytes),
        &Pubkey::new_from_array(mint.bytes),
        &Pubkey::new_from_array(owner.bytes),
    )?;
    let accounts = built.accounts.iter()
        .map(|m| AccountRole::of(m.pubkey.to_bytes(), m.is_signer, m.is_writable))
        .collect();
    Ok(Call { program: Address::new(built.program_id.to_bytes()), accounts, data: built.data })
}

/// Calls `spl_token::instruction::close_account`, with no multisignature
/// signers.
///
/// Trusted: it fails exactly when `program` is not the token program;
/// otherwise the call built is addressed to `program`, names `account` and
/// `destination` (writable, not signing) and `owner` (read-only, signing),
/// and its request is the single byte 9.
#[verifier::external_body]
pub(crate) fn token_close_account(
    program: &Address,
    account: &Address,
    destination: &Address,
    owner: &Address,
) -> (built: Result<Call, ProgramError>)
    ensures
        built is Ok <==> program@ == token_program_id(),
        built matches Ok(call) ==> call@ == close_account_call(
            program@,
            account@,
            destination@,
            owner@,
        ),
{
    let built = spl_token::instruction::close_account(
        &Pubkey::new_from_array(program.bytes),
        &Pubkey::new_from_array(account.bytes),
        &Pubkey::new_from_array(destination.bytes),
        &Pubkey::new_from_array(owner.bytes),
        &[],
    )?;
    let accounts = built.accounts.iter()
        .map(|m| AccountRole::of(m.pubkey.to_bytes(), m.is_signer, m.is_writable))
        .collect();
    Ok(Call { program: Address::new(built.program_id.to_bytes()), accounts, data: built.data })
}

/// Calls `spl_token::instruction::mint_to`, with no multisignature signers.
///
/// Trusted: it fails exactly when `program` is not the token program;
/// otherwise the call built is addressed to `program`, names `mint` and
/// `account` (writable, not signing) and `owner` (read-only, signing), and
/// its request is the byte 7 followed by `amount` in eight little-endian
/// bytes.
#[verifier::external_body]
pub(crate) fn token_mint_to(
    program: &Address,
    mint: &Address,
    account: &Address,
    owner: &Address,
    amount: u64,
) -> (built: Result<Call, ProgramError>)
    ensures
        built is Ok <==> program@ == token_program_id(),
        built matches Ok(call) ==> call@ == mint_to_call(program@, mint@, account@, owner@, amount),
{
    let built = spl_token::instruction::mint_to(
        &Pubkey::new_from_array(program.bytes),
        &Pubkey::new_from_array(mint.bytes),
        &Pubkey::new_from_array(account.bytes),
        &Pubkey::new_from_array(owner.bytes),
        &[],
        amount,
    )?;
    let accounts = built.accounts.iter()
        .map(|m| AccountRole::of(m.pubkey.to_bytes(), m.is_signer, m.is_writable))
        .collect();
    Ok(Call { program: Address::new(built.program_id.to_bytes()), accounts, data: built.data })
}

} // verus!
