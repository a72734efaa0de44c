//! The reserve lifecycle: creating and closing a reserve account held under
//! a derived address, and minting collateral under a derived authority.
//!
//! Each operation checks the supplied address against its derivation and
//! then plans the cross-contract invocations to perform, in order. Nothing
//! is planned when the check fails.

use crate::address::Address;
use crate::call::{plan_view, Invocation, InvocationView};
use crate::deriver::{authorization, authorize};
use crate::error::LedgerError;
use crate::programs::{
    close_account_call, create_account_call, initialize_account_call, mint_to_call,
    system_create_account, token_account_len, token_close_account, token_initialize_account,
    token_mint_to, token_program, token_program_id, TOKEN_ACCOUNT_LEN,
};
use crate::seeds::SeedTuple;
use vstd::prelude::*;

verus! {

/// Domain tag of reserve accounts: the ASCII bytes of `program-token`.
pub const RESERVE_TAG: [u8; 13] = [112, 114, 111, 103, 114, 97, 109, 45, 116, 111, 107, 101, 110];

/// Domain tag of the collateral authority: the ASCII bytes of
/// `collateral-auth-a`.
pub const AUTHORITY_TAG: [u8; 17] = [
    99, 111, 108, 108, 97, 116, 101, 114, 97, 108, 45, 97, 117, 116, 104, 45, 97,
];

/// Quantity of collateral minted by one `mint_collateral`.
pub const COLLATERAL_QUANTITY: u64 = 1_000_000;

/// The accounts of a CreateReserve instruction, in the order in which the
/// instruction lists them.
#[derive(Clone, Copy, Debug, PartialEq, Eq)]
pub struct CreateReserveAccounts {
    pub reserve: Address,
    pub funder: Address,
    pub external_mint: Address,
    pub allocator_service: Address,
    pub token_program: Address,
    pub rent_oracle: Address,
}

/// The accounts of a CloseReserve instruction, in order.
#[derive(Clone, Copy, Debug, PartialEq, Eq)]
pub struct CloseReserveAccounts {
    pub reserve: Address,
    pub refund_recipient: Address,
    pub token_program: Address,
}

/// The accounts of a MintCollateral instruction, in order.
#[derive(Clone, Copy, Debug, PartialEq, Eq)]
pub struct MintCollateralAccounts {
    pub wallet: Address,
    pub reserve: Address,
    pub authority: Address,
    pub collateral_mint: Address,
    pub token_program: Address,
    pub rent_oracle: Address,
}

/// The seed tuple of reserve accounts.
pub open spec fn reserve_seeds() -> Seq<Seq<u8>> {
    seq![RESERVE_TAG@]
}

/// The seed tuple of the collateral authority.
pub open spec fn authority_seeds() -> Seq<Seq<u8>> {
    seq![AUTHORITY_TAG@]
}

/// The balance a new reserve account is created with: the rent-exempt
/// minimum, and at least one unit.
pub open spec fn funding(rent_exempt_minimum: u64) -> u64 {
    if rent_exempt_minimum < 1 {
        1
    } else {
        rent_exempt_minimum
    }
}

/// The invocations that create a reserve whose address was derived with
/// `bump`: first the allocation of the account, owned by the token program
/// and sized to its record, then its initialization as a token record of
/// the external mint under its own authority. Both are signed with the
/// reserve's seeds.
pub open spec fn create_reserve_plan(
    accounts: CreateReserveAccounts,
    bump: u8,
    rent_exempt_minimum: u64,
) -> Seq<InvocationView> {
    seq![
        InvocationView {
            call: create_account_call(
                accounts.funder@,
                accounts.reserve@,
                funding(rent_exempt_minimum),
                TOKEN_ACCOUNT_LEN as u64,
                token_program_id(),
            ),
            handles: seq![1usize, 0usize, 3usize],
            signer_seeds: reserve_seeds().push(seq![bump]),
        },
        InvocationView {
            call: initialize_account_call(
                token_program_id(),
                accounts.reserve@,
                accounts.external_mint@,
                accounts.reserve@,
            ),
            handles: seq![0usize, 2usize, 4usize, 5usize],
            signer_seeds: reserve_seeds().push(seq![bump]),
        },
    ]
}

/// The one invocation that closes a reserve whose address was derived with
/// `bump`, signed with the reserve's seeds.
pub open spec fn close_reserve_plan(accounts: CloseReserveAccounts, bump: u8) -> Seq<
    InvocationView,
> {
    seq![
        InvocationView {
            call: close_account_call(
                token_program_id(),
                accounts.reserve@,
                accounts.refund_recipient@,
                accounts.reserve@,
            ),
            handles: seq![0usize, 1usize, 2usize],
            signer_seeds: reserve_seeds().push(seq![bump]),
        },
    ]
}

/// The one invocation that mints collateral under an authority whose
/// address was derived with `bump`, signed with the authority's seeds.
pub open spec fn mint_collateral_plan(accounts: MintCollateralAccounts, bump: u8) -> Seq<
    InvocationView,
> {
    seq![
        InvocationView {
            call: mint_to_call(
                token_program_id(),
                accounts.collateral_mint@,
                accounts.wallet@,
                accounts.authority@,
                COLLATERAL_QUANTITY,
            ),
            handles: seq![3usize, 0usize, 2usize, 4usize],
            signer_seeds: authority_seeds().push(seq![bump]),
        },
    ]
}

/// What `create_reserve` returns.
pub open spec fn create_reserve_outcome(
    module_id: Seq<u8>,
    accounts: CreateReserveAccounts,
    rent_exempt_minimum: u64,
) -> Result<Seq<InvocationView>, LedgerError> {
    match authorization(accounts.reserve@, reserve_seeds(), module_id) {
        Some(bump) => Ok(create_reserve_plan(accounts, bump, rent_exempt_minimum)),
        None => Err(LedgerError::AddressMismatch),
    }
}

/// What `close_reserve` returns.
pub open spec fn close_reserve_outcome(
    module_id: Seq<u8>,
    accounts: CloseReserveAccounts,
) -> Result<Seq<InvocationView>, LedgerError> {
    match authorization(accounts.reserve@, reserve_seeds(), module_id) {
        Some(bump) => Ok(close_reserve_plan(accounts, bump)),
        None => Err(LedgerError::AddressMismatch),
    }
}

/// What `mint_collateral` returns.
pub open spec fn mint_collateral_outcome(
    module_id: Seq<u8>,
    accounts: MintCollateralAccounts,
) -> Result<Seq<InvocationView>, LedgerError> {
    match authorization(accounts.authority@, authority_seeds(), module_id) {
        Some(bump) => Ok(mint_collateral_plan(accounts, bump)),
        None => Err(LedgerError::AddressMismatch),
    }
}

/// The model of a planning result.
pub open spec fn planned_view(planned: Result<Vec<Invocation>, LedgerError>) -> Result<
    Seq<InvocationView>,
    LedgerError,
> {
    match planned {
        Ok(plan) => Ok(plan_view(plan@)),
        Err(e) => Err(e),
    }
}

/// The balance to create a reserve account with, given the rent-exempt
/// minimum for its size.
pub fn reserve_funding(rent_exempt_minimum: u64) -> (lamports: u64)
    ensures
        lamports == funding(rent_exempt_minimum),
{
    if rent_exempt_minimum < 1 {
        1
    } else {
        rent_exempt_minimum
    }
}

/// The seeds that sign for the address derived from the one-component tuple
/// `tag` with `bump`.
fn signing_seeds(tag: &[u8], bump: u8) -> (seeds: SeedTuple)
    ensures
        seeds@ == seq![tag@].push(seq![bump]),
{
    SeedTuple::single(tag).with_bump(bump)
}

/// Plans the creation of a reserve whose address was derived with `bump`:
/// the two invocations of `create_reserve_plan`, in order.
///
/// The token program's requests are built for the token program's own
/// identity, which is the one identity they are built for: planning does
/// not fail.
pub fn creation_plan(
    accounts: &CreateReserveAccounts,
    bump: u8,
    rent_exempt_minimum: u64,
) -> (planned: Result<Vec<Invocation>, LedgerError>)
    ensures
        planned_view(planned) == Ok::<Seq<InvocationView>, LedgerError>(
            create_reserve_plan(*accounts, bump, rent_exempt_minimum),
        ),
{
    let token = token_program();
    let space = token_account_len() as u64;
    let create = system_create_account(
        &accounts.funder,
        &accounts.reserve,
        reserve_funding(rent_exempt_minimum),
        space,
        &token,
    );
    let initialize = match token_initialize_account(
        &token,
        &accounts.reserve,
        &accounts.external_mint,
        &accounts.reserve,
    ) {
        Ok(call) => call,
        Err(e) => {
            return Err(LedgerError::ExternalInvocationFailure(e));
        },
    };
    let mut plan: Vec<Invocation> = Vec::new();
    plan.push(
        Invocation {
            call: create,
            handles: vec![1, 0, 3],
            signer_seeds: signing_seeds(&RESERVE_TAG, bump),
        },
    );
    plan.push(
        Invocation {
            call: initialize,
            handles: vec![0, 2, 4, 5],
            signer_seeds: signing_seeds(&RESERVE_TAG, bump),
        },
    );
    assert(plan_view(plan@) =~= create_reserve_plan(*accounts, bump, rent_exempt_minimum));
    Ok(plan)
}

/// Plans the closing of a reserve whose address was derived with `bump`:
/// the invocation of `close_reserve_plan`. Planning does not fail.
pub fn closing_plan(accounts: &CloseReserveAccounts, bump: u8) -> (planned: Result<
    Vec<Invocation>,
    LedgerError,
>)
    ensures
        planned_view(planned) == Ok::<Seq<InvocationView>, LedgerError>(
            close_reserve_plan(*accounts, bump),
        ),
{
    let token = token_program();
    let close = match token_close_account(
        &token,
        &accounts.reserve,
        &accounts.refund_recipient,
        &accounts.reserve,
    ) {
        Ok(call) => call,
        Err(e) => {
            return Err(LedgerError::ExternalInvocationFailure(e));
        },
    };
    let mut plan: Vec<Invocation> = Vec::new();
    plan.push(
        Invocation {
            call: close,
            handles: vec![0, 1, 2],
            signer_seeds: signing_seeds(&RESERVE_TAG, bump),
        },
    );
    assert(plan_view(plan@) =~= close_reserve_plan(*accounts, bump));
    Ok(plan)
}

/// Plans the minting of collateral under an authority whose address was
/// derived with `bump`: the invocation of `mint_collateral_plan`. Planning
/// does not fail.
pub fn minting_plan(accounts: &MintCollateralAccounts, bump: u8) -> (planned: Result<
    Vec<Invocation>,
    LedgerError,
>)
    ensures
        planned_view(planned) == Ok::<Seq<InvocationView>, LedgerError>(
            mint_collateral_plan(*accounts, bump),
        ),
{
    let token = token_program();
    let mint = match token_mint_to(
        &token,
        &accounts.collateral_mint,
        &accounts.wallet,
        &accounts.authority,
        COLLATERAL_QUANTITY,
    ) {
        Ok(call) => call,
        Err(e) => {
            return Err(LedgerError::ExternalInvocationFailure(e));
        },
    };
    let mut plan: Vec<Invocation> = Vec::new();
    plan.push(
        Invocation {
            call: mint,
            handles: vec![3, 0, 2, 4],
            signer_seeds: signing_seeds(&AUTHORITY_TAG, bump),
        },
    );
    assert(plan_view(plan@) =~= mint_collateral_plan(*accounts, bump));
    Ok(plan)
}

/// Creates the reserve account at `accounts.reserve`, as far as planning
/// goes.
///
/// Fails with `AddressMismatch`, planning nothing, exactly when
/// `accounts.reserve` is not the address derived from the reserve seeds for
/// `module_id`. Otherwise returns the two invocations of
/// `create_reserve_plan`, to be performed in order.
pub fn create_reserve(
    module_id: &Address,
    accounts: &CreateReserveAccounts,
    rent_exempt_minimum: u64,
) -> (planned: Result<Vec<Invocation>, LedgerError>)
    ensures
        planned_view(planned) == create_reserve_outcome(
            module_id@,
            *accounts,
            rent_exempt_minimum,
        ),
{
    let seeds = SeedTuple::single(&RESERVE_TAG);
    match authorize(&accounts.reserve, &seeds, module_id) {
        Some(bump) => creation_plan(accounts, bump, rent_exempt_minimum),
        None => Err(LedgerError::AddressMismatch),
    }
}

/// Closes the reserve account at `accounts.reserve`, as far as planning
/// goes; its residual balance is to go to `accounts.refund_recipient`.
///
/// Fails with `AddressMismatch`, planning nothing, exactly when
/// `accounts.reserve` is not the address derived from the reserve seeds for
/// `module_id`. Otherwise returns the invocation of `close_reserve_plan`.
pub fn close_reserve(module_id: &Address, accounts: &CloseReserveAccounts) -> (planned: Result<
    Vec<Invocation>,
    LedgerError,
>)
    ensures
        planned_view(planned) == close_reserve_outcome(module_id@, *accounts),
{
    let seeds = SeedTuple::single(&RESERVE_TAG);
    match authorize(&accounts.reserve, &seeds, module_id) {
        Some(bump) => closing_plan(accounts, bump),
        None => Err(LedgerError::AddressMismatch),
    }
}

/// Mints `COLLATERAL_QUANTITY` units of `accounts.collateral_mint` to
/// `accounts.wallet`, as far as planning goes.
///
/// Fails with `AddressMismatch`, planning nothing, exactly when
/// `accounts.authority` is not the address derived from the authority seeds
/// for `module_id`. Otherwise returns the invocation of
/// `mint_collateral_plan`.
pub fn mint_collateral(module_id: &Address, accounts: &MintCollateralAccounts) -> (planned: Result<
    Vec<Invocation>,
    LedgerError,
>)
    ensures
        planned_view(planned) == mint_collateral_outcome(module_id@, *accounts),
{
    let seeds = SeedTuple::single(&AUTHORITY_TAG);
    match authorize(&accounts.authority, &seeds, module_id) {
        Some(bump) => minting_plan(accounts, bump),
        None => Err(LedgerError::AddressMismatch),
    }
}

} // verus!
