//! What holds of the module as a whole, proved from the contracts of its
//! functions.

use crate::address::Address;
use crate::call::InvocationView;
use crate::deriver::{derivation, derived_view, verifies, DeriveError, DerivedAddress};
use crate::dispatch::{instruction_outcome, opcode_of, required_accounts, Opcode};
use crate::error::LedgerError;
use crate::execution::{first_step, next_step, performed};
use crate::reserve::{
    authority_seeds, close_reserve_outcome, create_reserve_outcome, mint_collateral_outcome,
    reserve_seeds, CloseReserveAccounts, CreateReserveAccounts, MintCollateralAccounts,
};
use crate::seeds::seeds_within_limits;
use solana_program::program_error::ProgramError;
use vstd::prelude::*;

verus! {

/// Derivation is deterministic: any two results of `derive` for the same
/// seed tuple and module identity are the same address with the same bump
/// seed, or the same failure.
pub proof fn derive_is_deterministic(
    seeds: Seq<Seq<u8>>,
    module_id: Seq<u8>,
    first: Result<DerivedAddress, DeriveError>,
    second: Result<DerivedAddress, DeriveError>,
)
    requires
        derived_view(first) == derivation(seeds, module_id),
        derived_view(second) == derivation(seeds, module_id),
    ensures
        first == second,
{
    match (first, second) {
        (Ok(a), Ok(b)) => {
            Address::eq_is_view_eq(a.address, b.address);
        },
        _ => {},
    }
}

/// `verify` accepts the address that `derive` returns for the same seed
/// tuple and module identity, and rejects every other address.
pub proof fn verify_accepts_the_derived_address_only(
    seeds: Seq<Seq<u8>>,
    module_id: Seq<u8>,
    derived: DerivedAddress,
    candidate: Address,
)
    requires
        derivation(seeds, module_id) == Ok::<(Seq<u8>, u8), DeriveError>(derived@),
    ensures
        verifies(derived.address@, seeds, module_id),
        candidate != derived.address ==> !verifies(candidate@, seeds, module_id),
{
    Address::eq_is_view_eq(candidate, derived.address);
}

/// Where no address can be derived, `verify` rejects every address; this is
/// so, in particular, of every seed tuple outside the runtime's limits.
pub proof fn verify_rejects_all_without_a_derivation(
    seeds: Seq<Seq<u8>>,
    module_id: Seq<u8>,
    candidate: Address,
)
    requires
        derivation(seeds, module_id) is Err,
    ensures
        !verifies(candidate@, seeds, module_id),
        !seeds_within_limits(seeds) ==> derivation(seeds, module_id) == Err::<
            (Seq<u8>, u8),
            DeriveError,
        >(DeriveError::SeedsOutOfBounds),
{
}

/// A plan that failed invokes nothing: whatever outcomes the host could
/// offer, no invocation is handed out and the planning failure is the
/// result.
pub proof fn failed_planning_invokes_nothing(
    failure: LedgerError,
    outcomes: Seq<Result<(), ProgramError>>,
)
    ensures
        performed(first_step(Err(failure)), outcomes) == (
            Seq::<InvocationView>::empty(),
            Some(Err::<(), LedgerError>(failure)),
        ),
{
}

/// When every invocation succeeds, the whole plan is performed, in order,
/// and the result is success.
pub proof fn successes_perform_the_whole_plan(
    plan: Seq<InvocationView>,
    outcomes: Seq<Result<(), ProgramError>>,
)
    requires
        plan.len() <= outcomes.len(),
        forall|i: int| 0 <= i < plan.len() ==> (#[trigger] outcomes[i]) is Ok,
    ensures
        performed(next_step(plan), outcomes) == (plan, Some(Ok::<(), LedgerError>(()))),
    decreases plan.len(),
{
    if plan.len() > 0 {
        successes_perform_the_whole_plan(plan.skip(1), outcomes.skip(1));
    }
}

/// The first failure ends the run: the invocations before it and the failed
/// one are the only ones handed out, none after it is, and the callee's
/// error is the result, unchanged.
pub proof fn first_failure_ends_the_run(
    plan: Seq<InvocationView>,
    outcomes: Seq<Result<(), ProgramError>>,
    failed: int,
    failure: ProgramError,
)
    requires
        0 <= failed < plan.len(),
        failed < outcomes.len(),
        forall|i: int| 0 <= i < failed ==> (#[trigger] outcomes[i]) is Ok,
        outcomes[failed] == Err::<(), ProgramError>(failure),
    ensures
        performed(next_step(plan), outcomes) == (
            plan.take(failed + 1),
            Some(Err::<(), LedgerError>(LedgerError::ExternalInvocationFailure(failure))),
        ),
    decreases failed,
{
    if failed == 0 {
        reveal_with_fuel(performed, 2);
    } else {
        first_failure_ends_the_run(plan.skip(1), outcomes.skip(1), failed - 1, failure);
    }
}

/// A CreateReserve whose reserve address is not the one derived from the
/// reserve seeds fails with `AddressMismatch`, and performing it invokes
/// nothing: no account is allocated.
pub proof fn mismatched_reserve_is_not_created(
    module_id: Seq<u8>,
    accounts: CreateReserveAccounts,
    rent_exempt_minimum: u64,
    outcomes: Seq<Result<(), ProgramError>>,
)
    requires
        !verifies(accounts.reserve@, reserve_seeds(), module_id),
    ensures
        create_reserve_outcome(module_id, accounts, rent_exempt_minimum) == Err::<
            Seq<InvocationView>,
            LedgerError,
        >(LedgerError::AddressMismatch),
        performed(
            first_step(create_reserve_outcome(module_id, accounts, rent_exempt_minimum)),
            outcomes,
        ).0.len() == 0,
{
}

/// A CloseReserve whose reserve address is not the one derived from the
/// reserve seeds fails with `AddressMismatch`, and performing it invokes
/// nothing.
pub proof fn mismatched_reserve_is_not_closed(
    module_id: Seq<u8>,
    accounts: CloseReserveAccounts,
    outcomes: Seq<Result<(), ProgramError>>,
)
    requires
        !verifies(accounts.reserve@, reserve_seeds(), module_id),
    ensures
        close_reserve_outcome(module_id, accounts) == Err::<Seq<InvocationView>, LedgerError>(
            LedgerError::AddressMismatch,
        ),
        performed(first_step(close_reserve_outcome(module_id, accounts)), outcomes).0.len() == 0,
{
}

/// A MintCollateral whose authority is not the address derived from the
/// authority seeds fails with `AddressMismatch` before the token program is
/// invoked: performing it invokes nothing.
pub proof fn mismatched_authority_mints_nothing(
    module_id: Seq<u8>,
    accounts: MintCollateralAccounts,
    outcomes: Seq<Result<(), ProgramError>>,
)
    requires
        !verifies(accounts.authority@, authority_seeds(), module_id),
    ensures
        mint_collateral_outcome(module_id, accounts) == Err::<Seq<InvocationView>, LedgerError>(
            LedgerError::AddressMismatch,
        ),
        performed(first_step(mint_collateral_outcome(module_id, accounts)), outcomes).0.len()
            == 0,
{
}

/// CreateReserve and CloseReserve are planned for the same reserve
/// addresses, and what the second closes is what the first allocated: the
/// account created and initialized is the account closed, under the same
/// authority and signed with the same seeds.
pub proof fn close_plans_for_the_account_that_create_allocated(
    module_id: Seq<u8>,
    created: CreateReserveAccounts,
    closed: CloseReserveAccounts,
    rent_exempt_minimum: u64,
)
    requires
        created.reserve == closed.reserve,
    ensures
        create_reserve_outcome(module_id, created, rent_exempt_minimum) is Ok
            <==> close_reserve_outcome(module_id, closed) is Ok,
        create_reserve_outcome(module_id, created, rent_exempt_minimum) matches Ok(create)
            ==> close_reserve_outcome(module_id, closed) matches Ok(close) ==> {
            &&& create.len() == 2
            &&& close.len() == 1
            &&& create[0].call.accounts[1].address == created.reserve@
            &&& create[1].call.accounts[0].address == created.reserve@
            &&& create[1].call.accounts[2].address == created.reserve@
            &&& close[0].call.accounts[0].address == created.reserve@
            &&& close[0].call.accounts[2].address == created.reserve@
            &&& close[0].call.program == create[1].call.program
            &&& close[0].signer_seeds == create[0].signer_seeds
            &&& close[0].signer_seeds == create[1].signer_seeds
        },
{
}

/// An instruction without an opcode byte is unsupported, whatever accounts
/// come with it.
pub proof fn empty_payload_is_unsupported(
    module_id: Seq<u8>,
    accounts: Seq<Address>,
    payload: Seq<u8>,
    rent_exempt_minimum: u64,
)
    requires
        payload.len() == 0,
    ensures
        instruction_outcome(module_id, accounts, payload, rent_exempt_minimum) == Err::<
            Seq<InvocationView>,
            LedgerError,
        >(LedgerError::UnsupportedInstruction),
{
}

/// An instruction whose first byte is none of the three opcodes is
/// unsupported, whatever accounts come with it.
pub proof fn unknown_opcode_is_unsupported(
    module_id: Seq<u8>,
    accounts: Seq<Address>,
    payload: Seq<u8>,
    rent_exempt_minimum: u64,
)
    requires
        payload.len() > 0,
        payload[0] > 2,
    ensures
        instruction_outcome(module_id, accounts, payload, rent_exempt_minimum) == Err::<
            Seq<InvocationView>,
            LedgerError,
        >(LedgerError::UnsupportedInstruction),
{
}

/// An instruction whose opcode is known and which supplies fewer accounts
/// than the operation reads fails with `MissingAccount`.
pub proof fn short_account_list_misses_an_account(
    module_id: Seq<u8>,
    accounts: Seq<Address>,
    payload: Seq<u8>,
    rent_exempt_minimum: u64,
    opcode: Opcode,
)
    requires
        opcode_of(payload) == Some(opcode),
        accounts.len() < required_accounts(opcode),
    ensures
        instruction_outcome(module_id, accounts, payload, rent_exempt_minimum) == Err::<
            Seq<InvocationView>,
            LedgerError,
        >(LedgerError::MissingAccount),
{
}

/// A payload with opcode 0 and fewer than six accounts fails with
/// `MissingAccount`, whatever follows the opcode byte.
pub proof fn create_with_fewer_than_six_accounts_misses_one(
    module_id: Seq<u8>,
    accounts: Seq<Address>,
    payload: Seq<u8>,
    rent_exempt_minimum: u64,
)
    requires
        payload.len() > 0,
        payload[0] == 0,
        accounts.len() < 6,
    ensures
        instruction_outcome(module_id, accounts, payload, rent_exempt_minimum) == Err::<
            Seq<InvocationView>,
            LedgerError,
        >(LedgerError::MissingAccount),
{
}

/// Every account that a planned invocation hands to its callee is one of
/// the accounts supplied with the instruction.
pub proof fn planned_handles_are_supplied(
    module_id: Seq<u8>,
    accounts: Seq<Address>,
    payload: Seq<u8>,
    rent_exempt_minimum: u64,
)
    ensures
        instruction_outcome(module_id, accounts, payload, rent_exempt_minimum) matches Ok(plan)
            ==> forall|i: int, j: int|
            0 <= i < plan.len() && 0 <= j < plan[i].handles.len() ==> (
            #[trigger] plan[i].handles[j]) < accounts.len(),
{
}

/// Whether `invocation` is signed with `seeds` followed by `bump`, and names
/// in position `k` the address that `seeds` derive for the module, with that
/// bump seed.
pub open spec fn signed_with(
    invocation: InvocationView,
    module_id: Seq<u8>,
    seeds: Seq<Seq<u8>>,
    bump: u8,
    k: int,
) -> bool {
    &&& invocation.signer_seeds == seeds.push(seq![bump])
    &&& 0 <= k < invocation.call.accounts.len()
    &&& derivation(seeds, module_id) == Ok::<(Seq<u8>, u8), DeriveError>(
        (invocation.call.accounts[k].address, bump),
    )
}

/// Whether `invocation` is signed for an address that it names and that is
/// derived for the module: its signing seeds are a seed tuple followed by
/// the bump seed with which that tuple derives the address.
pub open spec fn signs_for_derived_address(invocation: InvocationView, module_id: Seq<u8>) -> bool {
    exists|seeds: Seq<Seq<u8>>, bump: u8, k: int|
        #[trigger] signed_with(invocation, module_id, seeds, bump, k)
}

/// Every invocation planned for an instruction is signed with the seeds,
/// bump seed included, that derive for the module an address which the
/// invocation names: the signature can be reproduced from the seeds alone,
/// and only for an address of the module's own.
pub proof fn planned_invocations_sign_for_a_derived_address(
    module_id: Seq<u8>,
    accounts: Seq<Address>,
    payload: Seq<u8>,
    rent_exempt_minimum: u64,
)
    ensures
        instruction_outcome(module_id, accounts, payload, rent_exempt_minimum) matches Ok(plan)
            ==> forall|i: int|
            0 <= i < plan.len() ==> signs_for_derived_address(#[trigger] plan[i], module_id),
{
    if let Ok(plan) = instruction_outcome(module_id, accounts, payload, rent_exempt_minimum) {
        let opcode = opcode_of(payload).unwrap();
        assert forall|i: int| 0 <= i < plan.len() implies signs_for_derived_address(
            #[trigger] plan[i],
            module_id,
        ) by {
            match opcode {
                Opcode::CreateReserve => {
                    let found = derivation(reserve_seeds(), module_id).unwrap();
                    let k: int = if i == 0 {
                        1
                    } else {
                        0
                    };
                    assert(signed_with(plan[i], module_id, reserve_seeds(), found.1, k));
                },
                Opcode::CloseReserve => {
                    let found = derivation(reserve_seeds(), module_id).unwrap();
                    assert(signed_with(plan[i], module_id, reserve_seeds(), found.1, 0));
                },
                Opcode::MintCollateral => {
                    let found = derivation(authority_seeds(), module_id).unwrap();
                    assert(signed_with(plan[i], module_id, authority_seeds(), found.1, 2));
                },
            }
        }
    }
}

} // verus!
