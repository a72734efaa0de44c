use solana_program::program_error::ProgramError;
use solana_program::pubkey::Pubkey;
use tranched_liquidity::address::Address;
use tranched_liquidity::call::Invocation;
use tranched_liquidity::error::LedgerError;
use tranched_liquidity::execution::{Execution, Progress};
use tranched_liquidity::reserve;
use tranched_liquidity::reserve::{CloseReserveAccounts, CreateReserveAccounts};

fn creation() -> Vec<Invocation> {
    let accounts = CreateReserveAccounts {
        reserve: Address::new([77u8; 32]),
        funder: Address::new([11u8; 32]),
        external_mint: Address::new([12u8; 32]),
        allocator_service: Address::new([0u8; 32]),
        token_program: Address::new(spl_token::id().to_bytes()),
        rent_oracle: Address::new(solana_program::sysvar::rent::id().to_bytes()),
    };
    reserve::creation_plan(&accounts, 254, 2_039_280).unwrap()
}

fn perform(
    planned: Result<Vec<Invocation>, LedgerError>,
    outcomes: Vec<Result<(), ProgramError>>,
) -> (Vec<Invocation>, Result<(), LedgerError>) {
    let mut issued = Vec::new();
    let mut outcomes = outcomes.into_iter();
    let mut progress = Execution::begin(planned);
    loop {
        match progress {
            Progress::Finished(result) => return (issued, result),
            Progress::Invoke { invocation, rest } => {
                issued.push(invocation);
                progress = rest.resume(outcomes.next().expect("an outcome for each invocation"));
            }
        }
    }
}

#[test]
fn a_plan_is_performed_in_order_when_all_succeeds() {
    let (issued, result) = perform(Ok(creation()), vec![Ok(()), Ok(())]);
    assert_eq!(issued, creation());
    assert_eq!(result, Ok(()));
}

#[test]
fn the_first_invocation_is_handed_out_with_the_rest_kept() {
    match Execution::begin(Ok(creation())) {
        Progress::Invoke { invocation, rest } => {
            assert_eq!(invocation, creation()[0]);
            assert_eq!(rest.remaining(), 1);
            match rest.resume(Ok(())) {
                Progress::Invoke { invocation, rest } => {
                    assert_eq!(invocation, creation()[1]);
                    assert_eq!(rest.remaining(), 0);
                    assert_eq!(rest.resume(Ok(())), Progress::Finished(Ok(())));
                }
                Progress::Finished(_) => panic!("the second invocation follows a success"),
            }
        }
        Progress::Finished(_) => panic!("a plan of two begins with an invocation"),
    }
}

#[test]
fn a_failed_allocation_ends_the_run_before_initialization() {
    let failure = ProgramError::Custom(0);
    let (issued, result) = perform(Ok(creation()), vec![Err(failure.clone())]);
    assert_eq!(issued, vec![creation().remove(0)]);
    assert_eq!(result, Err(LedgerError::ExternalInvocationFailure(failure)));
}

#[test]
fn a_failed_initialization_is_passed_on_unchanged() {
    for failure in [
        ProgramError::InsufficientFunds,
        ProgramError::AccountAlreadyInitialized,
        ProgramError::Custom(11),
        ProgramError::BorshIoError("short".to_string()),
    ] {
        let (issued, result) = perform(Ok(creation()), vec![Ok(()), Err(failure.clone())]);
        assert_eq!(issued, creation());
        assert_eq!(result, Err(LedgerError::ExternalInvocationFailure(failure)));
    }
}

#[test]
fn a_failed_planning_invokes_nothing() {
    for failure in [
        LedgerError::AddressMismatch,
        LedgerError::MissingAccount,
        LedgerError::UnsupportedInstruction,
    ] {
        let expected = format!("{:?}", failure);
        let (issued, result) = perform(Err(failure), vec![]);
        assert!(issued.is_empty());
        assert_eq!(format!("{:?}", result.unwrap_err()), expected);
    }
    assert_eq!(
        Execution::begin(Err(LedgerError::AddressMismatch)),
        Progress::Finished(Err(LedgerError::AddressMismatch))
    );
}

#[test]
fn an_empty_plan_finishes_with_success() {
    assert_eq!(Execution::begin(Ok(Vec::new())), Progress::Finished(Ok(())));
}

#[test]
fn a_mismatched_reserve_is_neither_created_nor_closed() {
    let module = Pubkey::new_from_array([42u8; 32]);
    let id = Address::new(module.to_bytes());
    let accounts = CreateReserveAccounts {
        reserve: Address::new([77u8; 32]),
        funder: Address::new([11u8; 32]),
        external_mint: Address::new([12u8; 32]),
        allocator_service: Address::new([0u8; 32]),
        token_program: Address::new(spl_token::id().to_bytes()),
        rent_oracle: Address::new(solana_program::sysvar::rent::id().to_bytes()),
    };
    let (issued, result) = perform(reserve::create_reserve(&id, &accounts, 2_039_280), vec![]);
    assert!(issued.is_empty());
    assert_eq!(result, Err(LedgerError::AddressMismatch));
    let closing = CloseReserveAccounts {
        reserve: accounts.reserve,
        refund_recipient: accounts.funder,
        token_program: accounts.token_program,
    };
    let (issued, result) = perform(reserve::close_reserve(&id, &closing), vec![]);
    assert!(issued.is_empty());
    assert_eq!(result, Err(LedgerError::AddressMismatch));
}
