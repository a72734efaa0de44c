//! The instruction dispatcher: decodes the opcode byte, fits the supplied
//! accounts to the shape the operation expects, and hands them to the
//! matching operation of the reserve lifecycle.

use crate::address::Address;
use crate::call::{Invocation, InvocationView};
use crate::error::LedgerError;
use crate::reserve::{
    close_reserve, close_reserve_outcome, create_reserve, create_reserve_outcome, mint_collateral,
    mint_collateral_outcome, planned_view, CloseReserveAccounts, CreateReserveAccounts,
    MintCollateralAccounts,
};
use vstd::prelude::*;

verus! {

/// The operations of the module. The set is closed.
#[derive(Clone, Copy, Debug, PartialEq, Eq, Structural)]
pub enum Opcode {
    CreateReserve,
    CloseReserve,
    MintCollateral,
}

/// Position of the rent oracle in the accounts of a CreateReserve.
pub const RENT_ORACLE_POSITION: usize = 5;

/// The operation that an instruction payload asks for: its first byte
/// decides, and the bytes after it are not read.
pub open spec fn opcode_of(payload: Seq<u8>) -> Option<Opcode> {
    if payload.len() == 0 {
        None
    } else if payload[0] == 0 {
        Some(Opcode::CreateReserve)
    } else if payload[0] == 1 {
        Some(Opcode::CloseReserve)
    } else if payload[0] == 2 {
        Some(Opcode::MintCollateral)
    } else {
        None
    }
}

/// Number of accounts that an operation reads from the front of the
/// supplied list.
pub open spec fn required_accounts(opcode: Opcode) -> nat {
    match opcode {
        Opcode::CreateReserve => 6,
        Opcode::CloseReserve => 3,
        Opcode::MintCollateral => 6,
    }
}

/// What `decode_opcode` returns.
pub open spec fn decoded_opcode(payload: Seq<u8>) -> Result<Opcode, LedgerError> {
    match opcode_of(payload) {
        Some(opcode) => Ok(opcode),
        None => Err(LedgerError::UnsupportedInstruction),
    }
}

/// An operation with the accounts it works on, each under its own name.
#[derive(Clone, Copy, Debug, PartialEq, Eq)]
pub enum Operation {
    CreateReserve(CreateReserveAccounts),
    CloseReserve(CloseReserveAccounts),
    MintCollateral(MintCollateralAccounts),
}

/// The accounts of `opcode` read positionally from the front of `accounts`,
/// which holds at least as many as `required_accounts(opcode)`.
pub open spec fn shaped(opcode: Opcode, accounts: Seq<Address>) -> Operation {
    match opcode {
        Opcode::CreateReserve => Operation::CreateReserve(
            CreateReserveAccounts {
                reserve: accounts[0],
                funder: accounts[1],
                external_mint: accounts[2],
                allocator_service: accounts[3],
                token_program: accounts[4],
                rent_oracle: accounts[5],
            },
        ),
        Opcode::CloseReserve => Operation::CloseReserve(
            CloseReserveAccounts {
                reserve: accounts[0],
                refund_recipient: accounts[1],
                token_program: accounts[2],
            },
        ),
        Opcode::MintCollateral => Operation::MintCollateral(
            MintCollateralAccounts {
                wallet: accounts[0],
                reserve: accounts[1],
                authority: accounts[2],
                collateral_mint: accounts[3],
                token_program: accounts[4],
                rent_oracle: accounts[5],
            },
        ),
    }
}

/// What `decode` returns: an unknown or missing opcode is reported before a
/// short account list is.
pub open spec fn decoded(payload: Seq<u8>, accounts: Seq<Address>) -> Result<
    Operation,
    LedgerError,
> {
    match opcode_of(payload) {
        None => Err(LedgerError::UnsupportedInstruction),
        Some(opcode) => if accounts.len() < required_accounts(opcode) {
            Err(LedgerError::MissingAccount)
        } else {
            Ok(shaped(opcode, accounts))
        },
    }
}

/// The invocations that `operation` plans for the module `module_id`.
pub open spec fn operation_outcome(
    module_id: Seq<u8>,
    operation: Operation,
    rent_exempt_minimum: u64,
) -> Result<Seq<InvocationView>, LedgerError> {
    match operation {
        Operation::CreateReserve(accounts) => create_reserve_outcome(
            module_id,
            accounts,
            rent_exempt_minimum,
        ),
        Operation::CloseReserve(accounts) => close_reserve_outcome(module_id, accounts),
        Operation::MintCollateral(accounts) => mint_collateral_outcome(module_id, accounts),
    }
}

/// What `process_instruction` returns.
pub open spec fn instruction_outcome(
    module_id: Seq<u8>,
    accounts: Seq<Address>,
    payload: Seq<u8>,
    rent_exempt_minimum: u64,
) -> Result<Seq<InvocationView>, LedgerError> {
    match decoded(payload, accounts) {
        Ok(operation) => operation_outcome(module_id, operation, rent_exempt_minimum),
        Err(e) => Err(e),
    }
}

impl Opcode {
    /// Number of accounts that the operation reads.
    pub fn account_count(self) -> (count: usize)
        ensures
            count == required_accounts(self),
    {
        match self {
            Opcode::CreateReserve => 6,
            Opcode::CloseReserve => 3,
            Opcode::MintCollateral => 6,
        }
    }
}

/// Reads the opcode byte of an instruction payload.
///
/// Fails with `UnsupportedInstruction` exactly when the payload is empty or
/// its first byte is none of 0, 1 and 2.
pub fn decode_opcode(payload: &[u8]) -> (opcode: Result<Opcode, LedgerError>)
    ensures
        opcode == decoded_opcode(payload@),
{
    if payload.len() == 0 {
        return Err(LedgerError::UnsupportedInstruction);
    }
    let first: u8 = payload[0];
    if first == 0 {
        Ok(Opcode::CreateReserve)
    } else if first == 1 {
        Ok(Opcode::CloseReserve)
    } else if first == 2 {
        Ok(Opcode::MintCollateral)
    } else {
        Err(LedgerError::UnsupportedInstruction)
    }
}

/// Decodes an instruction: the operation that `payload` names, over the
/// accounts read in order from the front of `accounts`.
///
/// Fails with `UnsupportedInstruction` exactly when the opcode is missing or
/// unknown, and otherwise with `MissingAccount` exactly when fewer accounts
/// are supplied than the operation reads. Accounts beyond those are ignored.
pub fn decode(payload: &[u8], accounts: &[Address]) -> (operation: Result<Operation, LedgerError>)
    ensures
        operation == decoded(payload@, accounts@),
{
    let opcode = match decode_opcode(payload) {
        Ok(opcode) => opcode,
        Err(e) => {
            return Err(e);
        },
    };
    if accounts.len() < opcode.account_count() {
        return Err(LedgerError::MissingAccount);
    }
    match opcode {
        Opcode::CreateReserve => Ok(
            Operation::CreateReserve(
                CreateReserveAccounts {
                    reserve: accounts[0],
                    funder: accounts[1],
                    external_mint: accounts[2],
                    allocator_service: accounts[3],
                    token_program: accounts[4],
                    rent_oracle: accounts[5],
                },
            ),
        ),
        Opcode::CloseReserve => Ok(
            Operation::CloseReserve(
                CloseReserveAccounts {
                    reserve: accounts[0],
                    refund_recipient: accounts[1],
                    token_program: accounts[2],
                },
            ),
        ),
        Opcode::MintCollateral => Ok(
            Operation::MintCollateral(
                MintCollateralAccounts {
                    wallet: accounts[0],
                    reserve: accounts[1],
                    authority: accounts[2],
                    collateral_mint: accounts[3],
                    token_program: accounts[4],
                    rent_oracle: accounts[5],
                },
            ),
        ),
    }
}

impl Operation {
    /// The opcode of the operation.
    pub fn opcode(&self) -> (opcode: Opcode)
        ensures
            opcode == match *self {
                Operation::CreateReserve(_) => Opcode::CreateReserve,
                Operation::CloseReserve(_) => Opcode::CloseReserve,
                Operation::MintCollateral(_) => Opcode::MintCollateral,
            },
    {
        match self {
            Operation::CreateReserve(_) => Opcode::CreateReserve,
            Operation::CloseReserve(_) => Opcode::CloseReserve,
            Operation::MintCollateral(_) => Opcode::MintCollateral,
        }
    }

    /// Position, in the instruction's accounts, of the rent oracle whose
    /// rent-exempt minimum for the token account record the operation needs
    /// before it can be planned; `None` when it needs none.
    pub fn rent_oracle_position(&self) -> (position: Option<usize>)
        ensures
            position == match *self {
                Operation::CreateReserve(_) => Some(RENT_ORACLE_POSITION),
                _ => None::<usize>,
            },
    {
        match self {
            Operation::CreateReserve(_) => Some(RENT_ORACLE_POSITION),
            _ => None,
        }
    }

    /// Hands the accounts to the operation of the reserve lifecycle that
    /// matches the opcode. `rent_exempt_minimum` is read by CreateReserve
    /// only.
    pub fn plan(&self, module_id: &Address, rent_exempt_minimum: u64) -> (planned: Result<
        Vec<Invocation>,
        LedgerError,
    >)
        ensures
            planned_view(planned) == operation_outcome(module_id@, *self, rent_exempt_minimum),
    {
        match self {
            Operation::CreateReserve(accounts) => create_reserve(
                module_id,
                accounts,
                rent_exempt_minimum,
            ),
            Operation::CloseReserve(accounts) => close_reserve(module_id, accounts),
            Operation::MintCollateral(accounts) => mint_collateral(module_id, accounts),
        }
    }
}

/// Processes one instruction up to its cross-contract invocations: decodes
/// the payload, fits the accounts, checks the derived address, and returns
/// the invocations to perform, in order.
///
/// Fails with `UnsupportedInstruction`, `MissingAccount` or
/// `AddressMismatch`, in that order of precedence, each exactly on the
/// inputs that `instruction_outcome` gives it for; nothing is to be invoked
/// then.
pub fn process_instruction(
    module_id: &Address,
    accounts: &[Address],
    payload: &[u8],
    rent_exempt_minimum: u64,
) -> (planned: Result<Vec<Invocation>, LedgerError>)
    ensures
        planned_view(planned) == instruction_outcome(
            module_id@,
            accounts@,
            payload@,
            rent_exempt_minimum,
        ),
{
    match decode(payload, accounts) {
        Ok(operation) => operation.plan(module_id, rent_exempt_minimum),
        Err(e) => Err(e),
    }
}

} // verus!
