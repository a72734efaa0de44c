//! Failures that the module reports to the host runtime.

use solana_program::program_error::ProgramError;
use vstd::prelude::*;

verus! {

/// The runtime's own error value, carried through unread.
#[verifier::external_type_specification]
#[verifier::external_body]
pub struct ExProgramError(ProgramError);

/// Why an instruction failed. None of these is retried.
#[derive(Debug, PartialEq, Eq)]
pub enum LedgerError {
    /// The opcode byte is absent or names no operation.
    UnsupportedInstruction,
    /// Fewer accounts were supplied than the operation expects.
    MissingAccount,
    /// A supplied address is not the one derived for its seed tuple.
    AddressMismatch,
    /// The allocation service or the token program rejected a call; the
    /// runtime's error is passed on unchanged.
    ExternalInvocationFailure(ProgramError),
}

} // verus!
