//! Program-owned token reserves on a ledger runtime: deterministic address
//! derivation, instruction dispatch, and the cross-contract invocations that
//! create, close and mint against reserves held under derived addresses.

pub mod address;
pub mod call;
pub mod deriver;
pub mod dispatch;
pub mod error;
pub mod execution;
pub mod laws;
pub mod programs;
pub mod reserve;
pub mod seeds;
