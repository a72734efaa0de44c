//! Cross-contract calls as plain values: which program is asked, on which
//! accounts, with which bytes, and which derived address signs.

use crate::address::Address;
use crate::seeds::SeedTuple;
use vstd::prelude::*;

verus! {

/// One account that a call names, with what the callee may do with it.
#[derive(Clone, Copy, Debug, PartialEq, Eq)]
pub struct AccountRole {
    pub address: Address,
    pub is_signer: bool,
    pub is_writable: bool,
}

/// The model of an `AccountRole`.
pub struct AccountRoleView {
    pub address: Seq<u8>,
    pub is_signer: bool,
    pub is_writable: bool,
}

impl View for AccountRole {
    type V = AccountRoleView;

    open spec fn view(&self) -> AccountRoleView {
        AccountRoleView {
            address: self.address@,
            is_signer: self.is_signer,
            is_writable: self.is_writable,
        }
    }
}

impl AccountRole {
    /// The role of the account with the address `bytes`.
    pub fn of(bytes: [u8; 32], is_signer: bool, is_writable: bool) -> (role: AccountRole)
        ensures
            role@ == (AccountRoleView { address: bytes@, is_signer, is_writable }),
    {
        AccountRole { address: Address::new(bytes), is_signer, is_writable }
    }
}

/// An account that the callee may write to and that must sign.
pub open spec fn writable_signer(address: Seq<u8>) -> AccountRoleView {
    AccountRoleView { address, is_signer: true, is_writable: true }
}

/// An account that the callee may write to.
pub open spec fn writable(address: Seq<u8>) -> AccountRoleView {
    AccountRoleView { address, is_signer: false, is_writable: true }
}

/// An account that the callee may only read.
pub open spec fn readonly(address: Seq<u8>) -> AccountRoleView {
    AccountRoleView { address, is_signer: false, is_writable: false }
}

/// An account that the callee may only read and that must sign.
pub open spec fn readonly_signer(address: Seq<u8>) -> AccountRoleView {
    AccountRoleView { address, is_signer: true, is_writable: false }
}

/// A call to another program: the program asked, the accounts it is given
/// in order, and the bytes of the request.
#[derive(Clone, Debug, PartialEq, Eq)]
pub struct Call {
    pub program: Address,
    pub accounts: Vec<AccountRole>,
    pub data: Vec<u8>,
}

/// The model of a `Call`.
pub struct CallView {
    pub program: Seq<u8>,
    pub accounts: Seq<AccountRoleView>,
    pub data: Seq<u8>,
}

impl View for Call {
    type V = CallView;

    open spec fn view(&self) -> CallView {
        CallView {
            program: self.program@,
            accounts: Seq::new(self.accounts@.len(), |i: int| self.accounts@[i]@),
            data: self.data@,
        }
    }
}

/// A call together with what the runtime needs to perform it: the positions,
/// in the instruction's account list, of the accounts handed to the callee,
/// and the seeds that sign for the derived address.
#[derive(Clone, Debug, PartialEq, Eq)]
pub struct Invocation {
    pub call: Call,
    pub handles: Vec<usize>,
    pub signer_seeds: SeedTuple,
}

/// The model of an `Invocation`.
pub struct InvocationView {
    pub call: CallView,
    pub handles: Seq<usize>,
    pub signer_seeds: Seq<Seq<u8>>,
}

impl View for Invocation {
    type V = InvocationView;

    open spec fn view(&self) -> InvocationView {
        InvocationView {
            call: self.call@,
            handles: self.handles@,
            signer_seeds: self.signer_seeds@,
        }
    }
}

/// The models of a sequence of invocations, in order.
pub open spec fn plan_view(plan: Seq<Invocation>) -> Seq<InvocationView> {
    Seq::new(plan.len(), |i: int| plan[i]@)
}

} // verus!
