use solana_program::program_error::ProgramError;
use solana_program::pubkey::Pubkey;
use std::collections::HashMap;
use tranched_liquidity::address::Address;
use tranched_liquidity::call::Invocation;
use tranched_liquidity::dispatch;
use tranched_liquidity::error::LedgerError;
use tranched_liquidity::execution::{Execution, Progress};

// A host small enough to read: it keeps accounts by address and performs the
// three requests that the module issues, as the allocation service and the
// token program would.

#[derive(Clone, Debug, PartialEq)]
struct Record {
    owner: [u8; 32],
    lamports: u64,
    space: u64,
    mint: Option<[u8; 32]>,
    authority: Option<[u8; 32]>,
    balance: u64,
}

struct Host {
    module: Pubkey,
    payer: [u8; 32],
    accounts: HashMap<[u8; 32], Record>,
    invoked: usize,
}

impl Host {
    fn new(module: Pubkey, payer: [u8; 32]) -> Host {
        Host { module, payer, accounts: HashMap::new(), invoked: 0 }
    }

    fn signs(&self, address: &[u8; 32], invocation: &Invocation) -> bool {
        let parts: Vec<&[u8]> =
            invocation.signer_seeds.parts.iter().map(|part| part.as_slice()).collect();
        *address == self.payer
            || Pubkey::create_program_address(&parts, &self.module)
                .map(|key| key.to_bytes() == *address)
                .unwrap_or(false)
    }

    fn invoke(
        &mut self,
        invocation: &Invocation,
        supplied: &[Address],
    ) -> Result<(), ProgramError> {
        self.invoked += 1;
        let handed: Vec<[u8; 32]> =
            invocation.handles.iter().map(|position| supplied[*position].to_bytes()).collect();
        let call = &invocation.call;
        if !handed.contains(&call.program.to_bytes()) {
            return Err(ProgramError::NotEnoughAccountKeys);
        }
        for role in call.accounts.iter() {
            let named = role.address.to_bytes();
            if named != solana_program::sysvar::rent::id().to_bytes() && !handed.contains(&named) {
                return Err(ProgramError::NotEnoughAccountKeys);
            }
            if role.is_signer && !self.signs(&named, invocation) {
                return Err(ProgramError::MissingRequiredSignature);
            }
        }
        let program = call.program.to_bytes();
        if program == solana_program::system_program::id().to_bytes() {
            self.allocate(invocation)
        } else if program == spl_token::id().to_bytes() {
            self.token(invocation)
        } else {
            Err(ProgramError::IncorrectProgramId)
        }
    }

    fn allocate(&mut self, invocation: &Invocation) -> Result<(), ProgramError> {
        let data = &invocation.call.data;
        if data.len() != 52 || data[..4] != [0, 0, 0, 0] {
            return Err(ProgramError::InvalidInstructionData);
        }
        let at = invocation.call.accounts[1].address.to_bytes();
        if self.accounts.contains_key(&at) {
            return Err(ProgramError::Custom(0));
        }
        let mut lamports = [0u8; 8];
        lamports.copy_from_slice(&data[4..12]);
        let mut space = [0u8; 8];
        space.copy_from_slice(&data[12..20]);
        let mut owner = [0u8; 32];
        owner.copy_from_slice(&data[20..52]);
        let record = Record {
            owner,
            lamports: u64::from_le_bytes(lamports),
            space: u64::from_le_bytes(space),
            mint: None,
            authority: None,
            balance: 0,
        };
        self.accounts.insert(at, record);
        Ok(())
    }

    fn token(&mut self, invocation: &Invocation) -> Result<(), ProgramError> {
        let roles = &invocation.call.accounts;
        let data = &invocation.call.data;
        match data.first() {
            Some(1) => {
                let record = self
                    .accounts
                    .get_mut(&roles[0].address.to_bytes())
                    .ok_or(ProgramError::UninitializedAccount)?;
                if record.owner != spl_token::id().to_bytes() || record.space != 165 {
                    return Err(ProgramError::InvalidAccountData);
                }
                if record.mint.is_some() {
                    return Err(ProgramError::AccountAlreadyInitialized);
                }
                record.mint = Some(roles[1].address.to_bytes());
                record.authority = Some(roles[2].address.to_bytes());
                Ok(())
            }
            Some(9) => {
                let at = roles[0].address.to_bytes();
                let record = self.accounts.get(&at).ok_or(ProgramError::UninitializedAccount)?;
                if record.authority != Some(roles[2].address.to_bytes()) || !roles[2].is_signer {
                    return Err(ProgramError::Custom(4));
                }
                if record.balance != 0 {
                    return Err(ProgramError::Custom(11));
                }
                self.accounts.remove(&at);
                Ok(())
            }
            _ => Err(ProgramError::InvalidInstructionData),
        }
    }

    fn process(&mut self, supplied: &[Address], payload: &[u8]) -> Result<(), LedgerError> {
        let id = Address::new(self.module.to_bytes());
        let mut progress =
            Execution::begin(dispatch::process_instruction(&id, supplied, payload, 2_039_280));
        loop {
            match progress {
                Progress::Finished(result) => return result,
                Progress::Invoke { invocation, rest } => {
                    let outcome = self.invoke(&invocation, supplied);
                    progress = rest.resume(outcome);
                }
            }
        }
    }
}

const FUNDER: [u8; 32] = [11u8; 32];
const MINT: [u8; 32] = [12u8; 32];

fn module() -> Pubkey {
    Pubkey::new_from_array([42u8; 32])
}

fn reserve() -> [u8; 32] {
    Pubkey::find_program_address(&[b"program-token"], &module()).0.to_bytes()
}

fn creation_accounts(reserve: [u8; 32]) -> Vec<Address> {
    vec![
        Address::new(reserve),
        Address::new(FUNDER),
        Address::new(MINT),
        Address::new(solana_program::system_program::id().to_bytes()),
        Address::new(spl_token::id().to_bytes()),
        Address::new(solana_program::sysvar::rent::id().to_bytes()),
    ]
}

fn closing_accounts(reserve: [u8; 32]) -> Vec<Address> {
    vec![Address::new(reserve), Address::new(FUNDER), Address::new(spl_token::id().to_bytes())]
}

#[test]
fn create_reserve_leaves_a_self_owned_token_account() {
    let mut host = Host::new(module(), FUNDER);
    assert_eq!(host.process(&creation_accounts(reserve()), &[0]), Ok(()));
    assert_eq!(host.invoked, 2);
    let record = host.accounts.get(&reserve()).expect("some account");
    assert_eq!(record.owner, spl_token::id().to_bytes());
    assert_eq!(record.authority, Some(reserve()));
    assert_eq!(record.mint, Some(MINT));
    assert_eq!(record.space, 165);
    assert_eq!(record.lamports, 2_039_280);
}

#[test]
fn close_reserve_removes_the_account() {
    let mut host = Host::new(module(), FUNDER);
    assert_eq!(host.process(&creation_accounts(reserve()), &[0]), Ok(()));
    assert_eq!(host.process(&closing_accounts(reserve()), &[1]), Ok(()));
    assert_eq!(host.invoked, 3);
    assert_eq!(host.accounts.get(&reserve()), None);
}

#[test]
fn test_create_then_close() {
    let mut host = Host::new(module(), FUNDER);
    let program_token_address =
        Pubkey::find_program_address(&[b"program-token"], &module()).0.to_bytes();

    assert_eq!(host.process(&creation_accounts(program_token_address), &[0]), Ok(()));
    let program_token_account =
        host.accounts.get(&program_token_address).cloned().expect("some account");
    assert_eq!(program_token_account.mint, Some(MINT));
    assert_eq!(program_token_account.authority, Some(program_token_address));

    assert_eq!(host.process(&closing_accounts(program_token_address), &[1]), Ok(()));
    assert_eq!(host.accounts.get(&program_token_address), None);
    assert!(host.accounts.is_empty());
}

#[test]
fn create_reserve_at_another_address_allocates_nothing() {
    let mut host = Host::new(module(), FUNDER);
    let mut elsewhere = reserve();
    elsewhere[0] ^= 1;
    assert_eq!(
        host.process(&creation_accounts(elsewhere), &[0]),
        Err(LedgerError::AddressMismatch)
    );
    assert_eq!(host.invoked, 0);
    assert!(host.accounts.is_empty());
}

#[test]
fn mint_collateral_under_another_authority_mints_nothing() {
    let mut host = Host::new(module(), FUNDER);
    let authority = Pubkey::find_program_address(&[b"collateral-auth-a"], &module()).0;
    for wrong in [reserve(), FUNDER, module().to_bytes(), {
        let mut near = authority.to_bytes();
        near[31] ^= 0x80;
        near
    }] {
        let accounts = vec![
            Address::new([21u8; 32]),
            Address::new(reserve()),
            Address::new(wrong),
            Address::new([24u8; 32]),
            Address::new(spl_token::id().to_bytes()),
            Address::new(solana_program::sysvar::rent::id().to_bytes()),
        ];
        assert_eq!(host.process(&accounts, &[2]), Err(LedgerError::AddressMismatch));
    }
    assert_eq!(host.invoked, 0);
    assert!(host.accounts.is_empty());
}

#[test]
fn creating_twice_passes_on_the_allocators_refusal() {
    let mut host = Host::new(module(), FUNDER);
    assert_eq!(host.process(&creation_accounts(reserve()), &[0]), Ok(()));
    assert_eq!(
        host.process(&creation_accounts(reserve()), &[0]),
        Err(LedgerError::ExternalInvocationFailure(ProgramError::Custom(0)))
    );
    assert_eq!(host.invoked, 3);
}

#[test]
fn closing_a_reserve_that_holds_tokens_passes_on_the_refusal() {
    let mut host = Host::new(module(), FUNDER);
    assert_eq!(host.process(&creation_accounts(reserve()), &[0]), Ok(()));
    host.accounts.get_mut(&reserve()).unwrap().balance = 5;
    assert_eq!(
        host.process(&closing_accounts(reserve()), &[1]),
        Err(LedgerError::ExternalInvocationFailure(ProgramError::Custom(11)))
    );
    assert!(host.accounts.contains_key(&reserve()));
}

#[test]
fn closing_what_was_never_created_passes_on_the_refusal() {
    let mut host = Host::new(module(), FUNDER);
    assert_eq!(
        host.process(&closing_accounts(reserve()), &[1]),
        Err(LedgerError::ExternalInvocationFailure(ProgramError::UninitializedAccount))
    );
    assert_eq!(host.invoked, 1);
}

#[test]
fn the_reserve_signs_for_itself_with_its_seeds() {
    let id = Address::new(module().to_bytes());
    let plan =
        dispatch::process_instruction(&id, &creation_accounts(reserve()), &[0], 1).unwrap();
    let host = Host::new(module(), [0u8; 32]);
    assert!(host.signs(&reserve(), &plan[0]));
    assert!(host.signs(&reserve(), &plan[1]));
    assert!(!host.signs(&FUNDER, &plan[0]));
    let stranger = Host::new(Pubkey::new_from_array([43u8; 32]), [0u8; 32]);
    assert!(!stranger.signs(&reserve(), &plan[0]));
}
