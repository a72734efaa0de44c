//! Derivation of addresses from a seed tuple and a module identity, and the
//! check that a supplied address is the derived one.

use crate::address::Address;
use crate::seeds::{seeds_within_limits, SeedTuple};
use solana_program::pubkey::Pubkey;
use vstd::prelude::*;

verus! {

/// Why no address could be derived.
#[derive(Clone, Copy, Debug, PartialEq, Eq, Structural)]
pub enum DeriveError {
    /// The seed tuple leaves no room for the bump seed, or one of its
    /// components is longer than the runtime accepts.
    SeedsOutOfBounds,
    /// Every bump seed gave an address in the ordinary key space.
    BumpsExhausted,
}

/// An address derived for a module, with the bump seed that was accepted.
#[derive(Clone, Copy, Debug, PartialEq, Eq)]
pub struct DerivedAddress {
    pub address: Address,
    pub bump: u8,
}

impl View for DerivedAddress {
    type V = (Seq<u8>, u8);

    open spec fn view(&self) -> (Seq<u8>, u8) {
        (self.address@, self.bump)
    }
}

/// What the runtime's search for a program address returns for a seed tuple
/// and a program identity: an address outside the ordinary key space with
/// the bump seed that gave it, or `None`.
pub uninterp spec fn program_address_search(seeds: Seq<Seq<u8>>, program: Seq<u8>) -> Option<
    (Seq<u8>, u8),
>;

/// The address derived from `seeds` for the module `module_id`, with its
/// bump seed, or the reason why there is none.
pub open spec fn derivation(seeds: Seq<Seq<u8>>, module_id: Seq<u8>) -> Result<
    (Seq<u8>, u8),
    DeriveError,
> {
    if !seeds_within_limits(seeds) {
        Err(DeriveError::SeedsOutOfBounds)
    } else {
        match program_address_search(seeds, module_id) {
            Some(found) => Ok(found),
            None => Err(DeriveError::BumpsExhausted),
        }
    }
}

/// The view of what `derive` returns.
pub open spec fn derived_view(derived: Result<DerivedAddress, DeriveError>) -> Result<
    (Seq<u8>, u8),
    DeriveError,
> {
    match derived {
        Ok(d) => Ok(d@),
        Err(e) => Err(e),
    }
}

/// Whether `candidate` is the address derived from `seeds` for `module_id`.
pub open spec fn verifies(candidate: Seq<u8>, seeds: Seq<Seq<u8>>, module_id: Seq<u8>) -> bool {
    derivation(seeds, module_id) matches Ok(found) && found.0 == candidate
}

/// The bump seed under which `candidate` is the address derived from `seeds`
/// for `module_id`, if it is that address.
pub open spec fn authorization(
    candidate: Seq<u8>,
    seeds: Seq<Seq<u8>>,
    module_id: Seq<u8>,
) -> Option<u8> {
    match derivation(seeds, module_id) {
        Ok(found) => if found.0 == candidate {
            Some(found.1)
        } else {
            None
        },
        Err(_) => None,
    }
}

/// Calls `solana_program::pubkey::Pubkey::try_find_program_address`.
///
/// Trusted: the result is a function of the seed bytes and the program
/// identity alone, named `program_address_search`. Nothing is claimed about
/// which address or bump seed it is.
#[verifier::external_body]
fn find_program_address(seeds: &SeedTuple, program: &Address) -> (found: Option<(Address, u8)>)
    ensures
        found matches Some(pair) ==> program_address_search(seeds@, program@) == Some(
            (pair.0@, pair.1),
        ),
        found is None ==> program_address_search(seeds@, program@) is None,
{
    let parts: Vec<&[u8]> = seeds.parts.iter().map(|part| part.as_slice()).collect();
    let found = Pubkey::try_find_program_address(&parts, &Pubkey::new_from_array(program.bytes));
    found.map(|(key, bump)| (Address { bytes: key.to_bytes() }, bump))
}

/// The derivation that a finished search stands for: the address found with
/// its bump seed, or `BumpsExhausted` when nothing was found.
pub open spec fn search_outcome(found: Option<(Address, u8)>) -> Result<
    DerivedAddress,
    DeriveError,
> {
    match found {
        Some(pair) => Ok(DerivedAddress { address: pair.0, bump: pair.1 }),
        None => Err(DeriveError::BumpsExhausted),
    }
}

/// The bump seed of `derived` if it is a derivation of `candidate`.
pub open spec fn matching_bump(
    candidate: Address,
    derived: Result<DerivedAddress, DeriveError>,
) -> Option<u8> {
    match derived {
        Ok(d) => if d.address@ == candidate@ {
            Some(d.bump)
        } else {
            None
        },
        Err(_) => None,
    }
}

/// Turns what the search for a program address found into a derivation.
pub fn derived_from_search(found: Option<(Address, u8)>) -> (derived: Result<
    DerivedAddress,
    DeriveError,
>)
    ensures
        derived == search_outcome(found),
{
    match found {
        Some((address, bump)) => Ok(DerivedAddress { address, bump }),
        None => Err(DeriveError::BumpsExhausted),
    }
}

/// Compares a supplied address with a derivation: returns the bump seed
/// exactly when the derivation succeeded and gave `candidate`, byte for
/// byte.
pub fn bump_if_derived(
    candidate: &Address,
    derived: &Result<DerivedAddress, DeriveError>,
) -> (bump: Option<u8>)
    ensures
        bump == matching_bump(*candidate, *derived),
{
    match derived {
        Ok(d) => {
            if d.address.same(candidate) {
                Some(d.bump)
            } else {
                None
            }
        },
        Err(_) => None,
    }
}

/// Derives the address that `seeds` name for the module `module_id`.
///
/// Fails with `SeedsOutOfBounds` exactly when the tuple is not within the
/// runtime's limits, with `BumpsExhausted` exactly when it is and the search
/// finds no address; otherwise returns the address found and its bump seed.
pub fn derive(seeds: &SeedTuple, module_id: &Address) -> (derived: Result<
    DerivedAddress,
    DeriveError,
>)
    ensures
        derived_view(derived) == derivation(seeds@, module_id@),
{
    if !seeds.within_limits() {
        return Err(DeriveError::SeedsOutOfBounds);
    }
    derived_from_search(find_program_address(seeds, module_id))
}

/// Derives the address anew and returns the bump seed if `candidate` is that
/// address. Every action that signs for a derived address asks this first.
pub fn authorize(candidate: &Address, seeds: &SeedTuple, module_id: &Address) -> (bump: Option<u8>)
    ensures
        bump == authorization(candidate@, seeds@, module_id@),
{
    let derived = derive(seeds, module_id);
    bump_if_derived(candidate, &derived)
}

/// Whether `candidate` is the address derived from `seeds` for `module_id`.
pub fn verify(candidate: &Address, seeds: &SeedTuple, module_id: &Address) -> (accepted: bool)
    ensures
        accepted == verifies(candidate@, seeds@, module_id@),
{
    authorize(candidate, seeds, module_id).is_some()
}

} // verus!
