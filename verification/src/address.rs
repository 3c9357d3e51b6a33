//! Where a record lives: the address derived from a namespace tag, the
//! owner's identity and the program's identifier.

use vstd::prelude::*;
use crate::error::RecordError;
use crate::guard::{ok_if, same_bytes};

verus! {

/// A derived address together with the bump that the search settled on.
#[derive(Clone, Copy, Debug, PartialEq, Eq, Hash)]
pub struct RecordAddress {
    pub address: [u8; 32],
    pub bump: u8,
}

/// What the platform's search for a program address returns for the given
/// seeds and program identifier: the address and its bump, or nothing where
/// the platform reports none (no bump gives an address off the curve, the
/// seeds are not acceptable, or the build has no platform to ask). Within one
/// build the search is a fixed function of its inputs.
pub uninterp spec fn found_program_address(seeds: Seq<Seq<u8>>, program_id: Seq<u8>) -> Option<
    (Seq<u8>, u8),
>;

/// The view of what a search returned.
pub open spec fn found_view(found: Option<([u8; 32], u8)>) -> Option<(Seq<u8>, u8)> {
    match found {
        Some((address, bump)) => Some((address@, bump)),
        None => None,
    }
}

/// The view of a derived address, as the search reports it.
pub open spec fn address_view(derived: Option<RecordAddress>) -> Option<(Seq<u8>, u8)> {
    match derived {
        Some(d) => Some((d.address@, d.bump)),
        None => None,
    }
}

/// The seeds of a record's address: the namespace tag, then the owner.
pub open spec fn record_seeds(tag: Seq<u8>, owner: Seq<u8>) -> Seq<Seq<u8>> {
    seq![tag, owner]
}

/// Calls `pinocchio::pubkey::try_find_program_address` with the two seeds and
/// the program identifier. Nothing is proved of the search itself: the
/// contract only gives its result a name, which rests on the search depending
/// on nothing but the seeds and the identifier. The call does not panic; where
/// the platform finds no address, it returns `None`.
#[verifier::external_body]
fn find_with_two_seeds(first: &[u8], second: &[u8], program_id: &[u8; 32]) -> (found: Option<
    ([u8; 32], u8),
>)
    ensures
        found_view(found) == found_program_address(seq![first@, second@], program_id@),
{
    pinocchio::pubkey::try_find_program_address(&[first, second], program_id)
}

/// Derives the address of the record that belongs to `owner` under the given
/// namespace tag and program. The same inputs always give the same address and
/// bump: the result is the platform's search on the seeds `[tag, owner]`.
pub fn derive_record_address(tag: &[u8], owner: &[u8; 32], program_id: &[u8; 32]) -> (derived:
    Option<RecordAddress>)
    ensures
        address_view(derived) == found_program_address(record_seeds(tag@, owner@), program_id@),
{
    match find_with_two_seeds(tag, owner.as_slice(), program_id) {
        Some((address, bump)) => Some(RecordAddress { address, bump }),
        None => None,
    }
}

/// Whether a claimed address and bump are the ones that were derived.
pub open spec fn claim_matches(derived: Option<(Seq<u8>, u8)>, address: Seq<u8>, bump: u8) -> bool {
    derived == Some((address, bump))
}

/// Holds a claimed address and bump against a derivation. The claim stands
/// only if both are exactly what was derived: another bump is refused even
/// where it would also give an address off the curve, and so is a claim
/// where nothing could be derived.
pub fn check_claimed_address(
    derived: Option<RecordAddress>,
    claimed_address: &[u8; 32],
    claimed_bump: u8,
) -> (result: Result<(), RecordError>)
    ensures
        result == ok_if(
            claim_matches(address_view(derived), claimed_address@, claimed_bump),
            RecordError::AddressDerivation,
        ),
{
    match derived {
        Some(d) => {
            if same_bytes(&d.address, claimed_address) && d.bump == claimed_bump {
                Ok(())
            } else {
                Err(RecordError::AddressDerivation)
            }
        },
        None => Err(RecordError::AddressDerivation),
    }
}

/// Derives the record's address anew and holds the claimed address and bump
/// against it; a claimed bump is never taken on trust.
pub fn verify_record_address(
    tag: &[u8],
    owner: &[u8; 32],
    program_id: &[u8; 32],
    claimed_address: &[u8; 32],
    claimed_bump: u8,
) -> (result: Result<(), RecordError>)
    ensures
        result == ok_if(
            claim_matches(
                found_program_address(record_seeds(tag@, owner@), program_id@),
                claimed_address@,
                claimed_bump,
            ),
            RecordError::AddressDerivation,
        ),
{
    let derived = derive_record_address(tag, owner, program_id);
    check_claimed_address(derived, claimed_address, claimed_bump)
}

/// Derivation is a function: two derivations from the same tag, owner and
/// program identifier agree on address and bump.
pub proof fn lemma_derivation_deterministic(
    tag: Seq<u8>,
    owner: Seq<u8>,
    program_id: Seq<u8>,
    first: Option<RecordAddress>,
    second: Option<RecordAddress>,
)
    requires
        address_view(first) == found_program_address(record_seeds(tag, owner), program_id),
        address_view(second) == found_program_address(record_seeds(tag, owner), program_id),
    ensures
        first == second,
{
    broadcast use vstd::array::group_array_axioms;
    match (first, second) {
        (Some(a), Some(b)) => {
            assert(a.address@ == b.address@);
            assert(a.address =~= b.address);
        },
        _ => {},
    }
}

/// Once an address and bump are derived, a claim with any other bump is
/// refused, whatever address comes with it.
pub proof fn lemma_other_bump_refused(derived: RecordAddress, address: Seq<u8>, bump: u8)
    requires
        bump != derived.bump,
    ensures
        !claim_matches(address_view(Some(derived)), address, bump),
{
}

} // verus!
