//! Derived authorities: signing capabilities that come from fixed seeds and the
//! contract's own address instead of a private key.

use vstd::prelude::*;
use crate::address::{derived_address, try_find_program_address, seeds_view};
use crate::bytes::{array_bytes, be_bytes_u32, copy_bytes, u32_be};
use crate::error::Error;

verus! {

/// Seed of the authority that may upgrade the contract: the text `upgrade`.
pub const UPGRADE_SEED: [u8; 7] = [117, 112, 103, 114, 97, 100, 101];

/// Seed of the account that collects message fees: the text `fee_collector`.
pub const FEE_COLLECTOR_SEED: [u8; 13] = [
    102, 101, 101, 95, 99, 111, 108, 108, 101, 99, 116, 111, 114,
];

/// First seed of every guardian set record: the text `GuardianSet`.
pub const GUARDIAN_SET_SEED: [u8; 11] = [71, 117, 97, 114, 100, 105, 97, 110, 83, 101, 116];

/// A capability to sign for the address derived from `seeds` and `bump`.
#[derive(Clone, Debug, PartialEq, Eq)]
pub struct DerivedAuthority {
    pub seeds: Vec<Vec<u8>>,
    pub bump: u8,
}

/// What a `DerivedAuthority` stands for.
pub struct DerivedAuthorityView {
    pub seeds: Seq<Seq<u8>>,
    pub bump: u8,
}

impl View for DerivedAuthority {
    type V = DerivedAuthorityView;

    open spec fn view(&self) -> DerivedAuthorityView {
        DerivedAuthorityView { seeds: seeds_view(self.seeds@), bump: self.bump }
    }
}

impl DerivedAuthority {
    /// The seeds to sign with: the seed path followed by the bump seed.
    pub fn signer_seeds(&self) -> (seeds: Vec<Vec<u8>>)
        ensures
            seeds_view(seeds@) == self@.seeds.push(seq![self.bump]),
    {
        let mut seeds: Vec<Vec<u8>> = Vec::new();
        let mut i: usize = 0;
        while i < self.seeds.len()
            invariant
                i <= self.seeds.len(),
                seeds@.len() == i,
                forall|j: int| 0 <= j < i ==> seeds@[j]@ == self.seeds@[j]@,
            decreases self.seeds.len() - i,
        {
            seeds.push(copy_bytes(&self.seeds[i]));
            i += 1;
        }
        seeds.push(vec![self.bump]);
        assert(seeds@[self.seeds@.len() as int]@ =~= seq![self.bump]);
        assert(seeds_view(seeds@) =~= self@.seeds.push(seq![self.bump]));
        seeds
    }
}

/// The authority for a one-seed path, given what the search for its
/// program-derived address found.
pub open spec fn authority_of(seed: Seq<u8>, found: Option<(Seq<u8>, u8)>) -> Result<
    DerivedAuthorityView,
    Error,
> {
    match found {
        Some((_, bump)) => Ok(DerivedAuthorityView { seeds: seq![seed], bump }),
        None => Err(Error::DerivationFailed),
    }
}

/// Builds the authority for a one-seed path from the outcome of the address
/// search: the bump seed that was found completes the handle, and a failed
/// search is reported as `DerivationFailed`.
pub fn authority_from(seed: Vec<u8>, found: Option<([u8; 32], u8)>) -> (authority: Result<
    DerivedAuthority,
    Error,
>)
    ensures
        match authority {
            Ok(handle) => found.is_some() && handle@ == (DerivedAuthorityView {
                seeds: seq![seed@],
                bump: found.unwrap().1,
            }),
            Err(e) => found.is_none() && e == Error::DerivationFailed,
        },
{
    match found {
        Some((_, bump)) => {
            let seeds = vec![seed];
            assert(seeds_view(seeds@) =~= seq![seed@]);
            Ok(DerivedAuthority { seeds, bump })
        },
        None => Err(Error::DerivationFailed),
    }
}

/// Derives the authority that `seed` gives under `program_id`.
pub fn derive_authority(seed: Vec<u8>, program_id: &[u8; 32]) -> (authority: Result<
    DerivedAuthority,
    Error,
>)
    ensures
        match authority {
            Ok(handle) => authority_of(seed@, derived_address(seq![seed@], program_id@)) == Ok::<
                DerivedAuthorityView,
                Error,
            >(handle@),
            Err(e) => authority_of(seed@, derived_address(seq![seed@], program_id@)) == Err::<
                DerivedAuthorityView,
                Error,
            >(e),
        },
{
    let seeds = vec![copy_bytes(&seed)];
    assert(seeds_view(seeds@) =~= seq![seed@]);
    let found = try_find_program_address(&seeds, program_id);
    authority_from(seed, found)
}

/// The seeds of the guardian set record with the given index: the text
/// `GuardianSet`, then the index as four bytes, most significant first.
pub open spec fn guardian_set_seeds_of(index: u32) -> Seq<Seq<u8>> {
    seq![GUARDIAN_SET_SEED@, be_bytes_u32(index)]
}

/// Computes the seeds of the guardian set record with the given index.
pub fn guardian_set_seeds(index: u32) -> (seeds: Vec<Vec<u8>>)
    ensures
        seeds_view(seeds@) == guardian_set_seeds_of(index),
{
    let seeds = vec![array_bytes(&GUARDIAN_SET_SEED), u32_be(index)];
    assert(seeds_view(seeds@) =~= guardian_set_seeds_of(index));
    seeds
}

} // verus!
