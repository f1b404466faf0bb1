//! Account addresses: their text form and program-derived addresses.

use vstd::prelude::*;
use solana_program::pubkey::Pubkey;

verus! {

/// The text form of a 32-byte address, as `solana_program` displays a `Pubkey`
/// (its base58 encoding).
pub uninterp spec fn address_text(address: Seq<u8>) -> Seq<char>;

/// The program-derived address for `seeds` under `program_id` together with its
/// bump seed, as `Pubkey::try_find_program_address` computes it; `None` where no
/// such address exists.
pub uninterp spec fn derived_address(seeds: Seq<Seq<u8>>, program_id: Seq<u8>) -> Option<
    (Seq<u8>, u8),
>;

/// The views of a list of seeds.
pub open spec fn seeds_view(seeds: Seq<Vec<u8>>) -> Seq<Seq<u8>> {
    seeds.map_values(|seed: Vec<u8>| seed@)
}

/// Formats an address through `Pubkey`'s `Display` impl. Trusted: the text is
/// the one that `solana_program` gives for these 32 bytes, a function of the
/// bytes alone.
#[verifier::external_body]
pub(crate) fn format_address(address: &[u8; 32]) -> (text: String)
    ensures
        text@ == address_text(address@),
{
    Pubkey::new_from_array(*address).to_string()
}

/// Calls `Pubkey::try_find_program_address`. Trusted: the result is the address
/// and bump seed that `solana_program` derives from these seeds and this
/// program id, or `None` where it finds none; it depends on nothing else.
#[verifier::external_body]
pub(crate) fn try_find_program_address(seeds: &Vec<Vec<u8>>, program_id: &[u8; 32]) -> (found: Option<
    ([u8; 32], u8),
>)
    ensures
        match found {
            Some((address, bump)) => derived_address(seeds_view(seeds@), program_id@) == Some(
                (address@, bump),
            ),
            None => derived_address(seeds_view(seeds@), program_id@).is_none(),
        },
{
    let slices: Vec<&[u8]> = seeds.iter().map(|seed| seed.as_slice()).collect();
    let program = Pubkey::new_from_array(*program_id);
    Pubkey::try_find_program_address(&slices, &program).map(
        |(address, bump)| (address.to_bytes(), bump),
    )
}

} // verus!
