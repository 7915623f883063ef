//! What the library takes from the Solana runtime crates: the derivation of
//! program addresses and the id of the SPL Token program. Nothing here is
//! proved; each contract says what the outside function is taken to do.

use vstd::prelude::*;
use solana_program::pubkey::Pubkey;

verus! {

/// The program address that the runtime derives from `seeds` under
/// `program_id`, with the bump seed that it found, or `None` where it finds
/// none.
pub uninterp spec fn program_address(seeds: Seq<Seq<u8>>, program_id: Seq<u8>) -> Option<
    (Seq<u8>, u8),
>;

/// `Pubkey::try_find_program_address` of `solana_program`, on plain bytes.
///
/// The outside function hashes the seeds, a bump seed and the program id,
/// counting the bump down from 255 until the hash is no point on the curve,
/// and returns that address with its bump. It returns `None` where no bump
/// works and where there are too many seeds or one is too long. The result
/// depends on the arguments alone, which is all the contract claims: it is
/// `program_address` of the seeds and the program id.
#[verifier::external_body]
pub(crate) fn find_program_address(seeds: &Vec<Vec<u8>>, program_id: &[u8; 32]) -> (found: Option<
    ([u8; 32], u8),
>)
    ensures
        found matches Some(pair) ==> program_address(seeds.deep_view(), program_id@) == Some(
            (pair.0@, pair.1),
        ),
        found is None ==> program_address(seeds.deep_view(), program_id@) is None,
{
    let slices: Vec<&[u8]> = seeds.iter().map(|seed| seed.as_slice()).collect();
    let program = Pubkey::new_from_array(*program_id);
    match Pubkey::try_find_program_address(&slices, &program) {
        Some((address, bump)) => Some((address.to_bytes(), bump)),
        None => None,
    }
}

/// The id of the SPL Token program,
/// `TokenkegQfeZyiNwAJbNbGKPFXCWuBvf9Ss623VQ5DA`, as its 32 bytes.
pub open spec fn spl_token_id() -> Seq<u8> {
    seq![
        6u8, 221, 246, 225, 215, 101, 161, 147, 217, 203, 225, 70, 206, 235, 121, 172,
        28, 180, 133, 237, 95, 91, 55, 145, 58, 140, 245, 133, 126, 255, 0, 169,
    ]
}

/// `spl_token::id`, as bytes. The outside crate declares the id as a
/// base-58 string; the contract states the 32 bytes that the string
/// decodes to.
#[verifier::external_body]
pub(crate) fn token_program_id() -> (id: [u8; 32])
    ensures
        id@ == spl_token_id(),
{
    spl_token::id().to_bytes()
}

} // verus!
