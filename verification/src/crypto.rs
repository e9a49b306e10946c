//! Address derivation: the two outside calls the scheme rests on.
//!
//! Identifiers and identities are 32-byte strings carried as `Vec<u8>`.
//! Derivation is a pure function of the seed list and the deriving program's
//! identity; what the digest and the derived pair are on given bytes is left
//! to the outside functions and only named here.

use vstd::prelude::*;

verus! {

/// How many bytes make up an identity or a derived address.
pub const ID_LEN: usize = 32;

/// The SHA-256 digest of a byte string.
pub uninterp spec fn sha256_of(bytes: Seq<u8>) -> Seq<u8>;

/// The derived (address, salt) pair for a seed list under a program identity,
/// or `None` when the seeds admit no address.
pub uninterp spec fn pda_of(seeds: Seq<Seq<u8>>, program_id: Seq<u8>) -> Option<(Seq<u8>, u8)>;

/// Relies on `solana_program::hash::hash`: the SHA-256 digest of the input
/// bytes, 32 bytes long and a function of the input alone.
#[verifier::external_body]
pub fn hash_string_content(content: &Vec<u8>) -> (r: Vec<u8>)
    ensures
        r@ == sha256_of(content@),
        r@.len() == ID_LEN,
{
    solana_program::hash::hash(content.as_slice()).to_bytes().to_vec()
}

/// Relies on `solana_program::pubkey::Pubkey::try_find_program_address`: a
/// deterministic function of the seed list and the program identity alone,
/// returning a 32-byte address with its salt, or `None` when the seeds are
/// over the derivation limits or no salt yields an address.
#[verifier::external_body]
pub(crate) fn try_find_pda(seeds: &Vec<Vec<u8>>, program_id: &Vec<u8>) -> (r: Option<(Vec<u8>, u8)>)
    requires
        program_id@.len() == ID_LEN,
    ensures
        match r {
            Some(pair) => pda_of(seeds.deep_view(), program_id@) == Some((pair.0@, pair.1))
                && pair.0@.len() == ID_LEN,
            None => pda_of(seeds.deep_view(), program_id@) is None,
        },
{
    let mut arr = [0u8; 32];
    arr.copy_from_slice(program_id.as_slice());
    let pid = solana_program::pubkey::Pubkey::new_from_array(arr);
    let seed_slices: Vec<&[u8]> = seeds.iter().map(|s| s.as_slice()).collect();
    solana_program::pubkey::Pubkey::try_find_program_address(&seed_slices, &pid)
        .map(|(addr, salt)| (addr.to_bytes().to_vec(), salt))
}

} // verus!
