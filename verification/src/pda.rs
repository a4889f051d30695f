//! Program-derived addresses: addresses computed from seeds and a program
//! id that belong to no key pair, so that only the program can sign for
//! them.

use crate::address::{address_of, lemma_address_of, Address};
use solana_program::pubkey::{Pubkey, PubkeyError};
use vstd::prelude::*;
use vstd::slice::slice_to_vec;
use vstd::string::*;
use vstd::utf8::*;

verus! {

/// The most seeds a derivation takes, the bump seed counted.
pub const MAX_SEEDS: usize = 16;

/// The most bytes one seed may have.
pub const MAX_SEED_LEN: usize = 32;

/// Why a derivation gave no address.
#[derive(Clone, Copy, Debug, PartialEq, Eq, Hash)]
pub enum PdaError {
    /// There are too many seeds, or one of them is too long.
    MaxSeedLengthExceeded,
    /// The hash of the seeds is a point of the curve, so it could have a
    /// private key, and is no derived address.
    InvalidSeeds,
    /// The owner may not derive addresses.
    IllegalOwner,
}

/// The seeds as sequences of bytes.
pub open spec fn seeds_view(seeds: Seq<Vec<u8>>) -> Seq<Seq<u8>> {
    Seq::new(seeds.len(), |i: int| seeds[i]@)
}

/// The number and the lengths of the seeds are within the limits.
pub open spec fn seeds_fit(seeds: Seq<Seq<u8>>) -> bool {
    &&& seeds.len() <= MAX_SEEDS
    &&& forall|i: int| 0 <= i < seeds.len() ==> (#[trigger] seeds[i]).len() <= MAX_SEED_LEN
}

/// The 32-byte hash of the seeds, the program id and the marker of derived
/// addresses, where that hash is off the curve; `None` where it is a point
/// of the curve.
pub uninterp spec fn off_curve_hash(seeds: Seq<Seq<u8>>, program_id: Seq<u8>) -> Option<Seq<u8>>;

/// The address derived from `seeds` under `program_id`.
pub open spec fn program_address(seeds: Seq<Seq<u8>>, program_id: Address) -> Result<
    Address,
    PdaError,
> {
    if !seeds_fit(seeds) {
        Err(PdaError::MaxSeedLengthExceeded)
    } else {
        match off_curve_hash(seeds, program_id@) {
            Some(h) => Ok(address_of(h)),
            None => Err(PdaError::InvalidSeeds),
        }
    }
}

/// The seeds followed by the one-byte seed `bump`.
pub open spec fn with_bump(seeds: Seq<Seq<u8>>, bump: u8) -> Seq<Seq<u8>> {
    seeds.push(seq![bump])
}

/// `bump` is the largest bump seed from 255 down to 1 that gives the seeds
/// a derived address.
pub open spec fn is_canonical_bump(seeds: Seq<Seq<u8>>, program_id: Address, bump: u8) -> bool {
    &&& 1 <= bump
    &&& program_address(with_bump(seeds, bump), program_id) is Ok
    &&& forall|b: u8| bump < b ==> (#[trigger] program_address(with_bump(seeds, b), program_id)) is Err
}

/// What a search for the canonical bump seed may return: the canonical bump
/// with its address, or nothing where no bump seed from 255 down to 1 gives
/// an address.
pub open spec fn found(
    seeds: Seq<Seq<u8>>,
    program_id: Address,
    r: Option<(Address, u8)>,
) -> bool {
    match r {
        Some((a, bump)) => is_canonical_bump(seeds, program_id, bump) && program_address(
            with_bump(seeds, bump),
            program_id,
        ) == Ok::<Address, PdaError>(a),
        None => forall|b: u8|
            1 <= b ==> (#[trigger] program_address(with_bump(seeds, b), program_id)) is Err,
    }
}

/// The outcome of a derivation whose seeds are within the limits, given the
/// hash: the hash as the address, or a refusal where it is a point of the
/// curve.
pub open spec fn derives(hash: Option<Seq<u8>>, r: Result<Address, PdaError>) -> bool {
    match hash {
        Some(h) => r matches Ok(a) && a@ == h,
        None => r == Err::<Address, PdaError>(PdaError::InvalidSeeds),
    }
}

/// The refusal of seeds beyond the limits.
pub open spec fn refused() -> Result<Address, PdaError> {
    Err(PdaError::MaxSeedLengthExceeded)
}

/// The canonical derived address of the seeds and its bump seed, if they
/// have one.
pub open spec fn canonical(seeds: Seq<Seq<u8>>, program_id: Address) -> Option<(Address, u8)> {
    if exists|b: u8| is_canonical_bump(seeds, program_id, b) {
        let b = choose|b: u8| is_canonical_bump(seeds, program_id, b);
        Some((program_address(with_bump(seeds, b), program_id)->Ok_0, b))
    } else {
        None
    }
}

/// A search can return one thing only: the canonical address and bump.
pub proof fn lemma_found_is_canonical(
    seeds: Seq<Seq<u8>>,
    program_id: Address,
    r: Option<(Address, u8)>,
)
    requires
        found(seeds, program_id, r),
    ensures
        r == canonical(seeds, program_id),
{
    match r {
        Some((a, bump)) => {
            let b = choose|b: u8| is_canonical_bump(seeds, program_id, b);
            assert(is_canonical_bump(seeds, program_id, b));
            if b < bump {
                assert(program_address(with_bump(seeds, bump), program_id) is Err);
            }
            if bump < b {
                assert(program_address(with_bump(seeds, b), program_id) is Err);
            }
        },
        None => {
            assert forall|b: u8| !is_canonical_bump(seeds, program_id, b) by {
                if 1 <= b {
                    assert(program_address(with_bump(seeds, b), program_id) is Err);
                }
            }
        },
    }
}

/// `Pubkey::create_program_address`. Taken on trust: it refuses more than
/// 16 seeds and a seed of more than 32 bytes; otherwise it hashes seeds,
/// program id and marker, and returns the hash as the address unless the
/// hash is a point of the curve, which it refuses as invalid seeds. The
/// hash depends on seeds and program id alone.
#[verifier::external_body]
fn derive_address(seeds: &Vec<Vec<u8>>, program_id: &Address) -> (r: Result<Address, PdaError>)
    ensures
        seeds_fit(seeds_view(seeds@)) ==> derives(off_curve_hash(seeds_view(seeds@), program_id@), r),
        !seeds_fit(seeds_view(seeds@)) ==> r == refused(),
{
    let refs: Vec<&[u8]> = seeds.iter().map(|s| s.as_slice()).collect();
    match Pubkey::create_program_address(&refs, &Pubkey::new_from_array(program_id.bytes)) {
        Ok(key) => Ok(Address { bytes: key.to_bytes() }),
        Err(PubkeyError::MaxSeedLengthExceeded) => Err(PdaError::MaxSeedLengthExceeded),
        Err(PubkeyError::InvalidSeeds) => Err(PdaError::InvalidSeeds),
        Err(PubkeyError::IllegalOwner) => Err(PdaError::IllegalOwner),
    }
}

/// `Pubkey::try_find_program_address`. Taken on trust: it tries the bump
/// seeds 255, 254, down to 1, each appended to the seeds as a last seed of
/// one byte, and returns the first that `Pubkey::create_program_address`
/// derives an address with, and that address; nothing where none does, or
/// where the seeds with a bump are beyond the limits.
#[verifier::external_body]
fn search_bump(seeds: &Vec<Vec<u8>>, program_id: &Address) -> (r: Option<(Address, u8)>)
    ensures
        found(seeds_view(seeds@), *program_id, r),
{
    let refs: Vec<&[u8]> = seeds.iter().map(|s| s.as_slice()).collect();
    Pubkey::try_find_program_address(&refs, &Pubkey::new_from_array(program_id.bytes))
        .map(|(key, bump)| (Address { bytes: key.to_bytes() }, bump))
}

/// The address derived from `seeds` under `program_id`, without a search
/// for a bump seed: the caller supplies it as the last seed.
pub fn create_program_address(seeds: &Vec<Vec<u8>>, program_id: &Address) -> (r: Result<
    Address,
    PdaError,
>)
    ensures
        r == program_address(seeds_view(seeds@), *program_id),
{
    let r = derive_address(seeds, program_id);
    proof {
        if let Ok(a) = r {
            lemma_address_of(a);
        }
    }
    r
}

/// The canonical derived address of `seeds` under `program_id`, and its
/// bump seed.
pub fn find_program_address(seeds: &Vec<Vec<u8>>, program_id: &Address) -> (r: Option<
    (Address, u8),
>)
    ensures
        found(seeds_view(seeds@), *program_id, r),
        r == canonical(seeds_view(seeds@), *program_id),
{
    let r = search_bump(seeds, program_id);
    proof {
        lemma_found_is_canonical(seeds_view(seeds@), *program_id, r);
    }
    r
}

/// The bytes of the word "metadata", the first seed of every address that
/// the program derives.
pub open spec fn prefix_bytes() -> Seq<u8> {
    seq![109u8, 101, 116, 97, 100, 97, 116, 97]
}

/// The first seed of every address that the program derives.
pub fn prefix() -> (r: Vec<u8>)
    ensures
        r@ == prefix_bytes(),
{
    let s = "metadata";
    proof {
        reveal_strlit("metadata");
        assert(is_ascii_chars(s@));
        is_ascii_chars_encode_utf8(s@);
        assert(s.spec_bytes() =~= prefix_bytes());
    }
    slice_to_vec(s.as_bytes())
}

} // verus!
