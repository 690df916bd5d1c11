//! Address derivation: the pure mapping from a program identity and a
//! caller-supplied seed to a derived storage address and its disambiguation
//! nonce.
//!
//! The derivation itself is the environment's primitive (a hash over the
//! domain tag, the seed, the program identity and a nonce chosen so the
//! address has no corresponding private signing key). This module names its
//! results and exposes a checked entry point, [`derive`].

use vstd::prelude::*;

use crate::errors::ErrorCode;

verus! {

/// Longest seed the derivation accepts, in bytes.
pub const MAX_SEED_LEN: usize = 32;

/// The fixed domain tag (the bytes of `dynamic_pda`) that precedes the
/// caller's seed in every derivation this library performs.
pub open spec fn domain_tag() -> Seq<u8> {
    seq![100u8, 121u8, 110u8, 97u8, 109u8, 105u8, 99u8, 95u8, 112u8, 100u8, 97u8]
}

/// The address that the environment's derivation primitive computes for a
/// program identity, a domain tag and a seed. A function of its arguments
/// alone: the primitive hashes them and nothing else.
pub uninterp spec fn derived_address(program_id: Seq<u8>, tag: Seq<u8>, seed: Seq<u8>) -> Seq<u8>;

/// The disambiguation nonce that the derivation primitive pairs with
/// [`derived_address`]: the greatest nonce whose derivation falls outside
/// the space of addresses with a private signing key.
pub uninterp spec fn derived_bump(program_id: Seq<u8>, tag: Seq<u8>, seed: Seq<u8>) -> u8;

/// Whether any disambiguation nonce yields a usable address for these
/// inputs. The primitive tries every nonce and reports failure when none
/// works, so availability too is a function of the arguments alone.
pub uninterp spec fn derivation_available(program_id: Seq<u8>, tag: Seq<u8>, seed: Seq<u8>) -> bool;

/// Relies on `solana_program::pubkey::Pubkey::try_find_program_address`:
/// it derives an address and nonce by hashing the seed slices, the program
/// identity and the nonce, returning `None` exactly when no nonce yields an
/// off-curve address; the outcome depends on the arguments alone. Seeds
/// within the primitive's length bound never make it fail early.
#[verifier::external_body]
fn try_find_derived_address(program_id: &[u8; 32], tag: &[u8], seed: &[u8]) -> (r: Option<(
    [u8; 32],
    u8,
)>)
    requires
        tag@.len() <= 32,
        seed@.len() <= 32,
    ensures
        r is Some <==> derivation_available(program_id@, tag@, seed@),
        r matches Some(p) ==> p.0@ == derived_address(program_id@, tag@, seed@) && p.1
            == derived_bump(program_id@, tag@, seed@),
{
    let pid = solana_program::pubkey::Pubkey::new_from_array(*program_id);
    match solana_program::pubkey::Pubkey::try_find_program_address(&[tag, seed], &pid) {
        Some((address, bump)) => Some((address.to_bytes(), bump)),
        None => None,
    }
}

/// The domain tag as bytes, for handing to the derivation primitive.
pub fn domain_tag_bytes() -> (r: Vec<u8>)
    ensures
        r@ == domain_tag(),
{
    let mut v: Vec<u8> = Vec::new();
    v.push(100);
    v.push(121);
    v.push(110);
    v.push(97);
    v.push(109);
    v.push(105);
    v.push(99);
    v.push(95);
    v.push(112);
    v.push(100);
    v.push(97);
    proof {
        assert(v@ =~= domain_tag());
    }
    v
}

/// Derive the storage address and nonce for a seed under a program
/// identity. Rejects seeds over [`MAX_SEED_LEN`] bytes; otherwise reports
/// exactly what the derivation primitive computes.
pub fn derive(program_id: &[u8; 32], seed: &Vec<u8>) -> (r: Result<([u8; 32], u8), ErrorCode>)
    ensures
        seed@.len() > MAX_SEED_LEN ==> r == Err::<([u8; 32], u8), ErrorCode>(
            ErrorCode::SeedTooLong,
        ),
        seed@.len() <= MAX_SEED_LEN && !derivation_available(program_id@, domain_tag(), seed@)
            ==> r == Err::<([u8; 32], u8), ErrorCode>(ErrorCode::NoViableBump),
        seed@.len() <= MAX_SEED_LEN && derivation_available(program_id@, domain_tag(), seed@) ==> (
        r matches Ok(p) && p.0@ == derived_address(program_id@, domain_tag(), seed@) && p.1
            == derived_bump(program_id@, domain_tag(), seed@)),
{
    if seed.len() > MAX_SEED_LEN {
        return Err(ErrorCode::SeedTooLong);
    }
    let tag = domain_tag_bytes();
    match try_find_derived_address(program_id, tag.as_slice(), seed.as_slice()) {
        Some(p) => Ok(p),
        None => Err(ErrorCode::NoViableBump),
    }
}

/// Derivation is deterministic and repeatable: any two results computed
/// from the same program identity, tag and seed are identical.
pub proof fn lemma_derivation_deterministic(
    program_id: Seq<u8>,
    tag: Seq<u8>,
    seed: Seq<u8>,
    first: (Seq<u8>, u8),
    second: (Seq<u8>, u8),
)
    requires
        first.0 == derived_address(program_id, tag, seed),
        first.1 == derived_bump(program_id, tag, seed),
        second.0 == derived_address(program_id, tag, seed),
        second.1 == derived_bump(program_id, tag, seed),
    ensures
        first == second,
{
}

} // verus!
