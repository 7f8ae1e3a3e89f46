use anchor_lang::solana_program::hash;
use anchor_lang::solana_program::pubkey::{Pubkey, PubkeyError};
use vstd::prelude::*;
use vstd::utf8::encode_utf8;

use crate::error::RegistryError;
use crate::key::PublicKey;

verus! {

/// The first derivation tag tried; the search goes down from here.
pub const MAX_BUMP: u8 = 255;

#[verifier::external_type_specification]
#[verifier::external_body]
pub struct ExPubkeyError(PubkeyError);

/// The 32-byte digest that the runtime's hash function gives for `data`.
pub uninterp spec fn content_hash(data: Seq<u8>) -> Seq<u8>;

/// The program address that the runtime derives from `seeds` for the program
/// `program_id`, or `None` where the candidate is not a valid address (it lies
/// on the curve, or the seeds break the runtime's limits).
pub uninterp spec fn program_address(seeds: Seq<Seq<u8>>, program_id: Seq<u8>) -> Option<Seq<u8>>;

/// Relies on solana_program::hash::hash: the digest of `data`, which depends
/// on the bytes alone.
#[verifier::external_body]
fn hash_bytes(data: &[u8]) -> (r: [u8; 32])
    ensures
        r@ == content_hash(data@),
{
    hash::hash(data).to_bytes()
}

/// Relies on Pubkey::create_program_address with the seeds `owner`, `digest`
/// and the one byte `bump`: three seeds of at most 32 bytes each are within
/// its limits, so it fails only where the candidate address lies on the curve.
#[verifier::external_body]
fn create_program_address(
    owner: &[u8; 32],
    digest: &[u8; 32],
    bump: u8,
    program_id: &[u8; 32],
) -> (r: Result<[u8; 32], PubkeyError>)
    ensures
        r is Ok <==> program_address(seq![owner@, digest@, seq![bump]], program_id@) is Some,
        r matches Ok(a) ==> program_address(seq![owner@, digest@, seq![bump]], program_id@)
            == Some(a@),
{
    let bump_seed = [bump];
    let seeds: [&[u8]; 3] = [owner, digest, &bump_seed];
    Pubkey::create_program_address(&seeds, &Pubkey::new_from_array(*program_id)).map(
        |k| k.to_bytes(),
    )
}

/// The seeds of a listing's address: the owner, the digest of the endpoint's
/// UTF-8 bytes, and the derivation tag.
pub open spec fn listing_seeds(owner: Seq<u8>, endpoint: Seq<char>, bump: u8) -> Seq<Seq<u8>> {
    seq![owner, content_hash(encode_utf8(endpoint)), seq![bump]]
}

/// The address of the listing of `owner` for `endpoint` under the tag `bump`.
pub open spec fn address_with_bump(
    program_id: Seq<u8>,
    owner: Seq<u8>,
    endpoint: Seq<char>,
    bump: u8,
) -> Option<Seq<u8>> {
    program_address(listing_seeds(owner, endpoint, bump), program_id)
}

/// The first tag from `bump` down to 1 that gives a valid address, with that address.
pub open spec fn search_from(
    program_id: Seq<u8>,
    owner: Seq<u8>,
    endpoint: Seq<char>,
    bump: u8,
) -> Option<(Seq<u8>, u8)>
    decreases bump,
{
    if bump == 0 {
        None
    } else {
        match address_with_bump(program_id, owner, endpoint, bump) {
            Some(a) => Some((a, bump)),
            None => search_from(program_id, owner, endpoint, (bump - 1) as u8),
        }
    }
}

/// The canonical address and tag of the listing of `owner` for `endpoint`.
pub open spec fn derived_address(
    program_id: Seq<u8>,
    owner: Seq<u8>,
    endpoint: Seq<char>,
) -> Option<(Seq<u8>, u8)> {
    search_from(program_id, owner, endpoint, MAX_BUMP)
}

proof fn lemma_search_from_reproduces(
    program_id: Seq<u8>,
    owner: Seq<u8>,
    endpoint: Seq<char>,
    bump: u8,
)
    ensures
        search_from(program_id, owner, endpoint, bump) matches Some((a, t)) ==> {
            &&& 1 <= t <= bump
            &&& address_with_bump(program_id, owner, endpoint, t) == Some(a)
        },
    decreases bump,
{
    if bump > 0 {
        lemma_search_from_reproduces(program_id, owner, endpoint, (bump - 1) as u8);
    }
}

/// The tag found by the derivation reproduces, on its own, the address found
/// with it: a record's address is recomputed from its owner, its endpoint and
/// its stored tag, without a new search.
pub proof fn lemma_derived_tag_reproduces(program_id: Seq<u8>, owner: Seq<u8>, endpoint: Seq<char>)
    ensures
        derived_address(program_id, owner, endpoint) matches Some((a, t)) ==> {
            &&& t >= 1
            &&& address_with_bump(program_id, owner, endpoint, t) == Some(a)
        },
{
    lemma_search_from_reproduces(program_id, owner, endpoint, MAX_BUMP);
}

/// Derivation is a function of its inputs: two derivations from the same
/// program, owner and endpoint give the same address and tag.
pub proof fn lemma_derive_deterministic(
    program_id: Seq<u8>,
    owner: Seq<u8>,
    endpoint: Seq<char>,
    first: Option<(Seq<u8>, u8)>,
    second: Option<(Seq<u8>, u8)>,
)
    requires
        first == derived_address(program_id, owner, endpoint),
        second == derived_address(program_id, owner, endpoint),
    ensures
        first == second,
{
}

/// The digest of the endpoint's UTF-8 bytes, the middle seed of its address.
pub fn endpoint_digest(endpoint: &str) -> (r: [u8; 32])
    ensures
        r@ == content_hash(encode_utf8(endpoint@)),
{
    hash_bytes(endpoint.as_bytes())
}

/// Recomputes the address of the listing of `owner` for `endpoint` under a known tag.
pub fn address_for_bump(program_id: &PublicKey, owner: &PublicKey, endpoint: &str, bump: u8) -> (r:
    Option<PublicKey>)
    ensures
        match address_with_bump(program_id@, owner@, endpoint@, bump) {
            Some(a) => r matches Some(k) && k@ == a,
            None => r is None,
        },
{
    let digest = endpoint_digest(endpoint);
    match create_program_address(&owner.bytes, &digest, bump, &program_id.bytes) {
        Ok(a) => Some(PublicKey { bytes: a }),
        Err(_) => None,
    }
}

/// Finds the canonical address and tag of the listing of `owner` for
/// `endpoint`: tags are tried from the largest down to 1, and the first that
/// gives a valid address wins.
pub fn derive(program_id: &PublicKey, owner: &PublicKey, endpoint: &str) -> (r: Result<
    (PublicKey, u8),
    RegistryError,
>)
    ensures
        match derived_address(program_id@, owner@, endpoint@) {
            Some((a, t)) => r matches Ok((k, b)) && k@ == a && b == t,
            None => r == Err::<(PublicKey, u8), RegistryError>(RegistryError::DerivationExhausted),
        },
{
    let digest = endpoint_digest(endpoint);
    let mut bump: u8 = MAX_BUMP;
    while bump > 0
        invariant
            digest@ == content_hash(encode_utf8(endpoint@)),
            search_from(program_id@, owner@, endpoint@, bump) == derived_address(
                program_id@,
                owner@,
                endpoint@,
            ),
        decreases bump,
    {
        match create_program_address(&owner.bytes, &digest, bump, &program_id.bytes) {
            Ok(a) => {
                return Ok((PublicKey { bytes: a }, bump));
            },
            Err(_) => {},
        }
        bump = bump - 1;
    }
    Err(RegistryError::DerivationExhausted)
}

} // verus!
