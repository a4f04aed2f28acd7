use vstd::prelude::*;
use crate::address::Address;
use crate::error::MonkError;
use spl_token::solana_program::pubkey::Pubkey;

verus! {

/// The program-derived address for `seeds` under `program_id`, or `None`
/// where the hash falls on the curve (an address with a private key).
pub uninterp spec fn program_address(seeds: Seq<Seq<u8>>, program_id: Seq<u8>) -> Option<Seq<u8>>;

/// The fixed public seed of the vault authority: "offermaker".
pub open spec fn vault_seed_spec() -> Seq<u8> {
    seq![111u8, 102u8, 102u8, 101u8, 114u8, 109u8, 97u8, 107u8, 101u8, 114u8]
}

/// A seed followed by a one-byte nonce.
pub open spec fn with_nonce(seed: Seq<u8>, bump: u8) -> Seq<Seq<u8>> {
    seq![seed, seq![bump]]
}

/// The seeds from which the vault authority is derived with nonce `bump`.
pub open spec fn vault_seeds(bump: u8) -> Seq<Seq<u8>> {
    with_nonce(vault_seed_spec(), bump)
}

/// The vault authority for `bump` under `program_id`.
pub open spec fn vault_authority(program_id: Seq<u8>, bump: u8) -> Option<Seq<u8>> {
    program_address(vault_seeds(bump), program_id)
}

/// The fixed public seed, as bytes.
pub fn vault_seed() -> (r: Vec<u8>)
    ensures
        r@ == vault_seed_spec(),
{
    let r = vec![111u8, 102u8, 102u8, 101u8, 114u8, 109u8, 97u8, 107u8, 101u8, 114u8];
    assert(r@ =~= vault_seed_spec());
    r
}

/// Relies on `Pubkey::create_program_address` with the two seeds `seed` and
/// `[bump]`: a value of its arguments alone, absent when they give no
/// off-curve address.
#[verifier::external_body]
fn create_program_address(seed: &Vec<u8>, bump: u8, program_id: &Address) -> (r: Option<Address>)
    ensures
        match r {
            Some(a) => program_address(with_nonce(seed@, bump), program_id@) == Some(a@),
            None => program_address(with_nonce(seed@, bump), program_id@) is None,
        },
{
    match Pubkey::create_program_address(
        &[seed.as_slice(), &[bump]],
        &Pubkey::new_from_array(program_id.bytes),
    ) {
        Ok(k) => Some(Address { bytes: k.to_bytes() }),
        Err(_) => None,
    }
}

/// Relies on `Pubkey::try_find_program_address` with the seed `seed` and one
/// nonce byte: it tries the nonces 255 down to 1 and returns the first that
/// gives an address; with a seed of at most 32 bytes it fails only when none
/// does.
#[verifier::external_body]
fn try_find_program_address(seed: &Vec<u8>, program_id: &Address) -> (r: Option<(Address, u8)>)
    requires
        seed@.len() <= 32,
    ensures
        match r {
            Some((a, b)) => {
                &&& 1 <= b
                &&& program_address(with_nonce(seed@, b), program_id@) == Some(a@)
                &&& forall|c: u8| b < c ==> (#[trigger] program_address(with_nonce(seed@, c), program_id@)) is None
            },
            None => forall|c: u8| 1 <= c ==> (#[trigger] program_address(with_nonce(seed@, c), program_id@)) is None,
        },
{
    match Pubkey::try_find_program_address(&[seed.as_slice()], &Pubkey::new_from_array(program_id.bytes)) {
        Some((k, b)) => Some((Address { bytes: k.to_bytes() }, b)),
        None => None,
    }
}

/// Computes the vault authority from the fixed seed and `bump`.
pub fn resolve_authority(program_id: &Address, bump: u8) -> (r: Option<Address>)
    ensures
        match r {
            Some(a) => vault_authority(program_id@, bump) == Some(a@),
            None => vault_authority(program_id@, bump) is None,
        },
{
    let seed = vault_seed();
    create_program_address(&seed, bump, program_id)
}

/// Whether `candidate` is the vault authority for `bump`.
pub fn verify_authority(candidate: &Address, program_id: &Address, bump: u8) -> (r: bool)
    ensures
        r == (vault_authority(program_id@, bump) == Some(candidate@)),
{
    match resolve_authority(program_id, bump) {
        Some(a) => a.same(candidate),
        None => false,
    }
}

/// Finds the vault authority with the highest nonce that gives one.
pub fn find_authority(program_id: &Address) -> (r: Result<(Address, u8), MonkError>)
    ensures
        match r {
            Ok((a, b)) => {
                &&& 1 <= b
                &&& vault_authority(program_id@, b) == Some(a@)
                &&& forall|c: u8| b < c ==> (#[trigger] vault_authority(program_id@, c)) is None
            },
            Err(e) => {
                &&& e == MonkError::DerivationExhausted
                &&& forall|c: u8| 1 <= c ==> (#[trigger] vault_authority(program_id@, c)) is None
            },
        },
{
    let seed = vault_seed();
    match try_find_program_address(&seed, program_id) {
        Some((a, b)) => Ok((a, b)),
        None => Err(MonkError::DerivationExhausted),
    }
}

} // verus!
