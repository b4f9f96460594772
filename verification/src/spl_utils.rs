//! Helpers for the accounts of the token program.
use vstd::prelude::*;
use crate::error::{custom, ProgramError, TokenError};
use crate::keys::{seeds_view, Pubkey};

verus! {

/// The seeds of the token holding of `realm`: the key alone.
pub fn get_seeds(realm: &Pubkey) -> (r: Vec<Vec<u8>>)
    ensures
        seeds_view(r@) == seq![realm@],
{
    let mut seeds: Vec<Vec<u8>> = Vec::new();
    seeds.push(realm.to_vec());
    assert(seeds_view(seeds@) =~= seq![realm@]);
    seeds
}

/// Fails with `PublicKeyMismatch` unless the two keys are the same.
pub fn assert_keys_equal(key1: Pubkey, key2: Pubkey) -> (r: Result<(), ProgramError>)
    ensures
        key1 == key2 ==> r is Ok,
        key1 != key2 ==> r == Err::<(), ProgramError>(custom(TokenError::PublicKeyMismatch)),
{
    crate::utils::assert_keys_equal(key1, key2)
}

} // verus!
