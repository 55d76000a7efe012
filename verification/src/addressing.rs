//! The deterministic addressing scheme: every wallet record lives at the
//! program-derived address computed from the program's identity, the owner's
//! key and a one-byte derivation tag. The derivation itself is the host
//! chain's hash construction, reached through `anchor_lang`; the core names
//! its result and reasons over the name.

use vstd::prelude::*;

use crate::state::AccountId;

verus! {

/// The canonical address that the host's program-derived-address scheme
/// assigns to `owner` under `program` with derivation tag `tag`, or `None`
/// where that tag yields no valid address.
pub uninterp spec fn derived_address(program: Seq<u8>, owner: Seq<u8>, tag: u8) -> Option<
    Seq<u8>,
>;

/// The address-and-tag pair that the host's tag search assigns to `owner`
/// under `program`, or `None` in the statistically improbable event that no
/// tag yields a valid address.
pub uninterp spec fn found_address(program: Seq<u8>, owner: Seq<u8>) -> Option<(Seq<u8>, u8)>;

/// Relies on `Pubkey::create_program_address` (re-exported by
/// `anchor_lang`): the result is a pure function of the seeds — here the
/// fixed wallet prefix, the owner's bytes and the tag — and the program
/// identity, and the call returns an error rather than panicking.
#[verifier::external_body]
pub(crate) fn derive_wallet_address(program: &AccountId, owner: &AccountId, tag: u8) -> (r:
    Option<AccountId>)
    ensures
        (match r {
            Some(a) => Some(a@),
            None => None::<Seq<u8>>,
        }) == derived_address(program@, owner@, tag),
{
    let program_key = anchor_lang::prelude::Pubkey::new_from_array(program.bytes);
    let tag_seed: [u8; 1] = [tag];
    let seeds: [&[u8]; 3] = [b"wallet", &owner.bytes, &tag_seed];
    match anchor_lang::prelude::Pubkey::create_program_address(&seeds, &program_key) {
        Ok(address) => Some(AccountId { bytes: address.to_bytes() }),
        Err(_) => None,
    }
}

/// Relies on `Pubkey::try_find_program_address` (re-exported by
/// `anchor_lang`): the result is a pure function of the seeds and the
/// program identity, and a found pair re-derives to its own address through
/// `Pubkey::create_program_address` with the found tag appended.
#[verifier::external_body]
pub(crate) fn find_wallet_address(program: &AccountId, owner: &AccountId) -> (r: Option<
    (AccountId, u8),
>)
    ensures
        (match r {
            Some(p) => Some((p.0@, p.1)),
            None => None::<(Seq<u8>, u8)>,
        }) == found_address(program@, owner@),
        r matches Some(p) ==> derived_address(program@, owner@, p.1) == Some(p.0@),
{
    let program_key = anchor_lang::prelude::Pubkey::new_from_array(program.bytes);
    let seeds: [&[u8]; 2] = [b"wallet", &owner.bytes];
    match anchor_lang::prelude::Pubkey::try_find_program_address(&seeds, &program_key) {
        Some((address, tag)) => Some((AccountId { bytes: address.to_bytes() }, tag)),
        None => None,
    }
}

} // verus!
