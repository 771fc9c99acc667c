//! Deterministic addresses of the protocol's records.
//!
//! A record lives at the program-derived address of a namespace tag and the
//! identities that key it, under this program's id.

use vstd::prelude::*;
use crate::state::Pubkey;

verus! {

/// Id of this program (base58 `SSo1111111111111111111111111111111111111111`).
pub const PROGRAM_ID: [u8; 32] = [
    6, 132, 175, 64, 194, 200, 118, 171, 197, 128, 102, 137, 56, 106, 124, 23, 123, 70, 124, 40,
    145, 143, 253, 178, 27, 245, 220, 0, 0, 0, 0, 0,
];

/// Namespace tag of the configuration record: the bytes of `config`.
pub const CONFIG_SEED_PREFIX: [u8; 6] = [99, 111, 110, 102, 105, 103];

/// Namespace tag of provider records: the bytes of `provider`.
pub const PROVIDER_SEED_PREFIX: [u8; 8] = [112, 114, 111, 118, 105, 100, 101, 114];

/// Namespace tag of signal records: the bytes of `signal`.
pub const SIGNAL_SEED_PREFIX: [u8; 6] = [115, 105, 103, 110, 97, 108];

/// The program-derived address and bump seed of `seeds` under `program_id`,
/// or `None` where no bump seed gives an address.
pub uninterp spec fn program_address(seeds: Seq<Seq<u8>>, program_id: Seq<u8>) -> Option<
    (Seq<u8>, u8),
>;

/// The bytes of each seed.
pub open spec fn seed_bytes(seeds: Seq<Vec<u8>>) -> Seq<Seq<u8>> {
    seeds.map_values(|s: Vec<u8>| s@)
}

/// Relies on `Pubkey::try_find_program_address` of solana-program, as
/// anchor-lang re-exports it: the address and the bump seed depend on the
/// seeds and the program id alone. It returns `None`, and does not panic,
/// when no bump seed gives an address off the curve, with 16 or more seeds,
/// or with a seed longer than 32 bytes.
#[verifier::external_body]
fn try_find_program_address(seeds: &Vec<Vec<u8>>, program_id: &Pubkey) -> (r: Option<(Pubkey, u8)>)
    ensures
        r is None ==> program_address(seed_bytes(seeds@), program_id@) is None,
        r matches Some(x) ==> program_address(seed_bytes(seeds@), program_id@) == Some(
            (x.0@, x.1),
        ),
{
    let refs: Vec<&[u8]> = seeds.iter().map(|s| s.as_slice()).collect();
    let id = anchor_lang::prelude::Pubkey::new_from_array(*program_id);
    anchor_lang::prelude::Pubkey::try_find_program_address(&refs, &id).map(
        |(address, bump)| (address.to_bytes(), bump),
    )
}

/// Copies a byte array into a vector.
fn bytes_to_vec<const N: usize>(a: &[u8; N]) -> (r: Vec<u8>)
    ensures
        r@ == a@,
{
    let mut v: Vec<u8> = Vec::new();
    let mut i: usize = 0;
    while i < N
        invariant
            i <= N,
            v@ == a@.subrange(0, i as int),
        decreases N - i,
    {
        v.push(a[i]);
        i = i + 1;
        assert(v@ =~= a@.subrange(0, i as int));
    }
    assert(v@ =~= a@);
    v
}

/// Address and bump of the configuration record, if one exists.
pub fn derive_config_address() -> (r: Option<(Pubkey, u8)>)
    ensures
        r is None ==> program_address(
            seq![CONFIG_SEED_PREFIX@],
            PROGRAM_ID@,
        ) is None,
        r matches Some(x) ==> program_address(
            seq![CONFIG_SEED_PREFIX@],
            PROGRAM_ID@,
        ) == Some((x.0@, x.1)),
{
    let mut seeds: Vec<Vec<u8>> = Vec::new();
    seeds.push(bytes_to_vec(&CONFIG_SEED_PREFIX));
    assert(seed_bytes(seeds@) =~= seq![CONFIG_SEED_PREFIX@]);
    try_find_program_address(&seeds, &PROGRAM_ID)
}

/// Address and bump of the provider record of `authority`, if one exists.
pub fn derive_provider_address(authority: &Pubkey) -> (r: Option<(Pubkey, u8)>)
    ensures
        r is None ==> program_address(
            seq![PROVIDER_SEED_PREFIX@, authority@],
            PROGRAM_ID@,
        ) is None,
        r matches Some(x) ==> program_address(
            seq![PROVIDER_SEED_PREFIX@, authority@],
            PROGRAM_ID@,
        ) == Some((x.0@, x.1)),
{
    let mut seeds: Vec<Vec<u8>> = Vec::new();
    seeds.push(bytes_to_vec(&PROVIDER_SEED_PREFIX));
    seeds.push(bytes_to_vec(authority));
    assert(seed_bytes(seeds@) =~= seq![PROVIDER_SEED_PREFIX@, authority@]);
    try_find_program_address(&seeds, &PROGRAM_ID)
}

/// Address and bump of the record of signal `signal_id` of `provider`, if
/// one exists.
pub fn derive_signal_address(provider: &Pubkey, signal_id: &[u8; 32]) -> (r: Option<(Pubkey, u8)>)
    ensures
        r is None ==> program_address(
            seq![SIGNAL_SEED_PREFIX@, provider@, signal_id@],
            PROGRAM_ID@,
        ) is None,
        r matches Some(x) ==> program_address(
            seq![SIGNAL_SEED_PREFIX@, provider@, signal_id@],
            PROGRAM_ID@,
        ) == Some((x.0@, x.1)),
{
    let mut seeds: Vec<Vec<u8>> = Vec::new();
    seeds.push(bytes_to_vec(&SIGNAL_SEED_PREFIX));
    seeds.push(bytes_to_vec(provider));
    seeds.push(bytes_to_vec(signal_id));
    assert(seed_bytes(seeds@) =~= seq![SIGNAL_SEED_PREFIX@, provider@, signal_id@]);
    try_find_program_address(&seeds, &PROGRAM_ID)
}

} // verus!
