use vstd::prelude::*;

use crate::keys::{
    associated_token_program_id, associated_token_program_id_bytes, key_to_vec,
    metadata_program_id, metadata_program_id_bytes, pda_of, seeds_view, token_program_id,
    token_program_id_bytes, try_derive_address, Key,
};

verus! {

/// The number of edition numbers one edition-marker account witnesses.
pub const EDITION_MARKER_BIT_SIZE: u64 = 248;

/// The seed label "metadata", as bytes.
pub open spec fn metadata_seed_bytes() -> Seq<u8> {
    seq![0x6du8, 0x65, 0x74, 0x61, 0x64, 0x61, 0x74, 0x61]
}

/// The seed label "edition", as bytes.
pub open spec fn edition_seed_bytes() -> Seq<u8> {
    seq![0x65u8, 0x64, 0x69, 0x74, 0x69, 0x6f, 0x6e]
}

fn metadata_seed() -> (r: Vec<u8>)
    ensures
        r@ == metadata_seed_bytes(),
{
    let mut v: Vec<u8> = Vec::new();
    v.push(0x6d);
    v.push(0x65);
    v.push(0x74);
    v.push(0x61);
    v.push(0x64);
    v.push(0x61);
    v.push(0x74);
    v.push(0x61);
    proof {
        assert(v@ =~= metadata_seed_bytes());
    }
    v
}

fn edition_seed() -> (r: Vec<u8>)
    ensures
        r@ == edition_seed_bytes(),
{
    let mut v: Vec<u8> = Vec::new();
    v.push(0x65);
    v.push(0x64);
    v.push(0x69);
    v.push(0x74);
    v.push(0x69);
    v.push(0x6f);
    v.push(0x6e);
    proof {
        assert(v@ =~= edition_seed_bytes());
    }
    v
}

/// The decimal digits of a number, as ASCII bytes without leading zeros.
pub open spec fn dec_bytes_of(n: u64) -> Seq<u8>
    decreases n,
{
    if n < 10 {
        seq![(0x30 + n) as u8]
    } else {
        dec_bytes_of((n / 10) as u64).push((0x30 + n % 10) as u8)
    }
}

/// The decimal digits of a number, matching `dec_bytes_of`.
pub fn u64_dec_bytes(n: u64) -> (r: Vec<u8>)
    ensures
        r@ == dec_bytes_of(n),
    decreases n,
{
    if n < 10 {
        let mut v: Vec<u8> = Vec::new();
        v.push(0x30 + (n as u8));
        proof {
            assert(v@ =~= dec_bytes_of(n));
        }
        v
    } else {
        let mut v = u64_dec_bytes(n / 10);
        v.push(0x30 + ((n % 10) as u8));
        v
    }
}

/// Seeds of a mint's metadata account: ["metadata", service id, mint].
pub open spec fn metadata_seeds(mint: Seq<u8>) -> Seq<Seq<u8>> {
    seq![metadata_seed_bytes(), metadata_program_id_bytes(), mint]
}

/// Seeds of a mint's master-edition or edition account: the metadata
/// seeds followed by the label "edition".
pub open spec fn master_edition_seeds(mint: Seq<u8>) -> Seq<Seq<u8>> {
    metadata_seeds(mint).push(edition_seed_bytes())
}

/// Seeds of the marker account for one bucket of edition numbers: the
/// master-edition seeds followed by the bucket's decimal digits.
pub open spec fn edition_marker_seeds(mint: Seq<u8>, bucket: u64) -> Seq<Seq<u8>> {
    master_edition_seeds(mint).push(dec_bytes_of(bucket))
}

/// Seeds of the canonical holder account of a wallet for a mint.
pub open spec fn ata_seeds(wallet: Seq<u8>, mint: Seq<u8>) -> Seq<Seq<u8>> {
    seq![wallet, token_program_id_bytes(), mint]
}

/// The derived address of a mint's metadata account, if any.
pub open spec fn metadata_pda(mint: Seq<u8>) -> Option<Seq<u8>> {
    pda_of(metadata_seeds(mint), metadata_program_id_bytes())
}

/// The derived address of a mint's master-edition or edition account.
pub open spec fn master_edition_pda(mint: Seq<u8>) -> Option<Seq<u8>> {
    pda_of(master_edition_seeds(mint), metadata_program_id_bytes())
}

/// The derived address of the marker account for a bucket of edition
/// numbers of a mint.
pub open spec fn edition_marker_bucket_pda(mint: Seq<u8>, bucket: u64) -> Option<Seq<u8>> {
    pda_of(edition_marker_seeds(mint, bucket), metadata_program_id_bytes())
}

/// The derived address of the marker account witnessing one edition
/// number of a mint.
pub open spec fn edition_marker_pda(mint: Seq<u8>, edition_number: u64) -> Option<Seq<u8>> {
    edition_marker_bucket_pda(mint, (edition_number / EDITION_MARKER_BIT_SIZE) as u64)
}

/// The derived address of the canonical holder account of a wallet for
/// a mint.
pub open spec fn ata_pda(wallet: Seq<u8>, mint: Seq<u8>) -> Option<Seq<u8>> {
    pda_of(ata_seeds(wallet, mint), associated_token_program_id_bytes())
}

/// Derive the address of a mint's metadata account.
pub fn derive_metadata_address(mint: &Key) -> (r: Option<Key>)
    ensures
        match r {
            Some(k) => metadata_pda(mint@) == Some(k@),
            None => metadata_pda(mint@) is None,
        },
{
    let program = metadata_program_id();
    let mut seeds: Vec<Vec<u8>> = Vec::new();
    seeds.push(metadata_seed());
    seeds.push(key_to_vec(&program));
    seeds.push(key_to_vec(mint));
    proof {
        assert(seeds_view(seeds@) =~~= metadata_seeds(mint@));
    }
    try_derive_address(&seeds, &program)
}

/// Derive the address of a mint's master-edition or edition account.
pub fn derive_master_edition_address(mint: &Key) -> (r: Option<Key>)
    ensures
        match r {
            Some(k) => master_edition_pda(mint@) == Some(k@),
            None => master_edition_pda(mint@) is None,
        },
{
    let program = metadata_program_id();
    let mut seeds: Vec<Vec<u8>> = Vec::new();
    seeds.push(metadata_seed());
    seeds.push(key_to_vec(&program));
    seeds.push(key_to_vec(mint));
    seeds.push(edition_seed());
    proof {
        assert(seeds_view(seeds@) =~~= master_edition_seeds(mint@));
    }
    try_derive_address(&seeds, &program)
}

/// Derive the address of the marker account witnessing an edition
/// number of a mint.
pub fn derive_edition_marker_address(mint: &Key, edition_number: u64) -> (r: Option<Key>)
    ensures
        match r {
            Some(k) => edition_marker_pda(mint@, edition_number) == Some(k@),
            None => edition_marker_pda(mint@, edition_number) is None,
        },
{
    let program = metadata_program_id();
    let mut seeds: Vec<Vec<u8>> = Vec::new();
    seeds.push(metadata_seed());
    seeds.push(key_to_vec(&program));
    seeds.push(key_to_vec(mint));
    seeds.push(edition_seed());
    seeds.push(u64_dec_bytes(edition_number / EDITION_MARKER_BIT_SIZE));
    proof {
        assert(seeds_view(seeds@) =~~= edition_marker_seeds(
            mint@,
            (edition_number / EDITION_MARKER_BIT_SIZE) as u64,
        ));
    }
    try_derive_address(&seeds, &program)
}

/// Derive the canonical holder-account address of a wallet for a mint.
pub fn derive_associated_token_address(wallet: &Key, mint: &Key) -> (r: Option<Key>)
    ensures
        match r {
            Some(k) => ata_pda(wallet@, mint@) == Some(k@),
            None => ata_pda(wallet@, mint@) is None,
        },
{
    let program = associated_token_program_id();
    let token_program = token_program_id();
    let mut seeds: Vec<Vec<u8>> = Vec::new();
    seeds.push(key_to_vec(wallet));
    seeds.push(key_to_vec(&token_program));
    seeds.push(key_to_vec(mint));
    proof {
        assert(seeds_view(seeds@) =~~= ata_seeds(wallet@, mint@));
    }
    try_derive_address(&seeds, &program)
}

} // verus!
