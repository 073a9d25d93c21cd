use vstd::prelude::*;

verus! {

/// A 32-byte account address on the shared ledger.
///
/// Wallets and freshly generated mints carry arbitrary bytes; every
/// metadata, edition and holder account must sit at an address derived
/// from fixed seed labels and the owning service's identifier.
#[derive(Clone, Copy)]
pub struct Key {
    pub bytes: [u8; 32],
}

impl View for Key {
    type V = Seq<u8>;

    open spec fn view(&self) -> Seq<u8> {
        self.bytes@
    }
}

/// Byte-wise equality of two addresses.
pub fn key_eq(a: &Key, b: &Key) -> (r: bool)
    ensures
        r == (a@ == b@),
{
    let mut i: usize = 0;
    while i < 32
        invariant
            i <= 32,
            forall|j: int| 0 <= j < i ==> a.bytes@[j] == b.bytes@[j],
        decreases 32 - i,
    {
        if a.bytes[i] != b.bytes[i] {
            assert(a@[i as int] != b@[i as int]);
            return false;
        }
        i += 1;
    }
    proof {
        assert(a@ =~= b@);
    }
    true
}

/// The bytes of an address as a growable vector, for use as a seed.
pub fn key_to_vec(k: &Key) -> (r: Vec<u8>)
    ensures
        r@ == k@,
{
    let mut v: Vec<u8> = Vec::new();
    let mut i: usize = 0;
    while i < 32
        invariant
            i <= 32,
            v@.len() == i,
            forall|j: int| 0 <= j < i ==> v@[j] == k.bytes@[j],
        decreases 32 - i,
    {
        v.push(k.bytes[i]);
        i += 1;
    }
    proof {
        assert(v@ =~= k@);
    }
    v
}

/// The metadata service's program identifier, as bytes.
pub open spec fn metadata_program_id_bytes() -> Seq<u8> {
    seq![
        0x0bu8, 0x70, 0x65, 0xb1, 0xe3, 0xd1, 0x7c, 0x45, 0x38, 0x9d, 0x52, 0x7f, 0x6b, 0x04,
        0xc3, 0xcd, 0x58, 0xb8, 0x6c, 0x73, 0x1a, 0xa0, 0xfd, 0xb5, 0x49, 0xb6, 0xd1, 0xbc,
        0x03, 0xf8, 0x29, 0x46,
    ]
}

/// The token ledger service's program identifier, as bytes.
pub open spec fn token_program_id_bytes() -> Seq<u8> {
    seq![
        0x06u8, 0xdd, 0xf6, 0xe1, 0xd7, 0x65, 0xa1, 0x93, 0xd9, 0xcb, 0xe1, 0x46, 0xce, 0xeb,
        0x79, 0xac, 0x1c, 0xb4, 0x85, 0xed, 0x5f, 0x5b, 0x37, 0x91, 0x3a, 0x8c, 0xf5, 0x85,
        0x7e, 0xff, 0x00, 0xa9,
    ]
}

/// The extended token ledger service's program identifier, as bytes:
/// the service that owns non-transferable mints.
pub open spec fn token_2022_program_id_bytes() -> Seq<u8> {
    seq![
        0x06u8, 0xdd, 0xf6, 0xe1, 0xee, 0x75, 0x8f, 0xde, 0x18, 0x42, 0x5d, 0xbc, 0xe4, 0x6c,
        0xcd, 0xda, 0xb6, 0x1a, 0xfc, 0x4d, 0x83, 0xb9, 0x0d, 0x27, 0xfe, 0xbd, 0xf9, 0x28,
        0xd8, 0xa1, 0x8b, 0xfc,
    ]
}

/// The associated-account deriver's program identifier, as bytes.
pub open spec fn associated_token_program_id_bytes() -> Seq<u8> {
    seq![
        0x8cu8, 0x97, 0x25, 0x8f, 0x4e, 0x24, 0x89, 0xf1, 0xbb, 0x3d, 0x10, 0x29, 0x14, 0x8e,
        0x0d, 0x83, 0x0b, 0x5a, 0x13, 0x99, 0xda, 0xff, 0x10, 0x84, 0x04, 0x8e, 0x7b, 0xd8,
        0xdb, 0xe9, 0xf8, 0x59,
    ]
}

/// Relies on mpl_token_metadata::ID, the constant
/// "metaqbxxUerdq28cj1RbAWkYQm3ybzjb6a8bt518x1s"; the bytes stated here
/// are its base58 decoding.
#[verifier::external_body]
pub fn metadata_program_id() -> (r: Key)
    ensures
        r@ == metadata_program_id_bytes(),
{
    Key { bytes: mpl_token_metadata::ID.to_bytes() }
}

/// Relies on spl_token::ID, the constant
/// "TokenkegQfeZyiNwAJbNbGKPFXCWuBvf9Ss623VQ5DA"; the bytes stated here
/// are its base58 decoding.
#[verifier::external_body]
pub fn token_program_id() -> (r: Key)
    ensures
        r@ == token_program_id_bytes(),
{
    Key { bytes: spl_token::ID.to_bytes() }
}

/// Relies on spl_token_2022::ID, the constant
/// "TokenzQdBNbLqP5VEhdkAS6EPFLC1PHnBqCXEpPxuEb"; the bytes stated here
/// are its base58 decoding.
#[verifier::external_body]
pub fn token_2022_program_id() -> (r: Key)
    ensures
        r@ == token_2022_program_id_bytes(),
{
    Key { bytes: spl_token_2022::ID.to_bytes() }
}

/// Relies on spl_associated_token_account::ID, the constant
/// "ATokenGPvbdGVxr1b2hvZbsiqW5xWH25efTNsLJA8knL"; the bytes stated here
/// are its base58 decoding.
#[verifier::external_body]
pub fn associated_token_program_id() -> (r: Key)
    ensures
        r@ == associated_token_program_id_bytes(),
{
    Key { bytes: spl_associated_token_account::ID.to_bytes() }
}

/// The view of a list of seeds, each seed a byte string.
pub open spec fn seeds_view(seeds: Seq<Vec<u8>>) -> Seq<Seq<u8>> {
    seeds.map_values(|s: Vec<u8>| s@)
}

/// The address that the given seeds and owning program derive, if any.
pub uninterp spec fn pda_of(seeds: Seq<Seq<u8>>, program_id: Seq<u8>) -> Option<Seq<u8>>;

/// Relies on Pubkey::try_find_program_address: the derived address is a
/// function of the seeds and the owning program identifier alone, and
/// None is returned exactly when no bump seed yields a valid address.
#[verifier::external_body]
pub fn try_derive_address(seeds: &Vec<Vec<u8>>, program_id: &Key) -> (r: Option<Key>)
    ensures
        match r {
            Some(k) => pda_of(seeds_view(seeds@), program_id@) == Some(k@),
            None => pda_of(seeds_view(seeds@), program_id@) is None,
        },
{
    let seed_refs: Vec<&[u8]> = seeds.iter().map(|s| s.as_slice()).collect();
    let program = solana_program::pubkey::Pubkey::new_from_array(program_id.bytes);
    solana_program::pubkey::Pubkey::try_find_program_address(&seed_refs, &program)
        .map(|(pk, _bump)| Key { bytes: pk.to_bytes() })
}

} // verus!
