use vstd::prelude::*;

use crate::derive::{edition_marker_bucket_pda, master_edition_pda, metadata_pda};
use crate::keys::Key;

verus! {

/// A token class: its supply and authority state.
///
/// For a one-of-one collectible the supply never exceeds one and the
/// decimals are always zero.
#[derive(Clone, Copy)]
pub struct Mint {
    pub decimals: u8,
    pub supply: u64,
    pub mint_authority: Key,
    pub freeze_authority: Option<Key>,
    /// Cleared permanently by the non-transferable initialization path.
    pub transferable: bool,
}

/// A holder account: the balance one owner holds of one mint.
#[derive(Clone, Copy)]
pub struct TokenAccount {
    pub mint: Key,
    pub owner: Key,
    pub amount: u64,
}

/// One entry of a metadata record's creator list.
#[derive(Clone, Copy)]
pub struct Creator {
    pub address: Key,
    pub verified: bool,
    pub share: u8,
}

/// The descriptive record bound to a mint at its derived address.
pub struct Metadata {
    pub mint: Key,
    pub update_authority: Key,
    pub name: String,
    pub symbol: String,
    pub uri: String,
    pub creators: Vec<Creator>,
    pub is_mutable: bool,
}

/// The supply cap and counter of numbered copies of a one-of-one mint.
#[derive(Clone, Copy)]
pub struct MasterEdition {
    pub mint: Key,
    pub max_supply: Option<u64>,
    pub supply: u64,
}

/// The metadata record of a printed copy: it references the master's
/// metadata as "edition N".
#[derive(Clone, Copy)]
pub struct EditionMetadata {
    pub mint: Key,
    pub parent_metadata: Key,
    pub edition_number: u64,
}

/// The numbered-edition record of a printed copy, referencing its
/// master edition.
#[derive(Clone, Copy)]
pub struct Edition {
    pub mint: Key,
    pub parent: Key,
    pub edition_number: u64,
}

/// The permanent witness that edition numbers of one bucket have been
/// printed: one bit per number, packed into four words.
#[derive(Clone, Copy)]
pub struct EditionMarker {
    pub mint: Key,
    pub bucket: u64,
    pub w0: u64,
    pub w1: u64,
    pub w2: u64,
    pub w3: u64,
}

/// A native-currency account: a balance in the smallest unit.
#[derive(Clone, Copy)]
pub struct Wallet {
    pub lamports: u64,
}

/// Everything one address on the ledger can hold.
pub enum Account {
    Mint(Mint),
    Token(TokenAccount),
    Metadata(Metadata),
    MasterEdition(MasterEdition),
    EditionMetadata(EditionMetadata),
    Edition(Edition),
    EditionMarker(EditionMarker),
    Wallet(Wallet),
}

/// The sum of the creator shares of a metadata record.
pub open spec fn sum_shares(cs: Seq<Creator>) -> int
    decreases cs.len(),
{
    if cs.len() == 0 {
        0
    } else {
        sum_shares(cs.drop_last()) + cs.last().share
    }
}

/// The default creator list when a caller supplies none: the authority
/// with the full share.
pub fn default_creators(authority: Key) -> (r: Vec<Creator>)
    ensures
        r@ == seq![Creator { address: authority, verified: true, share: 100u8 }],
{
    let mut v: Vec<Creator> = Vec::new();
    v.push(Creator { address: authority, verified: true, share: 100 });
    proof {
        assert(v@ =~= seq![Creator { address: authority, verified: true, share: 100u8 }]);
    }
    v
}

/// The word of a marker that carries the given bit offset.
pub open spec fn marker_word(m: EditionMarker, w: int) -> u64 {
    if w == 0 {
        m.w0
    } else if w == 1 {
        m.w1
    } else if w == 2 {
        m.w2
    } else {
        m.w3
    }
}

/// Whether the marker witnesses the edition number at this bit offset.
pub open spec fn marker_bit_set(m: EditionMarker, offset: u64) -> bool {
    (marker_word(m, offset as int / 64) >> (offset % 64)) & 1 == 1
}

/// The marker with the bit at this offset additionally set.
pub open spec fn marker_with_bit(m: EditionMarker, offset: u64) -> EditionMarker {
    if offset < 64 {
        EditionMarker { w0: m.w0 | (1u64 << (offset % 64)), ..m }
    } else if offset < 128 {
        EditionMarker { w1: m.w1 | (1u64 << (offset % 64)), ..m }
    } else if offset < 192 {
        EditionMarker { w2: m.w2 | (1u64 << (offset % 64)), ..m }
    } else {
        EditionMarker { w3: m.w3 | (1u64 << (offset % 64)), ..m }
    }
}

/// Read one witness bit of a marker.
pub fn marker_bit(m: &EditionMarker, offset: u64) -> (r: bool)
    requires
        offset < 248,
    ensures
        r == marker_bit_set(*m, offset),
{
    let w = offset / 64;
    let b = offset % 64;
    let word = if w == 0 {
        m.w0
    } else if w == 1 {
        m.w1
    } else if w == 2 {
        m.w2
    } else {
        m.w3
    };
    (word >> b) & 1 == 1
}

/// Set one witness bit of a marker.
pub fn marker_set_bit(m: &EditionMarker, offset: u64) -> (r: EditionMarker)
    requires
        offset < 248,
    ensures
        r == marker_with_bit(*m, offset),
{
    let b = offset % 64;
    if offset < 64 {
        EditionMarker { w0: m.w0 | (1u64 << b), ..*m }
    } else if offset < 128 {
        EditionMarker { w1: m.w1 | (1u64 << b), ..*m }
    } else if offset < 192 {
        EditionMarker { w2: m.w2 | (1u64 << b), ..*m }
    } else {
        EditionMarker { w3: m.w3 | (1u64 << b), ..*m }
    }
}

/// Setting a bit makes it read as set.
pub proof fn lemma_marker_with_bit_sets(m: EditionMarker, offset: u64)
    requires
        offset < 248,
    ensures
        marker_bit_set(marker_with_bit(m, offset), offset),
{
    let w = marker_word(m, offset as int / 64);
    let b = offset % 64;
    assert(((w | (1u64 << b)) >> b) & 1 == 1) by (bit_vector)
        requires
            b < 64,
    ;
}

/// Setting a bit leaves every other bit as it was.
pub proof fn lemma_marker_with_bit_preserves(m: EditionMarker, offset: u64, other: u64)
    requires
        offset < 248,
        other < 248,
        other != offset,
    ensures
        marker_bit_set(marker_with_bit(m, offset), other) == marker_bit_set(m, other),
{
    let w = marker_word(m, offset as int / 64);
    let b = offset % 64;
    let c = other % 64;
    if offset as int / 64 == other as int / 64 {
        assert(b != c);
        assert(((w | (1u64 << b)) >> c) & 1 == (w >> c) & 1) by (bit_vector)
            requires
                b < 64,
                c < 64,
                b != c,
        ;
    }
}

/// What must hold of an account given the address it sits at: every
/// metadata, master-edition, edition and marker account sits at its
/// derived address, creator shares sum to the full hundred, a
/// one-of-one mint's supply never exceeds one, and a master edition's
/// counter never exceeds its cap.
pub open spec fn account_keyed_ok(k: Seq<u8>, a: Account) -> bool {
    match a {
        Account::Mint(m) => m.supply <= 1,
        Account::Metadata(md) => Some(k) == metadata_pda(md.mint@) && sum_shares(md.creators@)
            == 100,
        Account::MasterEdition(me) => Some(k) == master_edition_pda(me.mint@) && (me.max_supply
            matches Some(mx) ==> me.supply <= mx),
        Account::EditionMetadata(em) => Some(k) == metadata_pda(em.mint@),
        Account::Edition(e) => Some(k) == master_edition_pda(e.mint@),
        Account::EditionMarker(mk) => Some(k) == edition_marker_bucket_pda(mk.mint@, mk.bucket),
        _ => true,
    }
}

} // verus!
