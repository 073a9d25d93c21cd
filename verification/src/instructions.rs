use vstd::prelude::*;
use vstd::string::StrSliceExecFns;

use solana_program::pubkey::Pubkey;

use crate::errors::Error;
use crate::keys::{token_2022_program_id, token_program_id, Key};
use crate::mint::{CreateMintAndATA, MintNFT, MINT_ACCOUNT_LAMPORTS};
use crate::sell::SellNft;
use crate::tk22_non_transf_mint::InitializeNonTransferableMint;

verus! {

/// The byte size of a token-ledger mint account.
pub const MINT_ACCOUNT_SPACE: u64 = 82;

/// The byte size of a non-transferable mint account: the base mint
/// padded to the full account length, the account-type byte, and the
/// zero-sized extension's two-byte type and two-byte length.
pub const NON_TRANSFERABLE_MINT_SPACE: u64 = 170;

/// The longest metadata name the metadata service accepts, in
/// characters.
pub const MAX_NAME_LENGTH: usize = 32;

/// The longest metadata symbol the metadata service accepts, in
/// characters.
pub const MAX_SYMBOL_LENGTH: usize = 10;

/// The longest metadata uri the metadata service accepts, in
/// characters.
pub const MAX_URI_LENGTH: usize = 200;

/// A number as eight little-endian bytes.
pub open spec fn u64_le_bytes_of(n: u64) -> Seq<u8> {
    seq![
        (n & 0xff) as u8,
        ((n >> 8) & 0xff) as u8,
        ((n >> 16) & 0xff) as u8,
        ((n >> 24) & 0xff) as u8,
        ((n >> 32) & 0xff) as u8,
        ((n >> 40) & 0xff) as u8,
        ((n >> 48) & 0xff) as u8,
        ((n >> 56) & 0xff) as u8,
    ]
}

/// An optional number: a presence byte, then its bytes when present.
pub open spec fn option_u64_le_bytes_of(v: Option<u64>) -> Seq<u8> {
    match v {
        None => seq![0u8],
        Some(n) => seq![1u8] + u64_le_bytes_of(n),
    }
}

/// An optional address: a presence byte, then its bytes when present.
pub open spec fn option_key_bytes_of(v: Option<Seq<u8>>) -> Seq<u8> {
    match v {
        None => seq![0u8],
        Some(k) => seq![1u8] + k,
    }
}

/// The view of an optional address.
pub open spec fn key_option_view(v: Option<Key>) -> Option<Seq<u8>> {
    match v {
        None => None,
        Some(k) => Some(k@),
    }
}

/// A number as eight little-endian bytes, matching `u64_le_bytes_of`.
pub fn u64_le_bytes(n: u64) -> (r: Vec<u8>)
    ensures
        r@ == u64_le_bytes_of(n),
{
    let mut v: Vec<u8> = Vec::new();
    v.push((n & 0xff) as u8);
    v.push(((n >> 8) & 0xff) as u8);
    v.push(((n >> 16) & 0xff) as u8);
    v.push(((n >> 24) & 0xff) as u8);
    v.push(((n >> 32) & 0xff) as u8);
    v.push(((n >> 40) & 0xff) as u8);
    v.push(((n >> 48) & 0xff) as u8);
    v.push(((n >> 56) & 0xff) as u8);
    proof {
        assert(v@ =~= u64_le_bytes_of(n));
    }
    v
}

/// Relies on solana_program::system_instruction::create_account: its
/// data is the four-byte variant tag, the lamports, the byte size, and
/// the owning program, in order.
#[verifier::external_body]
fn create_account_ix_data(
    payer: &Key,
    new_account: &Key,
    lamports: u64,
    space: u64,
    owner: &Key,
) -> (r: Vec<u8>)
    ensures
        r@ == seq![0u8, 0, 0, 0] + u64_le_bytes_of(lamports) + u64_le_bytes_of(space) + owner@,
{
    solana_program::system_instruction::create_account(
        &Pubkey::new_from_array(payer.bytes),
        &Pubkey::new_from_array(new_account.bytes),
        lamports,
        space,
        &Pubkey::new_from_array(owner.bytes),
    )
    .data
}

/// Relies on solana_program::system_instruction::transfer: its data is
/// the four-byte variant tag followed by the lamports.
#[verifier::external_body]
fn system_transfer_ix_data(from: &Key, to: &Key, lamports: u64) -> (r: Vec<u8>)
    ensures
        r@ == seq![2u8, 0, 0, 0] + u64_le_bytes_of(lamports),
{
    solana_program::system_instruction::transfer(
        &Pubkey::new_from_array(from.bytes),
        &Pubkey::new_from_array(to.bytes),
        lamports,
    )
    .data
}

/// Relies on spl_token::instruction::initialize_mint2: its data is the
/// tag, the decimals, the mint authority, and the optional freeze
/// authority; the builder rejects only a wrong service identifier, and
/// the body passes the right one.
#[verifier::external_body]
fn initialize_mint2_ix_data(
    mint: &Key,
    decimals: u8,
    mint_authority: &Key,
    freeze_authority: Option<Key>,
) -> (r: Result<Vec<u8>, Error>)
    ensures
        r is Ok,
        r matches Ok(d) ==> d@ == seq![20u8, decimals] + mint_authority@ + option_key_bytes_of(
            key_option_view(freeze_authority),
        ),
{
    let freeze = freeze_authority.map(|k| Pubkey::new_from_array(k.bytes));
    match spl_token::instruction::initialize_mint2(
        &spl_token::ID,
        &Pubkey::new_from_array(mint.bytes),
        &Pubkey::new_from_array(mint_authority.bytes),
        freeze.as_ref(),
        decimals,
    ) {
        Ok(ix) => Ok(ix.data),
        Err(_) => Err(Error::AccountCreationFailed),
    }
}

/// Relies on spl_token::instruction::mint_to: its data is the tag
/// followed by the amount, little-endian; the builder rejects only a
/// wrong service identifier, and the body passes the right one.
#[verifier::external_body]
fn mint_to_ix_data(mint: &Key, destination: &Key, authority: &Key, amount: u64) -> (r: Result<
    Vec<u8>,
    Error,
>)
    ensures
        r is Ok,
        r matches Ok(d) ==> d@ == seq![7u8] + u64_le_bytes_of(amount),
{
    match spl_token::instruction::mint_to(
        &spl_token::ID,
        &Pubkey::new_from_array(mint.bytes),
        &Pubkey::new_from_array(destination.bytes),
        &Pubkey::new_from_array(authority.bytes),
        &[],
        amount,
    ) {
        Ok(ix) => Ok(ix.data),
        Err(_) => Err(Error::MintFailed),
    }
}

/// Relies on spl_token::instruction::set_authority, reassigning the
/// account owner: its data is the tag, the owner authority kind, and
/// the new owner behind a presence byte; the builder rejects only a
/// wrong service identifier, and the body passes the right one.
#[verifier::external_body]
fn set_owner_ix_data(account: &Key, current_owner: &Key, new_owner: &Key) -> (r: Result<
    Vec<u8>,
    Error,
>)
    ensures
        r is Ok,
        r matches Ok(d) ==> d@ == seq![6u8, 2u8, 1u8] + new_owner@,
{
    match spl_token::instruction::set_authority(
        &spl_token::ID,
        &Pubkey::new_from_array(account.bytes),
        Some(&Pubkey::new_from_array(new_owner.bytes)),
        spl_token::instruction::AuthorityType::AccountOwner,
        &Pubkey::new_from_array(current_owner.bytes),
        &[],
    ) {
        Ok(ix) => Ok(ix.data),
        Err(_) => Err(Error::InvalidAccount),
    }
}

/// Relies on spl_token_2022::instruction::initialize_non_transferable_mint:
/// its data is the single extension tag; the builder rejects only a
/// wrong service identifier, and the body passes the right one.
#[verifier::external_body]
fn initialize_non_transferable_ix_data(mint: &Key) -> (r: Result<Vec<u8>, Error>)
    ensures
        r is Ok,
        r matches Ok(d) ==> d@ == seq![32u8],
{
    match spl_token_2022::instruction::initialize_non_transferable_mint(
        &spl_token_2022::ID,
        &Pubkey::new_from_array(mint.bytes),
    ) {
        Ok(ix) => Ok(ix.data),
        Err(_) => Err(Error::AccountCreationFailed),
    }
}

/// What the metadata service's create-metadata call encodes for the
/// given strings, with no creator list, a one-basis-point fee, mutable
/// metadata, and no collection.
pub uninterp spec fn create_metadata_ix_data_of(
    name: Seq<char>,
    symbol: Seq<char>,
    uri: Seq<char>,
) -> Seq<u8>;

/// Relies on mpl_token_metadata::instruction::create_metadata_accounts_v3,
/// called with no creator list, a one-basis-point fee, mutable
/// metadata and no collection: its data is a function of the three
/// strings alone and starts with the instruction's tag. The builder
/// serializes without recourse and fails only on strings of four
/// gibibytes or more, so the service's own caps on name, symbol and
/// uri are required here, keeping every admitted call returning.
#[verifier::external_body]
fn create_metadata_ix_data(
    metadata: &Key,
    mint: &Key,
    authority: &Key,
    name: &str,
    symbol: &str,
    uri: &str,
) -> (r: Vec<u8>)
    requires
        name@.len() <= MAX_NAME_LENGTH,
        symbol@.len() <= MAX_SYMBOL_LENGTH,
        uri@.len() <= MAX_URI_LENGTH,
    ensures
        r@ == create_metadata_ix_data_of(name@, symbol@, uri@),
        r@.len() >= 1 && r@[0] == 33u8,
{
    let auth = Pubkey::new_from_array(authority.bytes);
    mpl_token_metadata::instruction::create_metadata_accounts_v3(
        mpl_token_metadata::ID,
        Pubkey::new_from_array(metadata.bytes),
        Pubkey::new_from_array(mint.bytes),
        auth, auth, auth,
        name.to_string(), symbol.to_string(), uri.to_string(),
        None, 1, true, true, None, None, None,
    )
    .data
}

/// Relies on mpl_token_metadata::instruction::create_master_edition_v3:
/// its data is the tag followed by the optional supply cap.
#[verifier::external_body]
fn create_master_edition_ix_data(
    edition: &Key,
    mint: &Key,
    authority: &Key,
    metadata: &Key,
    max_supply: Option<u64>,
) -> (r: Vec<u8>)
    ensures
        r@ == seq![17u8] + option_u64_le_bytes_of(max_supply),
{
    mpl_token_metadata::instruction::create_master_edition_v3(
        mpl_token_metadata::ID,
        Pubkey::new_from_array(edition.bytes),
        Pubkey::new_from_array(mint.bytes),
        Pubkey::new_from_array(authority.bytes),
        Pubkey::new_from_array(authority.bytes),
        Pubkey::new_from_array(metadata.bytes),
        Pubkey::new_from_array(authority.bytes),
        max_supply,
    )
    .data
}

/// The data of the metadata service's print call: the tag followed by
/// the edition number, little-endian.
pub fn mint_new_edition_ix_data(edition_number: u64) -> (r: Vec<u8>)
    ensures
        r@ == seq![11u8] + u64_le_bytes_of(edition_number),
{
    let mut v: Vec<u8> = Vec::new();
    v.push(11);
    let mut num = u64_le_bytes(edition_number);
    v.append(&mut num);
    proof {
        assert(v@ =~= seq![11u8] + u64_le_bytes_of(edition_number));
    }
    v
}

/// The data of the associated-account deriver's create call: the
/// single create tag.
pub fn create_associated_account_ix_data() -> (r: Vec<u8>)
    ensures
        r@ == seq![0u8],
{
    let mut v: Vec<u8> = Vec::new();
    v.push(0);
    proof {
        assert(v@ =~= seq![0u8]);
    }
    v
}

/// The data of each sub-call `create_and_initialize` issues, in order:
/// allocate and fund the mint account, initialize it with zero
/// decimals under the authority, and create the canonical holder
/// account.
pub fn create_and_initialize_plan(ctx: &CreateMintAndATA) -> (r: Result<Vec<Vec<u8>>, Error>)
    ensures
        r is Ok,
        r matches Ok(d) ==> d@.len() == 3 && d@[0]@ == seq![0u8, 0, 0, 0] + u64_le_bytes_of(
            MINT_ACCOUNT_LAMPORTS,
        ) + u64_le_bytes_of(MINT_ACCOUNT_SPACE) + crate::keys::token_program_id_bytes()
            && d@[1]@ == seq![20u8, 0u8] + ctx.authority@ + option_key_bytes_of(
            Some(ctx.authority@),
        ) && d@[2]@ == seq![0u8],
{
    let token_program = token_program_id();
    let allocate = create_account_ix_data(
        &ctx.authority,
        &ctx.mint,
        MINT_ACCOUNT_LAMPORTS,
        MINT_ACCOUNT_SPACE,
        &token_program,
    );
    let initialize = initialize_mint2_ix_data(&ctx.mint, 0, &ctx.authority, Some(ctx.authority))?;
    let holder = create_associated_account_ix_data();
    let mut plan: Vec<Vec<u8>> = Vec::new();
    plan.push(allocate);
    plan.push(initialize);
    plan.push(holder);
    Ok(plan)
}

/// The data of each sub-call `mint` issues, in order: mint the single
/// unit, create the metadata record, and create the master edition
/// with its cap. Strings longer than the metadata service accepts are
/// rejected here, before anything is encoded.
pub fn mint_plan(
    ctx: &MintNFT,
    name: &str,
    symbol: &str,
    uri: &str,
    max_supply: Option<u64>,
) -> (r: Result<Vec<Vec<u8>>, Error>)
    ensures
        r is Ok <==> (name@.len() <= MAX_NAME_LENGTH && symbol@.len() <= MAX_SYMBOL_LENGTH
            && uri@.len() <= MAX_URI_LENGTH),
        r matches Ok(d) ==> d@.len() == 3 && d@[0]@ == seq![7u8] + u64_le_bytes_of(1) && d@[1]@
            == create_metadata_ix_data_of(name@, symbol@, uri@) && d@[2]@ == seq![17u8]
            + option_u64_le_bytes_of(max_supply),
        r matches Err(e) ==> e == Error::MetadataCreateFailed,
{
    if name.unicode_len() > MAX_NAME_LENGTH || symbol.unicode_len() > MAX_SYMBOL_LENGTH
        || uri.unicode_len() > MAX_URI_LENGTH {
        return Err(Error::MetadataCreateFailed);
    }
    let unit = mint_to_ix_data(&ctx.mint, &ctx.token_account, &ctx.authority, 1)?;
    let metadata = create_metadata_ix_data(
        &ctx.metadata,
        &ctx.mint,
        &ctx.authority,
        name,
        symbol,
        uri,
    );
    let master = create_master_edition_ix_data(
        &ctx.master_edition,
        &ctx.mint,
        &ctx.authority,
        &ctx.metadata,
        max_supply,
    );
    let mut plan: Vec<Vec<u8>> = Vec::new();
    plan.push(unit);
    plan.push(metadata);
    plan.push(master);
    Ok(plan)
}

/// The data of the single sub-call `print` issues: the metadata
/// service's print call for this edition number.
pub fn print_plan(edition_number: u64) -> (r: Vec<u8>)
    ensures
        r@ == seq![11u8] + u64_le_bytes_of(edition_number),
{
    mint_new_edition_ix_data(edition_number)
}

/// The data of each sub-call `sell` issues, in order: move the payment
/// from the buyer to the seller, then reassign the holder account's
/// owner to the buyer.
pub fn sell_plan(ctx: &SellNft, payment_amount: u64) -> (r: Result<Vec<Vec<u8>>, Error>)
    ensures
        r is Ok,
        r matches Ok(d) ==> d@.len() == 2 && d@[0]@ == seq![2u8, 0, 0, 0] + u64_le_bytes_of(
            payment_amount,
        ) && d@[1]@ == seq![6u8, 2u8, 1u8] + ctx.buyer@,
{
    let payment = system_transfer_ix_data(&ctx.buyer, &ctx.seller_authority, payment_amount);
    let custody = set_owner_ix_data(&ctx.token_account, &ctx.seller_authority, &ctx.buyer)?;
    let mut plan: Vec<Vec<u8>> = Vec::new();
    plan.push(payment);
    plan.push(custody);
    Ok(plan)
}

/// The data of each sub-call `initialize_non_transferable_mint`
/// issues, in order: allocate and fund the mint account — owned by the
/// extended token service, with room for the extension — flag it
/// non-transferable before it carries any state, then initialize it.
pub fn initialize_non_transferable_plan(ctx: &InitializeNonTransferableMint) -> (r: Result<
    Vec<Vec<u8>>,
    Error,
>)
    ensures
        r is Ok,
        r matches Ok(d) ==> d@.len() == 3 && d@[0]@ == seq![0u8, 0, 0, 0] + u64_le_bytes_of(
            MINT_ACCOUNT_LAMPORTS,
        ) + u64_le_bytes_of(NON_TRANSFERABLE_MINT_SPACE)
            + crate::keys::token_2022_program_id_bytes() && d@[1]@ == seq![32u8] && d@[2]@ == seq![
            20u8,
            0u8,
        ] + ctx.authority@ + option_key_bytes_of(Some(ctx.authority@)),
{
    let token_program = token_2022_program_id();
    let allocate = create_account_ix_data(
        &ctx.authority,
        &ctx.mint,
        MINT_ACCOUNT_LAMPORTS,
        NON_TRANSFERABLE_MINT_SPACE,
        &token_program,
    );
    let flag = initialize_non_transferable_ix_data(&ctx.mint)?;
    let initialize = initialize_mint2_ix_data(&ctx.mint, 0, &ctx.authority, Some(ctx.authority))?;
    let mut plan: Vec<Vec<u8>> = Vec::new();
    plan.push(allocate);
    plan.push(flag);
    plan.push(initialize);
    Ok(plan)
}

} // verus!
