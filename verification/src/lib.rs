//! One-of-one collectibles on a shared, account-based ledger: mint a
//! token class with metadata and an edition cap, print numbered copies
//! guarded by a per-number marker, and exchange custody for payment.
//!
//! The ledger and the external token, metadata and system services are
//! modelled as verified state transitions; address derivation calls
//! the real derivation routines of the on-chain ecosystem.
use vstd::prelude::*;

pub mod accounts;
pub mod derive;
pub mod errors;
pub mod instructions;
pub mod keys;
pub mod laws;
pub mod ledger;
pub mod mint;
pub mod print;
pub mod sell;
pub mod tk22_non_transf_mint;

use crate::accounts::{Account, Creator, MasterEdition, Mint, TokenAccount};
use crate::derive::ata_pda;
use crate::errors::Error;
use crate::ledger::Ledger;
use crate::mint::{CreateMintAndATA, MintNFT};
use crate::print::Print;
use crate::sell::SellNft;

verus! {

/// Entry point: allocate and initialize a mint and its canonical
/// holder account for the authority.
pub fn create_initialize_and_mint(ledger: &mut Ledger, ctx: CreateMintAndATA) -> (r: Result<
    (),
    Error,
>)
    requires
        old(ledger).wf(),
    ensures
        final(ledger).wf(),
        match r {
            Ok(_) => crate::mint::create_and_initialize_check(old(ledger)@, ctx) is None && final(ledger)@ == crate::mint::create_and_initialize_commit(old(ledger)@, ctx),
            Err(e) => crate::mint::create_and_initialize_check(old(ledger)@, ctx) == Some(e)
                && final(ledger)@ == old(ledger)@,
        },
{
    crate::mint::create_and_initialize(ledger, ctx)
}

/// Entry point: mint the single unit, attach metadata, and cap the
/// edition supply at one, as a pure one-of-one.
pub fn mint_nft(
    ledger: &mut Ledger,
    ctx: MintNFT,
    metadata_title: String,
    metadata_symbol: String,
    metadata_uri: String,
) -> (r: Result<(), Error>)
    requires
        old(ledger).wf(),
    ensures
        final(ledger).wf(),
        match r {
            Ok(_) => {
                &&& crate::mint::mint_check(old(ledger)@, ctx) is None
                &&& final(ledger)@[ctx.mint@] == Account::Mint(
                    Mint { supply: 1, ..old(ledger)@[ctx.mint@]->Mint_0 },
                )
                &&& final(ledger)@[ctx.token_account@] == Account::Token(
                    TokenAccount { amount: 1, ..old(ledger)@[ctx.token_account@]->Token_0 },
                )
                &&& final(ledger)@[ctx.master_edition@] == Account::MasterEdition(
                    MasterEdition { mint: ctx.mint, max_supply: Some(1), supply: 0 },
                )
                &&& (final(ledger)@[ctx.metadata@] matches Account::Metadata(md) && md.mint
                    == ctx.mint && md.update_authority == ctx.authority && md.name
                    == metadata_title && md.symbol == metadata_symbol && md.uri == metadata_uri
                    && md.creators@ == seq![
                    Creator { address: ctx.authority, verified: true, share: 100u8 },
                ] && md.is_mutable)
                &&& forall|k: Seq<u8>|
                    final(ledger)@.dom().contains(k) <==> (old(ledger)@.dom().contains(k) || k
                        == ctx.metadata@ || k == ctx.master_edition@)
                &&& forall|k: Seq<u8>|
                    old(ledger)@.dom().contains(k) && k != ctx.mint@ && k != ctx.token_account@
                        && k != ctx.metadata@ && k != ctx.master_edition@ ==> final(ledger)@[k]
                        == old(ledger)@[k]
            },
            Err(e) => crate::mint::mint_check(old(ledger)@, ctx) == Some(e) && final(ledger)@
                == old(ledger)@,
        },
{
    crate::mint::mint(ledger, ctx, metadata_title, metadata_symbol, metadata_uri, Some(1))
}

/// Entry point: print one numbered copy of a master edition.
pub fn print(ledger: &mut Ledger, ctx: Print, edition: u64) -> (r: Result<(), Error>)
    requires
        old(ledger).wf(),
    ensures
        final(ledger).wf(),
        match r {
            Ok(_) => crate::print::print_check(old(ledger)@, ctx, edition) is None && ata_pda(
                ctx.master_edition_owner_authority@,
                ctx.new_mint@,
            ) is Some && final(ledger)@ == crate::print::print_commit(
                old(ledger)@,
                ctx,
                edition,
                ata_pda(ctx.master_edition_owner_authority@, ctx.new_mint@)->0,
            ),
            Err(e) => crate::print::print_check(old(ledger)@, ctx, edition) == Some(e) && final(ledger)@ == old(ledger)@,
        },
{
    crate::print::print(ledger, ctx, edition)
}

/// Entry point: exchange custody of the holder account for payment.
pub fn sell(ledger: &mut Ledger, ctx: SellNft, sale_lamports: u64) -> (r: Result<(), Error>)
    requires
        old(ledger).wf(),
    ensures
        final(ledger).wf(),
        match r {
            Ok(_) => crate::sell::sell_check(old(ledger)@, ctx, sale_lamports) is None && final(ledger)@ == crate::sell::sell_commit(old(ledger)@, ctx, sale_lamports),
            Err(e) => crate::sell::sell_check(old(ledger)@, ctx, sale_lamports) == Some(e)
                && final(ledger)@ == old(ledger)@,
        },
{
    crate::sell::sell(ledger, ctx, sale_lamports)
}

} // verus!
