use vstd::prelude::*;

use crate::accounts::{
    marker_bit, marker_bit_set, marker_set_bit, marker_with_bit, Account, Edition, EditionMarker,
    EditionMetadata, Mint, TokenAccount,
};
use crate::derive::{
    ata_pda, derive_associated_token_address, derive_edition_marker_address,
    derive_master_edition_address, derive_metadata_address, edition_marker_pda,
    master_edition_pda, metadata_pda, EDITION_MARKER_BIT_SIZE,
};
use crate::errors::Error;
use crate::keys::{key_eq, Key};
use crate::ledger::Ledger;

verus! {

/// The fixed-role account list of `print`: the derived metadata and
/// edition addresses of the new copy, the master's derived accounts,
/// the new mint, the marker bucket, the holder proving ownership of
/// the original, and the owner signing the operation.
#[derive(Clone, Copy)]
pub struct Print {
    pub new_metadata: Key,
    pub new_edition: Key,
    pub master_edition: Key,
    pub new_mint: Key,
    pub edition_mark_pda: Key,
    pub master_edition_owner_authority: Key,
    pub mint: Key,
    pub token_account: Key,
    pub metadata: Key,
}

/// All five supplied addresses match their required derivations.
pub open spec fn print_addresses_ok(ctx: Print, edition_number: u64) -> bool {
    &&& Some(ctx.new_metadata@) == metadata_pda(ctx.new_mint@)
    &&& Some(ctx.new_edition@) == master_edition_pda(ctx.new_mint@)
    &&& Some(ctx.master_edition@) == master_edition_pda(ctx.mint@)
    &&& Some(ctx.edition_mark_pda@) == edition_marker_pda(ctx.mint@, edition_number)
    &&& Some(ctx.metadata@) == metadata_pda(ctx.mint@)
}

/// The addresses `print` creates are pairwise distinct.
pub open spec fn print_fresh_distinct(ctx: Print, new_holder: Seq<u8>) -> bool {
    &&& ctx.new_mint@ != ctx.new_metadata@
    &&& ctx.new_mint@ != ctx.new_edition@
    &&& ctx.new_mint@ != new_holder
    &&& ctx.new_metadata@ != ctx.new_edition@
    &&& ctx.new_metadata@ != new_holder
    &&& ctx.new_edition@ != new_holder
    &&& ctx.edition_mark_pda@ != ctx.new_mint@
    &&& ctx.edition_mark_pda@ != ctx.new_metadata@
    &&& ctx.edition_mark_pda@ != ctx.new_edition@
    &&& ctx.edition_mark_pda@ != new_holder
}

/// Whether `print` is rejected, and why.
///
/// The marker check comes before everything that concerns the new
/// accounts: a second print of the same edition number fails with
/// `EditionAlreadyPrinted` whatever fresh accounts the caller brings.
pub open spec fn print_check(l: Map<Seq<u8>, Account>, ctx: Print, edition_number: u64) -> Option<
    Error,
> {
    if !print_addresses_ok(ctx, edition_number) {
        Some(Error::WrongDerivedAddress)
    } else if edition_number == 0 {
        Some(Error::InvalidEditionNumber)
    } else if !(l.dom().contains(ctx.master_edition@) && l[ctx.master_edition@] is MasterEdition) {
        Some(Error::InvalidAccount)
    } else if (l[ctx.master_edition@]->MasterEdition_0.max_supply matches Some(mx)
        && edition_number > mx) {
        Some(Error::EditionExceedsSupply)
    } else if l.dom().contains(ctx.edition_mark_pda@) && !(l[ctx.edition_mark_pda@]
        is EditionMarker) {
        Some(Error::InvalidAccount)
    } else if l.dom().contains(ctx.edition_mark_pda@) && marker_bit_set(
        l[ctx.edition_mark_pda@]->EditionMarker_0,
        edition_number % EDITION_MARKER_BIT_SIZE,
    ) {
        Some(Error::EditionAlreadyPrinted)
    } else if !(l.dom().contains(ctx.token_account@) && l[ctx.token_account@] is Token
        && l[ctx.token_account@]->Token_0.mint@ == ctx.mint@
        && l[ctx.token_account@]->Token_0.owner@ == ctx.master_edition_owner_authority@
        && l[ctx.token_account@]->Token_0.amount >= 1) {
        Some(Error::NotTokenHolder)
    } else if !(l.dom().contains(ctx.metadata@) && l[ctx.metadata@] is Metadata
        && l[ctx.metadata@]->Metadata_0.mint@ == ctx.mint@) {
        Some(Error::InvalidAccount)
    } else if l.dom().contains(ctx.new_mint@) || l.dom().contains(ctx.new_metadata@)
        || l.dom().contains(ctx.new_edition@) {
        Some(Error::AlreadyInitialized)
    } else if ata_pda(ctx.master_edition_owner_authority@, ctx.new_mint@) is None {
        Some(Error::WrongDerivedAddress)
    } else if l.dom().contains(ata_pda(ctx.master_edition_owner_authority@, ctx.new_mint@)->0) {
        Some(Error::AlreadyInitialized)
    } else if !print_fresh_distinct(
        ctx,
        ata_pda(ctx.master_edition_owner_authority@, ctx.new_mint@)->0,
    ) {
        Some(Error::AlreadyInitialized)
    } else if (l[ctx.master_edition@]->MasterEdition_0.max_supply matches Some(mx)
        && l[ctx.master_edition@]->MasterEdition_0.supply >= mx) {
        Some(Error::EditionExceedsSupply)
    } else if l[ctx.master_edition@]->MasterEdition_0.supply == u64::MAX {
        Some(Error::EditionExceedsSupply)
    } else {
        None
    }
}

/// The ledger after an accepted `print`: the master's counter rises by
/// one, the marker witnesses the number, and the new mint, its holder
/// with the single unit, and the copy's metadata and edition records
/// come to exist.
pub open spec fn print_commit(
    l: Map<Seq<u8>, Account>,
    ctx: Print,
    edition_number: u64,
    new_holder: Seq<u8>,
) -> Map<Seq<u8>, Account>
    recommends
        l.dom().contains(ctx.master_edition@),
        l[ctx.master_edition@] is MasterEdition,
{
    let me = l[ctx.master_edition@]->MasterEdition_0;
    let offset = edition_number % EDITION_MARKER_BIT_SIZE;
    let marker0 = if l.dom().contains(ctx.edition_mark_pda@) {
        l[ctx.edition_mark_pda@]->EditionMarker_0
    } else {
        EditionMarker {
            mint: ctx.mint,
            bucket: (edition_number / EDITION_MARKER_BIT_SIZE) as u64,
            w0: 0,
            w1: 0,
            w2: 0,
            w3: 0,
        }
    };
    let owner = ctx.master_edition_owner_authority;
    l.insert(
        ctx.master_edition@,
        Account::MasterEdition(
            crate::accounts::MasterEdition { supply: (me.supply + 1) as u64, ..me },
        ),
    ).insert(ctx.edition_mark_pda@, Account::EditionMarker(marker_with_bit(marker0, offset)))
        .insert(
        ctx.new_mint@,
        Account::Mint(
            Mint {
                decimals: 0,
                supply: 1,
                mint_authority: owner,
                freeze_authority: Some(owner),
                transferable: true,
            },
        ),
    ).insert(new_holder, Account::Token(TokenAccount { mint: ctx.new_mint, owner, amount: 1 }))
        .insert(
        ctx.new_metadata@,
        Account::EditionMetadata(
            EditionMetadata {
                mint: ctx.new_mint,
                parent_metadata: ctx.metadata,
                edition_number,
            },
        ),
    ).insert(
        ctx.new_edition@,
        Account::Edition(Edition { mint: ctx.new_mint, parent: ctx.master_edition, edition_number }),
    )
}

/// Print one numbered copy of a master edition.
///
/// The caller must hold a unit of the original mint; the edition
/// number must be at least one, within the master's cap, and not yet
/// witnessed by its marker bucket. On success the whole
/// mint/metadata/edition triple of the copy comes to exist and the
/// marker bit is set, permanently; on rejection the ledger is left
/// exactly as it was.
pub fn print(ledger: &mut Ledger, ctx: Print, edition_number: u64) -> (r: Result<(), Error>)
    requires
        old(ledger).wf(),
    ensures
        final(ledger).wf(),
        match r {
            Ok(_) => print_check(old(ledger)@, ctx, edition_number) is None && ata_pda(
                ctx.master_edition_owner_authority@,
                ctx.new_mint@,
            ) is Some && final(ledger)@ == print_commit(
                old(ledger)@,
                ctx,
                edition_number,
                ata_pda(ctx.master_edition_owner_authority@, ctx.new_mint@)->0,
            ),
            Err(e) => print_check(old(ledger)@, ctx, edition_number) == Some(e) && final(ledger)@
                == old(ledger)@,
        },
{
    // Validate the five supplied derived addresses.
    let d = match derive_metadata_address(&ctx.new_mint) {
        Some(k) => k,
        None => {
            return Err(Error::WrongDerivedAddress);
        },
    };
    if !key_eq(&d, &ctx.new_metadata) {
        return Err(Error::WrongDerivedAddress);
    }
    let d = match derive_master_edition_address(&ctx.new_mint) {
        Some(k) => k,
        None => {
            return Err(Error::WrongDerivedAddress);
        },
    };
    if !key_eq(&d, &ctx.new_edition) {
        return Err(Error::WrongDerivedAddress);
    }
    let d = match derive_master_edition_address(&ctx.mint) {
        Some(k) => k,
        None => {
            return Err(Error::WrongDerivedAddress);
        },
    };
    if !key_eq(&d, &ctx.master_edition) {
        return Err(Error::WrongDerivedAddress);
    }
    let d = match derive_edition_marker_address(&ctx.mint, edition_number) {
        Some(k) => k,
        None => {
            return Err(Error::WrongDerivedAddress);
        },
    };
    if !key_eq(&d, &ctx.edition_mark_pda) {
        return Err(Error::WrongDerivedAddress);
    }
    let d = match derive_metadata_address(&ctx.mint) {
        Some(k) => k,
        None => {
            return Err(Error::WrongDerivedAddress);
        },
    };
    if !key_eq(&d, &ctx.metadata) {
        return Err(Error::WrongDerivedAddress);
    }
    if edition_number == 0 {
        return Err(Error::InvalidEditionNumber);
    }
    // The master edition and its cap.
    let master_index = match ledger.find(&ctx.master_edition) {
        Some(i) => i,
        None => {
            return Err(Error::InvalidAccount);
        },
    };
    let master = match &ledger.accounts[master_index].1 {
        Account::MasterEdition(me) => *me,
        _ => {
            return Err(Error::InvalidAccount);
        },
    };
    match master.max_supply {
        Some(mx) => {
            if edition_number > mx {
                return Err(Error::EditionExceedsSupply);
            }
        },
        None => {},
    }
    // The marker bucket: its absence, or an unset bit, reserves the number.
    let offset = edition_number % EDITION_MARKER_BIT_SIZE;
    let marker_found = ledger.find(&ctx.edition_mark_pda);
    let marker0 = match marker_found {
        Some(i) => {
            match &ledger.accounts[i].1 {
                Account::EditionMarker(mk) => {
                    if marker_bit(mk, offset) {
                        return Err(Error::EditionAlreadyPrinted);
                    }
                    *mk
                },
                _ => {
                    return Err(Error::InvalidAccount);
                },
            }
        },
        None => EditionMarker {
            mint: ctx.mint,
            bucket: edition_number / EDITION_MARKER_BIT_SIZE,
            w0: 0,
            w1: 0,
            w2: 0,
            w3: 0,
        },
    };
    // The caller must hold a unit of the original mint.
    let holder_ok = match ledger.find(&ctx.token_account) {
        Some(i) => match &ledger.accounts[i].1 {
            Account::Token(t) => key_eq(&t.mint, &ctx.mint) && key_eq(
                &t.owner,
                &ctx.master_edition_owner_authority,
            ) && t.amount >= 1,
            _ => false,
        },
        None => false,
    };
    if !holder_ok {
        return Err(Error::NotTokenHolder);
    }
    // The master's metadata record.
    let metadata_ok = match ledger.find(&ctx.metadata) {
        Some(i) => match &ledger.accounts[i].1 {
            Account::Metadata(md) => key_eq(&md.mint, &ctx.mint),
            _ => false,
        },
        None => false,
    };
    if !metadata_ok {
        return Err(Error::InvalidAccount);
    }
    // The whole new triple must be absent.
    if ledger.find(&ctx.new_mint).is_some() || ledger.find(&ctx.new_metadata).is_some()
        || ledger.find(&ctx.new_edition).is_some() {
        return Err(Error::AlreadyInitialized);
    }
    let new_holder = match derive_associated_token_address(
        &ctx.master_edition_owner_authority,
        &ctx.new_mint,
    ) {
        Some(k) => k,
        None => {
            return Err(Error::WrongDerivedAddress);
        },
    };
    if ledger.find(&new_holder).is_some() {
        return Err(Error::AlreadyInitialized);
    }
    if key_eq(&ctx.new_mint, &ctx.new_metadata) || key_eq(&ctx.new_mint, &ctx.new_edition)
        || key_eq(&ctx.new_mint, &new_holder) || key_eq(&ctx.new_metadata, &ctx.new_edition)
        || key_eq(&ctx.new_metadata, &new_holder) || key_eq(&ctx.new_edition, &new_holder)
        || key_eq(&ctx.edition_mark_pda, &ctx.new_mint) || key_eq(
        &ctx.edition_mark_pda,
        &ctx.new_metadata,
    ) || key_eq(&ctx.edition_mark_pda, &ctx.new_edition) || key_eq(
        &ctx.edition_mark_pda,
        &new_holder,
    ) {
        return Err(Error::AlreadyInitialized);
    }
    match master.max_supply {
        Some(mx) => {
            if master.supply >= mx {
                return Err(Error::EditionExceedsSupply);
            }
        },
        None => {},
    }
    if master.supply == u64::MAX {
        return Err(Error::EditionExceedsSupply);
    }
    // Commit: counter, marker bit, then the new triple and its holder.
    let owner = ctx.master_edition_owner_authority;
    ledger.set_at(
        master_index,
        Account::MasterEdition(
            crate::accounts::MasterEdition { supply: master.supply + 1, ..master },
        ),
    );
    let marker1 = marker_set_bit(&marker0, offset);
    match marker_found {
        Some(i) => {
            ledger.set_at(i, Account::EditionMarker(marker1));
        },
        None => {
            ledger.insert_new(ctx.edition_mark_pda, Account::EditionMarker(marker1));
        },
    }
    ledger.insert_new(
        ctx.new_mint,
        Account::Mint(
            Mint {
                decimals: 0,
                supply: 1,
                mint_authority: owner,
                freeze_authority: Some(owner),
                transferable: true,
            },
        ),
    );
    ledger.insert_new(
        new_holder,
        Account::Token(TokenAccount { mint: ctx.new_mint, owner, amount: 1 }),
    );
    ledger.insert_new(
        ctx.new_metadata,
        Account::EditionMetadata(
            EditionMetadata { mint: ctx.new_mint, parent_metadata: ctx.metadata, edition_number },
        ),
    );
    ledger.insert_new(
        ctx.new_edition,
        Account::Edition(Edition { mint: ctx.new_mint, parent: ctx.master_edition, edition_number }),
    );
    Ok(())
}

} // verus!
