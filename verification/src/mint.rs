use vstd::prelude::*;

use crate::accounts::{
    default_creators, sum_shares, Account, Creator, MasterEdition, Metadata, Mint, TokenAccount,
    Wallet,
};
use crate::derive::{
    ata_pda, derive_associated_token_address, derive_master_edition_address,
    derive_metadata_address, master_edition_pda, metadata_pda,
};
use crate::errors::Error;
use crate::keys::{key_eq, Key};
use crate::ledger::Ledger;

verus! {

/// What allocating and funding a new mint account costs its payer.
pub const MINT_ACCOUNT_LAMPORTS: u64 = 100_000_000;

/// The fixed-role account list of `create_and_initialize`: the paying
/// authority, the new mint, and the authority's canonical holder
/// account for it.
#[derive(Clone, Copy)]
pub struct CreateMintAndATA {
    pub authority: Key,
    pub mint: Key,
    pub token_account: Key,
}

/// The fixed-role account list of `mint`: the mint authority, the
/// mint, the holder account receiving the unit, and the derived
/// metadata and master-edition addresses.
#[derive(Clone, Copy)]
pub struct MintNFT {
    pub authority: Key,
    pub mint: Key,
    pub token_account: Key,
    pub metadata: Key,
    pub master_edition: Key,
}

/// Whether `create_and_initialize` is rejected, and why: the holder
/// address must match its derivation, the authority must be a funded
/// wallet, and both new accounts must be absent.
pub open spec fn create_and_initialize_check(
    l: Map<Seq<u8>, Account>,
    ctx: CreateMintAndATA,
) -> Option<Error> {
    if Some(ctx.token_account@) != ata_pda(ctx.authority@, ctx.mint@) {
        Some(Error::WrongDerivedAddress)
    } else if !(l.dom().contains(ctx.authority@) && l[ctx.authority@] is Wallet) {
        Some(Error::AccountCreationFailed)
    } else if l[ctx.authority@]->Wallet_0.lamports < MINT_ACCOUNT_LAMPORTS {
        Some(Error::AccountCreationFailed)
    } else if l.dom().contains(ctx.mint@) {
        Some(Error::AlreadyInitialized)
    } else if l.dom().contains(ctx.token_account@) {
        Some(Error::AlreadyInitialized)
    } else if ctx.token_account@ == ctx.mint@ {
        Some(Error::AlreadyInitialized)
    } else {
        None
    }
}

/// The ledger after an accepted `create_and_initialize`: the payer
/// debited, a fresh zero-decimals mint under the authority, and its
/// empty canonical holder account.
pub open spec fn create_and_initialize_commit(
    l: Map<Seq<u8>, Account>,
    ctx: CreateMintAndATA,
) -> Map<Seq<u8>, Account>
    recommends
        l.dom().contains(ctx.authority@),
        l[ctx.authority@] is Wallet,
{
    let w = l[ctx.authority@]->Wallet_0;
    l.insert(
        ctx.authority@,
        Account::Wallet(Wallet { lamports: (w.lamports - MINT_ACCOUNT_LAMPORTS) as u64 }),
    ).insert(
        ctx.mint@,
        Account::Mint(
            Mint {
                decimals: 0,
                supply: 0,
                mint_authority: ctx.authority,
                freeze_authority: Some(ctx.authority),
                transferable: true,
            },
        ),
    ).insert(
        ctx.token_account@,
        Account::Token(TokenAccount { mint: ctx.mint, owner: ctx.authority, amount: 0 }),
    )
}

/// Allocate and initialize a one-of-one mint and the authority's
/// canonical holder account for it.
///
/// Either both accounts come to exist and the payer is debited, or the
/// ledger is left exactly as it was.
pub fn create_and_initialize(ledger: &mut Ledger, ctx: CreateMintAndATA) -> (r: Result<(), Error>)
    requires
        old(ledger).wf(),
    ensures
        final(ledger).wf(),
        match r {
            Ok(_) => create_and_initialize_check(old(ledger)@, ctx) is None && final(ledger)@
                == create_and_initialize_commit(old(ledger)@, ctx),
            Err(e) => create_and_initialize_check(old(ledger)@, ctx) == Some(e) && final(ledger)@
                == old(ledger)@,
        },
{
    let derived = match derive_associated_token_address(&ctx.authority, &ctx.mint) {
        Some(k) => k,
        None => {
            return Err(Error::WrongDerivedAddress);
        },
    };
    if !key_eq(&derived, &ctx.token_account) {
        return Err(Error::WrongDerivedAddress);
    }
    let authority_index = match ledger.find(&ctx.authority) {
        Some(i) => i,
        None => {
            return Err(Error::AccountCreationFailed);
        },
    };
    let wallet = match &ledger.accounts[authority_index].1 {
        Account::Wallet(w) => *w,
        _ => {
            return Err(Error::AccountCreationFailed);
        },
    };
    if wallet.lamports < MINT_ACCOUNT_LAMPORTS {
        return Err(Error::AccountCreationFailed);
    }
    if ledger.find(&ctx.mint).is_some() {
        return Err(Error::AlreadyInitialized);
    }
    if ledger.find(&ctx.token_account).is_some() {
        return Err(Error::AlreadyInitialized);
    }
    if key_eq(&ctx.token_account, &ctx.mint) {
        return Err(Error::AlreadyInitialized);
    }
    ledger.set_at(
        authority_index,
        Account::Wallet(Wallet { lamports: wallet.lamports - MINT_ACCOUNT_LAMPORTS }),
    );
    ledger.insert_new(
        ctx.mint,
        Account::Mint(
            Mint {
                decimals: 0,
                supply: 0,
                mint_authority: ctx.authority,
                freeze_authority: Some(ctx.authority),
                transferable: true,
            },
        ),
    );
    ledger.insert_new(
        ctx.token_account,
        Account::Token(TokenAccount { mint: ctx.mint, owner: ctx.authority, amount: 0 }),
    );
    Ok(())
}

/// Whether `mint` is rejected, and why: both derived addresses must
/// match, the token service must accept minting the single unit, and
/// neither metadata account may already exist.
pub open spec fn mint_check(l: Map<Seq<u8>, Account>, ctx: MintNFT) -> Option<Error> {
    if Some(ctx.metadata@) != metadata_pda(ctx.mint@) {
        Some(Error::WrongDerivedAddress)
    } else if Some(ctx.master_edition@) != master_edition_pda(ctx.mint@) {
        Some(Error::WrongDerivedAddress)
    } else if !(l.dom().contains(ctx.mint@) && l[ctx.mint@] is Mint) {
        Some(Error::MintFailed)
    } else if l[ctx.mint@]->Mint_0.mint_authority@ != ctx.authority@ {
        Some(Error::MintFailed)
    } else if l[ctx.mint@]->Mint_0.supply != 0 {
        Some(Error::MintFailed)
    } else if !(l.dom().contains(ctx.token_account@) && l[ctx.token_account@] is Token) {
        Some(Error::MintFailed)
    } else if l[ctx.token_account@]->Token_0.mint@ != ctx.mint@ {
        Some(Error::MintFailed)
    } else if l[ctx.token_account@]->Token_0.amount != 0 {
        Some(Error::MintFailed)
    } else if l.dom().contains(ctx.metadata@) {
        Some(Error::MetadataCreateFailed)
    } else if l.dom().contains(ctx.master_edition@) {
        Some(Error::MasterEditionCreateFailed)
    } else if ctx.master_edition@ == ctx.metadata@ {
        Some(Error::MasterEditionCreateFailed)
    } else {
        None
    }
}

/// Mint the single unit into the holder account, attach the metadata
/// record, and cap numbered copies with a master edition.
///
/// On success exactly one holder balance rises by one, the metadata
/// record sits at the address derived from the mint and names the
/// caller's strings, and the master edition carries the given cap with
/// a zero counter. On rejection the ledger is left exactly as it was.
///
/// No creator list is supplied through this account list and the
/// metadata service rejects a repeated creator entry, so the default
/// creator list is the authority alone, verified, with the full share.
pub fn mint(
    ledger: &mut Ledger,
    ctx: MintNFT,
    name: String,
    symbol: String,
    uri: String,
    max_supply: Option<u64>,
) -> (r: Result<(), Error>)
    requires
        old(ledger).wf(),
    ensures
        final(ledger).wf(),
        match r {
            Ok(_) => {
                &&& mint_check(old(ledger)@, ctx) is None
                &&& final(ledger)@[ctx.mint@] == Account::Mint(
                    Mint { supply: 1, ..old(ledger)@[ctx.mint@]->Mint_0 },
                )
                &&& final(ledger)@[ctx.token_account@] == Account::Token(
                    TokenAccount { amount: 1, ..old(ledger)@[ctx.token_account@]->Token_0 },
                )
                &&& final(ledger)@[ctx.master_edition@] == Account::MasterEdition(
                    MasterEdition { mint: ctx.mint, max_supply, supply: 0 },
                )
                &&& (final(ledger)@[ctx.metadata@] matches Account::Metadata(md) && md.mint
                    == ctx.mint && md.update_authority == ctx.authority && md.name == name
                    && md.symbol == symbol && md.uri == uri && md.creators@ == seq![Creator { address: ctx.authority, verified: true, share: 100u8 }] && md.is_mutable)
                &&& forall|k: Seq<u8>|
                    final(ledger)@.dom().contains(k) <==> (old(ledger)@.dom().contains(k) || k
                        == ctx.metadata@ || k == ctx.master_edition@)
                &&& forall|k: Seq<u8>|
                    old(ledger)@.dom().contains(k) && k != ctx.mint@ && k != ctx.token_account@
                        && k != ctx.metadata@ && k != ctx.master_edition@ ==> final(ledger)@[k]
                        == old(ledger)@[k]
            },
            Err(e) => mint_check(old(ledger)@, ctx) == Some(e) && final(ledger)@ == old(ledger)@,
        },
{
    let derived_metadata = match derive_metadata_address(&ctx.mint) {
        Some(k) => k,
        None => {
            return Err(Error::WrongDerivedAddress);
        },
    };
    if !key_eq(&derived_metadata, &ctx.metadata) {
        return Err(Error::WrongDerivedAddress);
    }
    let derived_edition = match derive_master_edition_address(&ctx.mint) {
        Some(k) => k,
        None => {
            return Err(Error::WrongDerivedAddress);
        },
    };
    if !key_eq(&derived_edition, &ctx.master_edition) {
        return Err(Error::WrongDerivedAddress);
    }
    let mint_index = match ledger.find(&ctx.mint) {
        Some(i) => i,
        None => {
            return Err(Error::MintFailed);
        },
    };
    let mint_state = match &ledger.accounts[mint_index].1 {
        Account::Mint(m) => *m,
        _ => {
            return Err(Error::MintFailed);
        },
    };
    if !key_eq(&mint_state.mint_authority, &ctx.authority) {
        return Err(Error::MintFailed);
    }
    if mint_state.supply != 0 {
        return Err(Error::MintFailed);
    }
    let token_index = match ledger.find(&ctx.token_account) {
        Some(i) => i,
        None => {
            return Err(Error::MintFailed);
        },
    };
    let token_state = match &ledger.accounts[token_index].1 {
        Account::Token(t) => *t,
        _ => {
            return Err(Error::MintFailed);
        },
    };
    if !key_eq(&token_state.mint, &ctx.mint) {
        return Err(Error::MintFailed);
    }
    if token_state.amount != 0 {
        return Err(Error::MintFailed);
    }
    if ledger.find(&ctx.metadata).is_some() {
        return Err(Error::MetadataCreateFailed);
    }
    if ledger.find(&ctx.master_edition).is_some() {
        return Err(Error::MasterEditionCreateFailed);
    }
    if key_eq(&ctx.master_edition, &ctx.metadata) {
        return Err(Error::MasterEditionCreateFailed);
    }
    proof {
        assert(mint_index != token_index);
    }
    let creators = default_creators(ctx.authority);
    proof {
        let cs = seq![Creator { address: ctx.authority, verified: true, share: 100u8 }];
        assert(sum_shares(cs.drop_last()) == 0);
        assert(sum_shares(cs) == 100);
    }
    ledger.set_at(mint_index, Account::Mint(Mint { supply: 1, ..mint_state }));
    ledger.set_at(token_index, Account::Token(TokenAccount { amount: 1, ..token_state }));
    ledger.insert_new(
        ctx.metadata,
        Account::Metadata(
            Metadata {
                mint: ctx.mint,
                update_authority: ctx.authority,
                name,
                symbol,
                uri,
                creators,
                is_mutable: true,
            },
        ),
    );
    ledger.insert_new(
        ctx.master_edition,
        Account::MasterEdition(MasterEdition { mint: ctx.mint, max_supply, supply: 0 }),
    );
    Ok(())
}

} // verus!
