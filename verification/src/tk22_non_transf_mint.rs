use vstd::prelude::*;

use crate::accounts::{Account, Mint, Wallet};
use crate::errors::Error;
use crate::keys::Key;
use crate::ledger::Ledger;
use crate::mint::MINT_ACCOUNT_LAMPORTS;

verus! {

/// The fixed-role account list of `initialize_non_transferable_mint`:
/// the paying authority and the new mint.
#[derive(Clone, Copy)]
pub struct InitializeNonTransferableMint {
    pub authority: Key,
    pub mint: Key,
}

/// Whether initializing a non-transferable mint is rejected, and why:
/// the payer must be a funded wallet and the mint account must not yet
/// carry state — the flag cannot be retrofitted.
pub open spec fn initialize_non_transferable_mint_check(
    l: Map<Seq<u8>, Account>,
    ctx: InitializeNonTransferableMint,
) -> Option<Error> {
    if !(l.dom().contains(ctx.authority@) && l[ctx.authority@] is Wallet) {
        Some(Error::AccountCreationFailed)
    } else if l[ctx.authority@]->Wallet_0.lamports < MINT_ACCOUNT_LAMPORTS {
        Some(Error::AccountCreationFailed)
    } else if l.dom().contains(ctx.mint@) {
        Some(Error::AlreadyInitialized)
    } else {
        None
    }
}

/// The ledger after the mint is initialized non-transferable: the
/// payer debited and a fresh mint whose transferable flag is cleared
/// for good, before any balance of it can exist.
pub open spec fn initialize_non_transferable_mint_commit(
    l: Map<Seq<u8>, Account>,
    ctx: InitializeNonTransferableMint,
) -> Map<Seq<u8>, Account>
    recommends
        l.dom().contains(ctx.authority@),
        l[ctx.authority@] is Wallet,
{
    let w = l[ctx.authority@]->Wallet_0;
    l.insert(
        ctx.authority@,
        Account::Wallet(Wallet { lamports: (w.lamports - MINT_ACCOUNT_LAMPORTS) as u64 }),
    ).insert(
        ctx.mint@,
        Account::Mint(
            Mint {
                decimals: 0,
                supply: 0,
                mint_authority: ctx.authority,
                freeze_authority: Some(ctx.authority),
                transferable: false,
            },
        ),
    )
}

/// Create a mint whose transfers are permanently disabled.
///
/// The non-transferable flag is set in the same step that creates the
/// mint, before any holder balance exists; a mint that already carries
/// state is rejected, so the flag can never be retrofitted and never
/// removed.
pub fn initialize_non_transferable_mint(
    ledger: &mut Ledger,
    ctx: InitializeNonTransferableMint,
) -> (r: Result<(), Error>)
    requires
        old(ledger).wf(),
    ensures
        final(ledger).wf(),
        match r {
            Ok(_) => initialize_non_transferable_mint_check(old(ledger)@, ctx) is None && final(ledger)@ == initialize_non_transferable_mint_commit(old(ledger)@, ctx),
            Err(e) => initialize_non_transferable_mint_check(old(ledger)@, ctx) == Some(e)
                && final(ledger)@ == old(ledger)@,
        },
{
    let authority_index = match ledger.find(&ctx.authority) {
        Some(i) => i,
        None => {
            return Err(Error::AccountCreationFailed);
        },
    };
    let wallet = match &ledger.accounts[authority_index].1 {
        Account::Wallet(w) => *w,
        _ => {
            return Err(Error::AccountCreationFailed);
        },
    };
    if wallet.lamports < MINT_ACCOUNT_LAMPORTS {
        return Err(Error::AccountCreationFailed);
    }
    if ledger.find(&ctx.mint).is_some() {
        return Err(Error::AlreadyInitialized);
    }
    ledger.set_at(
        authority_index,
        Account::Wallet(Wallet { lamports: wallet.lamports - MINT_ACCOUNT_LAMPORTS }),
    );
    ledger.insert_new(
        ctx.mint,
        Account::Mint(
            Mint {
                decimals: 0,
                supply: 0,
                mint_authority: ctx.authority,
                freeze_authority: Some(ctx.authority),
                transferable: false,
            },
        ),
    );
    Ok(())
}

} // verus!
