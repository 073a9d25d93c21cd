use vstd::prelude::*;

use crate::accounts::{Account, TokenAccount, Wallet};
use crate::derive::{ata_pda, derive_associated_token_address};
use crate::errors::Error;
use crate::keys::{key_eq, Key};
use crate::ledger::Ledger;

verus! {

/// The fixed-role account list of `sell`: the selling owner, the
/// paying buyer, the mint, and the seller's canonical holder account.
#[derive(Clone, Copy)]
pub struct SellNft {
    pub seller_authority: Key,
    pub buyer: Key,
    pub mint: Key,
    pub token_account: Key,
}

/// Whether `sell` is rejected, and why: the holder account must be the
/// seller's canonical one for the mint, hold the unit under the
/// seller's ownership, and the buyer must be a wallet able to pay.
pub open spec fn sell_check(
    l: Map<Seq<u8>, Account>,
    ctx: SellNft,
    payment_amount: u64,
) -> Option<Error> {
    if Some(ctx.token_account@) != ata_pda(ctx.seller_authority@, ctx.mint@) {
        Some(Error::WrongDerivedAddress)
    } else if !(l.dom().contains(ctx.token_account@) && l[ctx.token_account@] is Token) {
        Some(Error::InvalidAccount)
    } else if l[ctx.token_account@]->Token_0.mint@ != ctx.mint@ {
        Some(Error::InvalidAccount)
    } else if l[ctx.token_account@]->Token_0.owner@ != ctx.seller_authority@ {
        Some(Error::WrongOwner)
    } else if l[ctx.token_account@]->Token_0.amount < 1 {
        Some(Error::NotTokenHolder)
    } else if !(l.dom().contains(ctx.buyer@) && l[ctx.buyer@] is Wallet) {
        Some(Error::InvalidAccount)
    } else if l[ctx.buyer@]->Wallet_0.lamports < payment_amount {
        Some(Error::InsufficientFunds)
    } else if !(l.dom().contains(ctx.seller_authority@) && l[ctx.seller_authority@] is Wallet) {
        Some(Error::InvalidAccount)
    } else if ctx.seller_authority@ != ctx.buyer@ && l[ctx.seller_authority@]->Wallet_0.lamports
        + payment_amount > u64::MAX {
        Some(Error::InvalidAccount)
    } else {
        None
    }
}

/// The ledger after an accepted `sell`: the buyer debited, the seller
/// credited by the same amount, and custody of the holder account
/// reassigned to the buyer, all together.
pub open spec fn sell_commit(
    l: Map<Seq<u8>, Account>,
    ctx: SellNft,
    payment_amount: u64,
) -> Map<Seq<u8>, Account>
    recommends
        sell_check(l, ctx, payment_amount) is None,
{
    let t = l[ctx.token_account@]->Token_0;
    let b = l[ctx.buyer@]->Wallet_0;
    let l1 = l.insert(
        ctx.buyer@,
        Account::Wallet(Wallet { lamports: (b.lamports - payment_amount) as u64 }),
    );
    let s = l1[ctx.seller_authority@]->Wallet_0;
    let l2 = l1.insert(
        ctx.seller_authority@,
        Account::Wallet(Wallet { lamports: (s.lamports + payment_amount) as u64 }),
    );
    l2.insert(ctx.token_account@, Account::Token(TokenAccount { owner: ctx.buyer, ..t }))
}

/// Exchange custody of the holder account for payment, atomically.
///
/// The sale is a direct custody transfer: the buyer's wallet is
/// debited by exactly the payment amount, the seller's credited by the
/// same, and the holder account's owner becomes the buyer. Either all
/// three changes commit or, on any rejection, none does. No escrow is
/// held and no royalty is distributed.
pub fn sell(ledger: &mut Ledger, ctx: SellNft, payment_amount: u64) -> (r: Result<(), Error>)
    requires
        old(ledger).wf(),
    ensures
        final(ledger).wf(),
        match r {
            Ok(_) => sell_check(old(ledger)@, ctx, payment_amount) is None && final(ledger)@
                == sell_commit(old(ledger)@, ctx, payment_amount),
            Err(e) => sell_check(old(ledger)@, ctx, payment_amount) == Some(e) && final(ledger)@
                == old(ledger)@,
        },
{
    let derived = match derive_associated_token_address(&ctx.seller_authority, &ctx.mint) {
        Some(k) => k,
        None => {
            return Err(Error::WrongDerivedAddress);
        },
    };
    if !key_eq(&derived, &ctx.token_account) {
        return Err(Error::WrongDerivedAddress);
    }
    let token_index = match ledger.find(&ctx.token_account) {
        Some(i) => i,
        None => {
            return Err(Error::InvalidAccount);
        },
    };
    let token_state = match &ledger.accounts[token_index].1 {
        Account::Token(t) => *t,
        _ => {
            return Err(Error::InvalidAccount);
        },
    };
    if !key_eq(&token_state.mint, &ctx.mint) {
        return Err(Error::InvalidAccount);
    }
    if !key_eq(&token_state.owner, &ctx.seller_authority) {
        return Err(Error::WrongOwner);
    }
    if token_state.amount < 1 {
        return Err(Error::NotTokenHolder);
    }
    let buyer_index = match ledger.find(&ctx.buyer) {
        Some(i) => i,
        None => {
            return Err(Error::InvalidAccount);
        },
    };
    let buyer_wallet = match &ledger.accounts[buyer_index].1 {
        Account::Wallet(w) => *w,
        _ => {
            return Err(Error::InvalidAccount);
        },
    };
    if buyer_wallet.lamports < payment_amount {
        return Err(Error::InsufficientFunds);
    }
    let seller_index = match ledger.find(&ctx.seller_authority) {
        Some(i) => i,
        None => {
            return Err(Error::InvalidAccount);
        },
    };
    let seller_wallet = match &ledger.accounts[seller_index].1 {
        Account::Wallet(w) => *w,
        _ => {
            return Err(Error::InvalidAccount);
        },
    };
    if key_eq(&ctx.seller_authority, &ctx.buyer) {
        ledger.set_at(buyer_index, Account::Wallet(Wallet { lamports: buyer_wallet.lamports }));
        ledger.set_at(token_index, Account::Token(TokenAccount { owner: ctx.buyer, ..token_state }));
        proof {
            assert(ledger@ =~= sell_commit(old(ledger)@, ctx, payment_amount));
        }
        Ok(())
    } else {
        if seller_wallet.lamports > u64::MAX - payment_amount {
            return Err(Error::InvalidAccount);
        }
        ledger.set_at(
            buyer_index,
            Account::Wallet(Wallet { lamports: buyer_wallet.lamports - payment_amount }),
        );
        ledger.set_at(
            seller_index,
            Account::Wallet(Wallet { lamports: seller_wallet.lamports + payment_amount }),
        );
        ledger.set_at(token_index, Account::Token(TokenAccount { owner: ctx.buyer, ..token_state }));
        Ok(())
    }
}

} // verus!
