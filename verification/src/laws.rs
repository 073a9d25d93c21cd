use vstd::prelude::*;

use crate::accounts::{
    lemma_marker_with_bit_preserves, lemma_marker_with_bit_sets, marker_bit_set, marker_with_bit,
    Account, EditionMarker,
};
use crate::derive::{ata_pda, metadata_pda, EDITION_MARKER_BIT_SIZE};
use crate::errors::Error;
use crate::keys::Key;
use crate::ledger::{lemma_wf_implies_inv, transfer_check, wallet_balance, Ledger};
use crate::print::{print_addresses_ok, print_check, print_commit, Print};
use crate::sell::{sell_check, sell_commit, SellNft};
use crate::tk22_non_transf_mint::{
    initialize_non_transferable_mint_check, initialize_non_transferable_mint_commit,
    InitializeNonTransferableMint,
};

verus! {

/// Derivation law: on a well-formed ledger every metadata record sits
/// exactly at the address derived from the seed label, the metadata
/// service's identifier and its mint — deterministically, since the
/// derivation is a function of those inputs alone.
pub proof fn lemma_metadata_address_derived(l: &Ledger, k: Seq<u8>)
    requires
        l.wf(),
        l@.dom().contains(k),
        l@[k] is Metadata,
    ensures
        Some(k) == metadata_pda(l@[k]->Metadata_0.mint@),
{
    lemma_wf_implies_inv(l);
}

/// A print whose edition number exceeds the master's cap is rejected,
/// whatever else the caller supplies; a rejected print leaves the
/// ledger unchanged, so no account is created.
pub proof fn lemma_print_exceeds_supply_fails(
    l: Map<Seq<u8>, Account>,
    ctx: Print,
    edition_number: u64,
    mx: u64,
)
    requires
        l.dom().contains(ctx.master_edition@),
        l[ctx.master_edition@] matches Account::MasterEdition(me) && me.max_supply == Some(mx),
        edition_number > mx,
    ensures
        print_check(l, ctx, edition_number) is Some,
{
}

/// Exactly-once printing: after a successful print of an edition
/// number, its marker bit is set and the master's counter has risen by
/// one; a second print of the same number against the same mint —
/// whatever fresh accounts it brings — fails with
/// `EditionAlreadyPrinted` and, being a rejection, changes nothing.
pub proof fn lemma_print_exactly_once(
    l: Map<Seq<u8>, Account>,
    ctx: Print,
    ctx2: Print,
    edition_number: u64,
)
    requires
        print_check(l, ctx, edition_number) is None,
        ata_pda(ctx.master_edition_owner_authority@, ctx.new_mint@) is Some,
        print_addresses_ok(ctx2, edition_number),
        ctx2.mint@ == ctx.mint@,
    ensures
        ({
            let l2 = print_commit(
                l,
                ctx,
                edition_number,
                ata_pda(ctx.master_edition_owner_authority@, ctx.new_mint@)->0,
            );
            &&& (l2[ctx.edition_mark_pda@] matches Account::EditionMarker(mk) && marker_bit_set(
                mk,
                edition_number % EDITION_MARKER_BIT_SIZE,
            ))
            &&& l2[ctx.master_edition@]->MasterEdition_0.supply == l[ctx.master_edition@]->MasterEdition_0.supply + 1
            &&& print_check(l2, ctx2, edition_number) == Some(Error::EditionAlreadyPrinted)
        }),
{
    let nh = ata_pda(ctx.master_edition_owner_authority@, ctx.new_mint@)->0;
    let l2 = print_commit(l, ctx, edition_number, nh);
    let offset = edition_number % EDITION_MARKER_BIT_SIZE;
    let marker0 = if l.dom().contains(ctx.edition_mark_pda@) {
        l[ctx.edition_mark_pda@]->EditionMarker_0
    } else {
        EditionMarker {
            mint: ctx.mint,
            bucket: (edition_number / EDITION_MARKER_BIT_SIZE) as u64,
            w0: 0,
            w1: 0,
            w2: 0,
            w3: 0,
        }
    };
    lemma_marker_with_bit_sets(marker0, offset);
    assert(ctx2.master_edition@ == ctx.master_edition@);
    assert(ctx2.edition_mark_pda@ == ctx.edition_mark_pda@);
    assert(ctx.master_edition@ != ctx.edition_mark_pda@);
    assert(l2[ctx.edition_mark_pda@] == Account::EditionMarker(
        marker_with_bit(marker0, offset),
    ));
}

/// Witness permanence: a successful print never clears a marker bit.
/// Every witness bit already set on any marker account stays set, and
/// the account stays in place. Print is the only operation whose
/// contract writes a marker account and none removes any account, so
/// over any sequence of operations the witness for an edition number,
/// once set, stands forever: at most one print of that number can ever
/// succeed.
pub proof fn lemma_marker_witness_permanent(
    l: Map<Seq<u8>, Account>,
    ctx: Print,
    edition_number: u64,
)
    requires
        print_check(l, ctx, edition_number) is None,
        ata_pda(ctx.master_edition_owner_authority@, ctx.new_mint@) is Some,
    ensures
        ({
            let l2 = print_commit(
                l,
                ctx,
                edition_number,
                ata_pda(ctx.master_edition_owner_authority@, ctx.new_mint@)->0,
            );
            forall|k: Seq<u8>, off: u64|
                l.dom().contains(k) && l[k] is EditionMarker && off < EDITION_MARKER_BIT_SIZE
                    && #[trigger] marker_bit_set(l[k]->EditionMarker_0, off) ==> l2.dom().contains(
                    k,
                ) && l2[k] is EditionMarker && marker_bit_set(l2[k]->EditionMarker_0, off)
        }),
{
    let nh = ata_pda(ctx.master_edition_owner_authority@, ctx.new_mint@)->0;
    let l2 = print_commit(l, ctx, edition_number, nh);
    let offset = edition_number % EDITION_MARKER_BIT_SIZE;
    assert forall|k: Seq<u8>, off: u64|
        l.dom().contains(k) && l[k] is EditionMarker && off < EDITION_MARKER_BIT_SIZE
            && #[trigger] marker_bit_set(l[k]->EditionMarker_0, off) implies l2.dom().contains(k)
        && l2[k] is EditionMarker && marker_bit_set(l2[k]->EditionMarker_0, off) by {
        if k == ctx.edition_mark_pda@ {
            let mk = l[k]->EditionMarker_0;
            if off == offset {
                lemma_marker_with_bit_sets(mk, offset);
            } else {
                lemma_marker_with_bit_preserves(mk, offset, off);
            }
        } else {
            assert(k != ctx.master_edition@);
            assert(l2[k] == l[k]);
        }
    }
}

/// Any transfer of a holder account of a non-transferable mint is
/// rejected outright, before ownership or balances are consulted.
pub proof fn lemma_non_transferable_blocks_transfer(
    l: Map<Seq<u8>, Account>,
    mint: Seq<u8>,
    source: Key,
    destination: Key,
    authority: Key,
    amount: u64,
)
    requires
        l.dom().contains(source@),
        l[source@] matches Account::Token(t) && t.mint@ == mint,
        l.dom().contains(mint),
        l[mint] matches Account::Mint(m) && !m.transferable,
    ensures
        transfer_check(l, source, destination, authority, amount) == Some(Error::NonTransferable),
{
}

/// Immediately after non-transferable initialization — before any
/// metadata call, and before any balance of the mint exists — the flag
/// is down for good: every transfer attempt against a holder of that
/// mint is rejected.
pub proof fn lemma_initialize_non_transferable(
    l: Map<Seq<u8>, Account>,
    ctx: InitializeNonTransferableMint,
)
    requires
        initialize_non_transferable_mint_check(l, ctx) is None,
    ensures
        ({
            let l2 = initialize_non_transferable_mint_commit(l, ctx);
            &&& (l2[ctx.mint@] matches Account::Mint(m) && !m.transferable)
            &&& forall|source: Key, destination: Key, authority: Key, amount: u64|
                (l2[source@] matches Account::Token(t) && l2.dom().contains(source@) && t.mint@
                    == ctx.mint@) ==> #[trigger] transfer_check(
                    l2,
                    source,
                    destination,
                    authority,
                    amount,
                ) == Some(Error::NonTransferable)
        }),
{
}

/// A sale moves exactly the payment between the two wallets, hands
/// custody of the holder account to the buyer with its balance intact,
/// and touches no other account.
pub proof fn lemma_sell_balances(l: Map<Seq<u8>, Account>, ctx: SellNft, payment_amount: u64)
    requires
        sell_check(l, ctx, payment_amount) is None,
        ctx.seller_authority@ != ctx.buyer@,
    ensures
        ({
            let l2 = sell_commit(l, ctx, payment_amount);
            &&& wallet_balance(l2, ctx.seller_authority@) == wallet_balance(
                l,
                ctx.seller_authority@,
            ) + payment_amount
            &&& wallet_balance(l2, ctx.buyer@) == wallet_balance(l, ctx.buyer@) - payment_amount
            &&& (l2[ctx.token_account@] matches Account::Token(t) && t.owner == ctx.buyer
                && t.amount == l[ctx.token_account@]->Token_0.amount && t.mint == l[ctx.token_account@]->Token_0.mint)
            &&& l2.dom() =~= l.dom()
            &&& forall|k: Seq<u8>|
                #[trigger] l.dom().contains(k) && k != ctx.seller_authority@ && k != ctx.buyer@
                    && k != ctx.token_account@ ==> l2[k] == l[k]
        }),
{
    assert(ctx.token_account@ != ctx.seller_authority@);
    assert(ctx.token_account@ != ctx.buyer@);
}

} // verus!
