use nft_solana_marketplace::accounts::{
    marker_bit, marker_set_bit, Account, EditionMarker, TokenAccount,
};
use nft_solana_marketplace::derive::{
    derive_associated_token_address, derive_edition_marker_address, derive_master_edition_address,
    derive_metadata_address,
};
use nft_solana_marketplace::errors::Error;
use nft_solana_marketplace::keys::{key_eq, Key};
use nft_solana_marketplace::ledger::{fund_wallet, transfer, Ledger};
use nft_solana_marketplace::mint::{create_and_initialize, mint, CreateMintAndATA, MintNFT};
use nft_solana_marketplace::print::{print, Print};
use nft_solana_marketplace::tk22_non_transf_mint::{
    initialize_non_transferable_mint, InitializeNonTransferableMint,
};

fn key(n: u8) -> Key {
    Key { bytes: [n; 32] }
}

fn get<'a>(l: &'a Ledger, k: &Key) -> Option<&'a Account> {
    l.accounts.iter().find(|(kk, _)| kk.bytes == k.bytes).map(|(_, a)| a)
}

fn setup_master(authority: Key, mint_key: Key, max_supply: Option<u64>) -> (Ledger, MintNFT) {
    let mut l = Ledger::new();
    fund_wallet(&mut l, authority, 1_000_000_000).unwrap();
    let token_account = derive_associated_token_address(&authority, &mint_key).unwrap();
    create_and_initialize(
        &mut l,
        CreateMintAndATA { authority, mint: mint_key, token_account },
    )
    .unwrap();
    let ctx = MintNFT {
        authority,
        mint: mint_key,
        token_account,
        metadata: derive_metadata_address(&mint_key).unwrap(),
        master_edition: derive_master_edition_address(&mint_key).unwrap(),
    };
    mint(
        &mut l,
        ctx,
        String::from("Alpha"),
        String::from("A"),
        String::from("uri1"),
        max_supply,
    )
    .unwrap();
    (l, ctx)
}

fn print_ctx(master: &MintNFT, new_mint: Key, edition_number: u64) -> Print {
    Print {
        new_metadata: derive_metadata_address(&new_mint).unwrap(),
        new_edition: derive_master_edition_address(&new_mint).unwrap(),
        master_edition: master.master_edition,
        new_mint,
        edition_mark_pda: derive_edition_marker_address(&master.mint, edition_number).unwrap(),
        master_edition_owner_authority: master.authority,
        mint: master.mint,
        token_account: master.token_account,
        metadata: master.metadata,
    }
}

fn master_supply(l: &Ledger, master_edition: &Key) -> u64 {
    match get(l, master_edition) {
        Some(Account::MasterEdition(me)) => me.supply,
        _ => panic!("master edition missing"),
    }
}

#[test]
fn print_creates_the_whole_edition_triple() {
    let authority = key(1);
    let (mut l, master) = setup_master(authority, key(2), Some(5));
    let ctx = print_ctx(&master, key(3), 1);
    assert_eq!(print(&mut l, ctx, 1), Ok(()));
    match get(&l, &ctx.new_mint) {
        Some(Account::Mint(m)) => {
            assert_eq!(m.supply, 1);
            assert!(key_eq(&m.mint_authority, &authority));
        }
        _ => panic!("new mint missing"),
    }
    let new_holder = derive_associated_token_address(&authority, &ctx.new_mint).unwrap();
    match get(&l, &new_holder) {
        Some(Account::Token(t)) => {
            assert_eq!(t.amount, 1);
            assert!(key_eq(&t.owner, &authority));
        }
        _ => panic!("new holder missing"),
    }
    match get(&l, &ctx.new_metadata) {
        Some(Account::EditionMetadata(em)) => {
            assert!(key_eq(&em.mint, &ctx.new_mint));
            assert!(key_eq(&em.parent_metadata, &master.metadata));
            assert_eq!(em.edition_number, 1);
        }
        _ => panic!("new metadata missing"),
    }
    match get(&l, &ctx.new_edition) {
        Some(Account::Edition(e)) => {
            assert!(key_eq(&e.parent, &master.master_edition));
            assert_eq!(e.edition_number, 1);
        }
        _ => panic!("new edition missing"),
    }
    match get(&l, &ctx.edition_mark_pda) {
        Some(Account::EditionMarker(mk)) => assert!(marker_bit(mk, 1)),
        _ => panic!("edition marker missing"),
    }
    assert_eq!(master_supply(&l, &master.master_edition), 1);
}

#[test]
fn scenario_print_one_twice_supply_stays_one() {
    // Mint "Alpha"/"A"/"uri1" capped at five, print edition one, then
    // print edition one again with fresh accounts: the second print is
    // rejected and the master's counter stays at one.
    let authority = key(1);
    let (mut l, master) = setup_master(authority, key(2), Some(5));
    let first = print_ctx(&master, key(3), 1);
    assert_eq!(print(&mut l, first, 1), Ok(()));
    assert_eq!(master_supply(&l, &master.master_edition), 1);
    let second = print_ctx(&master, key(4), 1);
    let before = l.accounts.len();
    assert_eq!(print(&mut l, second, 1), Err(Error::EditionAlreadyPrinted));
    assert_eq!(l.accounts.len(), before);
    assert_eq!(master_supply(&l, &master.master_edition), 1);
}

#[test]
fn print_beyond_max_supply_creates_nothing() {
    let authority = key(1);
    let (mut l, master) = setup_master(authority, key(2), Some(5));
    let ctx = print_ctx(&master, key(3), 6);
    let before = l.accounts.len();
    assert_eq!(print(&mut l, ctx, 6), Err(Error::EditionExceedsSupply));
    assert_eq!(l.accounts.len(), before);
    assert_eq!(master_supply(&l, &master.master_edition), 0);
}

#[test]
fn print_edition_zero_is_rejected() {
    let authority = key(1);
    let (mut l, master) = setup_master(authority, key(2), Some(5));
    let ctx = print_ctx(&master, key(3), 0);
    assert_eq!(print(&mut l, ctx, 0), Err(Error::InvalidEditionNumber));
}

#[test]
fn print_by_non_holder_is_rejected() {
    let authority = key(1);
    let (mut l, master) = setup_master(authority, key(2), Some(5));
    let new_mint = key(3);
    let stranger = key(7);
    let ctx = Print {
        master_edition_owner_authority: stranger,
        ..print_ctx(&master, new_mint, 1)
    };
    let before = l.accounts.len();
    assert_eq!(print(&mut l, ctx, 1), Err(Error::NotTokenHolder));
    assert_eq!(l.accounts.len(), before);
}

#[test]
fn print_with_wrong_marker_address_is_rejected() {
    let authority = key(1);
    let (mut l, master) = setup_master(authority, key(2), Some(5));
    let ctx = Print { edition_mark_pda: key(9), ..print_ctx(&master, key(3), 1) };
    assert_eq!(print(&mut l, ctx, 1), Err(Error::WrongDerivedAddress));
}

#[test]
fn bucket_boundary_editions_use_distinct_markers() {
    // Editions one and two hundred forty-seven share the first marker
    // bucket; edition two hundred forty-eight rolls into the next one.
    let mint_key = key(2);
    let first = derive_edition_marker_address(&mint_key, 1).unwrap();
    let same_bucket = derive_edition_marker_address(&mint_key, 247).unwrap();
    let next_bucket = derive_edition_marker_address(&mint_key, 248).unwrap();
    assert!(key_eq(&first, &same_bucket));
    assert!(!key_eq(&first, &next_bucket));

    let authority = key(1);
    let (mut l, master) = setup_master(authority, mint_key, Some(300));
    assert_eq!(print(&mut l, print_ctx(&master, key(3), 1), 1), Ok(()));
    assert_eq!(print(&mut l, print_ctx(&master, key(4), 248), 248), Ok(()));
    let markers = l
        .accounts
        .iter()
        .filter(|(_, a)| matches!(a, Account::EditionMarker(_)))
        .count();
    assert_eq!(markers, 2);
    assert_eq!(master_supply(&l, &master.master_edition), 2);
}

#[test]
fn marker_bits_pack_without_interference() {
    let empty = EditionMarker { mint: key(2), bucket: 0, w0: 0, w1: 0, w2: 0, w3: 0 };
    assert!(!marker_bit(&empty, 0));
    let one_set = marker_set_bit(&empty, 5);
    assert!(marker_bit(&one_set, 5));
    assert!(!marker_bit(&one_set, 4));
    assert!(!marker_bit(&one_set, 6));
    let high = marker_set_bit(&one_set, 247);
    assert!(marker_bit(&high, 247));
    assert!(marker_bit(&high, 5));
    assert!(!marker_bit(&high, 200));
}

#[test]
fn non_transferable_mint_blocks_transfer_before_any_metadata() {
    let authority = key(1);
    let nt_mint = key(2);
    let mut l = Ledger::new();
    fund_wallet(&mut l, authority, 1_000_000_000).unwrap();
    initialize_non_transferable_mint(
        &mut l,
        InitializeNonTransferableMint { authority, mint: nt_mint },
    )
    .unwrap();
    match get(&l, &nt_mint) {
        Some(Account::Mint(m)) => assert!(!m.transferable),
        _ => panic!("non-transferable mint missing"),
    }
    // A holder of the mint exists; moving any amount out of it is
    // rejected outright, before any metadata account exists.
    let holder = key(5);
    let destination = key(6);
    l.accounts.push((
        holder,
        Account::Token(TokenAccount { mint: nt_mint, owner: authority, amount: 1 }),
    ));
    l.accounts.push((
        destination,
        Account::Token(TokenAccount { mint: nt_mint, owner: key(7), amount: 0 }),
    ));
    let r = transfer(&mut l, holder, destination, authority, 1);
    assert_eq!(r, Err(Error::NonTransferable));
    match get(&l, &holder) {
        Some(Account::Token(t)) => assert_eq!(t.amount, 1),
        _ => panic!("holder missing"),
    }
}

#[test]
fn non_transferable_mint_cannot_be_reinitialized() {
    let authority = key(1);
    let nt_mint = key(2);
    let mut l = Ledger::new();
    fund_wallet(&mut l, authority, 1_000_000_000).unwrap();
    let ctx = InitializeNonTransferableMint { authority, mint: nt_mint };
    initialize_non_transferable_mint(&mut l, ctx).unwrap();
    assert_eq!(
        initialize_non_transferable_mint(&mut l, ctx),
        Err(Error::AlreadyInitialized)
    );
}

#[test]
fn print_without_master_edition_is_rejected() {
    let authority = key(1);
    let mint_key = key(2);
    let mut l = Ledger::new();
    fund_wallet(&mut l, authority, 1_000_000_000).unwrap();
    let token_account = derive_associated_token_address(&authority, &mint_key).unwrap();
    create_and_initialize(
        &mut l,
        CreateMintAndATA { authority, mint: mint_key, token_account },
    )
    .unwrap();
    let master = MintNFT {
        authority,
        mint: mint_key,
        token_account,
        metadata: derive_metadata_address(&mint_key).unwrap(),
        master_edition: derive_master_edition_address(&mint_key).unwrap(),
    };
    let ctx = print_ctx(&master, key(3), 1);
    assert_eq!(print(&mut l, ctx, 1), Err(Error::InvalidAccount));
}

#[test]
fn print_with_unlimited_supply_succeeds_beyond_any_number() {
    let authority = key(1);
    let (mut l, master) = setup_master(authority, key(2), None);
    let ctx = print_ctx(&master, key(3), 1_000_000);
    assert_eq!(print(&mut l, ctx, 1_000_000), Ok(()));
    assert_eq!(master_supply(&l, &master.master_edition), 1);
}

#[test]
fn print_with_exhausted_counter_is_rejected() {
    // Force the master's counter to its cap while the marker bits stay
    // clear: a further print of an in-range, unprinted number is
    // rejected rather than pushing the counter past the cap.
    let authority = key(1);
    let (mut l, master) = setup_master(authority, key(2), Some(2));
    for entry in l.accounts.iter_mut() {
        if entry.0.bytes == master.master_edition.bytes {
            if let Account::MasterEdition(me) = &mut entry.1 {
                me.supply = 2;
            }
        }
    }
    let ctx = print_ctx(&master, key(3), 1);
    let before = l.accounts.len();
    assert_eq!(print(&mut l, ctx, 1), Err(Error::EditionExceedsSupply));
    assert_eq!(l.accounts.len(), before);
    assert_eq!(master_supply(&l, &master.master_edition), 2);
}
