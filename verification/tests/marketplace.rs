use nft_solana_marketplace::accounts::Account;
use nft_solana_marketplace::derive::{
    derive_associated_token_address, derive_edition_marker_address, derive_master_edition_address,
    derive_metadata_address, u64_dec_bytes,
};
use nft_solana_marketplace::errors::Error;
use nft_solana_marketplace::keys::{
    associated_token_program_id, key_eq, metadata_program_id, token_program_id, Key,
};
use nft_solana_marketplace::ledger::{fund_wallet, transfer, Ledger};
use nft_solana_marketplace::mint::{
    create_and_initialize, mint, CreateMintAndATA, MintNFT, MINT_ACCOUNT_LAMPORTS,
};
use nft_solana_marketplace::sell::{sell, SellNft};
use nft_solana_marketplace::{create_initialize_and_mint, mint_nft};

fn key(n: u8) -> Key {
    Key { bytes: [n; 32] }
}

fn get<'a>(l: &'a Ledger, k: &Key) -> Option<&'a Account> {
    l.accounts.iter().find(|(kk, _)| kk.bytes == k.bytes).map(|(_, a)| a)
}

fn wallet_of(l: &Ledger, k: &Key) -> u64 {
    match get(l, k) {
        Some(Account::Wallet(w)) => w.lamports,
        other => panic!("expected a wallet, found {:?}", other.is_some()),
    }
}

/// A funded authority with an initialized mint and holder account,
/// ready for `mint`.
fn setup_initialized(authority: Key, mint_key: Key) -> (Ledger, MintNFT) {
    let mut l = Ledger::new();
    fund_wallet(&mut l, authority, 1_000_000_000).unwrap();
    let token_account = derive_associated_token_address(&authority, &mint_key).unwrap();
    create_and_initialize(
        &mut l,
        CreateMintAndATA { authority, mint: mint_key, token_account },
    )
    .unwrap();
    let metadata = derive_metadata_address(&mint_key).unwrap();
    let master_edition = derive_master_edition_address(&mint_key).unwrap();
    (l, MintNFT { authority, mint: mint_key, token_account, metadata, master_edition })
}

fn setup_minted(authority: Key, mint_key: Key, max_supply: Option<u64>) -> (Ledger, MintNFT) {
    let (mut l, ctx) = setup_initialized(authority, mint_key);
    mint(
        &mut l,
        ctx,
        String::from("Alpha"),
        String::from("A"),
        String::from("uri1"),
        max_supply,
    )
    .unwrap();
    (l, ctx)
}

#[test]
fn create_and_initialize_creates_mint_and_holder() {
    let authority = key(1);
    let mint_key = key(2);
    let (l, ctx) = setup_initialized(authority, mint_key);
    match get(&l, &ctx.mint) {
        Some(Account::Mint(m)) => {
            assert_eq!(m.decimals, 0);
            assert_eq!(m.supply, 0);
            assert!(key_eq(&m.mint_authority, &authority));
            assert!(m.transferable);
        }
        _ => panic!("mint account missing"),
    }
    match get(&l, &ctx.token_account) {
        Some(Account::Token(t)) => {
            assert!(key_eq(&t.mint, &mint_key));
            assert!(key_eq(&t.owner, &authority));
            assert_eq!(t.amount, 0);
        }
        _ => panic!("holder account missing"),
    }
    assert_eq!(wallet_of(&l, &authority), 1_000_000_000 - MINT_ACCOUNT_LAMPORTS);
}

#[test]
fn create_twice_is_already_initialized() {
    let authority = key(1);
    let mint_key = key(2);
    let (mut l, ctx) = setup_initialized(authority, mint_key);
    let before = l.accounts.len();
    let r = create_and_initialize(
        &mut l,
        CreateMintAndATA { authority, mint: mint_key, token_account: ctx.token_account },
    );
    assert_eq!(r, Err(Error::AlreadyInitialized));
    assert_eq!(l.accounts.len(), before);
}

#[test]
fn create_with_wrong_holder_address_is_rejected() {
    let authority = key(1);
    let mut l = Ledger::new();
    fund_wallet(&mut l, authority, 1_000_000_000).unwrap();
    let r = create_and_initialize(
        &mut l,
        CreateMintAndATA { authority, mint: key(2), token_account: key(3) },
    );
    assert_eq!(r, Err(Error::WrongDerivedAddress));
    assert_eq!(wallet_of(&l, &authority), 1_000_000_000);
    assert_eq!(l.accounts.len(), 1);
}

#[test]
fn create_without_funding_fails() {
    let authority = key(1);
    let mint_key = key(2);
    let mut l = Ledger::new();
    fund_wallet(&mut l, authority, MINT_ACCOUNT_LAMPORTS - 1).unwrap();
    let token_account = derive_associated_token_address(&authority, &mint_key).unwrap();
    let r = create_and_initialize(
        &mut l,
        CreateMintAndATA { authority, mint: mint_key, token_account },
    );
    assert_eq!(r, Err(Error::AccountCreationFailed));
}

#[test]
fn mint_attaches_metadata_and_master_edition() {
    let authority = key(1);
    let mint_key = key(2);
    let (l, ctx) = setup_minted(authority, mint_key, Some(1));
    match get(&l, &ctx.mint) {
        Some(Account::Mint(m)) => assert_eq!(m.supply, 1),
        _ => panic!("mint account missing"),
    }
    match get(&l, &ctx.token_account) {
        Some(Account::Token(t)) => assert_eq!(t.amount, 1),
        _ => panic!("holder account missing"),
    }
    match get(&l, &ctx.metadata) {
        Some(Account::Metadata(md)) => {
            assert!(key_eq(&md.mint, &mint_key));
            assert!(key_eq(&md.update_authority, &authority));
            assert_eq!(md.name, "Alpha");
            assert_eq!(md.symbol, "A");
            assert_eq!(md.uri, "uri1");
            assert_eq!(md.creators.len(), 1);
            assert!(key_eq(&md.creators[0].address, &authority));
            assert_eq!(md.creators[0].share, 100);
            assert!(md.is_mutable);
        }
        _ => panic!("metadata account missing"),
    }
    match get(&l, &ctx.master_edition) {
        Some(Account::MasterEdition(me)) => {
            assert!(key_eq(&me.mint, &mint_key));
            assert_eq!(me.max_supply, Some(1));
            assert_eq!(me.supply, 0);
        }
        _ => panic!("master edition missing"),
    }
}

#[test]
fn mint_with_wrong_authority_fails() {
    let authority = key(1);
    let mint_key = key(2);
    let (mut l, ctx) = setup_initialized(authority, mint_key);
    let imposter = MintNFT { authority: key(7), ..ctx };
    let before = l.accounts.len();
    let r = mint(
        &mut l,
        imposter,
        String::from("x"),
        String::from("x"),
        String::from("x"),
        Some(1),
    );
    assert_eq!(r, Err(Error::MintFailed));
    assert_eq!(l.accounts.len(), before);
}

#[test]
fn mint_twice_fails_balance_would_exceed_one() {
    let authority = key(1);
    let mint_key = key(2);
    let (mut l, ctx) = setup_minted(authority, mint_key, Some(1));
    let r = mint(
        &mut l,
        ctx,
        String::from("x"),
        String::from("x"),
        String::from("x"),
        Some(1),
    );
    assert_eq!(r, Err(Error::MintFailed));
}

#[test]
fn mint_with_wrong_metadata_address_is_rejected() {
    let authority = key(1);
    let mint_key = key(2);
    let (mut l, ctx) = setup_initialized(authority, mint_key);
    let bad = MintNFT { metadata: key(9), ..ctx };
    let r = mint(
        &mut l,
        bad,
        String::from("x"),
        String::from("x"),
        String::from("x"),
        Some(1),
    );
    assert_eq!(r, Err(Error::WrongDerivedAddress));
}

#[test]
fn mint_into_occupied_metadata_address_fails() {
    let authority = key(1);
    let mint_key = key(2);
    let (mut l, ctx) = setup_initialized(authority, mint_key);
    l.accounts.push((
        ctx.metadata,
        Account::Wallet(nft_solana_marketplace::accounts::Wallet { lamports: 1 }),
    ));
    let r = mint(
        &mut l,
        ctx,
        String::from("x"),
        String::from("x"),
        String::from("x"),
        Some(1),
    );
    assert_eq!(r, Err(Error::MetadataCreateFailed));
}

#[test]
fn metadata_address_matches_derivation() {
    let authority = key(1);
    let mint_key = key(2);
    let (l, ctx) = setup_minted(authority, mint_key, Some(1));
    let derived = derive_metadata_address(&mint_key).unwrap();
    assert!(key_eq(&ctx.metadata, &derived));
    assert!(matches!(get(&l, &derived), Some(Account::Metadata(_))));
    // Deterministic, and distinct mints derive distinct addresses.
    let again = derive_metadata_address(&mint_key).unwrap();
    assert!(key_eq(&derived, &again));
    let other = derive_metadata_address(&key(3)).unwrap();
    assert!(!key_eq(&derived, &other));
    assert!(!key_eq(&derived, &mint_key));
}

#[test]
fn derivation_labels_distinguish_account_roles() {
    let mint_key = key(2);
    let metadata = derive_metadata_address(&mint_key).unwrap();
    let master = derive_master_edition_address(&mint_key).unwrap();
    let marker = derive_edition_marker_address(&mint_key, 1).unwrap();
    assert!(!key_eq(&metadata, &master));
    assert!(!key_eq(&metadata, &marker));
    assert!(!key_eq(&master, &marker));
}

#[test]
fn program_id_constants_match_known_values() {
    // base58 decodings of the three service identifiers.
    let mpl: [u8; 32] = [
        0x0b, 0x70, 0x65, 0xb1, 0xe3, 0xd1, 0x7c, 0x45, 0x38, 0x9d, 0x52, 0x7f, 0x6b, 0x04, 0xc3,
        0xcd, 0x58, 0xb8, 0x6c, 0x73, 0x1a, 0xa0, 0xfd, 0xb5, 0x49, 0xb6, 0xd1, 0xbc, 0x03, 0xf8,
        0x29, 0x46,
    ];
    let token: [u8; 32] = [
        0x06, 0xdd, 0xf6, 0xe1, 0xd7, 0x65, 0xa1, 0x93, 0xd9, 0xcb, 0xe1, 0x46, 0xce, 0xeb, 0x79,
        0xac, 0x1c, 0xb4, 0x85, 0xed, 0x5f, 0x5b, 0x37, 0x91, 0x3a, 0x8c, 0xf5, 0x85, 0x7e, 0xff,
        0x00, 0xa9,
    ];
    let ata: [u8; 32] = [
        0x8c, 0x97, 0x25, 0x8f, 0x4e, 0x24, 0x89, 0xf1, 0xbb, 0x3d, 0x10, 0x29, 0x14, 0x8e, 0x0d,
        0x83, 0x0b, 0x5a, 0x13, 0x99, 0xda, 0xff, 0x10, 0x84, 0x04, 0x8e, 0x7b, 0xd8, 0xdb, 0xe9,
        0xf8, 0x59,
    ];
    assert_eq!(metadata_program_id().bytes, mpl);
    assert_eq!(token_program_id().bytes, token);
    assert_eq!(associated_token_program_id().bytes, ata);
}

#[test]
fn decimal_digits_render_bucket_seeds() {
    assert_eq!(u64_dec_bytes(0), b"0".to_vec());
    assert_eq!(u64_dec_bytes(7), b"7".to_vec());
    assert_eq!(u64_dec_bytes(10), b"10".to_vec());
    assert_eq!(u64_dec_bytes(1234), b"1234".to_vec());
    assert_eq!(u64_dec_bytes(u64::MAX), b"18446744073709551615".to_vec());
}

#[test]
fn fund_wallet_accumulates_and_rejects_non_wallets() {
    let mut l = Ledger::new();
    fund_wallet(&mut l, key(1), 50).unwrap();
    fund_wallet(&mut l, key(1), 25).unwrap();
    assert_eq!(wallet_of(&l, &key(1)), 75);
    let (mut l2, ctx) = setup_initialized(key(1), key(2));
    let r = fund_wallet(&mut l2, ctx.mint, 1);
    assert_eq!(r, Err(Error::InvalidAccount));
}

#[test]
fn sell_exchanges_custody_and_payment() {
    let seller = key(1);
    let buyer = key(4);
    let mint_key = key(2);
    let (mut l, ctx) = setup_minted(seller, mint_key, Some(1));
    fund_wallet(&mut l, buyer, 500).unwrap();
    let seller_before = wallet_of(&l, &seller);
    let r = sell(
        &mut l,
        SellNft { seller_authority: seller, buyer, mint: mint_key, token_account: ctx.token_account },
        300,
    );
    assert_eq!(r, Ok(()));
    assert_eq!(wallet_of(&l, &seller), seller_before + 300);
    assert_eq!(wallet_of(&l, &buyer), 200);
    match get(&l, &ctx.token_account) {
        Some(Account::Token(t)) => {
            assert!(key_eq(&t.owner, &buyer));
            assert_eq!(t.amount, 1);
        }
        _ => panic!("holder account missing"),
    }
}

#[test]
fn sell_with_insufficient_funds_changes_nothing() {
    let seller = key(1);
    let buyer = key(4);
    let mint_key = key(2);
    let (mut l, ctx) = setup_minted(seller, mint_key, Some(1));
    fund_wallet(&mut l, buyer, 100).unwrap();
    let seller_before = wallet_of(&l, &seller);
    let r = sell(
        &mut l,
        SellNft { seller_authority: seller, buyer, mint: mint_key, token_account: ctx.token_account },
        300,
    );
    assert_eq!(r, Err(Error::InsufficientFunds));
    assert_eq!(wallet_of(&l, &seller), seller_before);
    assert_eq!(wallet_of(&l, &buyer), 100);
    match get(&l, &ctx.token_account) {
        Some(Account::Token(t)) => assert!(key_eq(&t.owner, &seller)),
        _ => panic!("holder account missing"),
    }
}

#[test]
fn sold_token_cannot_be_sold_by_old_owner() {
    let seller = key(1);
    let buyer = key(4);
    let mint_key = key(2);
    let (mut l, ctx) = setup_minted(seller, mint_key, Some(1));
    fund_wallet(&mut l, buyer, 500).unwrap();
    let sale = SellNft {
        seller_authority: seller,
        buyer,
        mint: mint_key,
        token_account: ctx.token_account,
    };
    sell(&mut l, sale, 300).unwrap();
    let r = sell(&mut l, sale, 300);
    assert_eq!(r, Err(Error::WrongOwner));
}

#[test]
fn transferable_mint_allows_transfer() {
    let authority = key(1);
    let mint_key = key(2);
    let (mut l, ctx) = setup_minted(authority, mint_key, Some(1));
    let destination = key(8);
    l.accounts.push((
        destination,
        Account::Token(nft_solana_marketplace::accounts::TokenAccount {
            mint: mint_key,
            owner: key(9),
            amount: 0,
        }),
    ));
    let r = transfer(&mut l, ctx.token_account, destination, authority, 1);
    assert_eq!(r, Ok(()));
    match get(&l, &ctx.token_account) {
        Some(Account::Token(t)) => assert_eq!(t.amount, 0),
        _ => panic!("source holder missing"),
    }
    match get(&l, &destination) {
        Some(Account::Token(t)) => assert_eq!(t.amount, 1),
        _ => panic!("destination holder missing"),
    }
}

#[test]
fn entry_points_run_the_minimal_flow() {
    let authority = key(1);
    let mint_key = key(2);
    let mut l = Ledger::new();
    fund_wallet(&mut l, authority, 1_000_000_000).unwrap();
    let token_account = derive_associated_token_address(&authority, &mint_key).unwrap();
    create_initialize_and_mint(
        &mut l,
        CreateMintAndATA { authority, mint: mint_key, token_account },
    )
    .unwrap();
    let ctx = MintNFT {
        authority,
        mint: mint_key,
        token_account,
        metadata: derive_metadata_address(&mint_key).unwrap(),
        master_edition: derive_master_edition_address(&mint_key).unwrap(),
    };
    mint_nft(
        &mut l,
        ctx,
        String::from("Alpha"),
        String::from("A"),
        String::from("uri1"),
    )
    .unwrap();
    match get(&l, &ctx.master_edition) {
        Some(Account::MasterEdition(me)) => assert_eq!(me.max_supply, Some(1)),
        _ => panic!("master edition missing"),
    }
}

#[test]
fn sell_to_self_moves_nothing() {
    let seller = key(1);
    let mint_key = key(2);
    let (mut l, ctx) = setup_minted(seller, mint_key, Some(1));
    let before = wallet_of(&l, &seller);
    let r = sell(
        &mut l,
        SellNft {
            seller_authority: seller,
            buyer: seller,
            mint: mint_key,
            token_account: ctx.token_account,
        },
        300,
    );
    assert_eq!(r, Ok(()));
    assert_eq!(wallet_of(&l, &seller), before);
    match get(&l, &ctx.token_account) {
        Some(Account::Token(t)) => {
            assert!(key_eq(&t.owner, &seller));
            assert_eq!(t.amount, 1);
        }
        _ => panic!("holder account missing"),
    }
}

#[test]
fn sell_before_minting_is_not_token_holder() {
    let seller = key(1);
    let buyer = key(4);
    let mint_key = key(2);
    let (mut l, ctx) = setup_initialized(seller, mint_key);
    fund_wallet(&mut l, buyer, 500).unwrap();
    let r = sell(
        &mut l,
        SellNft { seller_authority: seller, buyer, mint: mint_key, token_account: ctx.token_account },
        300,
    );
    assert_eq!(r, Err(Error::NotTokenHolder));
}

#[test]
fn fund_wallet_overflow_is_rejected() {
    let mut l = Ledger::new();
    fund_wallet(&mut l, key(1), u64::MAX).unwrap();
    assert_eq!(fund_wallet(&mut l, key(1), 1), Err(Error::AccountCreationFailed));
    assert_eq!(wallet_of(&l, &key(1)), u64::MAX);
}

#[test]
fn transfer_from_missing_account_is_rejected() {
    let mut l = Ledger::new();
    let r = transfer(&mut l, key(5), key(6), key(1), 1);
    assert_eq!(r, Err(Error::InvalidAccount));
}

#[test]
fn mint_into_occupied_master_edition_address_fails() {
    let authority = key(1);
    let mint_key = key(2);
    let (mut l, ctx) = setup_initialized(authority, mint_key);
    l.accounts.push((
        ctx.master_edition,
        Account::Wallet(nft_solana_marketplace::accounts::Wallet { lamports: 1 }),
    ));
    let r = mint(
        &mut l,
        ctx,
        String::from("x"),
        String::from("x"),
        String::from("x"),
        Some(1),
    );
    assert_eq!(r, Err(Error::MasterEditionCreateFailed));
}
