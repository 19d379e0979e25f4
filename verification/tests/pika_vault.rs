use anchor_programs::address::Address;
use anchor_programs::pika_vault::error::{InstructionError, ListingError};
use anchor_programs::pika_vault::instructions::delist::Delist;
use anchor_programs::pika_vault::instructions::initialize::{Initialize, InitializeBumps};
use anchor_programs::pika_vault::instructions::list::{List, ListBumps};
use anchor_programs::pika_vault::instructions::purchase::Purchase;
use anchor_programs::pika_vault::instructions::refund::Refund;
use anchor_programs::pika_vault::instructions::register_user::{RegisterUser, RegisterUserBumps};
use anchor_programs::pika_vault::state::{
    strings_fit, Escrow, ListingAccount, ListingStatus, MarketPlace, UserAccount,
};

fn addr(b: u8) -> Address {
    Address::new([b; 32])
}

fn user(b: u8, sold: u64, bought: u64, listed: u64) -> UserAccount {
    UserAccount {
        authority: addr(b),
        bump: 250,
        nft_sold: sold,
        nft_bought: bought,
        nft_listed: listed,
        created_at: 1_700_000_000,
    }
}

fn listing(owner: u8, price: u64, status: ListingStatus) -> ListingAccount {
    ListingAccount {
        owner: addr(owner),
        nft_address: addr(9),
        card_metadata: "Charizard base set".to_string(),
        listing_price: price,
        status,
        created_at: 1_700_000_000,
        image_url: "QmHash".to_string(),
        bump: 254,
    }
}

fn zero_escrow() -> Escrow {
    Escrow {
        seller: addr(0),
        buyer: addr(0),
        bump: 0,
        nft_mint: addr(0),
        sale_amount: 0,
        locked_amount: 0,
        timestamp: 0,
    }
}

fn purchase_ctx(price: u64) -> Purchase {
    Purchase {
        buyer: addr(2),
        buyer_account: user(2, 0, 3, 0),
        seller_account: user(1, 5, 0, 2),
        listing: listing(1, price, ListingStatus::Active),
        escrow_address: addr(7),
        escrow: zero_escrow(),
        nft_mint: addr(9),
    }
}

fn le(v: u64) -> Vec<u8> {
    let mut d = vec![2u8, 0, 0, 0];
    d.extend_from_slice(&v.to_le_bytes());
    d
}

#[test]
fn register_user_starts_at_zero() {
    let mut ctx = RegisterUser { user: addr(3), user_account: user(0, 9, 9, 9) };
    let r = ctx.init(&RegisterUserBumps { user_account: 253 }, 1_234);
    assert!(r.is_ok());
    assert!(ctx.user_account.authority == addr(3));
    assert_eq!(ctx.user_account.nft_sold, 0);
    assert_eq!(ctx.user_account.nft_bought, 0);
    assert_eq!(ctx.user_account.nft_listed, 0);
    assert_eq!(ctx.user_account.created_at, 1_234);
    assert_eq!(ctx.user_account.bump, 253);
}

#[test]
fn initialize_marketplace_records_fee() {
    let mut ctx = Initialize {
        admin: addr(4),
        marketplace: MarketPlace { authority: addr(0), fee: 0, bump: 0, treasury_bump: 0 },
    };
    let r = ctx.init(250, &InitializeBumps { marketplace: 251, treasury: 252 });
    assert!(r.is_ok());
    assert!(ctx.marketplace.authority == addr(4));
    assert_eq!(ctx.marketplace.fee, 250);
    assert_eq!(ctx.marketplace.bump, 251);
    assert_eq!(ctx.marketplace.treasury_bump, 252);
}

#[test]
fn purchase_locks_price_in_escrow() {
    let mut p = purchase_ctx(1_000_000);
    let ix = p.purchase(42).unwrap();
    // The System transfer from the buyer to the escrow.
    assert!(ix.program_id == addr(0));
    assert_eq!(ix.accounts.len(), 2);
    assert!(ix.accounts[0].pubkey == addr(2));
    assert!(ix.accounts[0].is_signer && ix.accounts[0].is_writable);
    assert!(ix.accounts[1].pubkey == addr(7));
    assert!(!ix.accounts[1].is_signer && ix.accounts[1].is_writable);
    assert_eq!(ix.data, le(1_000_000));
    assert_eq!(ix.data, vec![2, 0, 0, 0, 0x40, 0x42, 0x0f, 0, 0, 0, 0, 0]);

    assert!(p.listing.status == ListingStatus::Sold);
    assert!(p.escrow.seller == addr(1));
    assert!(p.escrow.buyer == addr(2));
    assert!(p.escrow.nft_mint == addr(9));
    assert_eq!(p.escrow.sale_amount, 1_000_000);
    assert_eq!(p.escrow.locked_amount, 1_000_000);
    assert_eq!(p.escrow.timestamp, 42);
    assert_eq!(p.escrow.bump, 0);
    assert_eq!(p.buyer_account.nft_bought, 4);
    assert_eq!(p.seller_account.nft_sold, 6);
    assert_eq!(p.seller_account.nft_listed, 1);
}

#[test]
fn purchase_refuses_inactive_listing() {
    let mut p = purchase_ctx(10);
    p.listing.status = ListingStatus::Unlisted;
    assert!(p.purchase(1).unwrap_err() == InstructionError::ConstraintRaw);
    assert_eq!(p.buyer_account.nft_bought, 3);
    assert!(p.listing.status == ListingStatus::Unlisted);
}

#[test]
fn purchase_refuses_own_listing() {
    let mut p = purchase_ctx(10);
    p.buyer = addr(1);
    assert!(p.purchase(1).unwrap_err() == InstructionError::ConstraintRaw);
    assert!(p.listing.status == ListingStatus::Active);
    assert_eq!(p.escrow.locked_amount, 0);
}

#[test]
fn sold_listing_cannot_be_bought_again() {
    let mut p = purchase_ctx(500);
    p.purchase(7).unwrap();
    let mut again = purchase_ctx(500);
    again.buyer = addr(3);
    again.listing = p.listing.clone();
    assert!(again.purchase(8).unwrap_err() == InstructionError::ConstraintRaw);
}

fn refund_of(p: &Purchase) -> Refund {
    Refund {
        buyer: p.buyer,
        buyer_account: p.buyer_account,
        seller_account: p.seller_account,
        listing: p.listing.clone(),
        escrow_address: p.escrow_address,
        escrow: p.escrow,
    }
}

#[test]
fn refund_undoes_purchase() {
    let before = purchase_ctx(777);
    let mut p = before.clone();
    p.purchase(100).unwrap();
    let mut r = refund_of(&p);
    let ix = r.refund().unwrap();
    assert!(ix.accounts[0].pubkey == addr(7));
    assert!(ix.accounts[1].pubkey == addr(2));
    assert_eq!(ix.data, le(777));
    assert_eq!(r.escrow.locked_amount, 0);
    assert!(r.listing.status == ListingStatus::Active);
    assert_eq!(r.buyer_account.nft_bought, before.buyer_account.nft_bought);
    assert_eq!(r.seller_account.nft_sold, before.seller_account.nft_sold);
    assert_eq!(r.seller_account.nft_listed, before.seller_account.nft_listed);
}

#[test]
fn refund_twice_is_refused() {
    let mut p = purchase_ctx(777);
    p.purchase(100).unwrap();
    let mut r = refund_of(&p);
    r.refund().unwrap();
    let after = r.clone();
    assert!(
        r.refund().unwrap_err() == InstructionError::Listing(ListingError::ListingNotSold)
    );
    assert_eq!(r.buyer_account.nft_bought, after.buyer_account.nft_bought);
}

#[test]
fn refund_by_other_than_buyer_is_refused() {
    let mut p = purchase_ctx(777);
    p.purchase(100).unwrap();
    let mut r = refund_of(&p);
    r.buyer = addr(5);
    assert!(
        r.refund().unwrap_err() == InstructionError::Listing(ListingError::UnauthorizedRefund)
    );
    assert_eq!(r.escrow.locked_amount, 777);
}

#[test]
fn refund_of_empty_escrow_is_refused() {
    // A card listed at price zero leaves nothing to refund.
    let mut p = purchase_ctx(0);
    p.purchase(100).unwrap();
    let mut r = refund_of(&p);
    assert!(
        r.refund().unwrap_err() == InstructionError::Listing(ListingError::EscrowAlreadyReleased)
    );
    assert!(r.listing.status == ListingStatus::Sold);
}

fn list_ctx(listed: u64) -> List {
    List {
        maker: addr(1),
        user_account: user(1, 0, 0, listed),
        nft_mint: addr(9),
        nft_decimals: 0,
        maker_ata: addr(10),
        vault: addr(11),
        listing: listing(0, 0, ListingStatus::Active),
        collection_mint: addr(12),
        metadata: addr(13),
        master_edition_account: addr(14),
    }
}

#[test]
fn mint_and_list_creates_active_listing() {
    let mut l = list_ctx(2);
    let (eff, outcome) = l.mint_and_list(
        "Pika".to_string(),
        "PIKA".to_string(),
        5_000,
        "PSA 10".to_string(),
        "QmImage".to_string(),
        &ListBumps { listing: 249 },
        77,
    );
    assert!(outcome.is_ok());
    assert!(eff.mint.mint == addr(9) && eff.mint.to == addr(10) && eff.mint.authority == addr(1));
    assert_eq!(eff.mint.amount, 1);
    let m = &eff.metadata;
    assert!(m.metadata == addr(13) && m.mint == addr(9));
    assert!(m.mint_authority == addr(1) && m.payer == addr(1) && m.update_authority == addr(1));
    assert_eq!(m.data.name, "Pika");
    assert_eq!(m.data.symbol, "PIKA");
    assert_eq!(m.data.uri, "QmImage");
    assert_eq!(m.data.seller_fee_basis_points, 0);
    assert_eq!(m.data.creators.len(), 1);
    assert!(m.data.creators[0].address == addr(1));
    assert!(m.data.creators[0].verified);
    assert_eq!(m.data.creators[0].share, 100);
    let c = m.data.collection.unwrap();
    assert!(!c.verified && c.key == addr(12));
    assert!(m.data.uses.is_none());
    assert!(m.is_mutable && m.update_authority_is_signer);
    assert!(m.collection_details.is_none());
    let e = eff.master_edition;
    assert!(e.edition == addr(14) && e.mint == addr(9) && e.metadata == addr(13));
    assert!(e.update_authority == addr(1) && e.mint_authority == addr(1) && e.payer == addr(1));
    assert_eq!(e.max_supply, Some(0));
    assert!(eff.deposit.from == addr(10) && eff.deposit.to == addr(11));
    assert!(eff.deposit.authority == addr(1) && eff.deposit.mint == addr(9));
    assert_eq!(eff.deposit.amount, 1);
    assert_eq!(eff.deposit.decimals, 0);
    assert!(eff.deposit.signer_seeds.is_empty());

    assert!(l.listing.owner == addr(1));
    assert!(l.listing.nft_address == addr(9));
    assert_eq!(l.listing.card_metadata, "PSA 10");
    assert_eq!(l.listing.listing_price, 5_000);
    assert!(l.listing.status == ListingStatus::Active);
    assert_eq!(l.listing.created_at, 77);
    assert_eq!(l.listing.image_url, "QmImage");
    assert_eq!(l.listing.bump, 249);
    assert_eq!(l.user_account.nft_listed, 3);
}

#[test]
fn mint_and_list_refuses_strings_too_long() {
    let mut l = list_ctx(2);
    let card = "x".repeat(50);
    let image = "y".repeat(47);
    let (eff, r) = l.mint_and_list(
        "Pika".to_string(),
        "PIKA".to_string(),
        5_000,
        card,
        image,
        &ListBumps { listing: 249 },
        77,
    );
    assert!(r.unwrap_err() == InstructionError::AccountDidNotSerialize);
    // The calls are still described: they come before the write-back fails.
    assert_eq!(eff.mint.amount, 1);
    assert_eq!(eff.metadata.data.uri, "y".repeat(47));
    assert_eq!(l.user_account.nft_listed, 2);
    assert!(l.listing.owner == addr(0));
}

#[test]
fn listing_strings_share_their_room() {
    // 96 bytes are reserved for the two strings together.
    assert!(strings_fit(&"x".repeat(50), &"y".repeat(46)));
    assert!(strings_fit(&"x".repeat(90), &"y".repeat(6)));
    assert!(!strings_fit(&"x".repeat(90), &"y".repeat(7)));
    assert!(!strings_fit(&"x".repeat(97), &String::new()));
    // Lengths count bytes, not characters.
    assert!(!strings_fit(&"é".repeat(49), &String::new()));
    assert!(strings_fit(&"é".repeat(48), &String::new()));
}

fn delist_ctx(listed: u64) -> Delist {
    Delist {
        owner: addr(1),
        user_account: user(1, 0, 0, listed),
        marketplace_address: addr(20),
        nft_mint: addr(9),
        nft_decimals: 0,
        owner_ata: addr(10),
        vault: addr(11),
        listing_address: addr(21),
        listing: listing(1, 100, ListingStatus::Active),
    }
}

#[test]
fn delist_returns_nft_and_closes_listing() {
    let mut d = delist_ctx(3);
    let eff = d.delist().unwrap();
    assert!(eff.nft_return.from == addr(11) && eff.nft_return.to == addr(10));
    assert!(eff.nft_return.authority == addr(21) && eff.nft_return.mint == addr(9));
    assert_eq!(eff.nft_return.amount, 1);
    assert_eq!(eff.nft_return.signer_seeds, vec![vec![20u8; 32], vec![9u8; 32], vec![254u8]]);
    assert!(eff.close_listing.account == addr(21) && eff.close_listing.destination == addr(1));
    assert_eq!(d.user_account.nft_listed, 2);
}

#[test]
fn delist_by_other_than_owner_is_refused() {
    let mut d = delist_ctx(3);
    d.owner = addr(5);
    assert!(d.delist().unwrap_err() == InstructionError::ConstraintRaw);
    assert_eq!(d.user_account.nft_listed, 3);
}

#[test]
fn delist_of_sold_listing_is_refused() {
    let mut d = delist_ctx(3);
    d.listing.status = ListingStatus::Sold;
    assert!(d.delist().unwrap_err() == InstructionError::ConstraintRaw);
}

#[test]
fn delist_undoes_list() {
    let mut l = list_ctx(4);
    l.mint_and_list(
        "Pika".to_string(),
        "PIKA".to_string(),
        5_000,
        "PSA 10".to_string(),
        "QmImage".to_string(),
        &ListBumps { listing: 249 },
        77,
    )
    .1
    .unwrap();
    let mut d = Delist {
        owner: l.maker,
        user_account: l.user_account,
        marketplace_address: addr(20),
        nft_mint: l.nft_mint,
        nft_decimals: l.nft_decimals,
        owner_ata: l.maker_ata,
        vault: l.vault,
        listing_address: addr(21),
        listing: l.listing.clone(),
    };
    let eff = d.delist().unwrap();
    assert_eq!(d.user_account.nft_listed, 4);
    assert!(eff.nft_return.from == l.vault && eff.nft_return.to == l.maker_ata);
}

#[test]
fn seller_cards_are_conserved() {
    let mut p = purchase_ctx(10);
    let before = p.seller_account.nft_listed + p.seller_account.nft_sold;
    p.purchase(1).unwrap();
    assert_eq!(p.seller_account.nft_listed + p.seller_account.nft_sold, before);
    let mut r = refund_of(&p);
    r.refund().unwrap();
    assert_eq!(r.seller_account.nft_listed + r.seller_account.nft_sold, before);
}

/// Each user's listed and sold counts stay equal to the numbers of that
/// user's active and sold listings through a run of instructions.
#[test]
fn counters_follow_listings() {
    let alice = addr(1);
    let bob = addr(2);
    let mut ra = RegisterUser { user: alice, user_account: user(0, 0, 0, 0) };
    ra.init(&RegisterUserBumps { user_account: 1 }, 0).unwrap();
    let mut rb = RegisterUser { user: bob, user_account: user(0, 0, 0, 0) };
    rb.init(&RegisterUserBumps { user_account: 2 }, 0).unwrap();
    let mut alice_acc = ra.user_account;
    let mut bob_acc = rb.user_account;

    let mut listings: Vec<ListingAccount> = Vec::new();
    for (i, price) in [(30u8, 100u64), (31u8, 200u64)] {
        let mut l = List {
            maker: alice,
            user_account: alice_acc,
            nft_mint: addr(i),
            nft_decimals: 0,
            maker_ata: addr(40),
            vault: addr(41),
            listing: listing(0, 0, ListingStatus::Active),
            collection_mint: addr(42),
            metadata: addr(43),
            master_edition_account: addr(44),
        };
        l.mint_and_list(
            "n".to_string(),
            "s".to_string(),
            price,
            "c".to_string(),
            "u".to_string(),
            &ListBumps { listing: 0 },
            1,
        )
        .1
        .unwrap();
        alice_acc = l.user_account;
        listings.push(l.listing);
    }
    let count = |ls: &Vec<ListingAccount>, owner: Address, status: ListingStatus| {
        ls.iter().filter(|l| l.owner == owner && l.status == status).count() as u64
    };
    assert_eq!(alice_acc.nft_listed, count(&listings, alice, ListingStatus::Active));
    assert_eq!(alice_acc.nft_listed, 2);

    let mut p = Purchase {
        buyer: bob,
        buyer_account: bob_acc,
        seller_account: alice_acc,
        listing: listings[0].clone(),
        escrow_address: addr(50),
        escrow: zero_escrow(),
        nft_mint: addr(30),
    };
    p.purchase(2).unwrap();
    listings[0] = p.listing.clone();
    alice_acc = p.seller_account;
    bob_acc = p.buyer_account;
    assert_eq!(alice_acc.nft_listed, count(&listings, alice, ListingStatus::Active));
    assert_eq!(alice_acc.nft_sold, count(&listings, alice, ListingStatus::Sold));
    assert_eq!(bob_acc.nft_listed, count(&listings, bob, ListingStatus::Active));
    assert_eq!(bob_acc.nft_bought, 1);

    let mut r = Refund {
        buyer: bob,
        buyer_account: bob_acc,
        seller_account: alice_acc,
        listing: listings[0].clone(),
        escrow_address: addr(50),
        escrow: p.escrow,
    };
    r.refund().unwrap();
    listings[0] = r.listing.clone();
    alice_acc = r.seller_account;
    bob_acc = r.buyer_account;
    assert_eq!(alice_acc.nft_listed, count(&listings, alice, ListingStatus::Active));
    assert_eq!(alice_acc.nft_sold, count(&listings, alice, ListingStatus::Sold));
    assert_eq!(bob_acc.nft_bought, 0);

    let mut d = Delist {
        owner: alice,
        user_account: alice_acc,
        marketplace_address: addr(60),
        nft_mint: addr(31),
        nft_decimals: 0,
        owner_ata: addr(40),
        vault: addr(41),
        listing_address: addr(61),
        listing: listings[1].clone(),
    };
    d.delist().unwrap();
    listings.remove(1);
    alice_acc = d.user_account;
    assert_eq!(alice_acc.nft_listed, count(&listings, alice, ListingStatus::Active));
    assert_eq!(alice_acc.nft_listed, 1);
    assert_eq!(alice_acc.nft_sold, 0);
}
