use anchor_programs::address::Address;
use anchor_programs::anchor_escrow::{Escrow, Make, MakeBumps};
use anchor_programs::anchor_vault::{CloseVault, Initialize, InitializeBumps, Payments, Vault};
use anchor_programs::cpi::TargetProgram;
use anchor_programs::marketplace::{
    collection_verified, Delist, List, ListBumps, Listing, MarketPlace, MetadataCollection,
    Purchase,
};

fn addr(b: u8) -> Address {
    Address::new([b; 32])
}

#[test]
fn vault_initialize_records_bumps() {
    let mut i = Initialize { vault_state: Vault { state_bump: 0, vault_bump: 0 } };
    i.initialize(&InitializeBumps { vault_state: 254, vault: 253 });
    assert_eq!(i.vault_state.state_bump, 254);
    assert_eq!(i.vault_state.vault_bump, 253);
}

fn payments() -> Payments {
    Payments {
        signer: addr(1),
        vault_state_address: addr(2),
        vault_state: Vault { state_bump: 254, vault_bump: 253 },
        vault: addr(3),
    }
}

#[test]
fn withdraw_reverses_deposit() {
    let p = payments();
    let d = p.deposit(1_500);
    let w = p.withdraw(1_500);
    assert!(d.from == addr(1) && d.to == addr(3));
    assert!(w.from == addr(3) && w.to == addr(1));
    assert_eq!(d.lamports, w.lamports);
    assert!(d.signer_seeds.is_empty());
    assert_eq!(w.signer_seeds, vec![vec![2u8; 32], vec![253u8]]);
}

#[test]
fn close_vault_moves_everything() {
    let c = CloseVault {
        signer: addr(1),
        vault_state_address: addr(2),
        vault_state: Vault { state_bump: 254, vault_bump: 253 },
        vault: addr(3),
        vault_lamports: 9_999,
    };
    let eff = c.close_vault();
    assert!(eff.transfer.from == addr(3) && eff.transfer.to == addr(1));
    assert_eq!(eff.transfer.lamports, 9_999);
    assert_eq!(eff.transfer.signer_seeds, vec![vec![2u8; 32], vec![253u8]]);
    assert!(eff.close_state.account == addr(2) && eff.close_state.destination == addr(1));
}

fn make() -> Make {
    Make {
        maker: addr(1),
        mint_a: addr(2),
        mint_b: addr(3),
        mint_a_decimals: 6,
        maker_ata_a: addr(4),
        escrow: Escrow {
            seed: 0,
            maker: addr(0),
            mint_a: addr(0),
            mint_b: addr(0),
            receive_amount: 0,
            bump: 0,
        },
        vault: addr(5),
    }
}

#[test]
fn init_escrow_records_offer() {
    let mut m = make();
    m.init_escrow(42, 1_000, &MakeBumps { escrow: 252 });
    assert_eq!(m.escrow.seed, 42);
    assert!(m.escrow.maker == addr(1));
    assert!(m.escrow.mint_a == addr(2) && m.escrow.mint_b == addr(3));
    assert_eq!(m.escrow.receive_amount, 1_000);
    assert_eq!(m.escrow.bump, 252);
}

#[test]
fn deposite_stays_in_maker_account() {
    let m = make();
    let t = m.deposite(300);
    assert!(t.from == addr(4) && t.to == addr(4));
    assert!(t.authority == addr(1) && t.mint == addr(2));
    assert_eq!(t.amount, 300);
    assert_eq!(t.decimals, 6);
}

#[test]
fn transfer_to_maker_changes_nothing() {
    let mut m = make();
    m.transfer_to_maker();
    assert!(m.maker == addr(1));
    assert_eq!(m.escrow.receive_amount, 0);
}

fn market_list() -> List {
    List {
        maker: addr(1),
        maker_mint: addr(2),
        maker_mint_decimals: 0,
        maker_ata: addr(3),
        vault: addr(4),
        listing: Listing { maker: addr(0), mint: addr(0), bump: 0, price: 0 },
        collection_mint: addr(5),
    }
}

#[test]
fn collection_must_match_and_be_verified() {
    let named = |verified: bool, key: u8| Some(MetadataCollection { verified, key: addr(key) });
    assert!(collection_verified(&named(true, 5), &addr(5)));
    assert!(!collection_verified(&named(false, 5), &addr(5)));
    assert!(!collection_verified(&named(true, 6), &addr(5)));
}

#[test]
fn create_listing_and_deposit() {
    let mut l = market_list();
    l.create_listing(2_000, ListBumps { listing: 250 });
    assert!(l.listing.maker == addr(1) && l.listing.mint == addr(2));
    assert_eq!(l.listing.price, 2_000);
    assert_eq!(l.listing.bump, 250);
    let t = l.deposit_nft();
    assert!(t.from == addr(3) && t.to == addr(4) && t.authority == addr(1));
    assert_eq!(t.amount, 1);
    assert!(t.signer_seeds.is_empty());
}

#[test]
fn market_delist_returns_nft_with_marketplace_bump() {
    let d = Delist {
        maker: addr(1),
        marketplace_address: addr(10),
        marketplace: MarketPlace { name: "market".to_string(), bump: 240 },
        maker_mint: addr(2),
        maker_mint_decimals: 0,
        maker_ata: addr(3),
        vault: addr(4),
        listing_address: addr(11),
        listing: Listing { maker: addr(1), mint: addr(2), bump: 241, price: 5 },
    };
    let t = d.refund_nft();
    assert!(t.from == addr(4) && t.to == addr(3) && t.authority == addr(11));
    assert_eq!(t.signer_seeds, vec![vec![10u8; 32], vec![2u8; 32], vec![240u8]]);
    let c = d.close_vault();
    assert!(c.program == TargetProgram::AssociatedToken);
    assert!(c.account == addr(4) && c.destination == addr(1) && c.authority == addr(11));
    assert_eq!(c.signer_seeds, vec![vec![10u8; 32], vec![2u8; 32], vec![240u8]]);
}

#[test]
fn market_purchase_pays_and_delivers() {
    let p = Purchase {
        taker: addr(7),
        maker: addr(1),
        marketplace_address: addr(10),
        maker_mint: addr(2),
        maker_mint_decimals: 0,
        taker_ata: addr(8),
        vault: addr(4),
        listing_address: addr(11),
        listing: Listing { maker: addr(1), mint: addr(2), bump: 241, price: 5_000 },
    };
    let pay = p.transfer_sol();
    assert!(pay.from == addr(7) && pay.to == addr(1));
    assert_eq!(pay.lamports, 5_000);
    let t = p.transfer_nft();
    assert!(t.from == addr(4) && t.to == addr(8) && t.authority == addr(11));
    assert_eq!(t.amount, 1);
    assert_eq!(t.signer_seeds, vec![vec![10u8; 32], vec![2u8; 32], vec![241u8]]);
    let c = p.close_listing();
    assert!(c.program == TargetProgram::Token);
    assert!(c.account == addr(4) && c.destination == addr(1));
    assert_eq!(c.signer_seeds, vec![vec![10u8; 32], vec![2u8; 32], vec![241u8]]);
}
