//! An NFT marketplace: a maker deposits an NFT of a verified collection in
//! a vault owned by its listing, and a taker buys it at the listed price.
use vstd::prelude::*;

use crate::address::Address;
use crate::cpi::{
    seeds_view, two_keys_bump, two_keys_bump_seeds, CloseTokenAccount, LamportTransfer,
    TargetProgram, TokenTransfer,
};

verus! {

/// The marketplace, found at the address derived from its name.
#[derive(Clone, Debug)]
pub struct MarketPlace {
    pub name: String,
    pub bump: u8,
}

/// An NFT offered at a price.
#[derive(Clone, Copy, Debug)]
pub struct Listing {
    pub maker: Address,
    pub mint: Address,
    pub bump: u8,
    pub price: u64,
}

/// The collection that an NFT's metadata names.
#[derive(Clone, Copy, Debug)]
pub struct MetadataCollection {
    pub verified: bool,
    pub key: Address,
}

/// The bump seed that was found for the new listing account.
#[derive(Clone, Copy, Debug)]
pub struct ListBumps {
    pub listing: u8,
}

/// The accounts of a listing, as the handler reads them.
#[derive(Clone, Copy, Debug)]
pub struct List {
    /// The maker, who signs and pays.
    pub maker: Address,
    pub maker_mint: Address,
    pub maker_mint_decimals: u8,
    /// The maker's token account for the NFT.
    pub maker_ata: Address,
    /// The listing's token account that is to hold the NFT.
    pub vault: Address,
    /// The listing account as created.
    pub listing: Listing,
    pub collection_mint: Address,
}

/// The metadata constraint of a listing: the NFT's metadata names the
/// collection of `collection_mint`, and the collection has verified it.
pub open spec fn collection_ok(collection: Option<MetadataCollection>, collection_mint: Address) -> bool {
    &&& collection matches Some(c)
    &&& c.key@ == collection_mint@
    &&& c.verified
}

/// Checks the metadata constraint of a listing. Metadata that names no
/// collection is left out: the check unwraps the collection.
pub fn collection_verified(collection: &Option<MetadataCollection>, collection_mint: &Address) -> (b: bool)
    requires
        collection is Some,
    ensures
        b == collection_ok(*collection, *collection_mint),
        collection matches Some(c) ==> (b <==> c.verified && c.key.bytes@
            == collection_mint.bytes@),
{
    match collection {
        Some(c) => c.key == *collection_mint && c.verified == true,
        None => false,
    }
}

/// The metadata constraint accepts exactly the NFTs whose metadata names
/// the given collection mint, byte for byte, and whose collection has
/// verified them: metadata naming another key, or an unverified
/// collection, or no collection, is refused.
pub proof fn lemma_collection_ok_exactly(collection: Option<MetadataCollection>, collection_mint: Address)
    ensures
        collection is None ==> !collection_ok(collection, collection_mint),
        collection matches Some(c) ==> (collection_ok(collection, collection_mint) <==> (c.verified
            && forall|i: int| 0 <= i < 32 ==> #[trigger] c.key.bytes[i] == collection_mint.bytes[i])),
{
    if let Some(c) = collection {
        if forall|i: int| 0 <= i < 32 ==> #[trigger] c.key.bytes[i] == collection_mint.bytes[i] {
            assert(c.key.bytes@ =~= collection_mint.bytes@);
        }
    }
}

/// The constraint accepts an NFT whose verified collection is the given
/// collection mint, and refuses it once its collection is unverified.
pub proof fn lemma_collection_ok_accepts_own_mint(key: Address)
    ensures
        collection_ok(Some(MetadataCollection { verified: true, key }), key),
        !collection_ok(Some(MetadataCollection { verified: false, key }), key),
{
}

impl List {
    /// Records the listing of the maker's NFT at `price`.
    pub fn create_listing(&mut self, price: u64, bumps: ListBumps)
        ensures
            *final(self) == (List {
                listing: Listing {
                    maker: old(self).maker,
                    mint: old(self).maker_mint,
                    price,
                    bump: bumps.listing,
                },
                ..*old(self)
            }),
    {
        self.listing = Listing {
            maker: self.maker,
            mint: self.maker_mint,
            price,
            bump: bumps.listing,
        };
    }

    /// The NFT's deposit: one token from the maker into the vault, signed by
    /// the maker.
    pub fn deposit_nft(&self) -> (t: TokenTransfer)
        ensures
            t.from == self.maker_ata,
            t.to == self.vault,
            t.authority == self.maker,
            t.mint == self.maker_mint,
            t.amount == 1,
            t.decimals == self.maker_mint_decimals,
            seeds_view(t.signer_seeds) == Seq::<Seq<u8>>::empty(),
    {
        let t = TokenTransfer {
            from: self.maker_ata,
            to: self.vault,
            authority: self.maker,
            mint: self.maker_mint,
            amount: 1,
            decimals: self.maker_mint_decimals,
            signer_seeds: Vec::new(),
        };
        assert(seeds_view(t.signer_seeds) =~= Seq::<Seq<u8>>::empty());
        t
    }
}

/// The accounts of a delisting, as the handler reads them.
#[derive(Clone, Debug)]
pub struct Delist {
    /// The maker, who signs.
    pub maker: Address,
    pub marketplace_address: Address,
    pub marketplace: MarketPlace,
    pub maker_mint: Address,
    pub maker_mint_decimals: u8,
    /// The maker's token account for the NFT.
    pub maker_ata: Address,
    /// The listing's token account that holds the NFT.
    pub vault: Address,
    pub listing_address: Address,
    pub listing: Listing,
}

impl Delist {
    /// The NFT's return: one token from the vault to the maker, signed by the
    /// listing with the seeds `[marketplace, mint, [marketplace bump]]`.
    /// The bump is the marketplace's, not the listing's, although the
    /// listing's address derives from the listing's bump: this is what the
    /// program asks for.
    pub fn refund_nft(&self) -> (t: TokenTransfer)
        ensures
            t.from == self.vault,
            t.to == self.maker_ata,
            t.authority == self.listing_address,
            t.mint == self.maker_mint,
            t.amount == 1,
            t.decimals == self.maker_mint_decimals,
            seeds_view(t.signer_seeds) == two_keys_bump_seeds(
                self.marketplace_address,
                self.maker_mint,
                self.marketplace.bump,
            ),
            seeds_view(t.signer_seeds) == seq![
                self.marketplace_address.bytes@,
                self.maker_mint.bytes@,
                seq![self.marketplace.bump],
            ],
    {
        let seeds = two_keys_bump(&self.marketplace_address, &self.maker_mint, self.marketplace.bump);
        TokenTransfer {
            authority: self.listing_address,
            from: self.vault,
            mint: self.maker_mint,
            to: self.maker_ata,
            amount: 1,
            decimals: self.maker_mint_decimals,
            signer_seeds: seeds,
        }
    }

    /// The vault's closing to the maker, sent to the associated token
    /// program (not the token program that owns the vault) and signed by the
    /// listing with the same seeds, the marketplace's bump among them: this is
    /// what the program asks for.
    pub fn close_vault(&self) -> (c: CloseTokenAccount)
        ensures
            c.program == TargetProgram::AssociatedToken,
            c.account == self.vault,
            c.destination == self.maker,
            c.authority == self.listing_address,
            seeds_view(c.signer_seeds) == two_keys_bump_seeds(
                self.marketplace_address,
                self.maker_mint,
                self.marketplace.bump,
            ),
            seeds_view(c.signer_seeds) == seq![
                self.marketplace_address.bytes@,
                self.maker_mint.bytes@,
                seq![self.marketplace.bump],
            ],
    {
        let signer_seeds = two_keys_bump(
            &self.marketplace_address,
            &self.maker_mint,
            self.marketplace.bump,
        );
        CloseTokenAccount {
            program: TargetProgram::AssociatedToken,
            account: self.vault,
            authority: self.listing_address,
            destination: self.maker,
            signer_seeds,
        }
    }
}

/// The accounts of a purchase, as the handler reads them.
#[derive(Clone, Copy, Debug)]
pub struct Purchase {
    /// The taker, who signs and pays.
    pub taker: Address,
    /// The maker of the listing.
    pub maker: Address,
    pub marketplace_address: Address,
    pub maker_mint: Address,
    pub maker_mint_decimals: u8,
    /// The taker's token account for the NFT.
    pub taker_ata: Address,
    /// The listing's token account that holds the NFT.
    pub vault: Address,
    pub listing_address: Address,
    pub listing: Listing,
}

impl Purchase {
    /// The payment: the listing price, from the taker to the maker.
    pub fn transfer_sol(&self) -> (t: LamportTransfer)
        ensures
            t.from == self.taker,
            t.to == self.maker,
            t.lamports == self.listing.price,
            seeds_view(t.signer_seeds) == Seq::<Seq<u8>>::empty(),
    {
        let lamports = self.listing.price;
        let t = LamportTransfer {
            from: self.taker,
            to: self.maker,
            lamports,
            signer_seeds: Vec::new(),
        };
        assert(seeds_view(t.signer_seeds) =~= Seq::<Seq<u8>>::empty());
        t
    }

    /// The NFT's delivery: one token from the vault to the taker, signed by
    /// the listing with the seeds `[marketplace, mint, [listing bump]]`.
    pub fn transfer_nft(&self) -> (t: TokenTransfer)
        ensures
            t.from == self.vault,
            t.to == self.taker_ata,
            t.authority == self.listing_address,
            t.mint == self.maker_mint,
            t.amount == 1,
            t.decimals == self.maker_mint_decimals,
            seeds_view(t.signer_seeds) == two_keys_bump_seeds(
                self.marketplace_address,
                self.maker_mint,
                self.listing.bump,
            ),
            seeds_view(t.signer_seeds) == seq![
                self.marketplace_address.bytes@,
                self.maker_mint.bytes@,
                seq![self.listing.bump],
            ],
    {
        let signer_seeds = two_keys_bump(&self.marketplace_address, &self.maker_mint, self.listing.bump);
        TokenTransfer {
            from: self.vault,
            to: self.taker_ata,
            authority: self.listing_address,
            mint: self.maker_mint,
            amount: 1,
            decimals: self.maker_mint_decimals,
            signer_seeds,
        }
    }

    /// The vault's closing to the maker, signed by the listing with the
    /// same seeds.
    pub fn close_listing(&self) -> (c: CloseTokenAccount)
        ensures
            c.program == TargetProgram::Token,
            c.account == self.vault,
            c.destination == self.maker,
            c.authority == self.listing_address,
            seeds_view(c.signer_seeds) == two_keys_bump_seeds(
                self.marketplace_address,
                self.maker_mint,
                self.listing.bump,
            ),
            seeds_view(c.signer_seeds) == seq![
                self.marketplace_address.bytes@,
                self.maker_mint.bytes@,
                seq![self.listing.bump],
            ],
    {
        let signer_seeds = two_keys_bump(&self.marketplace_address, &self.maker_mint, self.listing.bump);
        CloseTokenAccount {
            program: TargetProgram::Token,
            account: self.vault,
            destination: self.maker,
            authority: self.listing_address,
            signer_seeds,
        }
    }
}

} // verus!
