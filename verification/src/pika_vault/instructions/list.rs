//! Minting an NFT for a card and listing it for sale.
use vstd::prelude::*;

use crate::address::Address;
use crate::cpi::{seeds_view, MintTokens, TokenTransfer};
use crate::pika_vault::error::InstructionError;
use crate::pika_vault::state::{
    listing_strings_fit, strings_fit, ListingAccount, ListingStatus, UserAccount,
};

verus! {

/// The bump seed that was found for the new listing account.
#[derive(Clone, Copy, Debug)]
pub struct ListBumps {
    pub listing: u8,
}

/// A creator of an NFT, with its share of the royalties in percent.
#[derive(Clone, Copy, Debug)]
pub struct Creator {
    pub address: Address,
    pub verified: bool,
    pub share: u8,
}

/// The collection that an NFT claims to belong to.
#[derive(Clone, Copy, Debug)]
pub struct Collection {
    pub verified: bool,
    pub key: Address,
}

/// How an NFT may be used up.
#[derive(PartialEq, Eq, Structural, Clone, Copy, Debug)]
pub enum UseMethod {
    Burn,
    Multiple,
    Single,
}

/// The uses of an NFT.
#[derive(Clone, Copy, Debug)]
pub struct Uses {
    pub use_method: UseMethod,
    pub remaining: u64,
    pub total: u64,
}

/// What a collection NFT records of its size.
#[derive(Clone, Copy, Debug)]
pub enum CollectionDetails {
    V1 { size: u64 },
    V2 { padding: [u8; 8] },
}

/// The data of the NFT's metadata (the token metadata program's `DataV2`).
#[derive(Clone, Debug)]
pub struct NftMetadata {
    pub name: String,
    pub symbol: String,
    pub uri: String,
    pub seller_fee_basis_points: u16,
    pub creators: Vec<Creator>,
    pub collection: Option<Collection>,
    pub uses: Option<Uses>,
}

/// A `create_metadata_accounts_v3` call of the token metadata program: it
/// creates the metadata account `metadata` of `mint` with `data`.
#[derive(Clone, Debug)]
pub struct CreateMetadata {
    pub metadata: Address,
    pub mint: Address,
    pub mint_authority: Address,
    pub payer: Address,
    pub update_authority: Address,
    pub data: NftMetadata,
    pub is_mutable: bool,
    pub update_authority_is_signer: bool,
    pub collection_details: Option<CollectionDetails>,
}

/// A `create_master_edition_v3` call of the token metadata program: it
/// creates the master edition `edition` of `mint`, whose metadata account is
/// `metadata`.
#[derive(Clone, Copy, Debug)]
pub struct CreateMasterEdition {
    pub edition: Address,
    pub mint: Address,
    pub update_authority: Address,
    pub mint_authority: Address,
    pub payer: Address,
    pub metadata: Address,
    /// The maximum supply of prints; `Some(0)` allows none.
    pub max_supply: Option<u64>,
}

/// The calls that listing a card asks for, in this order: the NFT is minted
/// to the maker, its metadata and master edition are created, and the NFT
/// is deposited in the listing's vault.
#[derive(Clone, Debug)]
pub struct MintAndListEffects {
    pub mint: MintTokens,
    pub metadata: CreateMetadata,
    pub master_edition: CreateMasterEdition,
    pub deposit: TokenTransfer,
}

/// The accounts of a listing, as the handler reads them.
#[derive(Clone, Debug)]
pub struct List {
    /// The maker, who signs and pays.
    pub maker: Address,
    pub user_account: UserAccount,
    /// The new NFT's mint, of which the maker is the authority.
    pub nft_mint: Address,
    pub nft_decimals: u8,
    /// The maker's token account for the NFT.
    pub maker_ata: Address,
    /// The listing's token account that is to hold the NFT.
    pub vault: Address,
    /// The listing account as created.
    pub listing: ListingAccount,
    /// The collection that the NFT is said to belong to.
    pub collection_mint: Address,
    /// The NFT's metadata account, to be created.
    pub metadata: Address,
    /// The NFT's master edition account, to be created.
    pub master_edition_account: Address,
}

impl List {
    /// The metadata data that a listing asks for: the given name and
    /// symbol, the image URL as URI, no royalties, the maker as sole verified
    /// creator, an unverified collection, and no uses.
    pub open spec fn metadata_data_ok(
        self,
        m: NftMetadata,
        name: String,
        symbol: String,
        image_url: String,
    ) -> bool {
        &&& m.name@ == name@
        &&& m.symbol@ == symbol@
        &&& m.uri@ == image_url@
        &&& m.seller_fee_basis_points == 0
        &&& m.creators@ == seq![Creator { address: self.maker, verified: true, share: 100 }]
        &&& m.collection == Some(Collection { verified: false, key: self.collection_mint })
        &&& m.uses is None
    }

    /// The metadata call of a listing: the NFT's metadata account is created
    /// for its mint, the maker being mint authority, payer and update
    /// authority (signing as such), mutable, with that data and without
    /// collection details.
    pub open spec fn metadata_ok(
        self,
        c: CreateMetadata,
        name: String,
        symbol: String,
        image_url: String,
    ) -> bool {
        &&& c.metadata == self.metadata
        &&& c.mint == self.nft_mint
        &&& c.mint_authority == self.maker
        &&& c.payer == self.maker
        &&& c.update_authority == self.maker
        &&& self.metadata_data_ok(c.data, name, symbol, image_url)
        &&& c.is_mutable
        &&& c.update_authority_is_signer
        &&& c.collection_details is None
    }

    /// The master edition call of a listing: the NFT's master edition
    /// account is created for its mint and metadata, the maker being update
    /// authority, mint authority and payer, and no prints are allowed.
    pub open spec fn master_edition_ok(self, e: CreateMasterEdition) -> bool {
        e == CreateMasterEdition {
            edition: self.master_edition_account,
            mint: self.nft_mint,
            update_authority: self.maker,
            mint_authority: self.maker,
            payer: self.maker,
            metadata: self.metadata,
            max_supply: Some(0u64),
        }
    }

    /// The effects of a listing: one NFT minted to the maker, its metadata,
    /// its master edition without prints, and the NFT's deposit from the
    /// maker into the vault.
    pub open spec fn effects_ok(
        self,
        eff: MintAndListEffects,
        name: String,
        symbol: String,
        image_url: String,
    ) -> bool {
        &&& eff.mint == MintTokens {
            mint: self.nft_mint,
            to: self.maker_ata,
            authority: self.maker,
            amount: 1,
        }
        &&& self.metadata_ok(eff.metadata, name, symbol, image_url)
        &&& self.master_edition_ok(eff.master_edition)
        &&& eff.deposit.from == self.maker_ata
        &&& eff.deposit.to == self.vault
        &&& eff.deposit.authority == self.maker
        &&& eff.deposit.mint == self.nft_mint
        &&& eff.deposit.amount == 1
        &&& eff.deposit.decimals == self.nft_decimals
        &&& seeds_view(eff.deposit.signer_seeds) == Seq::<Seq<u8>>::empty()
    }

    /// The accounts after a listing at time `now`: the listing is active, at
    /// the given price, and belongs to the maker; the maker lists one more
    /// card.
    pub open spec fn listed(
        self,
        listing_price: u64,
        card_metadata: String,
        image_url: String,
        bumps: ListBumps,
        now: i64,
    ) -> List {
        List {
            user_account: UserAccount {
                nft_listed: (self.user_account.nft_listed + 1) as u64,
                ..self.user_account
            },
            listing: ListingAccount {
                owner: self.maker,
                nft_address: self.nft_mint,
                card_metadata,
                listing_price,
                status: ListingStatus::Active,
                created_at: now,
                image_url,
                bump: bumps.listing,
            },
            ..self
        }
    }

    /// Mints an NFT for a card and lists it at time `now`. The result holds
    /// the calls to make, in order, and how the instruction ends once they
    /// have succeeded (a failing call fails the instruction first, with that
    /// call's error). When the card metadata and the image URL do not fit
    /// together in the listing account, the listing cannot be written when
    /// the instruction ends: it fails with `AccountDidNotSerialize` and no
    /// account changes. Otherwise the accounts become `listed(..)`.
    pub fn mint_and_list(
        &mut self,
        name: String,
        symbol: String,
        listing_price: u64,
        card_metadata: String,
        image_url: String,
        bumps: &ListBumps,
        now: i64,
    ) -> (out: (MintAndListEffects, Result<(), InstructionError>))
        requires
            old(self).user_account.nft_listed < u64::MAX,
        ensures
            old(self).effects_ok(out.0, name, symbol, image_url),
            !listing_strings_fit(card_metadata, image_url) ==> out.1 == Err::<(), InstructionError>(
                InstructionError::AccountDidNotSerialize,
            ) && *final(self) == *old(self),
            listing_strings_fit(card_metadata, image_url) ==> out.1 is Ok && *final(self) == old(
                self,
            ).listed(listing_price, card_metadata, image_url, *bumps, now),
            listing_strings_fit(card_metadata, image_url) ==> {
                &&& final(self).listing.listing_price == listing_price
                &&& final(self).listing.owner == old(self).maker
                &&& final(self).listing.nft_address == old(self).nft_mint
                &&& final(self).listing.status == ListingStatus::Active
                &&& final(self).listing.created_at == now
                &&& final(self).listing.card_metadata@ == card_metadata@
                &&& final(self).listing.image_url@ == image_url@
                &&& final(self).listing.bump == bumps.listing
                &&& final(self).user_account.nft_listed == old(self).user_account.nft_listed + 1
            },
    {
        let fits = strings_fit(&card_metadata, &image_url);
        let mint = MintTokens {
            mint: self.nft_mint,
            to: self.maker_ata,
            authority: self.maker,
            amount: 1,
        };
        let mut creators: Vec<Creator> = Vec::new();
        creators.push(Creator { address: self.maker, verified: true, share: 100 });
        let data = NftMetadata {
            name,
            symbol,
            uri: image_url.clone(),
            seller_fee_basis_points: 0,
            creators,
            collection: Some(Collection { verified: false, key: self.collection_mint }),
            uses: None,
        };
        let metadata = CreateMetadata {
            metadata: self.metadata,
            mint: self.nft_mint,
            mint_authority: self.maker,
            payer: self.maker,
            update_authority: self.maker,
            data,
            is_mutable: true,
            update_authority_is_signer: true,
            collection_details: None,
        };
        let master_edition = CreateMasterEdition {
            edition: self.master_edition_account,
            mint: self.nft_mint,
            update_authority: self.maker,
            mint_authority: self.maker,
            payer: self.maker,
            metadata: self.metadata,
            max_supply: Some(0),
        };
        let listing = ListingAccount {
            owner: self.maker,
            nft_address: self.nft_mint,
            card_metadata,
            listing_price,
            status: ListingStatus::Active,
            created_at: now,
            image_url,
            bump: bumps.listing,
        };
        let deposit = TokenTransfer {
            from: self.maker_ata,
            to: self.vault,
            authority: self.maker,
            mint: self.nft_mint,
            amount: 1,
            decimals: self.nft_decimals,
            signer_seeds: Vec::new(),
        };
        proof {
            assert(creators@ =~= seq![Creator { address: self.maker, verified: true, share: 100 }]);
            assert(seeds_view(deposit.signer_seeds) =~= Seq::<Seq<u8>>::empty());
        }
        let effects = MintAndListEffects { mint, metadata, master_edition, deposit };
        if !fits {
            return (effects, Err(InstructionError::AccountDidNotSerialize));
        }
        self.listing = listing;
        self.user_account.nft_listed = self.user_account.nft_listed + 1;
        (effects, Ok(()))
    }
}

/// A listing records what the maker asked for: the price, for every price,
/// the card metadata, the image URL, the creation time and the bump; it is
/// active, it belongs to the maker and names the new NFT; the maker lists
/// exactly one card more, and nothing else of the maker's account changes.
pub proof fn lemma_listed_records_request(
    l: List,
    listing_price: u64,
    card_metadata: String,
    image_url: String,
    bumps: ListBumps,
    now: i64,
)
    requires
        l.user_account.nft_listed < u64::MAX,
    ensures
        ({
            let after = l.listed(listing_price, card_metadata, image_url, bumps, now);
            &&& after.listing.listing_price == listing_price
            &&& after.listing.owner == l.maker
            &&& after.listing.nft_address == l.nft_mint
            &&& after.listing.status == ListingStatus::Active
            &&& after.listing.created_at == now
            &&& after.listing.card_metadata == card_metadata
            &&& after.listing.image_url == image_url
            &&& after.listing.bump == bumps.listing
            &&& after.user_account.nft_listed == l.user_account.nft_listed + 1
            &&& after.user_account.nft_sold == l.user_account.nft_sold
            &&& after.user_account.nft_bought == l.user_account.nft_bought
            &&& after.user_account.authority == l.user_account.authority
            &&& after.maker == l.maker
            &&& after.nft_mint == l.nft_mint
        }),
{
}

/// Two listings that differ only in price record their two prices: the
/// listing keeps the price apart from every other price.
pub proof fn lemma_listed_price_injective(
    l: List,
    price: u64,
    other_price: u64,
    card_metadata: String,
    image_url: String,
    bumps: ListBumps,
    now: i64,
)
    requires
        l.listed(price, card_metadata, image_url, bumps, now).listing.listing_price == l.listed(
            other_price,
            card_metadata,
            image_url,
            bumps,
            now,
        ).listing.listing_price,
    ensures
        price == other_price,
{
}

} // verus!
