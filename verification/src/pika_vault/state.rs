//! The accounts of the Pika Vault program.
use vstd::prelude::*;

use crate::address::Address;

verus! {

/// The marketplace, created by its admin.
#[derive(Clone, Copy, Debug)]
pub struct MarketPlace {
    pub authority: Address,
    pub fee: u16,
    pub bump: u8,
    pub treasury_bump: u8,
}

/// What a registered user has done on the marketplace.
#[derive(Clone, Copy, Debug)]
pub struct UserAccount {
    pub authority: Address,
    pub bump: u8,
    pub nft_sold: u64,
    pub nft_bought: u64,
    pub nft_listed: u64,
    pub created_at: i64,
}

/// The state of a listing.
#[derive(PartialEq, Eq, Structural, Clone, Copy, Debug)]
pub enum ListingStatus {
    Active,
    Sold,
    Unlisted,
}

/// A card offered for sale, with the NFT that stands for it.
#[derive(Clone, Debug)]
pub struct ListingAccount {
    pub owner: Address,
    pub nft_address: Address,
    /// At most `CARD_METADATA_MAX_LEN` bytes are reserved for it.
    pub card_metadata: String,
    pub listing_price: u64,
    pub status: ListingStatus,
    pub created_at: i64,
    /// An IPFS hash; at most `IMAGE_URL_MAX_LEN` bytes are reserved for it.
    pub image_url: String,
    pub bump: u8,
}

/// The funds of a sale, held until the card reaches the buyer.
#[derive(Clone, Copy, Debug)]
pub struct Escrow {
    pub seller: Address,
    pub buyer: Address,
    pub bump: u8,
    pub nft_mint: Address,
    pub sale_amount: u64,
    pub locked_amount: u64,
    pub timestamp: i64,
}

/// Bytes reserved for a listing's card metadata.
pub const CARD_METADATA_MAX_LEN: usize = 50;

/// Bytes reserved for a listing's image URL.
pub const IMAGE_URL_MAX_LEN: usize = 46;

/// Bytes of a serialized listing that do not depend on its strings: two
/// addresses, the two 4-byte string lengths, the price, the status byte,
/// the creation time and the bump.
pub const LISTING_FIXED_LEN: usize = 90;

/// Bytes of a listing account's data after its 8-byte discriminator.
pub const LISTING_INIT_SPACE: usize = LISTING_FIXED_LEN + CARD_METADATA_MAX_LEN + IMAGE_URL_MAX_LEN;

/// The number of bytes of the UTF-8 encoding of `s`.
pub open spec fn utf8_len(s: String) -> nat {
    vstd::utf8::encode_utf8(s@).len()
}

/// Whether a listing with these strings fits in its account when
/// serialized. The two strings share the room that is reserved for them.
pub open spec fn listing_strings_fit(card_metadata: String, image_url: String) -> bool {
    LISTING_FIXED_LEN + utf8_len(card_metadata) + utf8_len(image_url) <= LISTING_INIT_SPACE
}

/// Whether strings of these byte lengths fit together in a listing account.
pub fn strings_fit(card_metadata: &String, image_url: &String) -> (b: bool)
    ensures
        b == listing_strings_fit(*card_metadata, *image_url),
{
    let cm: usize = card_metadata.as_str().as_bytes().len();
    let iu: usize = image_url.as_str().as_bytes().len();
    let room: usize = LISTING_INIT_SPACE - LISTING_FIXED_LEN;
    cm <= room && iu <= room - cm
}

} // verus!
