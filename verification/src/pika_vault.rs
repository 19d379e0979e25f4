//! Pika Vault: a marketplace for real-world collectibles. A seller mints an
//! NFT for a card and lists it; a buyer pays into an escrow; the escrow is
//! released to the seller or refunded to the buyer.
pub mod error;
pub mod instructions;
pub mod laws;
pub mod state;
