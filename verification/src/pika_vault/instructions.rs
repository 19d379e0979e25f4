//! The instruction handlers of the Pika Vault program.
pub mod delist;
pub mod initialize;
pub mod list;
pub mod purchase;
pub mod refund;
pub mod register_user;
