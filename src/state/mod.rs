//! The persisted records.
pub mod platform;
pub mod nft_meta;
pub mod user;
