//! The artifact: its traits, its document, its image, its uploads, its
//! identity, and the job that mints it.

pub mod art;
pub mod arweave;
pub mod config;
pub mod draw;
pub mod identity;
pub mod metadata;
pub mod mint;
pub mod predicate;
pub mod rarity;
pub mod selector;
pub mod table;
