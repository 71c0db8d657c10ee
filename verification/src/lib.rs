//! Minting of generative artifacts: the deterministic selection of traits
//! from a catalog, the document that describes an artifact, the plan of its
//! image, what is sent to the storage network and how its answers are read,
//! the identity that binds an address to the published content, and the job
//! that takes an artifact through these steps.
//!
//! Nothing here reads a file, talks to a network or waits: the library takes
//! plain values and gives plain values, and says in its contracts what they
//! are.

pub mod codec;
pub mod config;
pub mod configuration;
pub mod json;
pub mod nft;
pub mod text;
