//! Genesis and chain configurations of the Catena relay chain.

pub mod chain;
pub mod error;
pub mod genesis;
pub mod keys;
pub mod laws;
