//! Price-gated locked-token vaults and the factory that provisions them.

pub mod factory;
pub mod metadata;
pub mod price;
pub mod store;
pub mod text;
pub mod vault;
