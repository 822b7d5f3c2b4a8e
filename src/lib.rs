//! Account providers: a record model with an open extension map, a keyed
//! single-slot account store over a JSON key-value bridge, and a registry of
//! named providers.

pub mod keys;
pub mod record;
pub mod store;
pub mod registry;
pub mod provider;

pub use record::AccountRecord;
pub use registry::Registry;
pub use store::{AccountStore, StoreError};
