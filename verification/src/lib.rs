//! A registry of reputation tokens: who owns which token, what each token
//! says, who may mint and who administers the minters.
//!
//! The registry is a value. Every operation takes the identity that the host
//! has authenticated, changes the registry or leaves it untouched, and records
//! the notifications that the host is to publish.

pub mod types;
pub mod model;
pub mod access;
pub mod registry;
pub mod metadata;
pub mod events;
pub mod contract;
pub mod laws;

pub use access::{check_owner, AccessControl};
pub use contract::ReputationNFTContract;
pub use events::EventLog;
pub use metadata::{achievement_record, MetadataStore};
pub use registry::TokenRegistry;
pub use types::{Address, AddressKind, Error, Event, Metadata, TokenId};
