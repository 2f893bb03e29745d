//! A registry of users, research assets and governance proposals, kept in
//! byte tables of stable memory and verified with Verus.
//!
//! [`registry::Registry`] holds the tables and offers the operations.
//! [`model`] says what each operation does, as a function on a mathematical
//! state; [`consistency`] says what holds of every state and proves that the
//! operations keep it; [`laws`] proves what holds over several calls.
//! The other modules say how records become bytes and back.
//!
//! What is believed and not proved: the contracts of the table operations in
//! [`store`], that of `String::from_utf8` in [`fields`], and those of
//! `str::to_lowercase` and `str::contains` in [`search`].

pub mod codec;
pub mod consistency;
pub mod fields;
pub mod framing;
pub mod identity;
pub mod laws;
pub mod ledger;
pub mod lists;
pub mod model;
pub mod records;
pub mod registry;
pub mod search;
pub mod store;
pub mod tables;
pub mod types;

pub use identity::{StorablePrincipal, StorableVecU64};
pub use registry::Registry;
pub use types::{
    CreateProposalRequest, CreateUserRequest, Error, ItemMetadata, License, MintRequest,
    PlatformStats, Proposal, ProposalStatus, ProposalType, ResearchMetadata, ResearchNFT,
    ResearchType, StoredItem, UserProfile, Vote,
};
