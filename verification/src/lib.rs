//! An owner-gated proposal registry with one vote per account.
//!
//! The ledger keeps an owner, the proposals created so far, and a record of
//! who has voted on what. Every operation receives the identity of its caller
//! from the boundary that invokes it.
//!
//! - [`ledger`] holds the ledger and its operations.
//! - [`rules`] holds the decisions that the operations make, free of any
//!   storage, for a host that keeps the state in a store of its own.
//! - [`model`] says what the ledger is and does, as mathematics, and
//!   [`history`] and [`laws`] what follows for every sequence of calls.

pub mod account;
pub mod error;
pub mod event;
pub mod history;
pub mod laws;
pub mod ledger;
pub mod model;
pub mod proposal;
pub mod rules;

pub use account::AccountId;
pub use error::Error;
pub use event::{Event, ProposalCreated, VoteCast};
pub use ledger::Votaciones;
pub use proposal::Proposal;
pub use rules::{cast_vote, open_proposal, read_proposal};
