//! Typed views of the message metadata that a node reports.
//!
//! A node describes a message with a wire record ([`proto::MessageMetadata`]).
//! The [`types`] module turns such a record into a validated
//! [`MessageMetadata`], or says why it cannot.

pub mod proto;
pub mod types;

pub use types::{ConflictReason, Error, LedgerInclusionState, MessageMetadata};
