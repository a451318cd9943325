//! The typed values that the rest of a client works with.

pub mod error;
pub mod message_id;
pub mod metadata;

pub use self::error::Error;
pub use self::message_id::{is_message_id, message_id_bytes, MESSAGE_ID_LENGTH};
pub use self::metadata::{
    all_message_ids, outcome, translate, ConflictReason, LedgerInclusionState, MessageMetadata,
    MessageMetadataView,
};
