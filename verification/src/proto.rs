//! The wire records, as the transport layer hands them over.

use vstd::prelude::*;

pub mod message_metadata;

verus! {

/// A message identifier as raw bytes, which nothing has validated yet.
#[derive(Debug, PartialEq, Eq)]
pub struct RawMessageId {
    pub id: Vec<u8>,
}

impl View for RawMessageId {
    type V = Seq<u8>;

    open spec fn view(&self) -> Seq<u8> {
        self.id@
    }
}

/// What a node reports of one message, before anything in it has been checked.
#[derive(Debug, PartialEq, Eq)]
pub struct MessageMetadata {
    /// The identifier of the message. A record is free to leave it out.
    pub message_id: Option<RawMessageId>,
    /// The identifiers of the message's parents, in the order of the wire.
    pub parents: Vec<RawMessageId>,
    pub solid: bool,
    pub should_promote: bool,
    pub should_reattach: bool,
    pub referenced_by_milestone_index: u32,
    pub milestone_index: u32,
    pub ledger_inclusion_state: message_metadata::LedgerInclusionState,
    pub conflict_reason: message_metadata::ConflictReason,
}

/// A wire record as plain values: every identifier is the sequence of its bytes.
pub struct MessageMetadataView {
    pub message_id: Option<Seq<u8>>,
    pub parents: Seq<Seq<u8>>,
    pub solid: bool,
    pub should_promote: bool,
    pub should_reattach: bool,
    pub referenced_by_milestone_index: u32,
    pub milestone_index: u32,
    pub ledger_inclusion_state: message_metadata::LedgerInclusionState,
    pub conflict_reason: message_metadata::ConflictReason,
}

impl View for MessageMetadata {
    type V = MessageMetadataView;

    open spec fn view(&self) -> MessageMetadataView {
        MessageMetadataView {
            message_id: match self.message_id {
                Some(id) => Some(id@),
                None => None,
            },
            parents: Seq::new(self.parents@.len(), |i: int| self.parents@[i]@),
            solid: self.solid,
            should_promote: self.should_promote,
            should_reattach: self.should_reattach,
            referenced_by_milestone_index: self.referenced_by_milestone_index,
            milestone_index: self.milestone_index,
            ledger_inclusion_state: self.ledger_inclusion_state,
            conflict_reason: self.conflict_reason,
        }
    }
}

} // verus!
