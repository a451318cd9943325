//! Message metadata, and what a wire record has to hold to become one.

use super::error::Error;
use super::message_id::{is_message_id, message_id_bytes};
use crate::proto;
use bee_message::MessageId;
use vstd::prelude::*;
use vstd::std_specs::convert::{FromSpecImpl, TryFromSpecImpl};

verus! {

/// Whether a message's payload was applied to the ledger, conflicted with it, or
/// carried no transaction at all.
#[derive(Clone, Copy, Debug, PartialEq, Eq, Structural)]
pub enum LedgerInclusionState {
    NoTransaction,
    Included,
    Conflicting,
}

impl From<proto::message_metadata::LedgerInclusionState> for LedgerInclusionState {
    fn from(value: proto::message_metadata::LedgerInclusionState) -> (state: Self)
        ensures
            state == Self::of_code(value),
    {
        match value {
            proto::message_metadata::LedgerInclusionState::NoTransaction => LedgerInclusionState::NoTransaction,
            proto::message_metadata::LedgerInclusionState::Included => LedgerInclusionState::Included,
            proto::message_metadata::LedgerInclusionState::Conflicting => LedgerInclusionState::Conflicting,
        }
    }
}

impl FromSpecImpl<proto::message_metadata::LedgerInclusionState> for LedgerInclusionState {
    open spec fn obeys_from_spec() -> bool {
        true
    }

    open spec fn from_spec(value: proto::message_metadata::LedgerInclusionState) -> Self {
        Self::of_code(value)
    }
}

impl LedgerInclusionState {
    /// The state that a wire code stands for.
    pub open spec fn of_code(code: proto::message_metadata::LedgerInclusionState) -> Self {
        match code {
            proto::message_metadata::LedgerInclusionState::NoTransaction => LedgerInclusionState::NoTransaction,
            proto::message_metadata::LedgerInclusionState::Included => LedgerInclusionState::Included,
            proto::message_metadata::LedgerInclusionState::Conflicting => LedgerInclusionState::Conflicting,
        }
    }

    /// Wire codes and ledger inclusion states match one to one: two codes that
    /// stand for the same state are the same code, and every state has a code.
    pub proof fn codes_match_one_to_one(
        first: proto::message_metadata::LedgerInclusionState,
        second: proto::message_metadata::LedgerInclusionState,
        state: LedgerInclusionState,
    )
        ensures
            Self::of_code(first) == Self::of_code(second) ==> first == second,
            exists|code: proto::message_metadata::LedgerInclusionState| Self::of_code(code) == state,
    {
        let code = match state {
            LedgerInclusionState::NoTransaction => proto::message_metadata::LedgerInclusionState::NoTransaction,
            LedgerInclusionState::Included => proto::message_metadata::LedgerInclusionState::Included,
            LedgerInclusionState::Conflicting => proto::message_metadata::LedgerInclusionState::Conflicting,
        };
        assert(Self::of_code(code) == state);
    }
}

/// The reason why a message was kept out of the ledger state.
#[derive(Clone, Copy, Debug, PartialEq, Eq, Structural)]
pub enum ConflictReason {
    /// The message does not conflict.
    NoConflict,
    InputAlreadySpent,
    InputAlreadySpentInThisMilestone,
    InputNotFound,
    InputOutputSumMismatch,
    InvalidSignature,
    InvalidNetworkId,
    SemanticValidationFailed,
}

impl From<proto::message_metadata::ConflictReason> for ConflictReason {
    fn from(value: proto::message_metadata::ConflictReason) -> (reason: Self)
        ensures
            reason == Self::of_code(value),
    {
        match value {
            proto::message_metadata::ConflictReason::NoConflict => ConflictReason::NoConflict,
            proto::message_metadata::ConflictReason::InputAlreadySpent => ConflictReason::InputAlreadySpent,
            proto::message_metadata::ConflictReason::InputAlreadySpentInThisMilestone => {
                ConflictReason::InputAlreadySpentInThisMilestone
            },
            proto::message_metadata::ConflictReason::InputNotFound => ConflictReason::InputNotFound,
            proto::message_metadata::ConflictReason::InputOutputSumMismatch => ConflictReason::InputOutputSumMismatch,
            proto::message_metadata::ConflictReason::InvalidSignature => ConflictReason::InvalidSignature,
            proto::message_metadata::ConflictReason::SemanticValidationFailed => {
                ConflictReason::SemanticValidationFailed
            },
        }
    }
}

impl FromSpecImpl<proto::message_metadata::ConflictReason> for ConflictReason {
    open spec fn obeys_from_spec() -> bool {
        true
    }

    open spec fn from_spec(value: proto::message_metadata::ConflictReason) -> Self {
        Self::of_code(value)
    }
}

impl ConflictReason {
    /// The reason that a wire code stands for.
    pub open spec fn of_code(code: proto::message_metadata::ConflictReason) -> Self {
        match code {
            proto::message_metadata::ConflictReason::NoConflict => ConflictReason::NoConflict,
            proto::message_metadata::ConflictReason::InputAlreadySpent => ConflictReason::InputAlreadySpent,
            proto::message_metadata::ConflictReason::InputAlreadySpentInThisMilestone => {
                ConflictReason::InputAlreadySpentInThisMilestone
            },
            proto::message_metadata::ConflictReason::InputNotFound => ConflictReason::InputNotFound,
            proto::message_metadata::ConflictReason::InputOutputSumMismatch => ConflictReason::InputOutputSumMismatch,
            proto::message_metadata::ConflictReason::InvalidSignature => ConflictReason::InvalidSignature,
            proto::message_metadata::ConflictReason::SemanticValidationFailed => {
                ConflictReason::SemanticValidationFailed
            },
        }
    }

    /// Two wire codes that stand for the same conflict reason are the same code.
    pub proof fn codes_are_told_apart(
        first: proto::message_metadata::ConflictReason,
        second: proto::message_metadata::ConflictReason,
    )
        ensures
            Self::of_code(first) == Self::of_code(second) ==> first == second,
    {
    }

    /// Every conflict reason but `InvalidNetworkId` has a wire code.
    pub proof fn reason_has_code(reason: ConflictReason)
        requires
            reason != ConflictReason::InvalidNetworkId,
        ensures
            exists|code: proto::message_metadata::ConflictReason| Self::of_code(code) == reason,
    {
        let code = match reason {
            ConflictReason::NoConflict => proto::message_metadata::ConflictReason::NoConflict,
            ConflictReason::InputAlreadySpent => proto::message_metadata::ConflictReason::InputAlreadySpent,
            ConflictReason::InputAlreadySpentInThisMilestone => {
                proto::message_metadata::ConflictReason::InputAlreadySpentInThisMilestone
            },
            ConflictReason::InputNotFound => proto::message_metadata::ConflictReason::InputNotFound,
            ConflictReason::InputOutputSumMismatch => proto::message_metadata::ConflictReason::InputOutputSumMismatch,
            ConflictReason::InvalidSignature => proto::message_metadata::ConflictReason::InvalidSignature,
            _ => proto::message_metadata::ConflictReason::SemanticValidationFailed,
        };
        assert(Self::of_code(code) == reason);
    }

    /// No wire code stands for `InvalidNetworkId`.
    pub proof fn invalid_network_id_has_no_code(code: proto::message_metadata::ConflictReason)
        ensures
            Self::of_code(code) != ConflictReason::InvalidNetworkId,
    {
    }
}

/// The metadata of the message with a given `MessageId`.
#[derive(Debug, PartialEq)]
pub struct MessageMetadata {
    /// The id of the message.
    pub message_id: MessageId,
    /// The parents of the message, in the order in which the node gave them.
    pub parents: Vec<MessageId>,
    /// Whether the message has passed solidification.
    pub is_solid: bool,
    /// Advice that the message should be promoted.
    pub should_promote: bool,
    /// Advice that the message should be reattached.
    pub should_reattach: bool,
    /// The index of the milestone that referenced the message.
    pub referenced_by_milestone_index: u32,
    /// The index of the milestone that the message is, if it is one.
    pub milestone_index: u32,
    /// Whether the message is part of the ledger state.
    pub ledger_inclusion_state: LedgerInclusionState,
    /// Whether a conflict occurred, and if so, why.
    pub conflict_reason: ConflictReason,
}

/// Message metadata as plain values: every identifier is the sequence of its bytes.
pub struct MessageMetadataView {
    pub message_id: Seq<u8>,
    pub parents: Seq<Seq<u8>>,
    pub is_solid: bool,
    pub should_promote: bool,
    pub should_reattach: bool,
    pub referenced_by_milestone_index: u32,
    pub milestone_index: u32,
    pub ledger_inclusion_state: LedgerInclusionState,
    pub conflict_reason: ConflictReason,
}

impl View for MessageMetadata {
    type V = MessageMetadataView;

    open spec fn view(&self) -> MessageMetadataView {
        MessageMetadataView {
            message_id: message_id_bytes(self.message_id),
            parents: Seq::new(self.parents@.len(), |i: int| message_id_bytes(self.parents@[i])),
            is_solid: self.is_solid,
            should_promote: self.should_promote,
            should_reattach: self.should_reattach,
            referenced_by_milestone_index: self.referenced_by_milestone_index,
            milestone_index: self.milestone_index,
            ledger_inclusion_state: self.ledger_inclusion_state,
            conflict_reason: self.conflict_reason,
        }
    }
}

/// Whether every one of the given identifiers is valid.
pub open spec fn all_message_ids(ids: Seq<Seq<u8>>) -> bool {
    forall|i: int| 0 <= i < ids.len() ==> is_message_id(#[trigger] ids[i])
}

/// What a wire record translates to.
///
/// A record without a message identifier is turned down for that, whatever else
/// it holds. Otherwise every identifier has to be valid, and the metadata then has
/// the identifiers and scalar fields of the record as they are, the parents in the
/// order of the record, and the two codes mapped to their typed variants.
pub open spec fn translate(wire: proto::MessageMetadataView) -> Result<MessageMetadataView, Error> {
    match wire.message_id {
        None => Err(Error::MissingField("message_id")),
        Some(message_id) => if is_message_id(message_id) && all_message_ids(wire.parents) {
            Ok(
                MessageMetadataView {
                    message_id,
                    parents: wire.parents,
                    is_solid: wire.solid,
                    should_promote: wire.should_promote,
                    should_reattach: wire.should_reattach,
                    referenced_by_milestone_index: wire.referenced_by_milestone_index,
                    milestone_index: wire.milestone_index,
                    ledger_inclusion_state: LedgerInclusionState::of_code(wire.ledger_inclusion_state),
                    conflict_reason: ConflictReason::of_code(wire.conflict_reason),
                },
            )
        } else {
            Err(Error::InvalidIdentifier)
        },
    }
}

/// The outcome of a translation as plain values.
pub open spec fn outcome(result: Result<MessageMetadata, Error>) -> Result<MessageMetadataView, Error> {
    match result {
        Ok(metadata) => Ok(metadata@),
        Err(error) => Err(error),
    }
}

impl TryFrom<proto::MessageMetadata> for MessageMetadata {
    type Error = Error;

    /// Translates a wire record, or says what is wrong with it: the outcome is
    /// the one that `translate` gives for the contents of the record.
    fn try_from(value: proto::MessageMetadata) -> (result: Result<Self, Self::Error>)
        ensures
            outcome(result) == translate(value@),
    {
        let ledger_inclusion_state = LedgerInclusionState::from(value.ledger_inclusion_state);
        let conflict_reason = ConflictReason::from(value.conflict_reason);

        let message_id = match value.message_id {
            Some(id) => match MessageId::try_from(id) {
                Ok(id) => id,
                Err(error) => return Err(error),
            },
            None => return Err(Error::MissingField("message_id")),
        };

        let mut parents: Vec<MessageId> = Vec::with_capacity(value.parents.len());
        for parent in iter: value.parents
            invariant
                iter.seq() == value.parents@,
                value.message_id matches Some(id) && is_message_id(id@),
                parents@.len() == iter.index(),
                forall|i: int| 0 <= i < iter.index() ==> is_message_id(#[trigger] iter.seq()[i]@),
                forall|i: int| 0 <= i < iter.index() ==> message_id_bytes(#[trigger] parents@[i]) == iter.seq()[i]@,
        {
            match MessageId::try_from(parent) {
                Ok(id) => parents.push(id),
                Err(error) => {
                    assert(!is_message_id(value@.parents[iter.index()]));
                    return Err(error);
                },
            }
        }

        let metadata = MessageMetadata {
            message_id,
            parents,
            is_solid: value.solid,
            should_promote: value.should_promote,
            should_reattach: value.should_reattach,
            referenced_by_milestone_index: value.referenced_by_milestone_index,
            milestone_index: value.milestone_index,
            ledger_inclusion_state,
            conflict_reason,
        };
        assert(all_message_ids(value@.parents));
        assert(metadata@.parents =~= value@.parents);
        Ok(metadata)
    }
}

/// Metadata is known here by its view, so what `try_from` returns is stated in its
/// own contract, over the view, and not as a value.
impl TryFromSpecImpl<proto::MessageMetadata> for MessageMetadata {
    open spec fn obeys_try_from_spec() -> bool {
        false
    }

    open spec fn try_from_spec(value: proto::MessageMetadata) -> Result<Self, Self::Error> {
        arbitrary()
    }
}

/// A record without a message identifier is turned down for the missing field,
/// whatever its other fields hold.
pub proof fn missing_message_id_is_reported(wire: proto::MessageMetadataView)
    requires
        wire.message_id is None,
    ensures
        translate(wire) == Err::<MessageMetadataView, Error>(Error::MissingField("message_id")),
{
}

/// A record with a valid message identifier and no parents translates, and the
/// metadata has no parents either.
pub proof fn no_parents_is_no_error(wire: proto::MessageMetadataView)
    requires
        wire.message_id matches Some(id) && is_message_id(id),
        wire.parents.len() == 0,
    ensures
        translate(wire) matches Ok(metadata) && metadata.parents.len() == 0,
{
}

/// Where every identifier of a record is valid, the record translates: the
/// metadata has as many parents as the record, each holds the bytes of the parent
/// at its place in the record, and the message identifier holds the bytes of the
/// record's.
pub proof fn valid_identifiers_keep_their_order(wire: proto::MessageMetadataView)
    requires
        wire.message_id matches Some(id) && is_message_id(id),
        all_message_ids(wire.parents),
    ensures
        translate(wire) matches Ok(metadata) && {
            &&& Some(metadata.message_id) == wire.message_id
            &&& metadata.parents.len() == wire.parents.len()
            &&& forall|i: int| 0 <= i < wire.parents.len() ==> metadata.parents[i] == wire.parents[i]
        },
{
}

/// One invalid parent is enough to turn a record down, whatever the parents after
/// it hold. The record has a message identifier: without one, it is the missing
/// field that is reported.
pub proof fn invalid_parent_is_reported(wire: proto::MessageMetadataView, k: int)
    requires
        wire.message_id is Some,
        0 <= k < wire.parents.len(),
        !is_message_id(wire.parents[k]),
    ensures
        translate(wire) == Err::<MessageMetadataView, Error>(Error::InvalidIdentifier),
{
}

/// A record translates exactly if it has a message identifier and all its
/// identifiers are valid, and the metadata then holds valid identifiers only.
pub proof fn translation_is_all_or_nothing(wire: proto::MessageMetadataView)
    ensures
        translate(wire) is Ok <==> (wire.message_id matches Some(id) && is_message_id(id)
            && all_message_ids(wire.parents)),
        translate(wire) matches Ok(metadata) ==> is_message_id(metadata.message_id)
            && all_message_ids(metadata.parents),
{
}

/// The scalar fields of a record that translates come out as they went in.
pub proof fn scalars_are_copied(wire: proto::MessageMetadataView)
    requires
        translate(wire) is Ok,
    ensures
        translate(wire) matches Ok(metadata) && {
            &&& metadata.is_solid == wire.solid
            &&& metadata.should_promote == wire.should_promote
            &&& metadata.should_reattach == wire.should_reattach
            &&& metadata.referenced_by_milestone_index == wire.referenced_by_milestone_index
            &&& metadata.milestone_index == wire.milestone_index
        },
{
}

/// Translation depends on nothing but the record: whatever two translations of
/// records with the same contents return, the two outcomes are equal field for
/// field.
pub proof fn translation_is_repeatable(
    first_wire: proto::MessageMetadata,
    second_wire: proto::MessageMetadata,
    first: Result<MessageMetadata, Error>,
    second: Result<MessageMetadata, Error>,
)
    requires
        first_wire@ == second_wire@,
        call_ensures(MessageMetadata::try_from, (first_wire,), first),
        call_ensures(MessageMetadata::try_from, (second_wire,), second),
    ensures
        outcome(first) == outcome(second),
{
}

} // verus!
