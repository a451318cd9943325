use inx::proto::message_metadata as wire;
use inx::{ConflictReason, LedgerInclusionState};

#[test]
fn ledger_inclusion_state_no_transaction() {
    assert_eq!(
        LedgerInclusionState::from(wire::LedgerInclusionState::NoTransaction),
        LedgerInclusionState::NoTransaction
    );
}

#[test]
fn ledger_inclusion_state_included() {
    assert_eq!(
        LedgerInclusionState::from(wire::LedgerInclusionState::Included),
        LedgerInclusionState::Included
    );
}

#[test]
fn ledger_inclusion_state_conflicting() {
    assert_eq!(
        LedgerInclusionState::from(wire::LedgerInclusionState::Conflicting),
        LedgerInclusionState::Conflicting
    );
}

#[test]
fn ledger_inclusion_state_codes_give_distinct_states() {
    let codes = [
        wire::LedgerInclusionState::NoTransaction,
        wire::LedgerInclusionState::Included,
        wire::LedgerInclusionState::Conflicting,
    ];
    for (i, a) in codes.iter().enumerate() {
        for (j, b) in codes.iter().enumerate() {
            assert_eq!(LedgerInclusionState::from(*a) == LedgerInclusionState::from(*b), i == j);
        }
    }
}

#[test]
fn every_ledger_inclusion_state_has_a_code() {
    let codes = [
        wire::LedgerInclusionState::NoTransaction,
        wire::LedgerInclusionState::Included,
        wire::LedgerInclusionState::Conflicting,
    ];
    let states = [
        LedgerInclusionState::NoTransaction,
        LedgerInclusionState::Included,
        LedgerInclusionState::Conflicting,
    ];
    for state in states {
        assert!(codes.iter().any(|code| LedgerInclusionState::from(*code) == state));
    }
}

#[test]
fn ledger_inclusion_state_into() {
    let state: LedgerInclusionState = wire::LedgerInclusionState::Included.into();
    assert_eq!(state, LedgerInclusionState::Included);
}

#[test]
fn conflict_reason_no_conflict() {
    assert_eq!(ConflictReason::from(wire::ConflictReason::NoConflict), ConflictReason::NoConflict);
}

#[test]
fn conflict_reason_input_already_spent() {
    assert_eq!(
        ConflictReason::from(wire::ConflictReason::InputAlreadySpent),
        ConflictReason::InputAlreadySpent
    );
}

#[test]
fn conflict_reason_input_already_spent_in_this_milestone() {
    assert_eq!(
        ConflictReason::from(wire::ConflictReason::InputAlreadySpentInThisMilestone),
        ConflictReason::InputAlreadySpentInThisMilestone
    );
}

#[test]
fn conflict_reason_input_not_found() {
    assert_eq!(ConflictReason::from(wire::ConflictReason::InputNotFound), ConflictReason::InputNotFound);
}

#[test]
fn conflict_reason_input_output_sum_mismatch() {
    assert_eq!(
        ConflictReason::from(wire::ConflictReason::InputOutputSumMismatch),
        ConflictReason::InputOutputSumMismatch
    );
}

#[test]
fn conflict_reason_invalid_signature() {
    assert_eq!(ConflictReason::from(wire::ConflictReason::InvalidSignature), ConflictReason::InvalidSignature);
}

#[test]
fn conflict_reason_semantic_validation_failed() {
    assert_eq!(
        ConflictReason::from(wire::ConflictReason::SemanticValidationFailed),
        ConflictReason::SemanticValidationFailed
    );
}

fn conflict_reason_codes() -> [wire::ConflictReason; 7] {
    [
        wire::ConflictReason::NoConflict,
        wire::ConflictReason::InputAlreadySpent,
        wire::ConflictReason::InputAlreadySpentInThisMilestone,
        wire::ConflictReason::InputNotFound,
        wire::ConflictReason::InputOutputSumMismatch,
        wire::ConflictReason::InvalidSignature,
        wire::ConflictReason::SemanticValidationFailed,
    ]
}

#[test]
fn conflict_reason_codes_give_distinct_reasons() {
    let codes = conflict_reason_codes();
    for (i, a) in codes.iter().enumerate() {
        for (j, b) in codes.iter().enumerate() {
            assert_eq!(ConflictReason::from(*a) == ConflictReason::from(*b), i == j);
        }
    }
}

#[test]
fn every_conflict_reason_but_invalid_network_id_has_a_code() {
    let codes = conflict_reason_codes();
    let reasons = [
        ConflictReason::NoConflict,
        ConflictReason::InputAlreadySpent,
        ConflictReason::InputAlreadySpentInThisMilestone,
        ConflictReason::InputNotFound,
        ConflictReason::InputOutputSumMismatch,
        ConflictReason::InvalidSignature,
        ConflictReason::SemanticValidationFailed,
    ];
    for reason in reasons {
        assert!(codes.iter().any(|code| ConflictReason::from(*code) == reason));
    }
}

#[test]
fn no_code_gives_invalid_network_id() {
    for code in conflict_reason_codes() {
        assert_ne!(ConflictReason::from(code), ConflictReason::InvalidNetworkId);
    }
}
