use cda_runtime_update::lifecycle::state::{
    CommunicationOperationFailure, CommunicationState, CommunicationStateData,
};

#[test]
fn fresh_state_data_is_idle() {
    let data = CommunicationStateData::new(CommunicationState::Disabled);

    assert_eq!(data.state, CommunicationState::Disabled);
    assert!(data.active_guards.is_empty());
    assert!(data.disable_owner.is_none());
    assert!(data.activation_result.is_none());
    assert!(!data.shutting_down);
}

#[test]
fn fresh_state_data_keeps_initial_error() {
    let failure = CommunicationOperationFailure {
        reason: "transport refused".to_owned(),
    };
    let data = CommunicationStateData::new(CommunicationState::Error(failure.clone()));

    assert_eq!(data.state, CommunicationState::Error(failure));
    assert!(!data.shutting_down);
}
