//! Authoritative lifecycle state tracking for the communication framework.

use std::collections::HashSet;
use vstd::prelude::*;

verus! {

/// Declares `tokio::sync::watch::Receiver` to Verus as an opaque type.
/// Nothing is claimed of its values: the lifecycle data only holds one.
#[verifier::external_type_specification]
#[verifier::external_body]
#[verifier::reject_recursive_types(T)]
pub struct ExWatchReceiver<T>(tokio::sync::watch::Receiver<T>);

/// Why a communication lifecycle operation failed.
#[derive(Debug, Clone, PartialEq, Eq)]
pub struct CommunicationOperationFailure {
    /// What went wrong.
    pub reason: String,
}

/// Identifies a communication guard that currently holds communication enabled.
#[derive(Debug, Clone, Copy, PartialEq, Eq, Hash)]
pub struct CommunicationGuardId(pub u64);

/// Identifies the lease that owns communication while it is exclusively disabled.
#[derive(Debug, Clone, Copy, PartialEq, Eq, Hash)]
pub struct DisableLeaseId(pub u64);

/// Authoritative communication lifecycle state.
///
/// This type retains the structured failure in [`CommunicationState::Error`].
/// Use it when callers need the complete current state or failure details.
#[derive(Debug, Clone, PartialEq, Eq)]
pub enum CommunicationState {
    /// Communication has not been enabled, the state is not owned and can be enabled by anyone.
    Disabled,
    /// Transport enablement or initialization is in progress.
    Enabling,
    /// Transport is enabled and all initializers have completed.
    Enabled,
    /// Transport disablement is in progress.
    Disabling,
    /// Transport is physically disabled and exclusively owned by a `DisableLease`.
    DisabledExclusive,
    /// The latest lifecycle operation failed.
    Error(CommunicationOperationFailure),
}

/// Slot carrying the eventual outcome of an in-flight activation-shaped
/// operation: `None` while it is still running, `Some` once it finalizes.
pub type ActivationResultReceiver = tokio::sync::watch::Receiver<
    Option<Result<CommunicationState, CommunicationOperationFailure>>,
>;

/// State that must change atomically during communication lifecycle transitions.
pub struct CommunicationStateData {
    /// The current lifecycle state.
    pub state: CommunicationState,
    /// Guards currently holding communication enabled.
    pub active_guards: HashSet<CommunicationGuardId>,
    /// The lease owning communication while it is exclusively disabled.
    pub disable_owner: Option<DisableLeaseId>,
    /// Set while an activation-shaped operation is in flight, so that
    /// concurrent callers join it instead of racing to claim the transition.
    pub activation_result: Option<ActivationResultReceiver>,
    /// Permanent tombstone set when shutdown begins; never cleared, so that
    /// no task racing shutdown can publish a state after the final one.
    pub shutting_down: bool,
}

/// Lifecycle data just created in state `initial`: no active guards, no
/// disable owner, no activation in flight, not shutting down.
pub open spec fn fresh_state_data(data: CommunicationStateData, initial: CommunicationState) -> bool {
    &&& data.state == initial
    &&& data.active_guards@ == Set::<CommunicationGuardId>::empty()
    &&& data.disable_owner is None
    &&& data.activation_result is None
    &&& !data.shutting_down
}

/// Fresh lifecycle data is in the state it was created with, holds no guard
/// and no owner, has no activation in flight and is not shutting down.
pub proof fn law_fresh_state_data(data: CommunicationStateData, initial: CommunicationState)
    requires
        fresh_state_data(data, initial),
    ensures
        data.state == initial,
        data.active_guards@.len() == 0,
        forall|guard: CommunicationGuardId| !data.active_guards@.contains(guard),
        data.disable_owner is None,
        data.activation_result is None,
        data.shutting_down == false,
{
}

impl CommunicationStateData {
    /// Fresh lifecycle data in state `initial`: no active guards, no disable
    /// owner, no activation in flight, not shutting down.
    pub fn new(initial: CommunicationState) -> (data: Self)
        ensures
            fresh_state_data(data, initial),
    {
        CommunicationStateData {
            state: initial,
            active_guards: HashSet::new(),
            disable_owner: None,
            activation_result: None,
            shutting_down: false,
        }
    }
}

} // verus!
