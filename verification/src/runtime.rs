//! Decisions of the asynchronous entity runtime: failure classification,
//! passivation outcome, single completion of a dispatch, and cancellation.

use vstd::prelude::*;

use crate::directory::DirectoryError;
use crate::lifecycle::machine::{LifecycleEdge, LifecyclePhase, TransitionEvidence};
use crate::lifecycle::machine::evidence_of;
use crate::lifecycle::model::{phase_of, slot_activation, SlotModel};
use crate::lifecycle::{ActivationId, DrainFailure, DrainStage, Refusal, SlotEvent};

verus! {

/// Exact-incarnation capabilities returned by transactional activation.
pub struct Activated<E, L> {
    /// Delivery-only capability.
    pub endpoint: E,
    /// Affine retirement capability.
    pub lease: L,
}

/// Stage at which an ordered fence operation failed.
#[derive(Debug, Clone, Copy, PartialEq, Eq, Structural)]
pub enum FenceFailure {
    /// The fence was not enqueued.
    Enqueue,
    /// The fence was enqueued but not acknowledged.
    Acknowledgement,
}

/// Description of each fence failure.
pub open spec fn fence_failure_message(failure: FenceFailure) -> &'static str {
    match failure {
        FenceFailure::Enqueue => "fence was not enqueued",
        FenceFailure::Acknowledgement => "fence was enqueued but not acknowledged",
    }
}

impl FenceFailure {
    /// Human-readable description of the failed stage.
    pub fn to_string(&self) -> (message: String)
        ensures
            message@ == fence_failure_message(*self)@,
    {
        let message = match self {
            FenceFailure::Enqueue => "fence was not enqueued",
            FenceFailure::Acknowledgement => "fence was enqueued but not acknowledged",
        };
        String::from_str(message)
    }
}

/// Drain failure reported when the processing fence fails: the stage of the
/// fence protocol that failed, with no reservation outstanding.
pub fn fence_drain_failure(failure: FenceFailure) -> (drain: DrainFailure)
    ensures
        drain.outstanding_reservations == 0,
        drain.stage == (match failure {
            FenceFailure::Enqueue => DrainStage::FenceEnqueue,
            FenceFailure::Acknowledgement => DrainStage::FenceAcknowledgement,
        }),
{
    DrainFailure {
        stage: match failure {
            FenceFailure::Enqueue => DrainStage::FenceEnqueue,
            FenceFailure::Acknowledgement => DrainStage::FenceAcknowledgement,
        },
        outstanding_reservations: 0,
    }
}

/// Failure of a dispatch with command ownership preserved.
#[derive(Debug)]
pub enum DispatchFailure<C> {
    /// Lifecycle admission or delivery refused the command.
    Refused {
        /// The command as submitted.
        command: C,
        /// Exact refusal classification.
        reason: Refusal,
    },
    /// The non-reusable activation identity namespace was exhausted.
    ActivationIdsExhausted(C),
    /// The non-reusable dispatch identity namespace was exhausted.
    DispatchIdsExhausted(C),
}

/// Description of each dispatch failure.
pub open spec fn dispatch_failure_message<C>(failure: DispatchFailure<C>) -> &'static str {
    match failure {
        DispatchFailure::Refused { .. } => "lifecycle admission or delivery refused the command",
        DispatchFailure::ActivationIdsExhausted(_) => "activation identity namespace is exhausted",
        DispatchFailure::DispatchIdsExhausted(_) => "dispatch identity namespace is exhausted",
    }
}

impl<C> DispatchFailure<C> {
    /// Human-readable description of the failure.
    pub fn to_string(&self) -> (message: String)
        ensures
            message@ == dispatch_failure_message(*self)@,
    {
        let message = match self {
            DispatchFailure::Refused { .. } => "lifecycle admission or delivery refused the command",
            DispatchFailure::ActivationIdsExhausted(_) => "activation identity namespace is exhausted",
            DispatchFailure::DispatchIdsExhausted(_) => "dispatch identity namespace is exhausted",
        };
        String::from_str(message)
    }
}

/// Dispatch failure for a directory failure, returning the command.
///
/// A validated configuration never reports an invalid shard count here.
pub fn dispatch_failure_from<C>(error: DirectoryError<C>) -> (failure: DispatchFailure<C>)
    requires
        !(error is InvalidShardCount),
    ensures
        error matches DirectoryError::ActivationIdsExhausted(command) ==> failure
            == DispatchFailure::ActivationIdsExhausted(command),
        error matches DirectoryError::DispatchIdsExhausted(command) ==> failure
            == DispatchFailure::DispatchIdsExhausted(command),
{
    match error {
        DirectoryError::ActivationIdsExhausted(command) => DispatchFailure::ActivationIdsExhausted(command),
        DirectoryError::DispatchIdsExhausted(command) => DispatchFailure::DispatchIdsExhausted(command),
        DirectoryError::InvalidShardCount => vstd::pervasive::unreached(),
    }
}

/// Outcome of a request to passivate an entity.
#[derive(Debug, Clone, Copy, PartialEq, Eq, Structural)]
pub enum Passivation {
    /// No active incarnation was represented, so nothing was drained.
    NotActive,
    /// This request closed admission of the active incarnation.
    Begun,
    /// Admission was already closed by an earlier request.
    AlreadyPassivating,
}

/// The outcome of a passivation request, from the evidence of its drain
/// request (none when the entity had no incarnation): it began when the
/// request traversed the active-to-draining edge, was already under way when
/// the slot stayed draining or retiring, and found nothing active otherwise.
pub open spec fn passivation_of(evidence: Option<TransitionEvidence>) -> Passivation {
    match evidence {
        Some(TransitionEvidence::Traversed(LifecycleEdge::BeginDrain)) => Passivation::Begun,
        Some(TransitionEvidence::SelfLoop { phase, .. }) | Some(TransitionEvidence::Ignored { phase, .. }) =>
            if phase == LifecyclePhase::Draining || phase == LifecyclePhase::Retiring {
            Passivation::AlreadyPassivating
        } else {
            Passivation::NotActive
        },
        _ => Passivation::NotActive,
    }
}

/// Classify a passivation request by the evidence of its drain request.
pub fn passivation_outcome(evidence: Option<TransitionEvidence>) -> (outcome: Passivation)
    ensures
        outcome == passivation_of(evidence),
{
    match evidence {
        Some(TransitionEvidence::Traversed(LifecycleEdge::BeginDrain)) => Passivation::Begun,
        Some(TransitionEvidence::SelfLoop { phase, .. }) | Some(TransitionEvidence::Ignored { phase, .. }) => match phase {
            LifecyclePhase::Draining | LifecyclePhase::Retiring => Passivation::AlreadyPassivating,
            _ => Passivation::NotActive,
        },
        _ => Passivation::NotActive,
    }
}

/// A drain request for the slot's own incarnation begins passivation exactly
/// when the slot is active, reports it already under way when the slot is
/// draining or retiring, and finds nothing active while the slot is inactive
/// or still activating.
pub proof fn lemma_passivation_by_phase<C, E, L>(slot: SlotModel<C, E, L>, activation_id: ActivationId)
    requires
        slot_activation(slot) == Some(activation_id),
    ensures
        passivation_of(Some(evidence_of(slot, SlotEvent::<C, E, L>::BeginDrain { activation_id }))) == match phase_of(slot) {
            LifecyclePhase::Active => Passivation::Begun,
            LifecyclePhase::Draining | LifecyclePhase::Retiring => Passivation::AlreadyPassivating,
            _ => Passivation::NotActive,
        },
{
    reveal_with_fuel(crate::lifecycle::machine::first_edge_with, 8);
}

/// Record the first result of a dispatch; later results are ignored.
/// Returns whether this result was recorded.
pub fn settle<T>(outcome: &mut Option<T>, result: T) -> (recorded: bool)
    ensures
        recorded == (*old(outcome) is None),
        *final(outcome) == (if *old(outcome) is None { Some(result) } else { *old(outcome) }),
{
    if outcome.is_some() {
        return false;
    }
    *outcome = Some(result);
    true
}

/// Activation whose waiter must be canceled when a dispatch is abandoned:
/// only an unfinished dispatch that joined an activation cancels.
pub fn abandoned_waiter(completed: bool, activation_id: Option<ActivationId>) -> (cancel: Option<ActivationId>)
    ensures
        cancel == (if completed { None } else { activation_id }),
{
    if completed {
        None
    } else {
        activation_id
    }
}

} // verus!
