//! Decisions of a slot whose admission is closed.

use vstd::prelude::*;

use super::{
    decision, reject, reject_failed_delivery, retire_stale, with_effect, DispatchId, DrainFailure,
    DrainProgress, DrainingSlot, EntitySlot, Generation, Refusal, RetirementMode, SlotDecision,
    SlotEffect, SlotEffectBatch, SlotEvent,
};
use super::model::{decision_is, effect_agrees, slot_effects, SlotModel};

verus! {

pub(super) fn decide_draining<C, E: Clone, L>(
    state: DrainingSlot<E, L>,
    event: SlotEvent<C, E, L>,
) -> (d: SlotDecision<C, E, L>)
    ensures
        decision_is(d, SlotModel::Draining(state), event),
{
    match event {
        SlotEvent::Dispatch { dispatch_id, command } => reject(
            EntitySlot::Draining(state),
            dispatch_id,
            command,
            Refusal::Draining,
        ),
        SlotEvent::ClaimActivation { dispatch_id, command, .. } => reject(
            EntitySlot::Draining(state),
            dispatch_id,
            command,
            Refusal::Draining,
        ),
        SlotEvent::DeliveryResolved { activation_id, failure } => match state.activation_id.classify(
            activation_id,
        ) {
            Generation::Current => resolve_draining_delivery(state, failure),
            Generation::Stale => reject_failed_delivery(
                EntitySlot::Draining(state),
                failure,
                Refusal::Unavailable,
            ),
        },
        SlotEvent::FenceAcknowledged { activation_id } => match state.activation_id.classify(
            activation_id,
        ) {
            Generation::Current => acknowledge_fence(state),
            Generation::Stale => decision(EntitySlot::Draining(state), SlotEffectBatch::empty()),
        },
        SlotEvent::ForceDrain { activation_id, failure } => match state.activation_id.classify(
            activation_id,
        ) {
            Generation::Current => force_drain(state, failure),
            Generation::Stale => decision(EntitySlot::Draining(state), SlotEffectBatch::empty()),
        },
        SlotEvent::ActivationSucceeded { activation_id, lease, .. } => retire_stale(
            EntitySlot::Draining(state),
            activation_id,
            lease,
        ),
        _ => decision(EntitySlot::Draining(state), SlotEffectBatch::empty()),
    }
}

/// Resolve one reservation of the draining incarnation; the last one
/// enqueues the processing fence.
fn resolve_draining_delivery<C, E: Clone, L>(
    state: DrainingSlot<E, L>,
    failure: Option<(DispatchId, C)>,
) -> (d: SlotDecision<C, E, L>)
    ensures
        decision_is(
            d,
            SlotModel::Draining(state),
            SlotEvent::DeliveryResolved { activation_id: state.activation_id, failure },
        ),
{
    match state.progress {
        DrainProgress::FenceAcknowledgement => reject_failed_delivery(
            EntitySlot::Draining(state),
            failure,
            Refusal::Unavailable,
        ),
        DrainProgress::Reservations(pending) => {
            if pending >= 2 {
                reject_failed_delivery(
                    EntitySlot::Draining(
                        DrainingSlot { progress: DrainProgress::Reservations(pending - 1), ..state },
                    ),
                    failure,
                    Refusal::Unavailable,
                )
            } else {
                let activation_id = state.activation_id;
                let endpoint = state.endpoint.clone();
                let next = EntitySlot::Draining(
                    DrainingSlot { progress: DrainProgress::FenceAcknowledgement, ..state },
                );
                let d = with_effect(
                    reject_failed_delivery(next, failure, Refusal::Unavailable),
                    SlotEffect::EnqueueFence { activation_id, endpoint },
                );
                proof {
                    let expected = slot_effects(
                        SlotModel::Draining(state),
                        SlotEvent::DeliveryResolved { activation_id: state.activation_id, failure },
                    );
                    assert forall|i: int| 0 <= i < d.effects@.len() implies effect_agrees(
                        #[trigger] d.effects@[i],
                        expected[i],
                    ) by {}
                }
                d
            }
        },
    }
}

/// Retire gracefully once the fence is acknowledged after every reservation
/// resolved.
fn acknowledge_fence<C, E: Clone, L>(state: DrainingSlot<E, L>) -> (d: SlotDecision<C, E, L>)
    ensures
        decision_is(
            d,
            SlotModel::Draining(state),
            SlotEvent::FenceAcknowledged { activation_id: state.activation_id },
        ),
{
    match state.progress {
        DrainProgress::Reservations(_) => decision(EntitySlot::Draining(state), SlotEffectBatch::empty()),
        DrainProgress::FenceAcknowledgement => decision(
            EntitySlot::Retiring { activation_id: state.activation_id },
            SlotEffectBatch::one(
                SlotEffect::Retire {
                    activation_id: state.activation_id,
                    lease: state.lease,
                    retirement: RetirementMode::Graceful,
                },
            ),
        ),
    }
}

/// Retire with the honest failure classification.
fn force_drain<C, E: Clone, L>(state: DrainingSlot<E, L>, failure: DrainFailure) -> (d: SlotDecision<
    C,
    E,
    L,
>)
    ensures
        decision_is(
            d,
            SlotModel::Draining(state),
            SlotEvent::ForceDrain { activation_id: state.activation_id, failure },
        ),
{
    decision(
        EntitySlot::Retiring { activation_id: state.activation_id },
        SlotEffectBatch::one(
            SlotEffect::Retire {
                activation_id: state.activation_id,
                lease: state.lease,
                retirement: RetirementMode::Forced(failure),
            },
        ),
    )
}

} // verus!
