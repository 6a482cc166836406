//! Decisions of a slot awaiting exact termination of its incarnation.

use vstd::prelude::*;

use super::{
    decision, reject, reject_failed_delivery, retire_stale, ActivationId, EntitySlot, Generation, Refusal, SlotDecision,
    SlotEffect, SlotEffectBatch, SlotEvent,
};
use super::model::{decision_is, SlotModel};

verus! {

pub(super) fn decide_retiring<C, E: Clone, L>(
    activation_id: ActivationId,
    event: SlotEvent<C, E, L>,
) -> (d: SlotDecision<C, E, L>)
    ensures
        decision_is(d, SlotModel::Retiring { activation_id }, event),
{
    match event {
        SlotEvent::Terminated { activation_id: observed } => match activation_id.classify(observed) {
            Generation::Current => decision(
                EntitySlot::Inactive,
                SlotEffectBatch::one(SlotEffect::Remove { activation_id }),
            ),
            Generation::Stale => decision(
                EntitySlot::Retiring { activation_id },
                SlotEffectBatch::empty(),
            ),
        },
        SlotEvent::Dispatch { dispatch_id, command } => reject(
            EntitySlot::Retiring { activation_id },
            dispatch_id,
            command,
            Refusal::Draining,
        ),
        SlotEvent::ClaimActivation { dispatch_id, command, .. } => reject(
            EntitySlot::Retiring { activation_id },
            dispatch_id,
            command,
            Refusal::Draining,
        ),
        SlotEvent::ActivationSucceeded { activation_id: stale_id, lease, .. } => retire_stale(
            EntitySlot::Retiring { activation_id },
            stale_id,
            lease,
        ),
        // A late failed delivery still owns its command; it returns as unavailable.
        SlotEvent::DeliveryResolved { failure, .. } => reject_failed_delivery(
            EntitySlot::Retiring { activation_id },
            failure,
            Refusal::Unavailable,
        ),
        _ => decision(EntitySlot::Retiring { activation_id }, SlotEffectBatch::empty()),
    }
}

} // verus!
