//! Decisions of a slot with no activation or incarnation.

use vstd::prelude::*;

use super::{
    decision, reject, reject_failed_delivery, retire_stale, ActivatingSlot, ActivationWaiter, EntitySlot, Refusal, SlotDecision,
    SlotEffect, SlotEffectBatch, SlotEvent,
};
use super::model::{decision_is, next_slot, SlotModel};

verus! {

pub(super) fn decide_inactive<C, E: Clone, L>(event: SlotEvent<C, E, L>) -> (d: SlotDecision<C, E, L>)
    ensures
        decision_is(d, SlotModel::Inactive, event),
{
    match event {
        SlotEvent::ClaimActivation { activation_id, dispatch_id, command, waiter_limit } => {
            let mut waiters = Vec::new();
            waiters.push(ActivationWaiter { dispatch_id, command });
            let d = decision(
                EntitySlot::Activating(ActivatingSlot { activation_id, waiters, waiter_limit }),
                SlotEffectBatch::one(SlotEffect::StartActivation { activation_id }),
            );
            assert(d.state@ == next_slot(SlotModel::<C, E, L>::Inactive, event));
            d
        },
        SlotEvent::Dispatch { dispatch_id, command } => reject(
            EntitySlot::Inactive,
            dispatch_id,
            command,
            Refusal::Unavailable,
        ),
        SlotEvent::ActivationSucceeded { activation_id, lease, .. } => retire_stale(
            EntitySlot::Inactive,
            activation_id,
            lease,
        ),
        // A late failed delivery still owns its command; it returns as unavailable.
        SlotEvent::DeliveryResolved { failure, .. } => reject_failed_delivery(
            EntitySlot::Inactive,
            failure,
            Refusal::Unavailable,
        ),
        _ => decision(EntitySlot::Inactive, SlotEffectBatch::empty()),
    }
}

} // verus!
