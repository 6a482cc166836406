//! Decisions of a slot whose single activation is in flight.

use vstd::prelude::*;

use super::{
    decision, reject, reject_failed_delivery, retire_stale, ActivatingSlot, ActivationId,
    ActivationWaiter, ActiveSlot, DispatchId, EntitySlot, Generation, Refusal, ReservationCount,
    SlotDecision, SlotEffect, SlotEffectBatch, SlotEvent,
};
use super::model::{
    decision_is, deliveries, effect_agrees, effects_agree, refusals, reservations_for, slot_effects,
    SlotModel,
};

verus! {

/// The model of an activating slot.
pub open spec fn activating_model<C, E, L>(state: ActivatingSlot<C>) -> SlotModel<C, E, L> {
    SlotModel::Activating {
        activation_id: state.activation_id,
        waiters: state.waiters@,
        waiter_limit: state.waiter_limit,
    }
}

pub(super) fn decide_activating<C, E: Clone, L>(
    state: ActivatingSlot<C>,
    event: SlotEvent<C, E, L>,
) -> (d: SlotDecision<C, E, L>)
    ensures
        decision_is(d, activating_model(state), event),
{
    let mut state = state;
    let ghost start = state;
    match event {
        SlotEvent::Dispatch { dispatch_id, command } => {
            if state.waiters.len() < state.waiter_limit {
                state.waiters.push(ActivationWaiter { dispatch_id, command });
                decision(EntitySlot::Activating(state), SlotEffectBatch::empty())
            } else {
                reject(EntitySlot::Activating(state), dispatch_id, command, Refusal::Busy)
            }
        },
        SlotEvent::CancelWaiter { activation_id, dispatch_id } => match state.activation_id.classify(
            activation_id,
        ) {
            Generation::Current => {
                let ActivatingSlot { activation_id, waiters, waiter_limit } = state;
                let waiters = without_dispatch(waiters, dispatch_id);
                decision(
                    EntitySlot::Activating(ActivatingSlot { activation_id, waiters, waiter_limit }),
                    SlotEffectBatch::empty(),
                )
            },
            Generation::Stale => decision(EntitySlot::Activating(state), SlotEffectBatch::empty()),
        },
        SlotEvent::ActivationSucceeded { activation_id, endpoint, lease } => finish_activation(
            state,
            activation_id,
            endpoint,
            lease,
        ),
        SlotEvent::ActivationFailed { activation_id } => fail_activation(state, activation_id),
        SlotEvent::ClaimActivation { dispatch_id, command, .. } => reject(
            EntitySlot::Activating(state),
            dispatch_id,
            command,
            Refusal::Busy,
        ),
        // A late failed delivery from a previous incarnation still owns its
        // command; the command returns as unavailable.
        SlotEvent::DeliveryResolved { failure, .. } => reject_failed_delivery(
            EntitySlot::Activating(state),
            failure,
            Refusal::Unavailable,
        ),
        _ => decision(EntitySlot::Activating(state), SlotEffectBatch::empty()),
    }
}

/// Keep every waiter except those of one canceled dispatch, in order.
fn without_dispatch<C>(waiters: Vec<ActivationWaiter<C>>, dispatch_id: DispatchId) -> (kept: Vec<
    ActivationWaiter<C>,
>)
    ensures
        kept@ == waiters@.filter(|w: ActivationWaiter<C>| w.dispatch_id != dispatch_id),
{
    let ghost all = waiters@;
    let ghost keep = |w: ActivationWaiter<C>| w.dispatch_id != dispatch_id;
    let mut kept = Vec::new();
    proof {
        reveal_with_fuel(Seq::filter, 1);
        assert(all.take(0) =~= Seq::<ActivationWaiter<C>>::empty());
    }
    for waiter in it: waiters
        invariant
            it.seq() == all,
            keep == (|w: ActivationWaiter<C>| w.dispatch_id != dispatch_id),
            kept@ == all.take(it.index()).filter(keep),
    {
        let ghost prefix = all.take(it.index());
        proof {
            assert(all.take(it.index() + 1).drop_last() =~= prefix);
            assert(all.take(it.index() + 1).last() == waiter);
            reveal_with_fuel(Seq::filter, 1);
        }
        if waiter.dispatch_id != dispatch_id {
            kept.push(waiter);
        }
    }
    proof {
        assert(all.take(all.len() as int) =~= all);
    }
    kept
}

/// Commit the activation when it is the slot's own, delivering every waiter
/// in arrival order; otherwise retire the stale incarnation.
fn finish_activation<C, E: Clone, L>(
    state: ActivatingSlot<C>,
    activation_id: ActivationId,
    endpoint: E,
    lease: L,
) -> (d: SlotDecision<C, E, L>)
    ensures
        decision_is(
            d,
            activating_model(state),
            SlotEvent::ActivationSucceeded { activation_id, endpoint, lease },
        ),
{
    match state.activation_id.classify(activation_id) {
        Generation::Current => {
            let reservations = reservations_from_len(state.waiters.len());
            let ghost all = state.waiters@;
            let mut effects = SlotEffectBatch::empty();
            for waiter in it: state.waiters
                invariant
                    it.seq() == all,
                    effects_agree(
                        effects@,
                        deliveries::<C, E, L>(activation_id, endpoint, all.take(it.index())),
                    ),
            {
                let ghost before = effects@;
                let copy = endpoint.clone();
                effects.push(
                    SlotEffect::Deliver {
                        activation_id,
                        dispatch_id: waiter.dispatch_id,
                        endpoint: copy,
                        command: waiter.command,
                    },
                );
                proof {
                    let expected = deliveries::<C, E, L>(activation_id, endpoint, all.take(it.index() + 1));
                    assert(all.take(it.index() + 1) =~= all.take(it.index()).push(waiter));
                    assert(expected =~= deliveries::<C, E, L>(activation_id, endpoint, all.take(it.index())).push(
                        SlotEffect::Deliver {
                            activation_id,
                            dispatch_id: waiter.dispatch_id,
                            endpoint,
                            command: waiter.command,
                        },
                    ));
                    assert(effects_agree(effects@, expected)) by {
                        assert forall|i: int| 0 <= i < effects@.len() implies effect_agrees(
                            #[trigger] effects@[i],
                            expected[i],
                        ) by {
                            if i < before.len() {
                                assert(effects@[i] == before[i]);
                            }
                        }
                    }
                }
            }
            proof {
                assert(all.take(all.len() as int) =~= all);
            }
            decision(
                EntitySlot::Active(ActiveSlot { activation_id, endpoint, lease, reservations }),
                effects,
            )
        },
        Generation::Stale => retire_stale(EntitySlot::Activating(state), activation_id, lease),
    }
}

/// Reservation count for the waiters delivered at commitment.
fn reservations_from_len(value: usize) -> (count: ReservationCount)
    ensures
        count == reservations_for(value as nat),
{
    if value == 0 {
        ReservationCount::Drained
    } else {
        ReservationCount::Pending(value)
    }
}

/// Refuse every waiter in arrival order and remove the slot when the failed
/// activation is the slot's own; otherwise ignore the stale failure.
fn fail_activation<C, E: Clone, L>(state: ActivatingSlot<C>, activation_id: ActivationId) -> (d:
    SlotDecision<C, E, L>)
    ensures
        decision_is(d, activating_model(state), SlotEvent::ActivationFailed { activation_id }),
{
    match state.activation_id.classify(activation_id) {
        Generation::Current => {
            let ghost all = state.waiters@;
            let mut effects = SlotEffectBatch::empty();
            for waiter in it: state.waiters
                invariant
                    it.seq() == all,
                    effects@ == refusals::<C, E, L>(all.take(it.index())),
            {
                effects.push(
                    SlotEffect::Reject {
                        dispatch_id: waiter.dispatch_id,
                        command: waiter.command,
                        reason: Refusal::Unavailable,
                    },
                );
                proof {
                    assert(all.take(it.index() + 1) =~= all.take(it.index()).push(waiter));
                    assert(effects@ =~= refusals::<C, E, L>(all.take(it.index() + 1)));
                }
            }
            effects.push(SlotEffect::Remove { activation_id });
            proof {
                assert(all.take(all.len() as int) =~= all);
                assert(effects@ =~= slot_effects(
                    activating_model::<C, E, L>(state),
                    SlotEvent::ActivationFailed { activation_id },
                ));
            }
            decision(EntitySlot::Inactive, effects)
        },
        Generation::Stale => decision(EntitySlot::Activating(state), SlotEffectBatch::empty()),
    }
}

} // verus!
