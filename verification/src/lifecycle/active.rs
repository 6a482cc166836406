//! Decisions of a slot whose committed incarnation admits commands.

use vstd::prelude::*;

use super::{
    decision, reject, reject_failed_delivery, retire_stale, ActiveSlot, DispatchId, DrainProgress,
    DrainingSlot, EntitySlot, Generation, Refusal, ReservationCount, SlotDecision, SlotEffect,
    SlotEffectBatch, SlotEvent,
};
use super::model::{admits, decision_is, failure_effects, released, reserved, SlotModel};

verus! {

impl ReservationCount {
    /// Count one more admitted delivery.
    fn reserve(self) -> (count: Self)
        requires
            self != ReservationCount::Pending(usize::MAX),
        ensures
            count == reserved(self),
    {
        match self {
            Self::Drained => Self::Pending(1),
            Self::Pending(value) => Self::Pending(value + 1),
        }
    }

    /// Count one resolved delivery, reporting a resolution nothing reserved.
    fn resolve(self) -> (resolution: ReservationResolution)
        ensures
            self == ReservationCount::Drained <==> resolution == ReservationResolution::Unexpected,
            resolution != ReservationResolution::Unexpected ==> match resolution {
                ReservationResolution::Pending(count) => count == released(self) && count != ReservationCount::Drained,
                _ => released(self) == ReservationCount::Drained,
            },
    {
        match self {
            Self::Drained => ReservationResolution::Unexpected,
            Self::Pending(value) => if value > 1 {
                ReservationResolution::Pending(Self::Pending(value - 1))
            } else {
                ReservationResolution::Drained
            },
        }
    }
}

#[derive(PartialEq, Eq, Structural)]
enum ReservationResolution {
    Unexpected,
    Pending(ReservationCount),
    Drained,
}

pub(super) fn decide_active<C, E: Clone, L>(state: ActiveSlot<E, L>, event: SlotEvent<C, E, L>) -> (d:
    SlotDecision<C, E, L>)
    requires
        admits(SlotModel::Active(state), event),
    ensures
        decision_is(d, SlotModel::Active(state), event),
{
    match event {
        SlotEvent::Dispatch { dispatch_id, command } => {
            let activation_id = state.activation_id;
            let endpoint = state.endpoint.clone();
            let reservations = state.reservations.reserve();
            let d = decision(
                EntitySlot::Active(ActiveSlot { reservations, ..state }),
                SlotEffectBatch::one(SlotEffect::Deliver { activation_id, dispatch_id, endpoint, command }),
            );
            d
        },
        SlotEvent::DeliveryResolved { activation_id, failure } => match state.activation_id.classify(
            activation_id,
        ) {
            Generation::Current => resolve_active_delivery(state, failure),
            Generation::Stale => reject_failed_delivery(
                EntitySlot::Active(state),
                failure,
                Refusal::Unavailable,
            ),
        },
        SlotEvent::BeginDrain { activation_id } => match state.activation_id.classify(activation_id) {
            Generation::Current => begin_drain(state),
            Generation::Stale => decision(EntitySlot::Active(state), SlotEffectBatch::empty()),
        },
        SlotEvent::ActivationSucceeded { activation_id, lease, .. } => retire_stale(
            EntitySlot::Active(state),
            activation_id,
            lease,
        ),
        SlotEvent::ClaimActivation { dispatch_id, command, .. } => reject(
            EntitySlot::Active(state),
            dispatch_id,
            command,
            Refusal::Busy,
        ),
        _ => decision(EntitySlot::Active(state), SlotEffectBatch::empty()),
    }
}

/// Resolve one reservation of the current incarnation, returning a failed
/// delivery's command as unavailable.
fn resolve_active_delivery<C, E: Clone, L>(
    state: ActiveSlot<E, L>,
    failure: Option<(DispatchId, C)>,
) -> (d: SlotDecision<C, E, L>)
    ensures
        d.state@ == SlotModel::<C, E, L>::Active(
            ActiveSlot { reservations: released(state.reservations), ..state },
        ),
        d.effects@ == failure_effects::<C, E, L>(failure, Refusal::Unavailable),
{
    match state.reservations.resolve() {
        ReservationResolution::Unexpected => reject_failed_delivery(
            EntitySlot::Active(state),
            failure,
            Refusal::Unavailable,
        ),
        ReservationResolution::Pending(reservations) => reject_failed_delivery(
            EntitySlot::Active(ActiveSlot { reservations, ..state }),
            failure,
            Refusal::Unavailable,
        ),
        ReservationResolution::Drained => reject_failed_delivery(
            EntitySlot::Active(ActiveSlot { reservations: ReservationCount::Drained, ..state }),
            failure,
            Refusal::Unavailable,
        ),
    }
}

/// Close admission: enqueue the fence at once when nothing is reserved,
/// otherwise wait for the outstanding reservations.
fn begin_drain<C, E: Clone, L>(state: ActiveSlot<E, L>) -> (d: SlotDecision<C, E, L>)
    ensures
        decision_is(
            d,
            SlotModel::Active(state),
            SlotEvent::BeginDrain { activation_id: state.activation_id },
        ),
{
    match state.reservations {
        ReservationCount::Drained => {
            let activation_id = state.activation_id;
            let endpoint = state.endpoint.clone();
            decision(
                EntitySlot::Draining(
                    DrainingSlot {
                        activation_id,
                        endpoint: state.endpoint,
                        lease: state.lease,
                        progress: DrainProgress::FenceAcknowledgement,
                    },
                ),
                SlotEffectBatch::one(SlotEffect::EnqueueFence { activation_id, endpoint }),
            )
        },
        ReservationCount::Pending(pending) => decision(
            EntitySlot::Draining(
                DrainingSlot {
                    activation_id: state.activation_id,
                    endpoint: state.endpoint,
                    lease: state.lease,
                    progress: DrainProgress::Reservations(pending),
                },
            ),
            SlotEffectBatch::empty(),
        ),
    }
}

} // verus!
