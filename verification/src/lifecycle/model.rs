//! Mathematical model of one entity slot and of its reducer.
//!
//! `step_model` is the decision table of the lifecycle: for each phase and
//! each fact it gives the successor and the ordered effects. Endpoints handed
//! out in effects are copies of the slot's endpoint; an executable decision
//! agrees with the table when each handed-out endpoint is a clone of it.

use vstd::prelude::*;

use super::machine::{LifecyclePhase, LifecycleTrigger};
use super::{
    ActivationId, ActivationWaiter, ActiveSlot, DispatchId, DrainFailure, DrainProgress, DrainStage,
    DrainingSlot, EntitySlot, Refusal, ReservationCount, RetirementMode, SlotDecision, SlotEffect, SlotEvent,
};

verus! {

/// Abstract state of one entity slot: the waiter vector is a sequence.
pub enum SlotModel<C, E, L> {
    /// No activation or incarnation exists.
    Inactive,
    /// One activation is in flight with its waiters in arrival order.
    Activating { activation_id: ActivationId, waiters: Seq<ActivationWaiter<C>>, waiter_limit: usize },
    /// An incarnation admits commands.
    Active(ActiveSlot<E, L>),
    /// Admission is closed while processing drains.
    Draining(DrainingSlot<E, L>),
    /// Exact termination is awaited.
    Retiring { activation_id: ActivationId },
}

impl<C, E, L> View for EntitySlot<C, E, L> {
    type V = SlotModel<C, E, L>;

    open spec fn view(&self) -> SlotModel<C, E, L> {
        match self {
            EntitySlot::Inactive => SlotModel::Inactive,
            EntitySlot::Activating(s) => SlotModel::Activating {
                activation_id: s.activation_id,
                waiters: s.waiters@,
                waiter_limit: s.waiter_limit,
            },
            EntitySlot::Active(s) => SlotModel::Active(*s),
            EntitySlot::Draining(s) => SlotModel::Draining(*s),
            EntitySlot::Retiring { activation_id } => SlotModel::Retiring { activation_id: *activation_id },
        }
    }
}

/// Lifecycle phase of a model state.
pub open spec fn phase_of<C, E, L>(slot: SlotModel<C, E, L>) -> LifecyclePhase {
    match slot {
        SlotModel::Inactive => LifecyclePhase::Inactive,
        SlotModel::Activating { .. } => LifecyclePhase::Activating,
        SlotModel::Active(_) => LifecyclePhase::Active,
        SlotModel::Draining(_) => LifecyclePhase::Draining,
        SlotModel::Retiring { .. } => LifecyclePhase::Retiring,
    }
}

/// Activation represented by a model state, when one exists.
pub open spec fn slot_activation<C, E, L>(slot: SlotModel<C, E, L>) -> Option<ActivationId> {
    match slot {
        SlotModel::Inactive => None,
        SlotModel::Activating { activation_id, .. } => Some(activation_id),
        SlotModel::Active(s) => Some(s.activation_id),
        SlotModel::Draining(s) => Some(s.activation_id),
        SlotModel::Retiring { activation_id } => Some(activation_id),
    }
}

/// Topology identity of a fact.
pub open spec fn trigger_of<C, E, L>(event: SlotEvent<C, E, L>) -> LifecycleTrigger {
    match event {
        SlotEvent::ClaimActivation { .. } => LifecycleTrigger::ClaimActivation,
        SlotEvent::Dispatch { .. } => LifecycleTrigger::Dispatch,
        SlotEvent::CancelWaiter { .. } => LifecycleTrigger::CancelWaiter,
        SlotEvent::ActivationSucceeded { .. } => LifecycleTrigger::ActivationSucceeded,
        SlotEvent::ActivationFailed { .. } => LifecycleTrigger::ActivationFailed,
        SlotEvent::DeliveryResolved { .. } => LifecycleTrigger::DeliveryResolved,
        SlotEvent::BeginDrain { .. } => LifecycleTrigger::BeginDrain,
        SlotEvent::FenceAcknowledged { .. } => LifecycleTrigger::FenceAcknowledged,
        SlotEvent::ForceDrain { .. } => LifecycleTrigger::ForceDrain,
        SlotEvent::Terminated { .. } => LifecycleTrigger::Terminated,
    }
}

/// Incarnation that a fact is bound to, for facts that carry one.
pub open spec fn event_activation<C, E, L>(event: SlotEvent<C, E, L>) -> Option<ActivationId> {
    match event {
        SlotEvent::ClaimActivation { .. } => None,
        SlotEvent::Dispatch { .. } => None,
        SlotEvent::CancelWaiter { activation_id, .. } => Some(activation_id),
        SlotEvent::ActivationSucceeded { activation_id, .. } => Some(activation_id),
        SlotEvent::ActivationFailed { activation_id } => Some(activation_id),
        SlotEvent::DeliveryResolved { activation_id, .. } => Some(activation_id),
        SlotEvent::BeginDrain { activation_id } => Some(activation_id),
        SlotEvent::FenceAcknowledged { activation_id } => Some(activation_id),
        SlotEvent::ForceDrain { activation_id, .. } => Some(activation_id),
        SlotEvent::Terminated { activation_id } => Some(activation_id),
    }
}

/// Whether a state consumes a fact rather than ignoring it.
pub open spec fn handles_event<C, E, L>(slot: SlotModel<C, E, L>, event: SlotEvent<C, E, L>) -> bool {
    match slot {
        SlotModel::Inactive => event is Dispatch,
        _ => match event {
            SlotEvent::Dispatch { .. } | SlotEvent::ClaimActivation { .. } => true,
            _ => {
                let current = slot_activation(slot) == event_activation(event);
                match slot {
                    SlotModel::Activating { .. } => current && (event is CancelWaiter
                        || event is ActivationSucceeded || event is ActivationFailed),
                    SlotModel::Active(_) => current && (event is DeliveryResolved || event is BeginDrain),
                    SlotModel::Draining(_) => current && (event is DeliveryResolved
                        || event is FenceAcknowledged || event is ForceDrain),
                    _ => current && event is Terminated,
                }
            },
        },
    }
}

/// The reducer is defined everywhere except where one more reservation
/// would overflow the reservation counter.
pub open spec fn admits<C, E, L>(slot: SlotModel<C, E, L>, event: SlotEvent<C, E, L>) -> bool {
    !(slot matches SlotModel::Active(s) && s.reservations == ReservationCount::Pending(usize::MAX)
        && event is Dispatch)
}

/// A fact is well formed when an activation claim bounds its waiters by a
/// non-zero limit.
pub open spec fn event_wf<C, E, L>(event: SlotEvent<C, E, L>) -> bool {
    event matches SlotEvent::ClaimActivation { waiter_limit, .. } ==> waiter_limit > 0
}

/// Invariant of a slot state: the waiter set respects its non-zero bound and
/// every recorded count is non-zero.
pub open spec fn slot_wf<C, E, L>(slot: SlotModel<C, E, L>) -> bool {
    match slot {
        SlotModel::Activating { waiters, waiter_limit, .. } => 0 < waiter_limit && waiters.len() <= waiter_limit,
        SlotModel::Active(s) => s.reservations matches ReservationCount::Pending(n) ==> n > 0,
        SlotModel::Draining(s) => s.progress matches DrainProgress::Reservations(n) ==> n > 0,
        _ => true,
    }
}

/// The refusal of a failed delivery's command, if the delivery failed.
pub open spec fn failure_effects<C, E, L>(failure: Option<(DispatchId, C)>, reason: Refusal) -> Seq<
    SlotEffect<C, E, L>,
> {
    match failure {
        Some((dispatch_id, command)) => seq![SlotEffect::Reject { dispatch_id, command, reason }],
        None => Seq::empty(),
    }
}

/// Forced retirement of an activation that is not the slot's own.
pub open spec fn stale_retirement<C, E, L>(activation_id: ActivationId, lease: L) -> SlotEffect<C, E, L> {
    SlotEffect::Retire {
        activation_id,
        lease,
        retirement: RetirementMode::Forced(
            DrainFailure { stage: DrainStage::Retirement, outstanding_reservations: 0 },
        ),
    }
}

/// One delivery per waiter, in arrival order.
pub open spec fn deliveries<C, E, L>(
    activation_id: ActivationId,
    endpoint: E,
    waiters: Seq<ActivationWaiter<C>>,
) -> Seq<SlotEffect<C, E, L>> {
    waiters.map_values(
        |w: ActivationWaiter<C>|
            SlotEffect::Deliver { activation_id, dispatch_id: w.dispatch_id, endpoint, command: w.command },
    )
}

/// One unavailable refusal per waiter, in arrival order.
pub open spec fn refusals<C, E, L>(waiters: Seq<ActivationWaiter<C>>) -> Seq<SlotEffect<C, E, L>> {
    waiters.map_values(
        |w: ActivationWaiter<C>|
            SlotEffect::Reject { dispatch_id: w.dispatch_id, command: w.command, reason: Refusal::Unavailable },
    )
}

/// Reservation count after one more admitted delivery.
pub open spec fn reserved(count: ReservationCount) -> ReservationCount {
    match count {
        ReservationCount::Drained => ReservationCount::Pending(1),
        ReservationCount::Pending(n) => ReservationCount::Pending((n + 1) as usize),
    }
}

/// Reservation count after one resolved delivery.
pub open spec fn released(count: ReservationCount) -> ReservationCount {
    match count {
        ReservationCount::Drained => ReservationCount::Drained,
        ReservationCount::Pending(n) => if n <= 1 {
            ReservationCount::Drained
        } else {
            ReservationCount::Pending((n - 1) as usize)
        },
    }
}

/// Reservation count for a number of simultaneous deliveries.
pub open spec fn reservations_for(n: nat) -> ReservationCount {
    if n == 0 {
        ReservationCount::Drained
    } else {
        ReservationCount::Pending(n as usize)
    }
}

/// Decision table of an inactive slot.
pub open spec fn inactive_step<C, E, L>(event: SlotEvent<C, E, L>) -> (SlotModel<C, E, L>, Seq<SlotEffect<C, E, L>>) {
    match event {
        SlotEvent::ClaimActivation { activation_id, dispatch_id, command, waiter_limit } => (
            SlotModel::Activating {
                activation_id,
                waiters: seq![ActivationWaiter { dispatch_id, command }],
                waiter_limit,
            },
            seq![SlotEffect::StartActivation { activation_id }],
        ),
        SlotEvent::Dispatch { dispatch_id, command } => (
            SlotModel::Inactive,
            seq![SlotEffect::Reject { dispatch_id, command, reason: Refusal::Unavailable }],
        ),
        SlotEvent::ActivationSucceeded { activation_id, lease, .. } => (
            SlotModel::Inactive,
            seq![stale_retirement(activation_id, lease)],
        ),
        SlotEvent::DeliveryResolved { failure, .. } => (
            SlotModel::Inactive,
            failure_effects(failure, Refusal::Unavailable),
        ),
        _ => (SlotModel::Inactive, Seq::empty()),
    }
}

/// Decision table of a slot whose activation is in flight.
pub open spec fn activating_step<C, E, L>(
    activation_id: ActivationId,
    waiters: Seq<ActivationWaiter<C>>,
    waiter_limit: usize,
    event: SlotEvent<C, E, L>,
) -> (SlotModel<C, E, L>, Seq<SlotEffect<C, E, L>>) {
    let unchanged = SlotModel::Activating { activation_id, waiters, waiter_limit };
    match event {
        SlotEvent::Dispatch { dispatch_id, command } => if waiters.len() < waiter_limit {
            (
                SlotModel::Activating {
                    activation_id,
                    waiters: waiters.push(ActivationWaiter { dispatch_id, command }),
                    waiter_limit,
                },
                Seq::empty(),
            )
        } else {
            (unchanged, seq![SlotEffect::Reject { dispatch_id, command, reason: Refusal::Busy }])
        },
        SlotEvent::CancelWaiter { activation_id: observed, dispatch_id } => if observed == activation_id {
            (
                SlotModel::Activating {
                    activation_id,
                    waiters: waiters.filter(|w: ActivationWaiter<C>| w.dispatch_id != dispatch_id),
                    waiter_limit,
                },
                Seq::empty(),
            )
        } else {
            (unchanged, Seq::empty())
        },
        SlotEvent::ActivationSucceeded { activation_id: observed, endpoint, lease } => if observed
            == activation_id {
            (
                SlotModel::Active(
                    ActiveSlot {
                        activation_id,
                        endpoint,
                        lease,
                        reservations: reservations_for(waiters.len()),
                    },
                ),
                deliveries(activation_id, endpoint, waiters),
            )
        } else {
            (unchanged, seq![stale_retirement(observed, lease)])
        },
        SlotEvent::ActivationFailed { activation_id: observed } => if observed == activation_id {
            (SlotModel::Inactive, refusals(waiters).push(SlotEffect::Remove { activation_id }))
        } else {
            (unchanged, Seq::empty())
        },
        SlotEvent::ClaimActivation { dispatch_id, command, .. } => (
            unchanged,
            seq![SlotEffect::Reject { dispatch_id, command, reason: Refusal::Busy }],
        ),
        SlotEvent::DeliveryResolved { failure, .. } => (
            unchanged,
            failure_effects(failure, Refusal::Unavailable),
        ),
        _ => (unchanged, Seq::empty()),
    }
}

/// Decision table of a slot whose incarnation admits commands.
pub open spec fn active_step<C, E, L>(slot: ActiveSlot<E, L>, event: SlotEvent<C, E, L>) -> (SlotModel<C, E, L>, Seq<SlotEffect<C, E, L>>) {
    let unchanged = SlotModel::Active(slot);
    let current = |observed: ActivationId| observed == slot.activation_id;
    match event {
        SlotEvent::Dispatch { dispatch_id, command } => (
            SlotModel::Active(ActiveSlot { reservations: reserved(slot.reservations), ..slot }),
            seq![
                SlotEffect::Deliver {
                    activation_id: slot.activation_id,
                    dispatch_id,
                    endpoint: slot.endpoint,
                    command,
                },
            ],
        ),
        SlotEvent::DeliveryResolved { activation_id, failure } => if current(activation_id) {
            (
                SlotModel::Active(ActiveSlot { reservations: released(slot.reservations), ..slot }),
                failure_effects(failure, Refusal::Unavailable),
            )
        } else {
            (unchanged, failure_effects(failure, Refusal::Unavailable))
        },
        SlotEvent::BeginDrain { activation_id } => if current(activation_id) {
            match slot.reservations {
                ReservationCount::Drained => (
                    SlotModel::Draining(
                        DrainingSlot {
                            activation_id: slot.activation_id,
                            endpoint: slot.endpoint,
                            lease: slot.lease,
                            progress: DrainProgress::FenceAcknowledgement,
                        },
                    ),
                    seq![
                        SlotEffect::EnqueueFence {
                            activation_id: slot.activation_id,
                            endpoint: slot.endpoint,
                        },
                    ],
                ),
                ReservationCount::Pending(n) => (
                    SlotModel::Draining(
                        DrainingSlot {
                            activation_id: slot.activation_id,
                            endpoint: slot.endpoint,
                            lease: slot.lease,
                            progress: DrainProgress::Reservations(n),
                        },
                    ),
                    Seq::empty(),
                ),
            }
        } else {
            (unchanged, Seq::empty())
        },
        SlotEvent::ActivationSucceeded { activation_id, lease, .. } => (
            unchanged,
            seq![stale_retirement(activation_id, lease)],
        ),
        SlotEvent::ClaimActivation { dispatch_id, command, .. } => (
            unchanged,
            seq![SlotEffect::Reject { dispatch_id, command, reason: Refusal::Busy }],
        ),
        _ => (unchanged, Seq::empty()),
    }
}

/// Decision table of a slot whose admission is closed.
pub open spec fn draining_step<C, E, L>(slot: DrainingSlot<E, L>, event: SlotEvent<C, E, L>) -> (SlotModel<C, E, L>, Seq<SlotEffect<C, E, L>>) {
    let unchanged = SlotModel::Draining(slot);
    let current = |observed: ActivationId| observed == slot.activation_id;
    match event {
        SlotEvent::Dispatch { dispatch_id, command } => (
            unchanged,
            seq![SlotEffect::Reject { dispatch_id, command, reason: Refusal::Draining }],
        ),
        SlotEvent::ClaimActivation { dispatch_id, command, .. } => (
            unchanged,
            seq![SlotEffect::Reject { dispatch_id, command, reason: Refusal::Draining }],
        ),
        SlotEvent::DeliveryResolved { activation_id, failure } => if current(activation_id) {
            match slot.progress {
                DrainProgress::FenceAcknowledgement => (
                    unchanged,
                    failure_effects(failure, Refusal::Unavailable),
                ),
                DrainProgress::Reservations(n) => if n >= 2 {
                    (
                        SlotModel::Draining(
                            DrainingSlot { progress: DrainProgress::Reservations((n - 1) as usize), ..slot },
                        ),
                        failure_effects(failure, Refusal::Unavailable),
                    )
                } else {
                    (
                        SlotModel::Draining(
                            DrainingSlot { progress: DrainProgress::FenceAcknowledgement, ..slot },
                        ),
                        failure_effects(failure, Refusal::Unavailable).push(
                            SlotEffect::EnqueueFence {
                                activation_id: slot.activation_id,
                                endpoint: slot.endpoint,
                            },
                        ),
                    )
                },
            }
        } else {
            (unchanged, failure_effects(failure, Refusal::Unavailable))
        },
        SlotEvent::FenceAcknowledged { activation_id } => if current(activation_id)
            && slot.progress is FenceAcknowledgement {
            (
                SlotModel::Retiring { activation_id: slot.activation_id },
                seq![
                    SlotEffect::Retire {
                        activation_id: slot.activation_id,
                        lease: slot.lease,
                        retirement: RetirementMode::Graceful,
                    },
                ],
            )
        } else {
            (unchanged, Seq::empty())
        },
        SlotEvent::ForceDrain { activation_id, failure } => if current(activation_id) {
            (
                SlotModel::Retiring { activation_id: slot.activation_id },
                seq![
                    SlotEffect::Retire {
                        activation_id: slot.activation_id,
                        lease: slot.lease,
                        retirement: RetirementMode::Forced(failure),
                    },
                ],
            )
        } else {
            (unchanged, Seq::empty())
        },
        SlotEvent::ActivationSucceeded { activation_id, lease, .. } => (
            unchanged,
            seq![stale_retirement(activation_id, lease)],
        ),
        _ => (unchanged, Seq::empty()),
    }
}

/// Decision table of a slot awaiting exact termination.
pub open spec fn retiring_step<C, E, L>(activation_id: ActivationId, event: SlotEvent<C, E, L>) -> (SlotModel<C, E, L>, Seq<SlotEffect<C, E, L>>) {
    let unchanged = SlotModel::Retiring { activation_id };
    match event {
        SlotEvent::Terminated { activation_id: observed } => if observed == activation_id {
            (SlotModel::Inactive, seq![SlotEffect::Remove { activation_id }])
        } else {
            (unchanged, Seq::empty())
        },
        SlotEvent::Dispatch { dispatch_id, command } => (
            unchanged,
            seq![SlotEffect::Reject { dispatch_id, command, reason: Refusal::Draining }],
        ),
        SlotEvent::ClaimActivation { dispatch_id, command, .. } => (
            unchanged,
            seq![SlotEffect::Reject { dispatch_id, command, reason: Refusal::Draining }],
        ),
        SlotEvent::ActivationSucceeded { activation_id: stale, lease, .. } => (
            unchanged,
            seq![stale_retirement(stale, lease)],
        ),
        SlotEvent::DeliveryResolved { failure, .. } => (
            unchanged,
            failure_effects(failure, Refusal::Unavailable),
        ),
        _ => (unchanged, Seq::empty()),
    }
}

/// The lifecycle decision table: successor and ordered effects.
pub open spec fn step_model<C, E, L>(slot: SlotModel<C, E, L>, event: SlotEvent<C, E, L>) -> (SlotModel<C, E, L>, Seq<SlotEffect<C, E, L>>) {
    match slot {
        SlotModel::Inactive => inactive_step(event),
        SlotModel::Activating { activation_id, waiters, waiter_limit } => activating_step(
            activation_id,
            waiters,
            waiter_limit,
            event,
        ),
        SlotModel::Active(s) => active_step(s, event),
        SlotModel::Draining(s) => draining_step(s, event),
        SlotModel::Retiring { activation_id } => retiring_step(activation_id, event),
    }
}

/// Successor state of the decision table.
pub open spec fn next_slot<C, E, L>(slot: SlotModel<C, E, L>, event: SlotEvent<C, E, L>) -> SlotModel<C, E, L> {
    step_model(slot, event).0
}

/// Ordered effects of the decision table.
pub open spec fn slot_effects<C, E, L>(slot: SlotModel<C, E, L>, event: SlotEvent<C, E, L>) -> Seq<SlotEffect<C, E, L>> {
    step_model(slot, event).1
}

/// Whether a decision installs the expected successor and the expected
/// effects, up to the cloning of endpoints.
pub open spec fn decision_is<C, E: Clone, L>(
    decision: SlotDecision<C, E, L>,
    state: SlotModel<C, E, L>,
    event: SlotEvent<C, E, L>,
) -> bool {
    &&& decision.state@ == next_slot(state, event)
    &&& effects_agree(decision.effects@, slot_effects(state, event))
}

/// An emitted effect agrees with the table's effect: equal, except that an
/// endpoint handed out may be a clone of the table's endpoint.
pub open spec fn effect_agrees<C, E: Clone, L>(actual: SlotEffect<C, E, L>, expected: SlotEffect<C, E, L>) -> bool {
    match (actual, expected) {
        (
            SlotEffect::Deliver { activation_id: a1, dispatch_id: d1, endpoint: e1, command: c1 },
            SlotEffect::Deliver { activation_id: a2, dispatch_id: d2, endpoint: e2, command: c2 },
        ) => a1 == a2 && d1 == d2 && c1 == c2 && cloned(e2, e1),
        (
            SlotEffect::EnqueueFence { activation_id: a1, endpoint: e1 },
            SlotEffect::EnqueueFence { activation_id: a2, endpoint: e2 },
        ) => a1 == a2 && cloned(e2, e1),
        _ => actual == expected,
    }
}

/// Element-wise agreement of two effect sequences.
pub open spec fn effects_agree<C, E: Clone, L>(actual: Seq<SlotEffect<C, E, L>>, expected: Seq<SlotEffect<C, E, L>>) -> bool {
    &&& actual.len() == expected.len()
    &&& forall|i: int| 0 <= i < actual.len() ==> effect_agrees(#[trigger] actual[i], expected[i])
}

/// State after folding a sequence of facts through the decision table.
pub open spec fn fold_slot<C, E, L>(slot: SlotModel<C, E, L>, events: Seq<SlotEvent<C, E, L>>) -> SlotModel<C, E, L>
    decreases events.len(),
{
    if events.len() == 0 {
        slot
    } else {
        next_slot(fold_slot(slot, events.drop_last()), events.last())
    }
}

/// Concatenated effects of folding a sequence of facts.
pub open spec fn fold_effects<C, E, L>(slot: SlotModel<C, E, L>, events: Seq<SlotEvent<C, E, L>>) -> Seq<SlotEffect<C, E, L>>
    decreases events.len(),
{
    if events.len() == 0 {
        Seq::empty()
    } else {
        fold_effects(slot, events.drop_last()) + slot_effects(
            fold_slot(slot, events.drop_last()),
            events.last(),
        )
    }
}

/// Every fact of the sequence is admitted by the state it reaches.
pub open spec fn all_admitted<C, E, L>(slot: SlotModel<C, E, L>, events: Seq<SlotEvent<C, E, L>>) -> bool {
    forall|i: int| 0 <= i < events.len() ==> admits(fold_slot(slot, #[trigger] events.take(i)), events[i])
}

/// Folding a prefix one fact longer steps the fold of the shorter prefix.
pub proof fn lemma_fold_prefix<C, E, L>(slot: SlotModel<C, E, L>, events: Seq<SlotEvent<C, E, L>>, n: int)
    requires
        0 <= n <= events.len(),
    ensures
        n > 0 ==> fold_slot(slot, events.take(n)) == next_slot(fold_slot(slot, events.take(n - 1)), events[n - 1]),
        n > 0 ==> fold_effects(slot, events.take(n)) == fold_effects(slot, events.take(n - 1)) + slot_effects(
            fold_slot(slot, events.take(n - 1)),
            events[n - 1],
        ),
        fold_slot(slot, events.take(0)) == slot,
        fold_effects(slot, events.take(0)) == Seq::<SlotEffect<C, E, L>>::empty(),
{
    assert(events.take(0) =~= Seq::<SlotEvent<C, E, L>>::empty());
    if n > 0 {
        assert(events.take(n).drop_last() =~= events.take(n - 1));
    }
}

/// Agreement is preserved by concatenation.
pub proof fn lemma_effects_agree_concat<C, E: Clone, L>(
    a: Seq<SlotEffect<C, E, L>>,
    ea: Seq<SlotEffect<C, E, L>>,
    b: Seq<SlotEffect<C, E, L>>,
    eb: Seq<SlotEffect<C, E, L>>,
)
    requires
        effects_agree(a, ea),
        effects_agree(b, eb),
    ensures
        effects_agree(a + b, ea + eb),
{
    assert forall|i: int| 0 <= i < (a + b).len() implies effect_agrees(#[trigger] (a + b)[i], (ea + eb)[i]) by {
        if i < a.len() {
            assert(effect_agrees(a[i], ea[i]));
        } else {
            assert(effect_agrees(b[i - a.len()], eb[i - a.len()]));
        }
    }
}

} // verus!
