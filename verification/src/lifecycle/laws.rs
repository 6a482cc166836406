//! Properties that every decision of the lifecycle table keeps.

use vstd::prelude::*;

use super::machine::{
    all_edges, declared_edge, edge_endpoints, edge_transition, evidence_of, first_edge_with,
    lifecycle_transitions, lifecycle_vertices, phase_vertex, declares_lifecycle, reopens_admission,
    LifecycleEdge, LifecyclePhase, TransitionEvidence,
};
use super::model::{
    event_activation, event_wf, next_slot, phase_of, slot_activation, slot_effects, slot_wf,
    stale_retirement, admits, handles_event, deliveries, refusals, failure_effects, fold_slot, fold_effects, reserved, released, SlotModel,
};
use super::{ActivationId, ActivationWaiter, ActiveSlot, DispatchId, Refusal, ReservationCount, SlotEffect, SlotEvent};
use crate::topology::{has_transition, transition_matches, Topology};

verus! {

/// Commands retained by a state, in arrival order.
pub open spec fn slot_commands<C, E, L>(slot: SlotModel<C, E, L>) -> Seq<C> {
    match slot {
        SlotModel::Activating { waiters, .. } => waiters.map_values(|w: ActivationWaiter<C>| w.command),
        _ => Seq::empty(),
    }
}

/// Commands carried into the slot by a fact.
pub open spec fn event_commands<C, E, L>(event: SlotEvent<C, E, L>) -> Seq<C> {
    match event {
        SlotEvent::ClaimActivation { command, .. } => seq![command],
        SlotEvent::Dispatch { command, .. } => seq![command],
        SlotEvent::DeliveryResolved { failure: Some((_, command)), .. } => seq![command],
        _ => Seq::empty(),
    }
}

/// Commands handed out by one effect.
pub open spec fn effect_commands<C, E, L>(effect: SlotEffect<C, E, L>) -> Seq<C> {
    match effect {
        SlotEffect::Deliver { command, .. } => seq![command],
        SlotEffect::Reject { command, .. } => seq![command],
        _ => Seq::empty(),
    }
}

/// Commands handed out by a sequence of effects, in order.
pub open spec fn effects_commands<C, E, L>(effects: Seq<SlotEffect<C, E, L>>) -> Seq<C>
    decreases effects.len(),
{
    if effects.len() == 0 {
        Seq::empty()
    } else {
        effects_commands(effects.drop_last()) + effect_commands(effects.last())
    }
}

/// Retirement capability held by a state.
pub open spec fn slot_leases<C, E, L>(slot: SlotModel<C, E, L>) -> Seq<L> {
    match slot {
        SlotModel::Active(s) => seq![s.lease],
        SlotModel::Draining(s) => seq![s.lease],
        _ => Seq::empty(),
    }
}

/// Retirement capability carried into the slot by a fact.
pub open spec fn event_leases<C, E, L>(event: SlotEvent<C, E, L>) -> Seq<L> {
    match event {
        SlotEvent::ActivationSucceeded { lease, .. } => seq![lease],
        _ => Seq::empty(),
    }
}

/// Retirement capabilities handed out by a sequence of effects, in order.
pub open spec fn effects_leases<C, E, L>(effects: Seq<SlotEffect<C, E, L>>) -> Seq<L>
    decreases effects.len(),
{
    if effects.len() == 0 {
        Seq::empty()
    } else {
        effects_leases(effects.drop_last()) + match effects.last() {
            SlotEffect::Retire { lease, .. } => seq![lease],
            _ => Seq::empty(),
        }
    }
}

proof fn lemma_effects_commands_push<C, E, L>(effects: Seq<SlotEffect<C, E, L>>, effect: SlotEffect<C, E, L>)
    ensures
        effects_commands(effects.push(effect)) == effects_commands(effects) + effect_commands(effect),
{
    assert(effects.push(effect).drop_last() =~= effects);
}

proof fn lemma_effects_commands_one<C, E, L>(effect: SlotEffect<C, E, L>)
    ensures
        effects_commands(seq![effect]) == effect_commands(effect),
{
    lemma_effects_commands_push(Seq::<SlotEffect<C, E, L>>::empty(), effect);
    assert(Seq::<SlotEffect<C, E, L>>::empty().push(effect) =~= seq![effect]);
    assert(Seq::<C>::empty() + effect_commands(effect) =~= effect_commands(effect));
}

proof fn lemma_effects_leases_one<C, E, L>(effect: SlotEffect<C, E, L>)
    ensures
        effects_leases(seq![effect]) == match effect {
            SlotEffect::Retire { lease, .. } => seq![lease],
            _ => Seq::<L>::empty(),
        },
{
    assert(seq![effect].drop_last() =~= Seq::<SlotEffect<C, E, L>>::empty());
    reveal_with_fuel(effects_leases, 2);
    assert(Seq::<L>::empty() + effects_leases(seq![effect]).subrange(0, 0) =~= Seq::<L>::empty());
    match effect {
        SlotEffect::Retire { lease, .. } => assert(Seq::<L>::empty() + seq![lease] =~= seq![lease]),
        _ => assert(Seq::<L>::empty() + Seq::<L>::empty() =~= Seq::<L>::empty()),
    }
}

proof fn lemma_deliveries_commands<C, E, L>(
    activation_id: super::ActivationId,
    endpoint: E,
    waiters: Seq<ActivationWaiter<C>>,
)
    ensures
        effects_commands(deliveries::<C, E, L>(activation_id, endpoint, waiters)) == waiters.map_values(
            |w: ActivationWaiter<C>| w.command,
        ),
        effects_leases(deliveries::<C, E, L>(activation_id, endpoint, waiters)) == Seq::<L>::empty(),
    decreases waiters.len(),
{
    let d = deliveries::<C, E, L>(activation_id, endpoint, waiters);
    if waiters.len() > 0 {
        let rest = waiters.drop_last();
        lemma_deliveries_commands::<C, E, L>(activation_id, endpoint, rest);
        assert(d.drop_last() =~= deliveries::<C, E, L>(activation_id, endpoint, rest));
        assert(waiters.map_values(|w: ActivationWaiter<C>| w.command) =~= rest.map_values(
            |w: ActivationWaiter<C>| w.command,
        ).push(waiters.last().command));
        assert(Seq::<L>::empty() + Seq::<L>::empty() =~= Seq::<L>::empty());
    } else {
        assert(d =~= Seq::<SlotEffect<C, E, L>>::empty());
        assert(waiters.map_values(|w: ActivationWaiter<C>| w.command) =~= Seq::<C>::empty());
    }
}

proof fn lemma_refusals_commands<C, E, L>(waiters: Seq<ActivationWaiter<C>>)
    ensures
        effects_commands(refusals::<C, E, L>(waiters)) == waiters.map_values(|w: ActivationWaiter<C>| w.command),
        effects_leases(refusals::<C, E, L>(waiters)) == Seq::<L>::empty(),
    decreases waiters.len(),
{
    let r = refusals::<C, E, L>(waiters);
    if waiters.len() > 0 {
        let rest = waiters.drop_last();
        lemma_refusals_commands::<C, E, L>(rest);
        assert(r.drop_last() =~= refusals::<C, E, L>(rest));
        assert(waiters.map_values(|w: ActivationWaiter<C>| w.command) =~= rest.map_values(
            |w: ActivationWaiter<C>| w.command,
        ).push(waiters.last().command));
        assert(Seq::<L>::empty() + Seq::<L>::empty() =~= Seq::<L>::empty());
    } else {
        assert(r =~= Seq::<SlotEffect<C, E, L>>::empty());
        assert(waiters.map_values(|w: ActivationWaiter<C>| w.command) =~= Seq::<C>::empty());
    }
}

proof fn lemma_failure_commands<C, E, L>(failure: Option<(DispatchId, C)>, reason: Refusal)
    ensures
        effects_commands(failure_effects::<C, E, L>(failure, reason)) == match failure {
            Some((_, command)) => seq![command],
            None => Seq::<C>::empty(),
        },
        effects_leases(failure_effects::<C, E, L>(failure, reason)) == Seq::<L>::empty(),
{
    match failure {
        Some((dispatch_id, command)) => {
            lemma_effects_commands_one(SlotEffect::<C, E, L>::Reject { dispatch_id, command, reason });
            lemma_effects_leases_one(SlotEffect::<C, E, L>::Reject { dispatch_id, command, reason });
        },
        None => {},
    }
}

/// A fact addressed to another incarnation than the slot's own never changes
/// the slot: a stale activation success only hands back its own lease for
/// retirement, and a stale delivery result only returns its command as
/// unavailable.
pub proof fn lemma_stale_facts_preserve_slot<C, E, L>(slot: SlotModel<C, E, L>, event: SlotEvent<C, E, L>)
    requires
        event_activation(event) is Some,
        slot_activation(slot) != event_activation(event),
    ensures
        next_slot(slot, event) == slot,
        event matches SlotEvent::ActivationSucceeded { activation_id, lease, .. } ==> slot_effects(slot, event)
            == seq![stale_retirement::<C, E, L>(activation_id, lease)],
        event matches SlotEvent::DeliveryResolved { failure, .. } ==> slot_effects(slot, event)
            == failure_effects::<C, E, L>(failure, Refusal::Unavailable),
        !(event is ActivationSucceeded || event is DeliveryResolved) ==> slot_effects(slot, event) == Seq::<
            SlotEffect<C, E, L>,
        >::empty(),
{
}

/// A successful activation that is not the slot's own in-flight activation
/// never replaces the slot's state, and its exact lease is retired.
pub proof fn lemma_stale_activation_retires_its_lease<C, E, L>(
    slot: SlotModel<C, E, L>,
    activation_id: super::ActivationId,
    endpoint: E,
    lease: L,
)
    requires
        !(slot matches SlotModel::Activating { activation_id: current, .. } && current == activation_id),
    ensures
        next_slot(slot, SlotEvent::ActivationSucceeded { activation_id, endpoint, lease }) == slot,
        slot_effects(slot, SlotEvent::ActivationSucceeded { activation_id, endpoint, lease }) == seq![
            stale_retirement::<C, E, L>(activation_id, lease),
        ],
{
}

/// Once admission is closed, every command is refused as draining and the
/// state does not change.
pub proof fn lemma_closed_admission_refuses<C, E, L>(
    slot: SlotModel<C, E, L>,
    dispatch_id: DispatchId,
    command: C,
    claim: Option<(super::ActivationId, usize)>,
)
    requires
        slot is Draining || slot is Retiring,
    ensures
        ({
            let event = match claim {
                Some((activation_id, waiter_limit)) => SlotEvent::<C, E, L>::ClaimActivation {
                    activation_id,
                    dispatch_id,
                    command,
                    waiter_limit,
                },
                None => SlotEvent::<C, E, L>::Dispatch { dispatch_id, command },
            };
            &&& next_slot(slot, event) == slot
            &&& slot_effects(slot, event) == seq![
                SlotEffect::<C, E, L>::Reject { dispatch_id, command, reason: Refusal::Draining },
            ]
        }),
{
}

/// Admission never reopens: a draining slot only drains or retires, and a
/// retiring slot only retires or becomes inactive.
pub proof fn lemma_admission_never_reopens<C, E, L>(slot: SlotModel<C, E, L>, event: SlotEvent<C, E, L>)
    ensures
        slot is Draining ==> (next_slot(slot, event) is Draining || next_slot(slot, event) is Retiring),
        slot is Retiring ==> (next_slot(slot, event) is Retiring || next_slot(slot, event) is Inactive),
{
}

/// Every decision keeps the slot invariant: the waiter set never exceeds its
/// non-zero bound and recorded counts stay non-zero.
pub proof fn lemma_decisions_keep_slot_wf<C, E, L>(slot: SlotModel<C, E, L>, event: SlotEvent<C, E, L>)
    requires
        slot_wf(slot),
        event_wf(event),
        admits(slot, event),
    ensures
        slot_wf(next_slot(slot, event)),
{
    if let SlotModel::Activating { activation_id, waiters, waiter_limit } = slot {
        if let SlotEvent::CancelWaiter { activation_id: observed, dispatch_id } = event {
            waiters.lemma_filter_len(|w: ActivationWaiter<C>| w.dispatch_id != dispatch_id);
        }
    }
}

/// Only claiming an inactive slot starts an activation: concurrent demand
/// shares the one activation in flight.
pub proof fn lemma_single_flight_activation<C, E, L>(slot: SlotModel<C, E, L>, event: SlotEvent<C, E, L>)
    ensures
        (exists|i: int|
            0 <= i < slot_effects(slot, event).len() && #[trigger] slot_effects(slot, event)[i] is StartActivation)
            ==> slot is Inactive && event is ClaimActivation,
{
    let effects = slot_effects(slot, event);
    if exists|i: int| 0 <= i < effects.len() && #[trigger] effects[i] is StartActivation {
        let i = choose|i: int| 0 <= i < effects.len() && #[trigger] effects[i] is StartActivation;
        if let SlotModel::Activating { activation_id, waiters, waiter_limit } = slot {
            if let SlotEvent::ActivationSucceeded { activation_id: observed, endpoint, lease } = event {
                if observed == activation_id {
                    assert(effects[i] is Deliver);
                }
            }
            if let SlotEvent::ActivationFailed { activation_id: observed } = event {
                if observed == activation_id {
                    if i < waiters.len() {
                        assert(effects[i] is Reject);
                    }
                }
            }
        }
    }
}

/// Commands are never duplicated, and none is lost except where a canceled
/// waiter's caller withdrew it: the commands held before a decision, followed by
/// the fact's command, are exactly the commands held after it followed by the
/// commands handed out in its effects, in order.
pub proof fn lemma_commands_conserved<C, E, L>(slot: SlotModel<C, E, L>, event: SlotEvent<C, E, L>)
    requires
        !(event is CancelWaiter),
    ensures
        slot_commands(slot) + event_commands(event) == slot_commands(next_slot(slot, event))
            + effects_commands(slot_effects(slot, event)),
{
    let next = next_slot(slot, event);
    let effects = slot_effects(slot, event);
    reveal_with_fuel(effects_commands, 2);
    match slot {
        SlotModel::Activating { activation_id, waiters, waiter_limit } => {
            let cmds = waiters.map_values(|w: ActivationWaiter<C>| w.command);
            match event {
                SlotEvent::Dispatch { dispatch_id, command } => {
                    if waiters.len() < waiter_limit {
                        assert(waiters.push(ActivationWaiter { dispatch_id, command }).map_values(
                            |w: ActivationWaiter<C>| w.command,
                        ) =~= cmds.push(command));
                        assert(effects =~= Seq::<SlotEffect<C, E, L>>::empty());
                    } else {
                        lemma_effects_commands_one(effects[0]);
                        assert(effects =~= seq![effects[0]]);
                    }
                    assert(slot_commands(slot) + event_commands(event) =~= slot_commands(next)
                        + effects_commands(effects));
                },
                SlotEvent::ClaimActivation { .. } => {
                    assert(effects =~= seq![effects[0]]);
                    lemma_effects_commands_one(effects[0]);
                    assert(slot_commands(slot) + event_commands(event) =~= slot_commands(next)
                        + effects_commands(effects));
                },
                SlotEvent::ActivationSucceeded { activation_id: observed, endpoint, lease } => {
                    if observed == activation_id {
                        lemma_deliveries_commands::<C, E, L>(activation_id, endpoint, waiters);
                    } else {
                        lemma_effects_commands_one(effects[0]);
                        assert(effects =~= seq![effects[0]]);
                    }
                    assert(slot_commands(slot) + event_commands(event) =~= slot_commands(next)
                        + effects_commands(effects));
                },
                SlotEvent::ActivationFailed { activation_id: observed } => {
                    if observed == activation_id {
                        lemma_refusals_commands::<C, E, L>(waiters);
                        lemma_effects_commands_push(
                            refusals::<C, E, L>(waiters),
                            SlotEffect::Remove { activation_id },
                        );
                    }
                    assert(slot_commands(slot) + event_commands(event) =~= slot_commands(next)
                        + effects_commands(effects));
                },
                SlotEvent::DeliveryResolved { failure, .. } => {
                    lemma_failure_commands::<C, E, L>(failure, Refusal::Unavailable);
                    assert(slot_commands(slot) + event_commands(event) =~= slot_commands(next)
                        + effects_commands(effects));
                },
                _ => {
                    assert(slot_commands(slot) + event_commands(event) =~= slot_commands(next)
                        + effects_commands(effects));
                },
            }
        },
        _ => {
            match event {
                SlotEvent::DeliveryResolved { failure, .. } => {
                    lemma_failure_commands::<C, E, L>(failure, Refusal::Unavailable);
                    if let SlotModel::Draining(s) = slot {
                        if let super::DrainProgress::Reservations(n) = s.progress {
                            if n < 2 && event_activation(event) == Some(s.activation_id) {
                                lemma_effects_commands_push(
                                    failure_effects::<C, E, L>(failure, Refusal::Unavailable),
                                    effects.last(),
                                );
                                assert(effects =~= failure_effects::<C, E, L>(failure, Refusal::Unavailable).push(
                                    effects.last(),
                                ));
                            }
                        }
                    }
                },
                _ => {
                    if effects.len() == 1 {
                        assert(effects =~= seq![effects[0]]);
                        lemma_effects_commands_one(effects[0]);
                    }
                },
            }
            assert(slot_commands(slot) + event_commands(event) =~= slot_commands(next) + effects_commands(
                effects,
            ));
        },
    }
}

proof fn lemma_effects_leases_push<C, E, L>(effects: Seq<SlotEffect<C, E, L>>, effect: SlotEffect<C, E, L>)
    ensures
        effects_leases(effects.push(effect)) == effects_leases(effects) + match effect {
            SlotEffect::Retire { lease, .. } => seq![lease],
            _ => Seq::<L>::empty(),
        },
{
    assert(effects.push(effect).drop_last() =~= effects);
}

/// Retirement capabilities are affine: each one held before a decision or
/// carried in by its fact is, after it, either still held or handed out for
/// retirement exactly once, in order.
pub proof fn lemma_leases_conserved<C, E, L>(slot: SlotModel<C, E, L>, event: SlotEvent<C, E, L>)
    ensures
        slot_leases(slot) + event_leases(event) == slot_leases(next_slot(slot, event)) + effects_leases(
            slot_effects(slot, event),
        ),
{
    let next = next_slot(slot, event);
    let effects = slot_effects(slot, event);
    reveal_with_fuel(effects_leases, 1);
    if effects.len() == 1 {
        assert(effects =~= seq![effects[0]]);
        lemma_effects_leases_one(effects[0]);
    }
    match slot {
        SlotModel::Activating { activation_id, waiters, .. } => {
            match event {
                SlotEvent::ActivationSucceeded { activation_id: observed, endpoint, lease } => {
                    if observed == activation_id {
                        lemma_deliveries_commands::<C, E, L>(activation_id, endpoint, waiters);
                    }
                },
                SlotEvent::ActivationFailed { activation_id: observed } => {
                    if observed == activation_id {
                        lemma_refusals_commands::<C, E, L>(waiters);
                        lemma_effects_leases_push(refusals::<C, E, L>(waiters), SlotEffect::Remove { activation_id });
                    }
                },
                SlotEvent::DeliveryResolved { failure, .. } => {
                    lemma_failure_commands::<C, E, L>(failure, Refusal::Unavailable);
                },
                _ => {},
            }
        },
        SlotModel::Draining(s) => {
            if let SlotEvent::DeliveryResolved { failure, .. } = event {
                lemma_failure_commands::<C, E, L>(failure, Refusal::Unavailable);
                if let super::DrainProgress::Reservations(n) = s.progress {
                    if n < 2 && event_activation(event) == Some(s.activation_id) {
                        assert(effects =~= failure_effects::<C, E, L>(failure, Refusal::Unavailable).push(
                            effects.last(),
                        ));
                        lemma_effects_leases_push(
                            failure_effects::<C, E, L>(failure, Refusal::Unavailable),
                            effects.last(),
                        );
                    }
                }
            }
        },
        SlotModel::Active(_) => {
            if let SlotEvent::DeliveryResolved { failure, .. } = event {
                lemma_failure_commands::<C, E, L>(failure, Refusal::Unavailable);
            }
        },
        _ => {},
    }
    assert(slot_leases(slot) + event_leases(event) =~= slot_leases(next) + effects_leases(effects));
}

/// Every phase change carries the evidence of exactly the declared edge it
/// traversed, and that edge is one of the lifecycle's declared edges; a
/// decision that keeps the phase is a self-loop exactly when the phase
/// handles the fact, and ignored otherwise.
pub proof fn lemma_traversed_edge_is_declared<C, E, L>(slot: SlotModel<C, E, L>, event: SlotEvent<C, E, L>)
    ensures
        evidence_of(slot, event) matches TransitionEvidence::Traversed(edge) ==> {
            &&& edge_endpoints(edge) == (
                phase_of(slot),
                super::model::trigger_of(event),
                phase_of(next_slot(slot, event)),
            )
            &&& all_edges().contains(edge)
        },
        evidence_of(slot, event) is Traversed <==> phase_of(next_slot(slot, event)) != phase_of(slot),
        evidence_of(slot, event) is SelfLoop ==> handles_event(slot, event),
        evidence_of(slot, event) is Ignored ==> !handles_event(slot, event),
{
    super::machine::lemma_phase_change_is_declared(slot, event);
    reveal_with_fuel(first_edge_with, 8);
    if let TransitionEvidence::Traversed(edge) = evidence_of(slot, event) {
        let i = choose|i: int| 0 <= i < 7 && all_edges()[i] == edge;
        assert(all_edges()[i] == edge);
    }
}

/// The authoritative lifecycle topology declares every lifecycle edge and no
/// edge from retiring back to active, so it passes lifecycle validation.
pub proof fn lemma_lifecycle_topology_complete(t: Topology)
    requires
        t.initial == phase_vertex(LifecyclePhase::Inactive),
        t.vertices@ == lifecycle_vertices(),
        t.transitions@ == lifecycle_transitions(),
    ensures
        crate::topology::topology_valid(t),
        declares_lifecycle(t),
        !reopens_admission(t),
{
    super::machine::lemma_lifecycle_topology_valid(t);
    let es = t.transitions@;
    assert forall|i: int| 0 <= i < 7 implies #[trigger] has_transition(t, edge_transition(all_edges()[i])) by {
        assert(es[i] == edge_transition(all_edges()[i]));
        assert(transition_matches(es[i], edge_transition(all_edges()[i])));
    }
    assert forall|k: int| 0 <= k < es.len() implies !(#[trigger] es[k].from == phase_vertex(LifecyclePhase::Retiring)
        && es[k].to == phase_vertex(LifecyclePhase::Active)) by {
        assert(es[k] == edge_transition(all_edges()[k]));
    }
}

/// The slot and fact from which the processing fence may be requested: an
/// active slot with nothing reserved closing admission, or a draining slot
/// resolving its last reservation.
pub open spec fn fence_may_follow<C, E, L>(slot: SlotModel<C, E, L>, event: SlotEvent<C, E, L>) -> bool {
    match slot {
        SlotModel::Active(a) => a.reservations == super::ReservationCount::Drained && event
            == SlotEvent::<C, E, L>::BeginDrain { activation_id: a.activation_id },
        SlotModel::Draining(d) => d.progress == super::DrainProgress::Reservations(1) && event is DeliveryResolved
            && event_activation(event) == Some(d.activation_id),
        _ => false,
    }
}

/// The slot and fact from which graceful retirement may follow: a draining
/// slot whose fence was requested receiving its own acknowledgement.
pub open spec fn graceful_may_follow<C, E, L>(slot: SlotModel<C, E, L>, event: SlotEvent<C, E, L>) -> bool {
    match slot {
        SlotModel::Draining(d) => d.progress == super::DrainProgress::FenceAcknowledgement && event
            == SlotEvent::<C, E, L>::FenceAcknowledged { activation_id: d.activation_id },
        _ => false,
    }
}

/// The processing fence is requested only once no admitted delivery is
/// outstanding, and graceful retirement is granted only after the fence of
/// the exact incarnation was acknowledged.
pub proof fn lemma_fence_follows_reservations<C, E, L>(slot: SlotModel<C, E, L>, event: SlotEvent<C, E, L>)
    requires
        slot_wf(slot),
    ensures
        (exists|i: int|
            0 <= i < slot_effects(slot, event).len() && #[trigger] slot_effects(slot, event)[i] is EnqueueFence)
            ==> fence_may_follow(slot, event) && (next_slot(slot, event) matches SlotModel::Draining(d)
            && d.progress == super::DrainProgress::FenceAcknowledgement),
        (exists|i: int|
            0 <= i < slot_effects(slot, event).len() && #[trigger] slot_effects(slot, event)[i]
                matches SlotEffect::Retire { retirement: super::RetirementMode::Graceful, .. })
            ==> graceful_may_follow(slot, event) && next_slot(slot, event) is Retiring,
{
    let effects = slot_effects(slot, event);
    if let SlotModel::Activating { activation_id, waiters, waiter_limit } = slot {
        if let SlotEvent::ActivationSucceeded { activation_id: observed, endpoint, lease } = event {
            if observed == activation_id {
                assert forall|i: int| 0 <= i < effects.len() implies (#[trigger] effects[i]) is Deliver by {}
            }
        }
        if let SlotEvent::ActivationFailed { activation_id: observed } = event {
            if observed == activation_id {
                assert forall|i: int| 0 <= i < effects.len() implies (#[trigger] effects[i]) is Reject
                    || effects[i] is Remove by {
                    if i < waiters.len() {
                        assert(effects[i] is Reject);
                    }
                }
            }
        }
    }
}

/// Folding a sequence of facts is a left fold of the decision table: no fact
/// leaves the slot as it was with no effect, and one more fact decides from the
/// state the earlier facts reached, its effects following theirs.
pub proof fn lemma_fold_one_step<C, E, L>(
    slot: SlotModel<C, E, L>,
    events: Seq<SlotEvent<C, E, L>>,
    event: SlotEvent<C, E, L>,
)
    ensures
        fold_slot(slot, Seq::<SlotEvent<C, E, L>>::empty()) == slot,
        fold_effects(slot, Seq::<SlotEvent<C, E, L>>::empty()) == Seq::<SlotEffect<C, E, L>>::empty(),
        fold_slot(slot, events.push(event)) == next_slot(fold_slot(slot, events), event),
        fold_effects(slot, events.push(event)) == fold_effects(slot, events) + slot_effects(
            fold_slot(slot, events),
            event,
        ),
{
    assert(events.push(event).drop_last() =~= events);
}

/// Reserving a delivery and then resolving it restores the reservation count,
/// and resolving with nothing reserved leaves nothing reserved.
pub proof fn lemma_reserve_then_release(count: ReservationCount)
    requires
        count != ReservationCount::Pending(usize::MAX),
        count matches ReservationCount::Pending(n) ==> n > 0,
    ensures
        released(reserved(count)) == count,
        released(ReservationCount::Drained) == ReservationCount::Drained,
        released(ReservationCount::Pending(1)) == ReservationCount::Drained,
{
}

/// An admitted dispatch to the current incarnation, followed by the result of
/// its delivery, leaves an active slot as it was: the command is delivered to
/// the committed endpoint, and only a failed delivery returns it, as
/// unavailable.
pub proof fn lemma_dispatch_then_resolution_restores_active<C, E, L>(
    slot: ActiveSlot<E, L>,
    dispatch_id: DispatchId,
    command: C,
    failure: Option<(DispatchId, C)>,
)
    requires
        slot_wf(SlotModel::<C, E, L>::Active(slot)),
        admits(SlotModel::<C, E, L>::Active(slot), SlotEvent::<C, E, L>::Dispatch { dispatch_id, command }),
    ensures
        ({
            let dispatched = next_slot(SlotModel::<C, E, L>::Active(slot), SlotEvent::<C, E, L>::Dispatch { dispatch_id, command });
            let resolution = SlotEvent::<C, E, L>::DeliveryResolved { activation_id: slot.activation_id, failure };
            &&& slot_effects(SlotModel::<C, E, L>::Active(slot), SlotEvent::<C, E, L>::Dispatch { dispatch_id, command })
                == seq![SlotEffect::<C, E, L>::Deliver {
                    activation_id: slot.activation_id,
                    dispatch_id,
                    endpoint: slot.endpoint,
                    command,
                }]
            &&& next_slot(dispatched, resolution) == SlotModel::<C, E, L>::Active(slot)
            &&& slot_effects(dispatched, resolution) == failure_effects::<C, E, L>(failure, Refusal::Unavailable)
        }),
{
    lemma_reserve_then_release(slot.reservations);
}

/// An incarnation's identity never changes while the slot represents it, and
/// an idle slot acquires an identity only by claiming the activation that the
/// claim names.
pub proof fn lemma_incarnation_identity_is_stable<C, E, L>(slot: SlotModel<C, E, L>, event: SlotEvent<C, E, L>)
    ensures
        slot_activation(slot) is Some && slot_activation(next_slot(slot, event)) is Some ==> slot_activation(
            next_slot(slot, event),
        ) == slot_activation(slot),
        slot is Inactive && slot_activation(next_slot(slot, event)) is Some ==> (event matches SlotEvent::ClaimActivation {
            activation_id,
            ..
        } && slot_activation(next_slot(slot, event)) == Some(activation_id)),
{
}

/// Canceling a waiter hands out no command: a cancel of the activation in
/// flight withdraws exactly the commands of the waiters with the canceled
/// dispatch identity, the others staying in arrival order, and any other
/// cancel leaves the slot as it was.
pub proof fn lemma_cancel_withdraws_only_the_canceled_waiters<C, E, L>(
    slot: SlotModel<C, E, L>,
    activation_id: ActivationId,
    dispatch_id: DispatchId,
)
    ensures
        ({
            let cancel = SlotEvent::<C, E, L>::CancelWaiter { activation_id, dispatch_id };
            &&& slot_effects(slot, cancel) == Seq::<SlotEffect<C, E, L>>::empty()
            &&& event_commands(cancel) == Seq::<C>::empty()
            &&& slot matches SlotModel::Activating { activation_id: current, waiters, .. } ==> (current
                == activation_id ==> slot_commands(next_slot(slot, cancel)) == waiters.filter(
                |w: ActivationWaiter<C>| w.dispatch_id != dispatch_id,
            ).map_values(|w: ActivationWaiter<C>| w.command))
            &&& !(slot matches SlotModel::Activating { activation_id: current, .. } && current == activation_id)
                ==> next_slot(slot, cancel) == slot
        }),
{
}

/// A failed activation returns every waiting command to its caller as
/// unavailable, in arrival order, and only then asks for the slot's removal;
/// the slot becomes inactive.
pub proof fn lemma_failed_activation_returns_waiters_as_unavailable<C, E, L>(
    activation_id: ActivationId,
    waiters: Seq<ActivationWaiter<C>>,
    waiter_limit: usize,
)
    ensures
        ({
            let slot = SlotModel::<C, E, L>::Activating { activation_id, waiters, waiter_limit };
            let failed = SlotEvent::<C, E, L>::ActivationFailed { activation_id };
            let effects = slot_effects(slot, failed);
            &&& next_slot(slot, failed) == SlotModel::<C, E, L>::Inactive
            &&& effects.len() == waiters.len() + 1
            &&& forall|i: int|
                0 <= i < waiters.len() ==> #[trigger] effects[i] == SlotEffect::<C, E, L>::Reject {
                    dispatch_id: waiters[i].dispatch_id,
                    command: waiters[i].command,
                    reason: Refusal::Unavailable,
                }
            &&& effects[waiters.len() as int] == SlotEffect::<C, E, L>::Remove { activation_id }
        }),
{
}

/// A fact bound to another incarnation than the slot's own is never handled:
/// it leaves the phase unchanged and its evidence says it was ignored.
pub proof fn lemma_stale_facts_are_ignored<C, E, L>(slot: SlotModel<C, E, L>, event: SlotEvent<C, E, L>)
    requires
        event_activation(event) is Some,
        event_activation(event) != slot_activation(slot),
    ensures
        !handles_event(slot, event),
        evidence_of(slot, event) == (TransitionEvidence::Ignored {
            phase: phase_of(slot),
            trigger: super::model::trigger_of(event),
        }),
{
    lemma_stale_facts_preserve_slot(slot, event);
}

/// A topology accepted as declaring the lifecycle holds every lifecycle edge
/// exactly: a declared edge from its source phase, on its trigger, to its
/// destination phase, labelled with the trigger's name.
pub proof fn lemma_declared_lifecycle_holds_each_edge_exactly(t: Topology, edge: LifecycleEdge)
    requires
        declares_lifecycle(t),
    ensures
        exists|k: int|
            0 <= k < t.transitions@.len() && #[trigger] t.transitions@[k].from == phase_vertex(edge_endpoints(edge).0)
                && t.transitions@[k].trigger == super::machine::trigger_number(edge_endpoints(edge).1)
                && t.transitions@[k].to == phase_vertex(edge_endpoints(edge).2)
                && t.transitions@[k].label@ == super::machine::trigger_text(edge_endpoints(edge).1)@,
{
    let i: int = match edge {
        LifecycleEdge::ClaimActivation => 0,
        LifecycleEdge::ActivationSucceeded => 1,
        LifecycleEdge::ActivationFailed => 2,
        LifecycleEdge::BeginDrain => 3,
        LifecycleEdge::FenceAcknowledged => 4,
        LifecycleEdge::ForceDrain => 5,
        LifecycleEdge::Terminated => 6,
    };
    assert(all_edges()[i] == edge);
    assert(has_transition(t, edge_transition(all_edges()[i])));
    crate::topology::lemma_contained_edges_agree_exactly(t, edge_transition(edge));
}

/// A fact that changes the slot without changing its phase was handled, so
/// its evidence is a self-loop: only facts that leave the slot as it was are
/// reported as ignored.
pub proof fn lemma_state_changes_within_a_phase_are_self_loops<C, E, L>(
    slot: SlotModel<C, E, L>,
    event: SlotEvent<C, E, L>,
)
    requires
        phase_of(next_slot(slot, event)) == phase_of(slot),
        next_slot(slot, event) != slot,
    ensures
        handles_event(slot, event),
        evidence_of(slot, event) == (TransitionEvidence::SelfLoop {
            phase: phase_of(slot),
            trigger: super::model::trigger_of(event),
        }),
{
}

/// How a dispatched command is answered before admission closes: an idle
/// slot returns it as unavailable; an activating slot queues it last while
/// its waiter set has room and returns it as busy once full; an active slot
/// reserves it and delivers it to the committed endpoint.
pub proof fn lemma_dispatch_is_answered_by_phase<C, E, L>(slot: SlotModel<C, E, L>, dispatch_id: DispatchId, command: C)
    requires
        !(slot is Draining || slot is Retiring),
    ensures
        ({
            let event = SlotEvent::<C, E, L>::Dispatch { dispatch_id, command };
            let next = next_slot(slot, event);
            let effects = slot_effects(slot, event);
            match slot {
                SlotModel::Inactive => next == slot && effects == seq![
                    SlotEffect::<C, E, L>::Reject { dispatch_id, command, reason: Refusal::Unavailable },
                ],
                SlotModel::Activating { activation_id, waiters, waiter_limit } => if waiters.len() < waiter_limit {
                    next == (SlotModel::<C, E, L>::Activating {
                        activation_id,
                        waiters: waiters.push(ActivationWaiter { dispatch_id, command }),
                        waiter_limit,
                    }) && effects == Seq::<SlotEffect<C, E, L>>::empty()
                } else {
                    next == slot && effects == seq![
                        SlotEffect::<C, E, L>::Reject { dispatch_id, command, reason: Refusal::Busy },
                    ]
                },
                SlotModel::Active(s) => next == SlotModel::<C, E, L>::Active(
                    ActiveSlot { reservations: reserved(s.reservations), ..s },
                ) && effects == seq![
                    SlotEffect::<C, E, L>::Deliver {
                        activation_id: s.activation_id,
                        dispatch_id,
                        endpoint: s.endpoint,
                        command,
                    },
                ],
                _ => true,
            }
        }),
{
}

/// A second claim on a slot that is already activating or active is
/// returned as busy and changes nothing.
pub proof fn lemma_second_claim_is_busy<C, E, L>(
    slot: SlotModel<C, E, L>,
    activation_id: ActivationId,
    dispatch_id: DispatchId,
    command: C,
    waiter_limit: usize,
)
    requires
        slot is Activating || slot is Active,
    ensures
        ({
            let claim = SlotEvent::<C, E, L>::ClaimActivation { activation_id, dispatch_id, command, waiter_limit };
            &&& next_slot(slot, claim) == slot
            &&& slot_effects(slot, claim) == seq![
                SlotEffect::<C, E, L>::Reject { dispatch_id, command, reason: Refusal::Busy },
            ]
        }),
{
}

} // verus!
