//! Executable lifecycle machine, its phases, and its declared topology.

use vstd::prelude::*;

use super::model::{
    admits, effects_agree, handles_event, next_slot, phase_of, slot_activation, slot_effects,
    step_model, trigger_of, event_wf, slot_wf, SlotModel,
};
use super::{ActivationId, EntitySlot, SlotEffectBatch, SlotEvent, SlotReducer};
use crate::decision::Reducer;
use crate::machine::{CheckedMachine, Composition, Machine, Structure};
use crate::topology::{
    first_defect, has_transition, mermaid_text, topology_valid, RenderError, Topology, TopologyError, Transition,
    TriggerId, ValidatedTopology, Vertex, VertexId,
};

verus! {

/// Stable lifecycle phase identity.
#[derive(Debug, Clone, Copy, PartialEq, Eq, Structural, PartialOrd, Ord, Hash)]
pub enum LifecyclePhase {
    /// No incarnation exists.
    Inactive,
    /// One activation is in flight.
    Activating,
    /// An incarnation admits commands.
    Active,
    /// Admission is closed while processing drains.
    Draining,
    /// Exact termination is awaited.
    Retiring,
}

/// Topology identity of each phase, in declaration order.
pub open spec fn phase_vertex(phase: LifecyclePhase) -> VertexId {
    match phase {
        LifecyclePhase::Inactive => VertexId(0),
        LifecyclePhase::Activating => VertexId(1),
        LifecyclePhase::Active => VertexId(2),
        LifecyclePhase::Draining => VertexId(3),
        LifecyclePhase::Retiring => VertexId(4),
    }
}

impl LifecyclePhase {
    /// Return the topology identity of this phase.
    fn id(self) -> (id: VertexId)
        ensures
            id == phase_vertex(self),
    {
        match self {
            LifecyclePhase::Inactive => VertexId(0),
            LifecyclePhase::Activating => VertexId(1),
            LifecyclePhase::Active => VertexId(2),
            LifecyclePhase::Draining => VertexId(3),
            LifecyclePhase::Retiring => VertexId(4),
        }
    }
}

/// Stable identity of an input relevant to lifecycle topology.
#[derive(Debug, Clone, Copy, PartialEq, Eq, Structural, PartialOrd, Ord, Hash)]
pub enum LifecycleTrigger {
    /// Claim a fresh activation.
    ClaimActivation,
    /// Dispatch a command.
    Dispatch,
    /// Cancel an activation waiter.
    CancelWaiter,
    /// Activation committed.
    ActivationSucceeded,
    /// Activation failed.
    ActivationFailed,
    /// A reserved delivery resolved.
    DeliveryResolved,
    /// Close admission.
    BeginDrain,
    /// Processing fence acknowledged.
    FenceAcknowledged,
    /// Force bounded draining to finish.
    ForceDrain,
    /// Exact incarnation terminated.
    Terminated,
}

/// Topology identity of each trigger, in declaration order.
pub open spec fn trigger_number(trigger: LifecycleTrigger) -> TriggerId {
    match trigger {
        LifecycleTrigger::ClaimActivation => TriggerId(0),
        LifecycleTrigger::Dispatch => TriggerId(1),
        LifecycleTrigger::CancelWaiter => TriggerId(2),
        LifecycleTrigger::ActivationSucceeded => TriggerId(3),
        LifecycleTrigger::ActivationFailed => TriggerId(4),
        LifecycleTrigger::DeliveryResolved => TriggerId(5),
        LifecycleTrigger::BeginDrain => TriggerId(6),
        LifecycleTrigger::FenceAcknowledged => TriggerId(7),
        LifecycleTrigger::ForceDrain => TriggerId(8),
        LifecycleTrigger::Terminated => TriggerId(9),
    }
}

/// Rendering label of each trigger.
pub open spec fn trigger_text(trigger: LifecycleTrigger) -> &'static str {
    match trigger {
        LifecycleTrigger::ClaimActivation => "claim_activation",
        LifecycleTrigger::Dispatch => "dispatch",
        LifecycleTrigger::CancelWaiter => "cancel_waiter",
        LifecycleTrigger::ActivationSucceeded => "activation_succeeded",
        LifecycleTrigger::ActivationFailed => "activation_failed",
        LifecycleTrigger::DeliveryResolved => "delivery_resolved",
        LifecycleTrigger::BeginDrain => "begin_drain",
        LifecycleTrigger::FenceAcknowledged => "fence_acknowledged",
        LifecycleTrigger::ForceDrain => "force_drain",
        LifecycleTrigger::Terminated => "terminated",
    }
}

impl LifecycleTrigger {
    /// Return the topology identity of this trigger.
    fn id(self) -> (id: TriggerId)
        ensures
            id == trigger_number(self),
    {
        match self {
            LifecycleTrigger::ClaimActivation => TriggerId(0),
            LifecycleTrigger::Dispatch => TriggerId(1),
            LifecycleTrigger::CancelWaiter => TriggerId(2),
            LifecycleTrigger::ActivationSucceeded => TriggerId(3),
            LifecycleTrigger::ActivationFailed => TriggerId(4),
            LifecycleTrigger::DeliveryResolved => TriggerId(5),
            LifecycleTrigger::BeginDrain => TriggerId(6),
            LifecycleTrigger::FenceAcknowledged => TriggerId(7),
            LifecycleTrigger::ForceDrain => TriggerId(8),
            LifecycleTrigger::Terminated => TriggerId(9),
        }
    }
}

/// Rendering label of a trigger.
fn trigger_label(trigger: LifecycleTrigger) -> (label: &'static str)
    ensures
        label == trigger_text(trigger),
{
    match trigger {
        LifecycleTrigger::ClaimActivation => "claim_activation",
        LifecycleTrigger::Dispatch => "dispatch",
        LifecycleTrigger::CancelWaiter => "cancel_waiter",
        LifecycleTrigger::ActivationSucceeded => "activation_succeeded",
        LifecycleTrigger::ActivationFailed => "activation_failed",
        LifecycleTrigger::DeliveryResolved => "delivery_resolved",
        LifecycleTrigger::BeginDrain => "begin_drain",
        LifecycleTrigger::FenceAcknowledged => "fence_acknowledged",
        LifecycleTrigger::ForceDrain => "force_drain",
        LifecycleTrigger::Terminated => "terminated",
    }
}

/// Authoritative identity of one phase-changing lifecycle edge.
#[derive(Debug, Clone, Copy, PartialEq, Eq, Structural, PartialOrd, Ord, Hash)]
pub enum LifecycleEdge {
    /// Inactive to activating.
    ClaimActivation,
    /// Activating to active.
    ActivationSucceeded,
    /// Activating to inactive.
    ActivationFailed,
    /// Active to draining.
    BeginDrain,
    /// Draining to retiring after the fence.
    FenceAcknowledged,
    /// Draining to retiring after a bounded failure.
    ForceDrain,
    /// Retiring to inactive after exact termination.
    Terminated,
}

/// Source, trigger, and destination of each declared edge.
pub open spec fn edge_endpoints(edge: LifecycleEdge) -> (LifecyclePhase, LifecycleTrigger, LifecyclePhase) {
    match edge {
        LifecycleEdge::ClaimActivation => (
            LifecyclePhase::Inactive,
            LifecycleTrigger::ClaimActivation,
            LifecyclePhase::Activating,
        ),
        LifecycleEdge::ActivationSucceeded => (
            LifecyclePhase::Activating,
            LifecycleTrigger::ActivationSucceeded,
            LifecyclePhase::Active,
        ),
        LifecycleEdge::ActivationFailed => (
            LifecyclePhase::Activating,
            LifecycleTrigger::ActivationFailed,
            LifecyclePhase::Inactive,
        ),
        LifecycleEdge::BeginDrain => (
            LifecyclePhase::Active,
            LifecycleTrigger::BeginDrain,
            LifecyclePhase::Draining,
        ),
        LifecycleEdge::FenceAcknowledged => (
            LifecyclePhase::Draining,
            LifecycleTrigger::FenceAcknowledged,
            LifecyclePhase::Retiring,
        ),
        LifecycleEdge::ForceDrain => (
            LifecyclePhase::Draining,
            LifecycleTrigger::ForceDrain,
            LifecyclePhase::Retiring,
        ),
        LifecycleEdge::Terminated => (
            LifecyclePhase::Retiring,
            LifecycleTrigger::Terminated,
            LifecyclePhase::Inactive,
        ),
    }
}

/// Every declared edge in deterministic rendering order.
pub open spec fn all_edges() -> Seq<LifecycleEdge> {
    seq![
        LifecycleEdge::ClaimActivation,
        LifecycleEdge::ActivationSucceeded,
        LifecycleEdge::ActivationFailed,
        LifecycleEdge::BeginDrain,
        LifecycleEdge::FenceAcknowledged,
        LifecycleEdge::ForceDrain,
        LifecycleEdge::Terminated,
    ]
}

/// The first edge of `edges` with these endpoints, if any.
pub open spec fn first_edge_with(
    edges: Seq<LifecycleEdge>,
    endpoints: (LifecyclePhase, LifecycleTrigger, LifecyclePhase),
) -> Option<LifecycleEdge>
    decreases edges.len(),
{
    if edges.len() == 0 {
        None
    } else if edge_endpoints(edges[0]) == endpoints {
        Some(edges[0])
    } else {
        first_edge_with(edges.drop_first(), endpoints)
    }
}

/// The declared edge with these endpoints, if any.
pub open spec fn declared_edge(
    from: LifecyclePhase,
    trigger: LifecycleTrigger,
    to: LifecyclePhase,
) -> Option<LifecycleEdge> {
    first_edge_with(all_edges(), (from, trigger, to))
}

/// Topology edge rendering one lifecycle edge.
pub open spec fn edge_transition(edge: LifecycleEdge) -> Transition {
    let (from, trigger, to) = edge_endpoints(edge);
    Transition {
        from: phase_vertex(from),
        trigger: trigger_number(trigger),
        to: phase_vertex(to),
        label: trigger_text(trigger),
    }
}

impl LifecycleEdge {
    /// Every declared lifecycle edge in deterministic rendering order.
    pub const ALL: [Self; 7] = [
        Self::ClaimActivation,
        Self::ActivationSucceeded,
        Self::ActivationFailed,
        Self::BeginDrain,
        Self::FenceAcknowledged,
        Self::ForceDrain,
        Self::Terminated,
    ];

    /// Return the strongly typed source, trigger, and destination.
    pub fn endpoints(self) -> (endpoints: (LifecyclePhase, LifecycleTrigger, LifecyclePhase))
        ensures
            endpoints == edge_endpoints(self),
    {
        match self {
            Self::ClaimActivation => (
                LifecyclePhase::Inactive,
                LifecycleTrigger::ClaimActivation,
                LifecyclePhase::Activating,
            ),
            Self::ActivationSucceeded => (
                LifecyclePhase::Activating,
                LifecycleTrigger::ActivationSucceeded,
                LifecyclePhase::Active,
            ),
            Self::ActivationFailed => (
                LifecyclePhase::Activating,
                LifecycleTrigger::ActivationFailed,
                LifecyclePhase::Inactive,
            ),
            Self::BeginDrain => (
                LifecyclePhase::Active,
                LifecycleTrigger::BeginDrain,
                LifecyclePhase::Draining,
            ),
            Self::FenceAcknowledged => (
                LifecyclePhase::Draining,
                LifecycleTrigger::FenceAcknowledged,
                LifecyclePhase::Retiring,
            ),
            Self::ForceDrain => (
                LifecyclePhase::Draining,
                LifecycleTrigger::ForceDrain,
                LifecyclePhase::Retiring,
            ),
            Self::Terminated => (
                LifecyclePhase::Retiring,
                LifecycleTrigger::Terminated,
                LifecyclePhase::Inactive,
            ),
        }
    }

    /// Return the topology edge rendering this lifecycle edge.
    fn transition(self) -> (transition: Transition)
        ensures
            transition == edge_transition(self),
    {
        let (from, trigger, to) = self.endpoints();
        Transition { from: from.id(), trigger: trigger.id(), to: to.id(), label: trigger_label(trigger) }
    }
}

/// Evidence produced by one lifecycle execution.
#[derive(Debug, Clone, Copy, PartialEq, Eq, Structural)]
pub enum TransitionEvidence {
    /// Execution traversed this exact declared edge.
    Traversed(LifecycleEdge),
    /// Input was handled without changing phase.
    SelfLoop {
        /// Phase retained by the execution.
        phase: LifecyclePhase,
        /// Handled input identity.
        trigger: LifecycleTrigger,
    },
    /// Input was irrelevant, invalid for the phase, or stale.
    Ignored {
        /// Phase retained by the execution.
        phase: LifecyclePhase,
        /// Ignored input identity.
        trigger: LifecycleTrigger,
    },
}

/// Evidence of one decision: the declared edge when the phase changes,
/// otherwise whether the state handled or ignored the fact.
pub open spec fn evidence_of<C, E, L>(slot: SlotModel<C, E, L>, event: SlotEvent<C, E, L>) -> TransitionEvidence {
    let from = phase_of(slot);
    let to = phase_of(next_slot(slot, event));
    let trigger = trigger_of(event);
    if from == to {
        if handles_event(slot, event) {
            TransitionEvidence::SelfLoop { phase: from, trigger }
        } else {
            TransitionEvidence::Ignored { phase: from, trigger }
        }
    } else {
        TransitionEvidence::Traversed(declared_edge(from, trigger, to).unwrap())
    }
}

/// Output of one executable lifecycle-machine step.
#[derive(Debug)]
pub struct LifecycleOutput<C, E, L> {
    /// Ordered effects for the runtime interpreter.
    pub effects: SlotEffectBatch<C, E, L>,
    /// Checked phase-transition evidence.
    pub evidence: TransitionEvidence,
    /// Activation represented by the installed state.
    pub activation_id: Option<ActivationId>,
}

/// The vertices of the lifecycle topology, in declaration order.
pub open spec fn lifecycle_vertices() -> Seq<Vertex> {
    seq![
        Vertex { id: VertexId(0), label: "inactive" },
        Vertex { id: VertexId(1), label: "activating" },
        Vertex { id: VertexId(2), label: "active" },
        Vertex { id: VertexId(3), label: "draining" },
        Vertex { id: VertexId(4), label: "retiring" },
    ]
}

/// Whether `t` is the authoritative lifecycle topology: named
/// `entity_lifecycle`, starting inactive, with the five phases and the seven
/// declared edges in rendering order.
pub open spec fn is_lifecycle_topology(t: Topology) -> bool {
    &&& t.name@ == "entity_lifecycle"@
    &&& t.initial == phase_vertex(LifecyclePhase::Inactive)
    &&& t.vertices@ == lifecycle_vertices()
    &&& t.transitions@ == lifecycle_transitions()
}

/// Authoritative lifecycle topology: the five phases and the seven declared
/// edges in rendering order, starting inactive.
pub fn lifecycle_topology() -> (topology: Topology)
    ensures
        is_lifecycle_topology(topology),
{
    let topology = Topology {
        name: "entity_lifecycle",
        initial: VertexId(0),
        vertices: &[
            Vertex { id: VertexId(0), label: "inactive" },
            Vertex { id: VertexId(1), label: "activating" },
            Vertex { id: VertexId(2), label: "active" },
            Vertex { id: VertexId(3), label: "draining" },
            Vertex { id: VertexId(4), label: "retiring" },
        ],
        transitions: &[
            Transition { from: VertexId(0), trigger: TriggerId(0), to: VertexId(1), label: "claim_activation" },
            Transition { from: VertexId(1), trigger: TriggerId(3), to: VertexId(2), label: "activation_succeeded" },
            Transition { from: VertexId(1), trigger: TriggerId(4), to: VertexId(0), label: "activation_failed" },
            Transition { from: VertexId(2), trigger: TriggerId(6), to: VertexId(3), label: "begin_drain" },
            Transition { from: VertexId(3), trigger: TriggerId(7), to: VertexId(4), label: "fence_acknowledged" },
            Transition { from: VertexId(3), trigger: TriggerId(8), to: VertexId(4), label: "force_drain" },
            Transition { from: VertexId(4), trigger: TriggerId(9), to: VertexId(0), label: "terminated" },
        ],
    };
    assert(topology.vertices@ =~= lifecycle_vertices());
    assert(topology.transitions@ =~= all_edges().map_values(|e: LifecycleEdge| edge_transition(e)));
    topology
}

/// The topology edges of the lifecycle, in rendering order.
pub open spec fn lifecycle_transitions() -> Seq<Transition> {
    all_edges().map_values(|e: LifecycleEdge| edge_transition(e))
}

/// The lifecycle topology is structurally valid: unique phase identities,
/// declared edge endpoints, no two edges sharing a source and trigger, and
/// every phase reachable from inactive.
pub proof fn lemma_lifecycle_topology_valid(t: Topology)
    requires
        t.initial == phase_vertex(LifecyclePhase::Inactive),
        t.vertices@ == lifecycle_vertices(),
        t.transitions@ == lifecycle_transitions(),
    ensures
        topology_valid(t),
{
    let vs = t.vertices@;
    let es = t.transitions@;
    assert(vs.len() == 5);
    assert(es.len() == 7);
    assert(vs[0].id == VertexId(0));
    assert(vs[1].id == VertexId(1));
    assert(vs[2].id == VertexId(2));
    assert(vs[3].id == VertexId(3));
    assert(vs[4].id == VertexId(4));
    assert(es[0] == edge_transition(LifecycleEdge::ClaimActivation));
    assert(es[1] == edge_transition(LifecycleEdge::ActivationSucceeded));
    assert(es[2] == edge_transition(LifecycleEdge::ActivationFailed));
    assert(es[3] == edge_transition(LifecycleEdge::BeginDrain));
    assert(es[4] == edge_transition(LifecycleEdge::FenceAcknowledged));
    assert(es[5] == edge_transition(LifecycleEdge::ForceDrain));
    assert(es[6] == edge_transition(LifecycleEdge::Terminated));
    assert forall|id: VertexId| id.0 < 5 implies crate::topology::declares(t, id) by {
        assert(vs[id.0 as int].id == id);
    }
    assert(crate::topology::identities_unique(t)) by {
        assert forall|i: int| 0 <= i < vs.len() implies !#[trigger] crate::topology::vertex_repeats(t, i) by {
            assert forall|j: int| 0 <= j < i implies #[trigger] vs[j].id != vs[i].id by {}
        }
    }
    assert(crate::topology::transitions_sound(t)) by {
        assert forall|k: int| 0 <= k < es.len() implies !#[trigger] crate::topology::transition_defect(t, k) by {
            assert forall|j: int| 0 <= j < k implies !((#[trigger] es[j]).from == es[k].from && es[j].trigger == es[k].trigger) by {}
            assert(crate::topology::declares(t, es[k].from));
            assert(crate::topology::declares(t, es[k].to));
        }
    }
    assert(crate::topology::all_reachable(t)) by {
        let p = seq![VertexId(0), VertexId(1), VertexId(2), VertexId(3), VertexId(4)];
        assert(crate::topology::edge_between(t, p[0], p[1])) by { assert(es[0].from == p[0] && es[0].to == p[1]); }
        assert(crate::topology::edge_between(t, p[1], p[2])) by { assert(es[1].from == p[1] && es[1].to == p[2]); }
        assert(crate::topology::edge_between(t, p[2], p[3])) by { assert(es[3].from == p[2] && es[3].to == p[3]); }
        assert(crate::topology::edge_between(t, p[3], p[4])) by { assert(es[4].from == p[3] && es[4].to == p[4]); }
        assert forall|n: int| 1 <= n <= 5 implies #[trigger] crate::topology::is_path(t, p.take(n)) by {
            assert forall|i: int| 0 <= i < p.take(n).len() - 1 implies #[trigger] crate::topology::edge_between(
                t,
                p.take(n)[i],
                p.take(n)[i + 1],
            ) by {
                assert(p.take(n)[i] == p[i] && p.take(n)[i + 1] == p[i + 1]);
            }
        }
        assert forall|i: int| 0 <= i < vs.len() implies #[trigger] crate::topology::reachable(t, vs[i].id) by {
            assert(crate::topology::is_path(t, p.take(i + 1)));
            assert(p.take(i + 1).last() == vs[i].id);
        }
    }
}

impl LifecycleEdge {
    /// The declared edge with these endpoints, if any, in rendering order.
    fn find(from: LifecyclePhase, trigger: LifecycleTrigger, to: LifecyclePhase) -> (edge: Option<Self>)
        ensures
            edge == declared_edge(from, trigger, to),
    {
        let all = Self::ALL;
        let ghost edges = all_edges();
        assert(all@ == edges);
        assert(edges.subrange(0, 7) =~= edges);
        let mut i: usize = 0;
        while i < 7
            invariant
                all@ == edges,
                edges == all_edges(),
                0 <= i <= 7,
                declared_edge(from, trigger, to) == first_edge_with(edges.subrange(i as int, 7), (from, trigger, to)),
            decreases 7 - i,
        {
            proof {
                assert(edges.subrange(i as int, 7).drop_first() =~= edges.subrange(i + 1, 7));
            }
            let (f, t, d) = all[i].endpoints();
            if f == from && t == trigger && d == to {
                return Some(all[i]);
            }
            i = i + 1;
        }
        None
    }
}

/// Every phase change of the decision table follows a declared edge.
pub proof fn lemma_phase_change_is_declared<C, E, L>(slot: SlotModel<C, E, L>, event: SlotEvent<C, E, L>)
    ensures
        phase_of(next_slot(slot, event)) != phase_of(slot) ==> (declared_edge(
            phase_of(slot),
            trigger_of(event),
            phase_of(next_slot(slot, event)),
        ) matches Some(edge) && edge_endpoints(edge) == (
            phase_of(slot),
            trigger_of(event),
            phase_of(next_slot(slot, event)),
        )),
{
    reveal_with_fuel(first_edge_with, 8);
}

/// Evidence of one decision, computed from the phases before and after it.
fn evidence(
    from: LifecyclePhase,
    trigger: LifecycleTrigger,
    to: LifecyclePhase,
    handled: bool,
) -> (evidence: TransitionEvidence)
    requires
        from != to ==> declared_edge(from, trigger, to) is Some,
    ensures
        evidence == (if from == to {
            if handled {
                TransitionEvidence::SelfLoop { phase: from, trigger }
            } else {
                TransitionEvidence::Ignored { phase: from, trigger }
            }
        } else {
            TransitionEvidence::Traversed(declared_edge(from, trigger, to).unwrap())
        }),
{
    if from == to {
        if handled {
            TransitionEvidence::SelfLoop { phase: from, trigger }
        } else {
            TransitionEvidence::Ignored { phase: from, trigger }
        }
    } else {
        match LifecycleEdge::find(from, trigger, to) {
            Some(edge) => TransitionEvidence::Traversed(edge),
            None => vstd::pervasive::unreached(),
        }
    }
}

/// Reduce one fact and classify the decision with checked edge evidence.
fn transition<C, E: Clone, L>(state: EntitySlot<C, E, L>, event: SlotEvent<C, E, L>) -> (result: (
    LifecycleOutput<C, E, L>,
    EntitySlot<C, E, L>,
))
    requires
        slot_wf(state@),
        event_wf(event),
        admits(state@, event),
    ensures
        result.1@ == next_slot(state@, event),
        slot_wf(result.1@),
        effects_agree(result.0.effects@, slot_effects(state@, event)),
        result.0.evidence == evidence_of(state@, event),
        result.0.activation_id == slot_activation(result.1@),
{
    let from = state.phase();
    let trigger = event.trigger();
    let handled = state.handles(&event);
    proof {
        lemma_phase_change_is_declared(state@, event);
        super::laws::lemma_decisions_keep_slot_wf(state@, event);
    }
    let decision = SlotReducer.reduce(state, event);
    let to = decision.state.phase();
    let evidence = evidence(from, trigger, to, handled);
    let activation_id = decision.state.activation_id();
    (LifecycleOutput { effects: decision.effects, evidence, activation_id }, decision.state)
}

/// Representable executable lifecycle machine for one stable entity slot.
pub struct LifecycleMachine<C, E, L> {
    state: EntitySlot<C, E, L>,
    topology: ValidatedTopology,
}

impl<C, E, L> LifecycleMachine<C, E, L> {
    /// The retained slot state is well formed.
    #[verifier::type_invariant]
    closed spec fn retained_slot_wf(self) -> bool {
        slot_wf(self.state@)
    }

    /// The retained slot state.
    pub closed spec fn slot(self) -> EntitySlot<C, E, L> {
        self.state
    }

    /// The retained topology.
    pub closed spec fn topology_of(self) -> ValidatedTopology {
        self.topology
    }

    /// Borrow the retained slot state.
    pub fn state(&self) -> (state: &EntitySlot<C, E, L>)
        ensures
            *state == self.slot(),
    {
        &self.state
    }
}

impl<C, E: Clone, L> CheckedMachine for LifecycleMachine<C, E, L> {
    fn accepts_input(&self, input: &SlotEvent<C, E, L>) -> (accepted: bool) {
        input.is_well_formed() && self.state.admits(input)
    }
}

impl<C, E: Clone, L> Machine for LifecycleMachine<C, E, L> {
    type Input = SlotEvent<C, E, L>;

    type Output = LifecycleOutput<C, E, L>;

    /// Defined on every well-formed fact that its state admits.
    open spec fn accepts(&self, input: SlotEvent<C, E, L>) -> bool {
        event_wf(input) && admits(self.slot()@, input)
    }

    open spec fn steps_to(&self, input: SlotEvent<C, E, L>, output: LifecycleOutput<C, E, L>, next: Self) -> bool {
        &&& next.slot()@ == next_slot(self.slot()@, input)
        &&& effects_agree(output.effects@, slot_effects(self.slot()@, input))
        &&& output.evidence == evidence_of(self.slot()@, input)
        &&& output.activation_id == slot_activation(next.slot()@)
        &&& next.topology_of() == self.topology_of()
    }

    fn step(self, input: Self::Input) -> (result: (Self::Output, Self)) {
        proof {
            use_type_invariant(&self);
        }
        let Self { state, topology } = self;
        let (output, state) = transition(state, input);
        (output, Self { state, topology })
    }

    open spec fn composition(&self) -> Composition {
        Composition::Base(self.topology_of()@)
    }

    fn describe<V: Structure>(&self, visitor: &mut V) -> (output: V::Output) {
        visitor.base(self.topology.topology())
    }
}

/// Construct an inactive entity lifecycle machine over the authoritative
/// lifecycle topology.
pub fn lifecycle_machine<C, E: Clone, L>() -> (machine: LifecycleMachine<C, E, L>)
    ensures
        machine.slot()@ == SlotModel::<C, E, L>::Inactive,
        is_lifecycle_topology(machine.topology_of()@),
{
    let topology = lifecycle_topology();
    proof {
        lemma_lifecycle_topology_valid(topology);
    }
    match topology.validated() {
        Ok(validated) => LifecycleMachine { state: EntitySlot::Inactive, topology: validated },
        Err(_) => vstd::pervasive::unreached(),
    }
}

/// Structural model of the lifecycle obtained from its topology.
#[derive(Debug, Clone, Copy, PartialEq, Eq)]
pub struct LifecycleModel(Topology);

impl View for LifecycleModel {
    type V = Topology;

    closed spec fn view(&self) -> Topology {
        self.0
    }
}

impl LifecycleModel {
    /// Borrow the vertices in deterministic declaration order.
    pub fn vertices(self) -> (vertices: &'static [Vertex])
        ensures
            vertices@ == self@.vertices@,
    {
        self.0.vertices
    }

    /// Borrow the edges in deterministic declaration order.
    pub fn transitions(self) -> (transitions: &'static [Transition])
        ensures
            transitions@ == self@.transitions@,
    {
        self.0.transitions
    }

    /// Test whether exact typed edge evidence is declared by this model.
    pub fn contains(self, edge: LifecycleEdge) -> (declared: bool)
        ensures
            declared == has_transition(self@, edge_transition(edge)),
    {
        self.0.contains_transition(&edge.transition())
    }

    /// Render deterministic Mermaid into `output`.
    pub fn write_mermaid(self, output: &mut String) -> (result: Result<(), RenderError>)
        ensures
            final(output)@ == old(output)@ + mermaid_text(self@).0,
            result is Ok <==> mermaid_text(self@).1,
    {
        self.0.write_mermaid(output)
    }
}

/// Return the authoritative lifecycle model used by execution and tests.
pub fn lifecycle_model() -> (model: LifecycleModel)
    ensures
        is_lifecycle_topology(model@),
{
    LifecycleModel(lifecycle_topology())
}

/// Lifecycle-specific structural validation failure.
#[derive(Debug, Clone, Copy, PartialEq, Eq)]
pub enum LifecycleTopologyError {
    /// Generic topology validation failed.
    Structure(TopologyError),
    /// One required lifecycle edge is absent.
    Missing(LifecycleEdge),
    /// Retirement could reopen admission.
    RetiringToActive,
}

impl LifecycleTopologyError {
    /// Human-readable description of the failure.
    pub fn to_string(&self) -> (message: String)
        ensures
            message@ == lifecycle_topology_error_message(*self)@,
    {
        let message = match self {
            LifecycleTopologyError::Structure(_) => "generic topology validation failed",
            LifecycleTopologyError::Missing(_) => "one required lifecycle edge is absent",
            LifecycleTopologyError::RetiringToActive => "retirement could reopen admission",
        };
        String::from_str(message)
    }

    /// The structural defect underlying this failure, if any.
    pub fn source(&self) -> (source: Option<TopologyError>)
        ensures
            source == (match *self {
                LifecycleTopologyError::Structure(error) => Some(error),
                _ => None,
            }),
    {
        match self {
            LifecycleTopologyError::Structure(error) => Some(*error),
            _ => None,
        }
    }
}

/// Description of each lifecycle validation failure.
pub open spec fn lifecycle_topology_error_message(error: LifecycleTopologyError) -> &'static str {
    match error {
        LifecycleTopologyError::Structure(_) => "generic topology validation failed",
        LifecycleTopologyError::Missing(_) => "one required lifecycle edge is absent",
        LifecycleTopologyError::RetiringToActive => "retirement could reopen admission",
    }
}

impl From<TopologyError> for LifecycleTopologyError {
    fn from(error: TopologyError) -> (lifted: Self)
        ensures
            lifted == LifecycleTopologyError::Structure(error),
    {
        LifecycleTopologyError::Structure(error)
    }
}

impl vstd::std_specs::convert::FromSpecImpl<TopologyError> for LifecycleTopologyError {
    open spec fn obeys_from_spec() -> bool {
        true
    }

    open spec fn from_spec(error: TopologyError) -> Self {
        LifecycleTopologyError::Structure(error)
    }
}

/// Every required lifecycle edge is declared by `t`.
pub open spec fn declares_lifecycle(t: Topology) -> bool {
    forall|i: int| 0 <= i < 7 ==> #[trigger] has_transition(t, edge_transition(all_edges()[i]))
}

/// Some edge of `t` leads from retiring back to active.
pub open spec fn reopens_admission(t: Topology) -> bool {
    exists|k: int|
        0 <= k < t.transitions@.len() && #[trigger] t.transitions@[k].from == phase_vertex(
            LifecyclePhase::Retiring,
        ) && t.transitions@[k].to == phase_vertex(LifecyclePhase::Active)
}

/// `error` is the first lifecycle defect of `t`: a structural defect first,
/// then the first required edge in rendering order that is absent, then an
/// edge reopening admission.
pub open spec fn first_lifecycle_defect(t: Topology, error: LifecycleTopologyError) -> bool {
    match error {
        LifecycleTopologyError::Structure(e) => !topology_valid(t) && first_defect(t, e),
        LifecycleTopologyError::Missing(edge) => topology_valid(t) && exists|i: int|
            0 <= i < 7 && all_edges()[i] == edge && !#[trigger] has_transition(t, edge_transition(all_edges()[i]))
                && forall|j: int| 0 <= j < i ==> #[trigger] has_transition(t, edge_transition(all_edges()[j])),
        LifecycleTopologyError::RetiringToActive => topology_valid(t) && declares_lifecycle(t)
            && reopens_admission(t),
    }
}

/// Validate graph properties and required entity lifecycle invariants.
///
/// Returns the first generic structural or lifecycle-specific defect.
pub fn validate_lifecycle_topology(topology: Topology) -> (result: Result<(), LifecycleTopologyError>)
    ensures
        result is Ok <==> topology_valid(topology) && declares_lifecycle(topology) && !reopens_admission(topology),
        result matches Err(e) ==> first_lifecycle_defect(topology, e),
{
    match topology.validate() {
        Ok(()) => {},
        Err(error) => return Err(LifecycleTopologyError::Structure(error)),
    }
    let all = LifecycleEdge::ALL;
    let ghost edges = all_edges();
    assert(all@ == edges);
    let mut i: usize = 0;
    while i < 7
        invariant
            all@ == edges,
            edges == all_edges(),
            0 <= i <= 7,
            topology_valid(topology),
            forall|j: int| 0 <= j < i ==> #[trigger] has_transition(topology, edge_transition(all_edges()[j])),
        decreases 7 - i,
    {
        let required = all[i];
        if !topology.contains_transition(&required.transition()) {
            return Err(LifecycleTopologyError::Missing(required));
        }
        i = i + 1;
    }
    let transitions = topology.transitions;
    let retiring = LifecyclePhase::Retiring.id();
    let active = LifecyclePhase::Active.id();
    let mut k: usize = 0;
    while k < transitions.len()
        invariant
            transitions == topology.transitions,
            0 <= k <= transitions@.len(),
            topology_valid(topology),
            declares_lifecycle(topology),
            retiring == phase_vertex(LifecyclePhase::Retiring),
            active == phase_vertex(LifecyclePhase::Active),
            forall|j: int|
                0 <= j < k ==> !((#[trigger] topology.transitions@[j]).from == retiring
                    && topology.transitions@[j].to == active),
        decreases transitions@.len() - k,
    {
        if transitions[k].from.0 == retiring.0 && transitions[k].to.0 == active.0 {
            return Err(LifecycleTopologyError::RetiringToActive);
        }
        k = k + 1;
    }
    Ok(())
}

} // verus!
