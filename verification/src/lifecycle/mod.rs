//! Pure lifecycle algebra for one stable entity routing slot.

use vstd::prelude::*;

use crate::decision::{Decision, Reducer};

mod active;
mod activating;
mod batch;
mod draining;
mod inactive;
pub mod laws;
pub mod machine;
pub mod model;
mod retiring;

pub use batch::SlotEffectBatch;
pub use model::{
    admits, all_admitted, decision_is, effect_agrees, effects_agree, event_wf, fold_effects, fold_slot,
    handles_event, slot_wf, lemma_effects_agree_concat, lemma_fold_prefix, next_slot, phase_of,
    slot_activation, slot_effects, trigger_of, SlotModel, failure_effects, stale_retirement,
};

verus! {

/// Globally unique identity of one activation attempt and incarnation.
#[derive(Debug, Clone, Copy, PartialEq, Eq, Structural, PartialOrd, Ord, Hash)]
pub struct ActivationId(pub(crate) u64);

impl ActivationId {
    /// The directory sequence value carried by this identity.
    pub closed spec fn value(self) -> u64 {
        self.0
    }

    /// An activation identity is determined by its sequence value.
    pub proof fn lemma_value_identifies(self, other: Self)
        ensures
            self.value() == other.value() <==> self == other,
    {
    }

    /// Construct an activation identity from a non-zero directory sequence.
    pub fn new(value: u64) -> (id: Self)
        requires
            value != 0,
        ensures
            id.value() == value,
    {
        Self(value)
    }

    /// Return the directory sequence value.
    pub fn get(self) -> (value: u64)
        ensures
            value == self.value(),
    {
        self.0
    }

    /// Compare an observed identity with this one.
    pub(crate) fn classify(self, observed: Self) -> (generation: Generation)
        ensures
            generation == (if self == observed { Generation::Current } else { Generation::Stale }),
    {
        if self.0 == observed.0 {
            Generation::Current
        } else {
            Generation::Stale
        }
    }
}

/// Whether an observed identity names the slot's own incarnation.
#[derive(Debug, Clone, Copy, PartialEq, Eq, Structural)]
pub(crate) enum Generation {
    Current,
    Stale,
}

/// Identity of one dispatch operation within a slot.
#[derive(Debug, Clone, Copy, PartialEq, Eq, Structural, PartialOrd, Ord, Hash)]
pub struct DispatchId(pub(crate) u64);

impl DispatchId {
    /// The directory sequence value carried by this identity.
    pub closed spec fn value(self) -> u64 {
        self.0
    }

    /// A dispatch identity is determined by its sequence value.
    pub proof fn lemma_value_identifies(self, other: Self)
        ensures
            self.value() == other.value() <==> self == other,
    {
    }

    /// Construct a dispatch identity from a non-zero directory sequence.
    pub fn new(value: u64) -> (id: Self)
        requires
            value != 0,
        ensures
            id.value() == value,
    {
        Self(value)
    }

    /// Return the directory sequence value.
    pub fn get(self) -> (value: u64)
        ensures
            value == self.value(),
    {
        self.0
    }
}

/// Typed reason why a command was not admitted.
#[derive(Debug, Clone, Copy, PartialEq, Eq, Structural)]
pub enum Refusal {
    /// The bounded activation waiter set is full.
    Busy,
    /// Passivation has closed admission.
    Draining,
    /// Activation failed without installing an incarnation.
    Unavailable,
}

/// Stage at which a bounded drain failed.
#[derive(Debug, Clone, Copy, PartialEq, Eq, Structural)]
pub enum DrainStage {
    /// Reserved dispatches had not resolved.
    Reservations,
    /// The fence was being enqueued.
    FenceEnqueue,
    /// The runtime was awaiting fence acknowledgement.
    FenceAcknowledgement,
    /// The runtime was awaiting exact termination.
    Retirement,
}

/// Classification attached to forced retirement.
#[derive(Debug, Clone, Copy, PartialEq, Eq, Structural)]
pub struct DrainFailure {
    /// Stage at which graceful draining stopped.
    pub stage: DrainStage,
    /// Reservations still outstanding at that point.
    pub outstanding_reservations: usize,
}

/// Retirement mode granted to the slot interpreter.
#[derive(Debug, Clone, Copy, PartialEq, Eq, Structural)]
pub enum RetirementMode {
    /// Processing was proven by a successful fence acknowledgement.
    Graceful,
    /// Graceful draining failed and command completion is unknown.
    Forced(DrainFailure),
}

/// Command retained while a shared activation is in flight.
#[derive(Debug)]
pub struct ActivationWaiter<C> {
    /// Correlation identity of the waiting dispatch.
    pub dispatch_id: DispatchId,
    /// Command retained on behalf of its caller.
    pub command: C,
}

/// State of one directory-owned activation and its bounded waiters.
#[derive(Debug)]
pub struct ActivatingSlot<C> {
    /// Identity of the activation in flight.
    pub activation_id: ActivationId,
    /// Commands waiting for the activation, in arrival order.
    pub waiters: Vec<ActivationWaiter<C>>,
    /// Bound on the waiter set; non-zero.
    pub waiter_limit: usize,
}

/// State of one committed and admitting incarnation.
#[derive(Debug)]
pub struct ActiveSlot<E, L> {
    /// Identity of the committed incarnation.
    pub activation_id: ActivationId,
    /// Delivery-only capability of the incarnation.
    pub endpoint: E,
    /// Affine retirement capability of the incarnation.
    pub lease: L,
    /// Deliveries admitted but not yet resolved.
    pub reservations: ReservationCount,
}

/// State of one incarnation whose admission is closed.
#[derive(Debug)]
pub struct DrainingSlot<E, L> {
    /// Identity of the draining incarnation.
    pub activation_id: ActivationId,
    /// Delivery-only capability of the incarnation.
    pub endpoint: E,
    /// Affine retirement capability of the incarnation.
    pub lease: L,
    /// Progress of the processing-fence protocol.
    pub progress: DrainProgress,
}

/// Number of delivery operations that reserved admission but have not resolved.
#[derive(Debug, Clone, Copy, PartialEq, Eq, Structural)]
pub enum ReservationCount {
    /// Every reserved delivery has either enqueued or recovered its command.
    Drained,
    /// One or more delivery operations remain unresolved; the count is non-zero.
    Pending(usize),
}

/// Progress of the ordered processing-fence protocol.
#[derive(Debug, Clone, Copy, PartialEq, Eq, Structural)]
pub enum DrainProgress {
    /// Admission is closed but earlier reserved sends remain unresolved; the
    /// count is non-zero.
    Reservations(usize),
    /// Every reservation resolved and the fence has been requested.
    FenceAcknowledgement,
}

/// Pure state of one stable entity routing slot.
#[derive(Debug)]
pub enum EntitySlot<C, E, L> {
    /// No activation or incarnation exists. Directories normally remove this state.
    Inactive,
    /// Exactly one directory-owned activation is in flight.
    Activating(ActivatingSlot<C>),
    /// An incarnation is committed and accepting dispatch reservations.
    Active(ActiveSlot<E, L>),
    /// Admission is closed while reservations and the processing fence drain.
    Draining(DrainingSlot<E, L>),
    /// Retirement authority has moved to the interpreter.
    Retiring {
        /// Exact incarnation whose termination is awaited.
        activation_id: ActivationId,
    },
}

/// External fact submitted to one entity slot.
#[derive(Debug)]
pub enum SlotEvent<C, E, L> {
    /// Address an inactive slot and claim a new activation.
    ClaimActivation {
        /// Fresh identity allocated by the directory.
        activation_id: ActivationId,
        /// First dispatch correlation identity.
        dispatch_id: DispatchId,
        /// First command retained for activation.
        command: C,
        /// Non-zero bound for activation waiters.
        waiter_limit: usize,
    },
    /// Address an already represented slot.
    Dispatch {
        /// Dispatch correlation identity.
        dispatch_id: DispatchId,
        /// Command whose ownership must be delivered or returned.
        command: C,
    },
    /// Remove one canceled caller from an in-flight activation.
    CancelWaiter {
        /// Activation whose waiter set owns the command.
        activation_id: ActivationId,
        /// Dispatch correlation identity to remove.
        dispatch_id: DispatchId,
    },
    /// Transactional incarnation activation succeeded.
    ActivationSucceeded {
        /// Identity carried by the asynchronous activation result.
        activation_id: ActivationId,
        /// Private exact-incarnation delivery capability.
        endpoint: E,
        /// Affine exact-incarnation retirement capability.
        lease: L,
    },
    /// Preparation or transactional incarnation activation failed.
    ActivationFailed {
        /// Identity carried by the asynchronous activation result.
        activation_id: ActivationId,
    },
    /// A reserved dispatch resolved its mailbox enqueue attempt.
    DeliveryResolved {
        /// Identity carried by the asynchronous delivery result.
        activation_id: ActivationId,
        /// Failed delivery data, or `None` after successful enqueue.
        failure: Option<(DispatchId, C)>,
    },
    /// Atomically close admission for an active incarnation.
    BeginDrain {
        /// Incarnation requested for passivation.
        activation_id: ActivationId,
    },
    /// The ordered processing fence was acknowledged.
    FenceAcknowledged {
        /// Incarnation whose fence completed.
        activation_id: ActivationId,
    },
    /// Graceful draining failed and policy requires forced retirement.
    ForceDrain {
        /// Incarnation being drained.
        activation_id: ActivationId,
        /// Honest failure classification.
        failure: DrainFailure,
    },
    /// Exact incarnation termination was observed.
    Terminated {
        /// Identity of the terminated incarnation.
        activation_id: ActivationId,
    },
}

/// Request emitted by the pure entity-slot state machine.
#[derive(Debug)]
pub enum SlotEffect<C, E, L> {
    /// Run preparation and transactional activation in a directory-owned task.
    StartActivation {
        /// Fresh identity claimed by the slot.
        activation_id: ActivationId,
    },
    /// Deliver one reserved command without holding the slot lock.
    Deliver {
        /// Exact incarnation to which delivery is bound.
        activation_id: ActivationId,
        /// Dispatch correlation identity.
        dispatch_id: DispatchId,
        /// Clone of the delivery-only capability.
        endpoint: E,
        /// Owned command transferred to the delivery future.
        command: C,
    },
    /// Return a command with a typed admission refusal.
    Reject {
        /// Dispatch correlation identity.
        dispatch_id: DispatchId,
        /// The command as submitted, handed back without cloning.
        command: C,
        /// Typed reason for refusal.
        reason: Refusal,
    },
    /// Enqueue the ordered user-lane fence after all reservations resolve.
    EnqueueFence {
        /// Exact incarnation whose user lane must be fenced.
        activation_id: ActivationId,
        /// Delivery capability for the fence protocol.
        endpoint: E,
    },
    /// Exercise the affine retirement capability and await exact termination.
    Retire {
        /// Exact incarnation being retired.
        activation_id: ActivationId,
        /// Unique retirement authority.
        lease: L,
        /// Graceful or explicitly forced classification.
        retirement: RetirementMode,
    },
    /// Compare slot and activation identities, then remove the directory entry.
    Remove {
        /// Identity to compare alongside the slot allocation.
        activation_id: ActivationId,
    },
}

/// Result of one deterministic entity-slot reduction.
pub type SlotDecision<C, E, L> = Decision<EntitySlot<C, E, L>, SlotEffectBatch<C, E, L>>;

/// Pure reducer for one stable entity slot.
#[derive(Debug, Clone, Copy, Default)]
pub struct SlotReducer;

impl<C, E: Clone, L> Reducer<EntitySlot<C, E, L>, SlotEvent<C, E, L>> for SlotReducer {
    type Effects = SlotEffectBatch<C, E, L>;

    open spec fn accepts(&self, state: EntitySlot<C, E, L>, event: SlotEvent<C, E, L>) -> bool {
        slot_wf(state@) && event_wf(event) && admits(state@, event)
    }

    fn reduce(&self, state: EntitySlot<C, E, L>, event: SlotEvent<C, E, L>) -> (decision: Decision<
        EntitySlot<C, E, L>,
        Self::Effects,
    >)
        ensures
            decision_is(decision, state@, event),
    {
        match state {
            EntitySlot::Inactive => inactive::decide_inactive(event),
            EntitySlot::Activating(slot) => activating::decide_activating(slot, event),
            EntitySlot::Active(slot) => active::decide_active(slot, event),
            EntitySlot::Draining(slot) => draining::decide_draining(slot, event),
            EntitySlot::Retiring { activation_id } => retiring::decide_retiring(activation_id, event),
        }
    }
}

impl<C, E, L> SlotEvent<C, E, L> {
    /// Whether this fact is well formed: an activation claim bounds its
    /// waiters by a non-zero limit.
    pub fn is_well_formed(&self) -> (well_formed: bool)
        ensures
            well_formed == event_wf(*self),
    {
        match self {
            SlotEvent::ClaimActivation { waiter_limit, .. } => *waiter_limit > 0,
            _ => true,
        }
    }
}

impl<C, E: Clone, L> EntitySlot<C, E, L> {
    /// Whether this state admits `event`: every fact but a dispatch to an
    /// active slot whose reservation count is at its maximum.
    pub fn admits(&self, event: &SlotEvent<C, E, L>) -> (admitted: bool)
        ensures
            admitted == admits(self@, *event),
    {
        match (self, event) {
            (EntitySlot::Active(state), SlotEvent::Dispatch { .. }) => match state.reservations {
                ReservationCount::Pending(value) => value != usize::MAX,
                ReservationCount::Drained => true,
            },
            _ => true,
        }
    }

    /// Return the compact lifecycle phase represented by this state.
    pub fn phase(&self) -> (phase: machine::LifecyclePhase)
        ensures
            phase == phase_of(self@),
    {
        match self {
            Self::Inactive => machine::LifecyclePhase::Inactive,
            Self::Activating(_) => machine::LifecyclePhase::Activating,
            Self::Active(_) => machine::LifecyclePhase::Active,
            Self::Draining(_) => machine::LifecyclePhase::Draining,
            Self::Retiring { .. } => machine::LifecyclePhase::Retiring,
        }
    }

    /// Return the activation represented by this slot, when one exists.
    pub fn activation_id(&self) -> (id: Option<ActivationId>)
        ensures
            id == slot_activation(self@),
    {
        match self {
            Self::Inactive => None,
            Self::Activating(state) => Some(state.activation_id),
            Self::Active(state) => Some(state.activation_id),
            Self::Draining(state) => Some(state.activation_id),
            Self::Retiring { activation_id } => Some(*activation_id),
        }
    }

    /// Consume one fact and return the next state plus an effect batch. The
    /// state and the fact are well formed (non-zero limits and counts), and
    /// so is the next state.
    pub fn decide(self, event: SlotEvent<C, E, L>) -> (decision: SlotDecision<C, E, L>)
        requires
            slot_wf(self@),
            event_wf(event),
            admits(self@, event),
        ensures
            decision_is(decision, self@, event),
            slot_wf(decision.state@),
    {
        proof {
            laws::lemma_decisions_keep_slot_wf(self@, event);
        }
        SlotReducer.reduce(self, event)
    }

    /// Fold an ordered sequence of facts through this slot.
    ///
    /// This is primarily useful to deterministic simulations and reference
    /// models. A concurrent directory normally installs each individual
    /// decision at its own linearization point.
    pub fn decide_all(self, events: Vec<SlotEvent<C, E, L>>) -> (decision: SlotDecision<C, E, L>)
        requires
            slot_wf(self@),
            forall|i: int| 0 <= i < events@.len() ==> event_wf(#[trigger] events@[i]),
            all_admitted(self@, events@),
        ensures
            decision.state@ == fold_slot(self@, events@),
            effects_agree(decision.effects@, fold_effects(self@, events@)),
            slot_wf(decision.state@),
    {
        let ghost all = events@;
        let ghost start = self@;
        let mut state = self;
        let mut effects = SlotEffectBatch::empty();
        proof {
            lemma_fold_prefix(start, all, 0);
        }
        for event in it: events
            invariant
                it.seq() == all,
                all_admitted(start, all),
                forall|i: int| 0 <= i < all.len() ==> event_wf(#[trigger] all[i]),
                slot_wf(state@),
                state@ == fold_slot(start, all.take(it.index())),
                effects_agree(effects@, fold_effects(start, all.take(it.index()))),
        {
            proof {
                lemma_fold_prefix(start, all, it.index() + 1);
                assert(admits(fold_slot(start, all.take(it.index())), all[it.index()]));
                assert(event_wf(all[it.index() as int]));
                laws::lemma_decisions_keep_slot_wf(state@, event);
            }
            let ghost before = state@;
            let decision = SlotReducer.reduce(state, event);
            proof {
                lemma_effects_agree_concat(
                    effects@,
                    fold_effects(start, all.take(it.index())),
                    decision.effects@,
                    slot_effects(before, event),
                );
            }
            state = decision.state;
            effects = effects.concat(decision.effects);
        }
        proof {
            assert(all.take(all.len() as int) =~= all);
        }
        Decision::new(state, effects)
    }
}

impl<C, E, L> SlotEvent<C, E, L> {
    /// Return the topology identity of this input.
    pub(crate) fn trigger(&self) -> (trigger: machine::LifecycleTrigger)
        ensures
            trigger == trigger_of(*self),
    {
        match self {
            Self::ClaimActivation { .. } => machine::LifecycleTrigger::ClaimActivation,
            Self::Dispatch { .. } => machine::LifecycleTrigger::Dispatch,
            Self::CancelWaiter { .. } => machine::LifecycleTrigger::CancelWaiter,
            Self::ActivationSucceeded { .. } => machine::LifecycleTrigger::ActivationSucceeded,
            Self::ActivationFailed { .. } => machine::LifecycleTrigger::ActivationFailed,
            Self::DeliveryResolved { .. } => machine::LifecycleTrigger::DeliveryResolved,
            Self::BeginDrain { .. } => machine::LifecycleTrigger::BeginDrain,
            Self::FenceAcknowledged { .. } => machine::LifecycleTrigger::FenceAcknowledged,
            Self::ForceDrain { .. } => machine::LifecycleTrigger::ForceDrain,
            Self::Terminated { .. } => machine::LifecycleTrigger::Terminated,
        }
    }
}

impl<C, E, L> EntitySlot<C, E, L> {
    /// Whether this state consumes the event, rather than ignoring it as
    /// irrelevant, invalid for the phase, or stale.
    pub(crate) fn handles(&self, event: &SlotEvent<C, E, L>) -> (handled: bool)
        ensures
            handled == handles_event(self@, *event),
    {
        match (self, event) {
            (Self::Inactive, SlotEvent::Dispatch { .. }) => true,
            (Self::Inactive, _) => false,
            (_, SlotEvent::Dispatch { .. }) => true,
            (_, SlotEvent::ClaimActivation { .. }) => true,
            (Self::Activating(state), SlotEvent::CancelWaiter { activation_id, .. }) =>
                state.activation_id == *activation_id,
            (Self::Activating(state), SlotEvent::ActivationSucceeded { activation_id, .. }) =>
                state.activation_id == *activation_id,
            (Self::Activating(state), SlotEvent::ActivationFailed { activation_id }) =>
                state.activation_id == *activation_id,
            (Self::Active(state), SlotEvent::DeliveryResolved { activation_id, .. }) =>
                state.activation_id == *activation_id,
            (Self::Active(state), SlotEvent::BeginDrain { activation_id }) =>
                state.activation_id == *activation_id,
            (Self::Draining(state), SlotEvent::DeliveryResolved { activation_id, .. }) =>
                state.activation_id == *activation_id,
            (Self::Draining(state), SlotEvent::FenceAcknowledged { activation_id }) =>
                state.activation_id == *activation_id,
            (Self::Draining(state), SlotEvent::ForceDrain { activation_id, .. }) =>
                state.activation_id == *activation_id,
            (Self::Retiring { activation_id }, SlotEvent::Terminated { activation_id: observed }) =>
                *activation_id == *observed,
            _ => false,
        }
    }
}

/// Pair a successor with its effects.
pub(crate) fn decision<C, E, L>(
    state: EntitySlot<C, E, L>,
    effects: SlotEffectBatch<C, E, L>,
) -> (d: SlotDecision<C, E, L>)
    ensures
        d.state == state,
        d.effects == effects,
{
    Decision::new(state, effects)
}

/// Return one command with a refusal, leaving the state unchanged.
pub(crate) fn reject<C, E, L>(
    state: EntitySlot<C, E, L>,
    dispatch_id: DispatchId,
    command: C,
    reason: Refusal,
) -> (d: SlotDecision<C, E, L>)
    ensures
        d.state == state,
        d.effects@ == seq![SlotEffect::<C, E, L>::Reject { dispatch_id, command, reason }],
{
    decision(state, SlotEffectBatch::one(SlotEffect::Reject { dispatch_id, command, reason }))
}

/// Return the command of a failed delivery, if any, as unavailable.
pub(crate) fn reject_failed_delivery<C, E, L>(
    state: EntitySlot<C, E, L>,
    failure: Option<(DispatchId, C)>,
    reason: Refusal,
) -> (d: SlotDecision<C, E, L>)
    ensures
        d.state == state,
        d.effects@ == failure_effects::<C, E, L>(failure, reason),
{
    match failure {
        Some((dispatch_id, command)) => reject(state, dispatch_id, command, reason),
        None => decision(state, SlotEffectBatch::empty()),
    }
}

/// Retire the lease of an activation that lost to the slot's current state.
pub(crate) fn retire_stale<C, E, L>(
    state: EntitySlot<C, E, L>,
    activation_id: ActivationId,
    lease: L,
) -> (d: SlotDecision<C, E, L>)
    ensures
        d.state == state,
        d.effects@ == seq![stale_retirement::<C, E, L>(activation_id, lease)],
{
    decision(
        state,
        SlotEffectBatch::one(
            SlotEffect::Retire {
                activation_id,
                lease,
                retirement: RetirementMode::Forced(
                    DrainFailure { stage: DrainStage::Retirement, outstanding_reservations: 0 },
                ),
            },
        ),
    )
}

/// Append one effect to a decision.
pub(crate) fn with_effect<C, E, L>(
    decision: SlotDecision<C, E, L>,
    effect: SlotEffect<C, E, L>,
) -> (d: SlotDecision<C, E, L>)
    ensures
        d.state == decision.state,
        d.effects@ == decision.effects@.push(effect),
{
    Decision::new(decision.state, decision.effects.concat(SlotEffectBatch::one(effect)))
}

} // verus!
