//! Decisions of the local entity directory: its configuration, identity
//! allocation, shard selection, and the routing of lifecycle effects to the
//! runtime.

use vstd::prelude::*;

use core::sync::atomic::AtomicU64;

use crate::executor::OutputEvidence;
use crate::lifecycle::machine::{LifecycleOutput, TransitionEvidence};
use crate::lifecycle::{ActivationId, DispatchId, Refusal, RetirementMode, SlotEffect, SlotEvent};
use crate::EntityId;

verus! {

/// Fixed sizing and admission limits for a local directory.
#[derive(Debug, Clone, Copy, PartialEq, Eq, Structural)]
pub struct DirectoryConfig {
    /// Number of independently locked map shards; must be a power of two.
    pub shards: usize,
    /// Maximum commands retained by one in-flight activation; non-zero, and a
    /// directory refuses to be built with zero.
    pub activation_waiters: usize,
}

impl Default for DirectoryConfig {
    fn default() -> (config: Self)
        ensures
            config.shards == 64,
            config.activation_waiters == 64,
    {
        Self { shards: 64, activation_waiters: 64 }
    }
}

/// Failure before a command can be submitted to a lifecycle machine.
#[derive(Debug)]
pub enum DirectoryError<C> {
    /// The shard count was not a power of two.
    InvalidShardCount,
    /// The monotonically increasing activation namespace is exhausted.
    ActivationIdsExhausted(C),
    /// The monotonically increasing dispatch namespace is exhausted.
    DispatchIdsExhausted(C),
}

/// Description of each directory failure.
pub open spec fn directory_error_message<C>(error: DirectoryError<C>) -> &'static str {
    match error {
        DirectoryError::InvalidShardCount => "shard count was not a power of two",
        DirectoryError::ActivationIdsExhausted(_) => "activation identity namespace is exhausted",
        DirectoryError::DispatchIdsExhausted(_) => "dispatch identity namespace is exhausted",
    }
}

impl<C> DirectoryError<C> {
    /// Human-readable description of the failure.
    pub fn to_string(&self) -> (message: String)
        ensures
            message@ == directory_error_message(*self)@,
    {
        let message = match self {
            DirectoryError::InvalidShardCount => "shard count was not a power of two",
            DirectoryError::ActivationIdsExhausted(_) => "activation identity namespace is exhausted",
            DirectoryError::DispatchIdsExhausted(_) => "dispatch identity namespace is exhausted",
        };
        String::from_str(message)
    }
}

/// Runtime capabilities used to interpret lifecycle effects.
///
/// Methods run without directory or slot synchronization held. Asynchronous
/// implementations should schedule owned work and later submit its typed fact
/// through the directory. Calls for one slot occur in declared effect order.
pub trait EffectInterpreter<I, C, E, L> {
    /// Start one directory-owned activation attempt.
    fn start_activation(&self, entity_id: EntityId<I>, activation_id: ActivationId);

    /// Start delivery to one exact-incarnation endpoint.
    fn deliver(
        &self,
        entity_id: EntityId<I>,
        activation_id: ActivationId,
        dispatch_id: DispatchId,
        endpoint: E,
        command: C,
    );

    /// Return a command that was not admitted or delivered.
    fn reject(&self, dispatch_id: DispatchId, command: C, reason: Refusal);

    /// Enqueue an ordered processing fence for one exact incarnation.
    fn enqueue_fence(&self, entity_id: EntityId<I>, activation_id: ActivationId, endpoint: E);

    /// Exercise exact-incarnation retirement authority.
    fn retire(&self, entity_id: EntityId<I>, activation_id: ActivationId, lease: L, retirement: RetirementMode);
}

/// Whether `n` is a power of two.
#[verifier::external_body]
fn usize_is_power_of_two(n: usize) -> (power: bool)
    ensures
        power == vstd::arithmetic::power2::is_pow2_exists(n as int),
{
    n.is_power_of_two()
}

/// Validate a shard count and derive the mask that selects a shard from a
/// hash: the count less one.
pub fn shard_mask<C>(shards: usize) -> (mask: Result<u64, DirectoryError<C>>)
    ensures
        mask is Ok <==> vstd::arithmetic::power2::is_pow2_exists(shards as int),
        mask matches Ok(m) ==> m == shards - 1,
        mask matches Err(e) ==> e is InvalidShardCount,
{
    if !usize_is_power_of_two(shards) {
        return Err(DirectoryError::InvalidShardCount);
    }
    proof {
        let i = choose|i: nat| vstd::arithmetic::power::pow(2, i) == shards as int;
        vstd::arithmetic::power::lemma_pow_positive(2, i);
    }
    let count = shards - 1;
    Ok(count as u64)
}

/// Shard selected by a hash: the hash's bits under the mask.
pub fn shard_index(hash: u64, mask: u64) -> (index: usize)
    requires
        mask < usize::MAX,
    ensures
        index == (hash & mask),
        index <= mask,
{
    let masked = hash & mask;
    assert(masked <= mask) by (bit_vector)
        requires
            masked == hash & mask,
    ;
    masked as usize
}

/// The successor of a sequence value, unless the namespace is exhausted.
fn next_sequence(current: u64) -> (next: Option<u64>)
    ensures
        next == (if current < u64::MAX { Some((current + 1) as u64) } else { None::<u64> }),
{
    current.checked_add(1)
}

/// Atomically advance `sequence` by one unless it is at its maximum, and
/// return the previous value: `Ok` when it advanced, `Err` when it was at its
/// maximum. The value itself depends on every other caller, so no more is
/// stated of it.
#[verifier::external_body]
fn advance_sequence(sequence: &AtomicU64) -> (previous: Result<u64, u64>)
    ensures
        previous matches Ok(value) ==> value < u64::MAX,
        previous matches Err(value) ==> value == u64::MAX,
{
    sequence.fetch_update(
        core::sync::atomic::Ordering::Relaxed,
        core::sync::atomic::Ordering::Relaxed,
        next_sequence,
    )
}

/// The identity allocated from the outcome of advancing a sequence: the value
/// before the increment when the sequence advanced and that value is non-zero,
/// and none when the namespace was exhausted.
pub fn sequence_identity(previous: Result<u64, u64>) -> (identity: Option<u64>)
    ensures
        identity == (match previous {
            Ok(value) => if value != 0 { Some(value) } else { None::<u64> },
            Err(_) => None::<u64>,
        }),
{
    match previous {
        Ok(value) => if value != 0 {
            Some(value)
        } else {
            None
        },
        Err(_) => None,
    }
}

/// Allocate the next identity of a monotonically increasing, non-reusable
/// namespace: the value before the increment, when the namespace is not
/// exhausted and that value is non-zero. Which value that is depends on every
/// other caller of the shared sequence, so only what holds of every outcome
/// is stated.
pub fn allocate(sequence: &AtomicU64) -> (identity: Option<u64>)
    ensures
        identity matches Some(value) ==> 0 < value < u64::MAX,
{
    sequence_identity(advance_sequence(sequence))
}

/// The lifecycle fact that admits one dispatched command: a command for an
/// entity whose slot is already represented joins it, and the first command
/// for an entity claims a fresh activation, unless the activation namespace
/// was exhausted, in which case the command is handed back.
pub fn admission_event<C, E, L>(
    dispatch_id: DispatchId,
    command: C,
    joined: bool,
    activation: Option<u64>,
    waiter_limit: usize,
) -> (event: Result<SlotEvent<C, E, L>, DirectoryError<C>>)
    requires
        activation matches Some(value) ==> value != 0,
        waiter_limit > 0,
    ensures
        event matches Ok(e) ==> crate::lifecycle::event_wf(e),
        joined ==> event == Ok::<SlotEvent<C, E, L>, DirectoryError<C>>(SlotEvent::Dispatch { dispatch_id, command }),
        !joined && activation is Some ==> (event matches Ok(SlotEvent::ClaimActivation {
            activation_id,
            dispatch_id: d,
            command: c,
            waiter_limit: w,
        }) && Some(activation_id.value()) == activation && d == dispatch_id && c == command && w == waiter_limit),
        !joined && activation is None ==> (event matches Err(DirectoryError::ActivationIdsExhausted(c)) && c == command),
{
    if joined {
        return Ok(SlotEvent::Dispatch { dispatch_id, command });
    }
    match activation {
        Some(value) => Ok(
            SlotEvent::ClaimActivation {
                activation_id: ActivationId::new(value),
                dispatch_id,
                command,
                waiter_limit,
            },
        ),
        None => Err(DirectoryError::ActivationIdsExhausted(command)),
    }
}

/// The runtime capability that one lifecycle effect of an entity's slot asks
/// for, with its arguments; a removal is not a runtime call but is applied by
/// the directory itself.
#[derive(Debug, PartialEq, Eq)]
pub enum RuntimeCall<I, C, E, L> {
    /// [`EffectInterpreter::start_activation`].
    StartActivation { entity_id: EntityId<I>, activation_id: ActivationId },
    /// [`EffectInterpreter::deliver`].
    Deliver {
        entity_id: EntityId<I>,
        activation_id: ActivationId,
        dispatch_id: DispatchId,
        endpoint: E,
        command: C,
    },
    /// [`EffectInterpreter::reject`].
    Reject { dispatch_id: DispatchId, command: C, reason: Refusal },
    /// [`EffectInterpreter::enqueue_fence`].
    EnqueueFence { entity_id: EntityId<I>, activation_id: ActivationId, endpoint: E },
    /// [`EffectInterpreter::retire`].
    Retire {
        entity_id: EntityId<I>,
        activation_id: ActivationId,
        lease: L,
        retirement: RetirementMode,
    },
    /// Remove the directory binding if it still holds this activation.
    RemoveSlot { activation_id: ActivationId },
}

/// The call that `effect`, emitted by the slot of `entity_id`, routes to:
/// every field of the effect is handed on unchanged, with the entity's
/// identity where the capability is entity-bound.
pub open spec fn call_for<I, C, E, L>(entity_id: EntityId<I>, effect: SlotEffect<C, E, L>) -> RuntimeCall<I, C, E, L> {
    match effect {
        SlotEffect::StartActivation { activation_id } => RuntimeCall::StartActivation { entity_id, activation_id },
        SlotEffect::Deliver { activation_id, dispatch_id, endpoint, command } => RuntimeCall::Deliver {
            entity_id,
            activation_id,
            dispatch_id,
            endpoint,
            command,
        },
        SlotEffect::Reject { dispatch_id, command, reason } => RuntimeCall::Reject { dispatch_id, command, reason },
        SlotEffect::EnqueueFence { activation_id, endpoint } => RuntimeCall::EnqueueFence {
            entity_id,
            activation_id,
            endpoint,
        },
        SlotEffect::Retire { activation_id, lease, retirement } => RuntimeCall::Retire {
            entity_id,
            activation_id,
            lease,
            retirement,
        },
        SlotEffect::Remove { activation_id } => RuntimeCall::RemoveSlot { activation_id },
    }
}

/// The effect that a runtime call carries out, read back from the call's
/// fields.
pub open spec fn effect_of_call<I, C, E, L>(call: RuntimeCall<I, C, E, L>) -> SlotEffect<C, E, L> {
    match call {
        RuntimeCall::StartActivation { activation_id, .. } => SlotEffect::StartActivation { activation_id },
        RuntimeCall::Deliver { activation_id, dispatch_id, endpoint, command, .. } => SlotEffect::Deliver {
            activation_id,
            dispatch_id,
            endpoint,
            command,
        },
        RuntimeCall::Reject { dispatch_id, command, reason } => SlotEffect::Reject { dispatch_id, command, reason },
        RuntimeCall::EnqueueFence { activation_id, endpoint, .. } => SlotEffect::EnqueueFence {
            activation_id,
            endpoint,
        },
        RuntimeCall::Retire { activation_id, lease, retirement, .. } => SlotEffect::Retire {
            activation_id,
            lease,
            retirement,
        },
        RuntimeCall::RemoveSlot { activation_id } => SlotEffect::Remove { activation_id },
    }
}

/// The entity that a runtime call is bound to, if it is entity-bound.
pub open spec fn entity_of_call<I, C, E, L>(call: RuntimeCall<I, C, E, L>) -> Option<EntityId<I>> {
    match call {
        RuntimeCall::StartActivation { entity_id, .. } => Some(entity_id),
        RuntimeCall::Deliver { entity_id, .. } => Some(entity_id),
        RuntimeCall::EnqueueFence { entity_id, .. } => Some(entity_id),
        RuntimeCall::Retire { entity_id, .. } => Some(entity_id),
        _ => None,
    }
}

/// Routing loses and alters nothing: the call an effect routes to carries out
/// exactly that effect, every field unchanged, and every capability bound to
/// an entity is called for the slot's own entity; only a refusal and a
/// removal are not entity-bound.
pub proof fn lemma_routing_preserves_the_effect<I, C, E, L>(entity_id: EntityId<I>, effect: SlotEffect<C, E, L>)
    ensures
        effect_of_call(call_for(entity_id, effect)) == effect,
        entity_of_call(call_for(entity_id, effect)) == (if effect is Reject || effect is Remove {
            None::<EntityId<I>>
        } else {
            Some(entity_id)
        }),
{
}

/// Route one lifecycle effect of the slot of `entity_id` to the runtime call
/// that performs it.
pub fn runtime_call<I, C, E, L>(entity_id: EntityId<I>, effect: SlotEffect<C, E, L>) -> (call: RuntimeCall<I, C, E, L>)
    ensures
        call == call_for(entity_id, effect),
{
    match effect {
        SlotEffect::StartActivation { activation_id } => RuntimeCall::StartActivation { entity_id, activation_id },
        SlotEffect::Deliver { activation_id, dispatch_id, endpoint, command } => RuntimeCall::Deliver {
            entity_id,
            activation_id,
            dispatch_id,
            endpoint,
            command,
        },
        SlotEffect::Reject { dispatch_id, command, reason } => RuntimeCall::Reject { dispatch_id, command, reason },
        SlotEffect::EnqueueFence { activation_id, endpoint } => RuntimeCall::EnqueueFence {
            entity_id,
            activation_id,
            endpoint,
        },
        SlotEffect::Retire { activation_id, lease, retirement } => RuntimeCall::Retire {
            entity_id,
            activation_id,
            lease,
            retirement,
        },
        SlotEffect::Remove { activation_id } => RuntimeCall::RemoveSlot { activation_id },
    }
}

/// A stored binding is removed only when it is still the slot that asked for
/// removal and that slot marked exactly this activation removable.
pub fn removal_matches(
    stored_is_slot: bool,
    removable: Option<ActivationId>,
    activation_id: ActivationId,
) -> (matches: bool)
    ensures
        matches == (stored_is_slot && removable == Some(activation_id)),
{
    stored_is_slot && match removable {
        Some(marked) => marked == activation_id,
        None => false,
    }
}

impl<C, E, L> OutputEvidence for LifecycleOutput<C, E, L> {
    type Evidence = (TransitionEvidence, Option<ActivationId>);

    fn evidence(&self) -> (evidence: Self::Evidence)
        ensures
            evidence == (self.evidence, self.activation_id),
    {
        (self.evidence, self.activation_id)
    }
}

} // verus!
