//! Local, in-memory activation and stable routing for entities.
//!
//! An entity is addressed by a stable [`EntityId`], while its actor incarnation
//! may be activated, drained, passivated, and later replaced. The lifecycle of
//! one routing slot is a pure reducer whose every decision is specified and
//! proved here:
//!
//! ```text
//! Inactive
//!   -> Activating(generation)
//!   -> Active(generation, actor reference)
//!   -> Draining(generation)
//!   -> Inactive
//! ```
//!
//! Generation checks prevent late activation or termination events from an old
//! incarnation from changing the binding for a newer incarnation.
#![allow(unused_imports)]

use vstd::prelude::*;

pub mod decision;
pub mod directory;
pub mod executor;
pub mod lifecycle;
pub mod machine;
pub mod protocol;
pub mod runtime;
pub mod topology;

pub use decision::{Decision, Reducer};
pub use directory::{
    admission_event, allocate, removal_matches, runtime_call, sequence_identity, RuntimeCall, shard_index, shard_mask, DirectoryConfig,
    DirectoryError, EffectInterpreter,
};
pub use executor::{
    DispatchOutcome, LinearizedExecution, OutputEvidence, OutputHandler, PoisonedInput,
    SerializedExecution, TurnOutcome, TurnState,
};
pub use lifecycle::machine::{
    lifecycle_machine, lifecycle_model, lifecycle_topology, validate_lifecycle_topology,
    LifecycleEdge, LifecycleMachine, LifecycleModel, LifecycleOutput, LifecyclePhase,
    LifecycleTopologyError, LifecycleTrigger, TransitionEvidence,
};
pub use lifecycle::{
    ActivatingSlot, ActivationId, ActivationWaiter, ActiveSlot, DispatchId, DrainFailure,
    DrainProgress, DrainStage, DrainingSlot, EntitySlot, Refusal, ReservationCount,
    RetirementMode, SlotDecision, SlotEffect, SlotEffectBatch, SlotEvent, SlotReducer,
};
pub use machine::{fold, Base, CheckedMachine, Compose, Composition, Either, Machine, Product, Routed, Structure, Then};
pub use protocol::{DrainFenceAcknowledged, EntityBehavior};
pub use runtime::{
    abandoned_waiter, dispatch_failure_from, fence_drain_failure, passivation_outcome, settle,
    Activated, DispatchFailure, FenceFailure, Passivation,
};
pub use topology::{
    RenderError, Topology, TopologyError, Transition, TriggerId, ValidatedTopology, Vertex,
    VertexId,
};

verus! {

/// A stable, typed identifier for an entity.
///
/// The identifier names the logical entity rather than any particular actor
/// incarnation. The inner value determines equality, ordering, and hashing.
#[derive(Clone, Copy, PartialEq, Eq, PartialOrd, Ord, Hash, Debug)]
pub struct EntityId<T>(pub(crate) T);

impl<T> EntityId<T> {
    /// The wrapped domain identifier.
    pub closed spec fn value(self) -> T {
        self.0
    }

    /// Wrap a domain identifier as an entity identifier.
    pub fn new(value: T) -> (id: Self)
        ensures
            id.value() == value,
    {
        Self(value)
    }

    /// Borrow the domain identifier.
    pub fn get(&self) -> (value: &T)
        ensures
            *value == self.value(),
    {
        &self.0
    }

    /// Return the wrapped domain identifier.
    pub fn into_inner(self) -> (value: T)
        ensures
            value == self.value(),
    {
        self.0
    }
}

impl<T: core::fmt::Display> EntityId<T> {
    /// Render the identifier exactly as its domain identifier renders.
    pub fn to_string(&self) -> (text: String)
        ensures
            vstd::string::to_string_from_display_ensures::<T>(&self.value(), text),
    {
        self.0.to_string()
    }
}

} // verus!
