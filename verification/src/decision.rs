//! Deterministic reductions of a state and an event into a successor state
//! and a description of effects.
//!
//! A reducer is the total function `State × Event → State × Effects`. It does
//! not execute effects, choose a transport, own locks, or prescribe storage:
//! interpreters may be concurrent, asynchronous, simulated, or model checked
//! without changing the reducer.

use vstd::prelude::*;

verus! {

/// The value produced by one deterministic reduction.
#[must_use]
#[derive(Debug, Clone, Copy, PartialEq, Eq)]
pub struct Decision<S, F> {
    /// State to install after the reduction.
    pub state: S,
    /// Description of effects for a separate interpreter.
    pub effects: F,
}

impl<S, F> Decision<S, F> {
    /// Pair the next state with its effect description.
    pub fn new(state: S, effects: F) -> (decision: Self)
        ensures
            decision.state == state,
            decision.effects == effects,
    {
        Self { state, effects }
    }

    /// Transform only the effect description.
    pub fn map_effects<G>(self, map: impl FnOnce(F) -> G) -> (decision: Decision<S, G>)
        requires
            call_requires(map, (self.effects,)),
        ensures
            maps_effects_to(self, map, decision),
    {
        Decision::new(self.state, map(self.effects))
    }

    /// Transform only the next state.
    pub fn map_state<T>(self, map: impl FnOnce(S) -> T) -> (decision: Decision<T, F>)
        requires
            call_requires(map, (self.state,)),
        ensures
            maps_state_to(self, map, decision),
    {
        Decision::new(map(self.state), self.effects)
    }

    /// Transform the next state and effect description independently.
    pub fn map<T, G>(
        self,
        state: impl FnOnce(S) -> T,
        effects: impl FnOnce(F) -> G,
    ) -> (decision: Decision<T, G>)
        requires
            call_requires(state, (self.state,)),
            call_requires(effects, (self.effects,)),
        ensures
            maps_to(self, state, effects, decision),
    {
        Decision::new(state(self.state), effects(self.effects))
    }
}

/// Whether `mapped` may be the result of transforming only the effects of
/// `decision` with `map`: the state is kept and the effects are what `map`
/// returns for them.
pub open spec fn maps_effects_to<S, F, G, M: FnOnce(F) -> G>(decision: Decision<S, F>, map: M, mapped: Decision<S, G>) -> bool {
    &&& mapped.state == decision.state
    &&& call_ensures(map, (decision.effects,), mapped.effects)
}

/// Whether `mapped` may be the result of transforming only the state of
/// `decision` with `map`.
pub open spec fn maps_state_to<S, F, T, M: FnOnce(S) -> T>(decision: Decision<S, F>, map: M, mapped: Decision<T, F>) -> bool {
    &&& call_ensures(map, (decision.state,), mapped.state)
    &&& mapped.effects == decision.effects
}

/// Whether `mapped` may be the result of transforming the state of
/// `decision` with `state` and its effects with `effects`, independently.
pub open spec fn maps_to<S, F, T, G, MS: FnOnce(S) -> T, ME: FnOnce(F) -> G>(
    decision: Decision<S, F>,
    state: MS,
    effects: ME,
    mapped: Decision<T, G>,
) -> bool {
    &&& call_ensures(state, (decision.state,), mapped.state)
    &&& call_ensures(effects, (decision.effects,), mapped.effects)
}

/// Transforming state and effects together gives exactly the decisions that
/// transforming the state and then the effects may give: `mapped` is a
/// possible result of `map` if and only if the decision with its state and the
/// original effects is a possible result of `map_state`, and `mapped` a
/// possible result of `map_effects` on that.
pub proof fn lemma_map_is_map_state_then_map_effects<S, F, T, G, MS: FnOnce(S) -> T, ME: FnOnce(F) -> G>(
    decision: Decision<S, F>,
    state: MS,
    effects: ME,
    mapped: Decision<T, G>,
)
    ensures
        maps_to(decision, state, effects, mapped) <==> (maps_state_to(
            decision,
            state,
            (Decision::<T, F> { state: mapped.state, effects: decision.effects }),
        ) && maps_effects_to(
            (Decision::<T, F> { state: mapped.state, effects: decision.effects }),
            effects,
            mapped,
        )),
{
}

/// A deterministic transition algebra.
///
/// `accepts` names the states and events on which a reducer is defined;
/// implementations state what `reduce` returns in their own `ensures`.
pub trait Reducer<S, E> {
    /// Effect description returned to an interpreter.
    type Effects;

    /// Whether `reduce` may be applied to this state and event; a reducer is
    /// total unless it says otherwise.
    open spec fn accepts(&self, state: S, event: E) -> bool {
        true
    }

    /// Reduce one state and event into the next state and effects.
    fn reduce(&self, state: S, event: E) -> Decision<S, Self::Effects>
        requires
            self.accepts(state, event),
    ;
}

} // verus!
