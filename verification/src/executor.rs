//! Execution policies for representable machines, as sequential state that a
//! lock-holding interpreter advances.
//!
//! A serialized execution queues inputs and lets one owner run each turn to
//! completion before the next transition. A linearized execution advances
//! inputs at once and queues their outputs for one dispatching owner.

use vstd::prelude::*;

use std::collections::VecDeque;

use crate::machine::{CheckedMachine, Machine};

verus! {

/// Handles one machine output synchronously.
pub trait OutputHandler<O> {
    /// Whether this handler is defined on `output`; a handler is total unless
    /// it says otherwise.
    open spec fn ready(&self, output: O) -> bool {
        true
    }

    /// Handle the complete output of one transition.
    fn handle(&self, output: O)
        requires
            self.ready(output),
    ;
}

impl<O, F: Fn(O)> OutputHandler<O> for F {
    open spec fn ready(&self, output: O) -> bool {
        call_requires(*self, (output,))
    }

    fn handle(&self, output: O) {
        self(output)
    }
}

/// Extracts small copyable evidence before an output is queued for dispatch.
pub trait OutputEvidence {
    /// Evidence returned to the submitting caller.
    type Evidence;

    /// Extract evidence without consuming the output.
    fn evidence(&self) -> Self::Evidence;
}

/// Result of waiting for a serialized turn.
#[derive(Debug, Clone, Copy, PartialEq, Eq, Structural)]
pub enum TurnOutcome {
    /// The transition and its complete synchronous output handling finished.
    Completed,
    /// The executor was poisoned by a transition or output-handler panic.
    Poisoned,
}

/// Rejection of an input after a serialized executor was poisoned.
#[derive(Debug)]
pub struct PoisonedInput<I>(
    /// Input whose ownership was not accepted.
    pub I,
);

impl<I> PoisonedInput<I> {
    /// Human-readable description of the rejection.
    pub fn to_string(&self) -> (message: String)
        ensures
            message@ == "executor was poisoned by a previous panic"@,
    {
        String::from_str("executor was poisoned by a previous panic")
    }
}

/// Ownership result of one dispatch of pending outputs.
#[derive(Debug, Clone, Copy, PartialEq, Eq, Structural)]
pub enum DispatchOutcome {
    /// This call owned dispatch and drained the output queue.
    Drained,
    /// Another caller owns dispatch; queued outputs will be handled there.
    OwnedElsewhere,
}

/// Ownership phase of the serialized turn drain.
#[derive(Debug, Clone, Copy, PartialEq, Eq, Structural)]
pub enum TurnState {
    /// No caller is draining turns.
    Idle,
    /// One caller owns the drain loop.
    Running,
    /// A transition or handler panic poisoned the executor.
    Poisoned,
}

/// State of a serialized run-to-completion execution of one machine: the
/// machine (absent while a turn runs), the queued inputs with their receipts
/// in submission order, and the drain ownership phase.
pub struct SerializedExecution<M: Machine, R> {
    machine: Option<M>,
    inputs: VecDeque<(M::Input, R)>,
    turn: TurnState,
}

impl<M: Machine, R> SerializedExecution<M, R> {
    /// The machine, absent while its turn is running.
    pub closed spec fn machine_of(self) -> Option<M> {
        self.machine
    }

    /// Inputs queued for later turns, with their receipts, oldest first.
    pub closed spec fn queued(self) -> Seq<(M::Input, R)> {
        self.inputs@
    }

    /// Drain ownership phase.
    pub closed spec fn turn_of(self) -> TurnState {
        self.turn
    }

    /// An idle execution with an empty input queue.
    pub fn new(machine: M) -> (execution: Self)
        ensures
            execution.machine_of() == Some(machine),
            execution.queued() == Seq::<(M::Input, R)>::empty(),
            execution.turn_of() == TurnState::Idle,
    {
        Self { machine: Some(machine), inputs: VecDeque::new(), turn: TurnState::Idle }
    }

    /// Queue one input behind every earlier one. A poisoned execution refuses
    /// it and returns its ownership; otherwise the result says whether this
    /// caller now owns the drain loop, which happens exactly when no one did.
    pub fn enqueue(&mut self, input: M::Input, receipt: R) -> (owns: Result<bool, PoisonedInput<M::Input>>)
        ensures
            final(self).machine_of() == old(self).machine_of(),
            old(self).turn_of() == TurnState::Poisoned ==> {
                &&& owns matches Err(rejected) && rejected.0 == input
                &&& final(self).queued() == old(self).queued()
                &&& final(self).turn_of() == TurnState::Poisoned
            },
            old(self).turn_of() != TurnState::Poisoned ==> {
                &&& owns == Ok::<bool, PoisonedInput<M::Input>>(old(self).turn_of() == TurnState::Idle)
                &&& final(self).queued() == old(self).queued().push((input, receipt))
                &&& final(self).turn_of() == TurnState::Running
            },
    {
        match self.turn {
            TurnState::Poisoned => Err(PoisonedInput(input)),
            TurnState::Running => {
                self.inputs.push_back((input, receipt));
                Ok(false)
            },
            TurnState::Idle => {
                self.inputs.push_back((input, receipt));
                self.turn = TurnState::Running;
                Ok(true)
            },
        }
    }

    /// Begin the oldest queued turn, taking the machine out for it; with no
    /// input queued, release drain ownership instead.
    pub fn take_turn(&mut self) -> (turn: Option<(M, M::Input, R)>)
        requires
            old(self).machine_of() is Some,
        ensures
            old(self).queued().len() == 0 ==> {
                &&& turn is None
                &&& final(self).turn_of() == TurnState::Idle
                &&& final(self).machine_of() == old(self).machine_of()
                &&& final(self).queued() == old(self).queued()
            },
            old(self).queued().len() > 0 ==> {
                &&& turn matches Some((machine, input, receipt)) && Some(machine) == old(self).machine_of()
                    && (input, receipt) == old(self).queued()[0]
                &&& final(self).machine_of() is None
                &&& final(self).queued() == old(self).queued().drop_first()
                &&& final(self).turn_of() == old(self).turn_of()
            },
    {
        match self.inputs.pop_front() {
            None => {
                self.turn = TurnState::Idle;
                None
            },
            Some((input, receipt)) => {
                let machine = self.machine.take();
                match machine {
                    Some(machine) => Some((machine, input, receipt)),
                    None => vstd::pervasive::unreached(),
                }
            },
        }
    }

    /// Reinstall the successor machine after its transition.
    pub fn install(&mut self, machine: M)
        ensures
            final(self).machine_of() == Some(machine),
            final(self).queued() == old(self).queued(),
            final(self).turn_of() == old(self).turn_of(),
    {
        self.machine = Some(machine);
    }

    /// Poison the execution after a panic and hand back every queued receipt,
    /// oldest first, so each can be resolved as poisoned.
    pub fn poison(&mut self) -> (receipts: Vec<R>)
        ensures
            final(self).turn_of() == TurnState::Poisoned,
            final(self).queued() == Seq::<(M::Input, R)>::empty(),
            final(self).machine_of() == old(self).machine_of(),
            receipts@ == old(self).queued().map_values(|entry: (M::Input, R)| entry.1),
    {
        self.turn = TurnState::Poisoned;
        let ghost all = self.inputs@;
        let mut receipts = Vec::new();
        while self.inputs.len() > 0
            invariant
                receipts@ + self.inputs@.map_values(|entry: (M::Input, R)| entry.1) == all.map_values(
                    |entry: (M::Input, R)| entry.1,
                ),
                self.turn == TurnState::Poisoned,
                self.machine == old(self).machine,
            decreases self.inputs@.len(),
        {
            let ghost before = self.inputs@;
            match self.inputs.pop_front() {
                Some((_, receipt)) => {
                    receipts.push(receipt);
                    proof {
                        assert(before.map_values(|entry: (M::Input, R)| entry.1) =~= seq![receipt]
                            + self.inputs@.map_values(|entry: (M::Input, R)| entry.1));
                        assert(receipts@ + self.inputs@.map_values(|entry: (M::Input, R)| entry.1) =~= (
                        receipts@.drop_last() + seq![receipt]) + self.inputs@.map_values(
                            |entry: (M::Input, R)| entry.1,
                        ));
                    }
                },
                None => {},
            }
        }
        proof {
            assert(self.inputs@.map_values(|entry: (M::Input, R)| entry.1) =~= Seq::<R>::empty());
            assert(receipts@ + Seq::<R>::empty() =~= receipts@);
        }
        receipts
    }
}

/// State of a transition-linearized execution: the machine (absent only if a
/// transition panicked), the outputs awaiting dispatch in transition order,
/// the evidence of the latest transition, and whether a caller owns dispatch.
pub struct LinearizedExecution<M: Machine> where M::Output: OutputEvidence {
    machine: Option<M>,
    outputs: VecDeque<M::Output>,
    evidence: Option<<M::Output as OutputEvidence>::Evidence>,
    dispatching: bool,
}

impl<M: Machine> LinearizedExecution<M> where
    M::Output: OutputEvidence,
    <M::Output as OutputEvidence>::Evidence: Clone,
 {
    /// The machine.
    pub closed spec fn machine_of(self) -> Option<M> {
        self.machine
    }

    /// Outputs awaiting dispatch, oldest first.
    pub closed spec fn pending(self) -> Seq<M::Output> {
        self.outputs@
    }

    /// Evidence installed by the latest transition.
    pub closed spec fn latest(self) -> Option<<M::Output as OutputEvidence>::Evidence> {
        self.evidence
    }

    /// Whether a caller owns dispatch.
    pub closed spec fn dispatching(self) -> bool {
        self.dispatching
    }

    /// An execution with no pending output, no evidence, and no dispatcher.
    pub fn new(machine: M) -> (execution: Self)
        ensures
            execution.machine_of() == Some(machine),
            execution.pending() == Seq::<M::Output>::empty(),
            execution.latest() is None,
            !execution.dispatching(),
    {
        Self { machine: Some(machine), outputs: VecDeque::new(), evidence: None, dispatching: false }
    }

    /// Advance the machine and enqueue its output at the same linearization
    /// point, installing and returning the output's evidence.
    pub fn submit(&mut self, input: M::Input) -> (evidence: <M::Output as OutputEvidence>::Evidence)
        requires
            old(self).machine_of() matches Some(machine) && machine.accepts(input),
        ensures
            final(self).pending().len() == old(self).pending().len() + 1,
            final(self).pending().drop_last() == old(self).pending(),
            final(self).machine_of() matches Some(next) && old(self).machine_of().unwrap().steps_to(
                input,
                final(self).pending().last(),
                next,
            ),
            final(self).latest() matches Some(installed) && cloned(evidence, installed),
            final(self).dispatching() == old(self).dispatching(),
    {
        let machine = match self.machine.take() {
            Some(machine) => machine,
            None => vstd::pervasive::unreached(),
        };
        let (output, successor) = machine.step(input);
        let evidence = output.evidence();
        self.evidence = Some(evidence.clone());
        self.machine = Some(successor);
        let ghost before = self.outputs@;
        self.outputs.push_back(output);
        assert(self.outputs@.drop_last() =~= before);
        evidence
    }

    /// Whether the machine is defined on `input` in its current state.
    pub fn accepts(&self, input: &M::Input) -> (accepted: bool) where M: CheckedMachine
        requires
            self.machine_of() is Some,
        ensures
            accepted == self.machine_of().unwrap().accepts(*input),
    {
        match &self.machine {
            Some(machine) => machine.accepts_input(input),
            None => vstd::pervasive::unreached(),
        }
    }

    /// A clone of the evidence installed by the latest transition.
    pub fn evidence(&self) -> (evidence: Option<<M::Output as OutputEvidence>::Evidence>)
        ensures
            evidence is Some <==> self.latest() is Some,
            evidence matches Some(e) ==> cloned(self.latest().unwrap(), e),
    {
        match &self.evidence {
            Some(evidence) => Some(evidence.clone()),
            None => None,
        }
    }

    /// Take dispatch ownership unless another caller holds it.
    pub fn acquire(&mut self) -> (acquired: bool)
        ensures
            acquired == !old(self).dispatching(),
            final(self).dispatching(),
            final(self).pending() == old(self).pending(),
            final(self).machine_of() == old(self).machine_of(),
            final(self).latest() == old(self).latest(),
    {
        if self.dispatching {
            false
        } else {
            self.dispatching = true;
            true
        }
    }

    /// Hand the oldest pending output to the dispatching owner; an exhausted
    /// queue releases ownership.
    pub fn next(&mut self) -> (output: Option<M::Output>)
        ensures
            old(self).pending().len() == 0 ==> output is None && !final(self).dispatching()
                && final(self).pending() == old(self).pending(),
            old(self).pending().len() > 0 ==> output == Some(old(self).pending()[0])
                && final(self).pending() == old(self).pending().drop_first() && final(self).dispatching()
                == old(self).dispatching(),
            final(self).machine_of() == old(self).machine_of(),
            final(self).latest() == old(self).latest(),
    {
        let output = self.outputs.pop_front();
        if output.is_none() {
            self.dispatching = false;
        }
        output
    }

    /// Release dispatch ownership without draining, after a handler panic.
    pub fn release(&mut self)
        ensures
            !final(self).dispatching(),
            final(self).pending() == old(self).pending(),
            final(self).machine_of() == old(self).machine_of(),
            final(self).latest() == old(self).latest(),
    {
        self.dispatching = false;
    }
}

} // verus!
