//! Statically composed, structurally representable executable machines.
//!
//! [`Machine`] retains sequential, product, and choice composition as concrete
//! structure. The same value can therefore be executed with [`Machine::step`]
//! and inspected with [`Machine::describe`].

use vstd::prelude::*;

use crate::topology::{Topology, ValidatedTopology};

verus! {

/// A stateful transducer whose composition remains structurally inspectable.
pub trait Machine: Sized {
    /// Input consumed by one step.
    type Input;

    /// Output produced for one input.
    type Output;

    /// Whether this machine is defined on `input` in its current state.
    spec fn accepts(&self, input: Self::Input) -> bool;

    /// Whether one step on `input` may produce `output` and `next`.
    spec fn steps_to(&self, input: Self::Input, output: Self::Output, next: Self) -> bool;

    /// Consume one input and return the output plus successor machine.
    fn step(self, input: Self::Input) -> (result: (Self::Output, Self))
        requires
            self.accepts(input),
        ensures
            self.steps_to(input, result.0, result.1),
    ;

    /// The retained composition tree: the topology of each indivisible
    /// machine and how the machines are composed.
    spec fn composition(&self) -> Composition;

    /// Fold the retained composition tree with a structural interpreter: each
    /// subtree is interpreted left before right, then its composition.
    fn describe<V: Structure>(&self, visitor: &mut V) -> (output: V::Output)
        ensures
            V::obeys_structure_spec() ==> (output, *final(visitor)) == fold(self.composition(), *old(visitor)),
    ;
}

/// A machine that can tell at run time whether it is defined on an input.
pub trait CheckedMachine: Machine {
    /// Whether this machine is defined on `input` in its current state.
    fn accepts_input(&self, input: &Self::Input) -> (accepted: bool)
        ensures
            accepted == self.accepts(*input),
    ;
}

/// The composition tree retained by a machine.
pub enum Composition {
    /// An indivisible machine with its topology.
    Base(Topology),
    /// Sequential composition.
    Then(Box<Composition>, Box<Composition>),
    /// Product composition.
    Product(Box<Composition>, Box<Composition>),
    /// Sum composition.
    Routed(Box<Composition>, Box<Composition>),
}

/// What interpreting `composition` with the interpreter in state `visitor`
/// produces, and the state it leaves the interpreter in: each subtree is
/// interpreted first left, then right, and their outputs are combined by the
/// operation of the composition.
pub open spec fn fold<V: Structure>(composition: Composition, visitor: V) -> (V::Output, V)
    decreases composition,
{
    match composition {
        Composition::Base(topology) => visitor.base_spec(topology),
        Composition::Then(first, second) => {
            let (o1, v1) = fold(*first, visitor);
            let (o2, v2) = fold(*second, v1);
            v2.and_then_spec(o1, o2)
        },
        Composition::Product(left, right) => {
            let (o1, v1) = fold(*left, visitor);
            let (o2, v2) = fold(*right, v1);
            v2.product_spec(o1, o2)
        },
        Composition::Routed(left, right) => {
            let (o1, v1) = fold(*left, visitor);
            let (o2, v2) = fold(*right, v1);
            v2.routed_spec(o1, o2)
        },
    }
}

/// Structural composition operations available to every machine.
pub trait Compose: Machine + Sized {
    /// Compose this machine sequentially with another machine.
    fn and_then<N>(self, next: N) -> (composed: Then<Self, N>)
        ensures
            composed.parts() == (self, next),
    {
        Then(self, next)
    }

    /// Compose this machine in a product with another machine.
    fn product<N>(self, other: N) -> (composed: Product<Self, N>)
        ensures
            composed.parts() == (self, other),
    {
        Product(self, other)
    }

    /// Compose this machine as an alternative to another machine.
    fn routed<N>(self, other: N) -> (composed: Routed<Self, N>)
        ensures
            composed.parts() == (self, other),
    {
        Routed(self, other)
    }
}

impl<M: Machine> Compose for M {}

/// Interpreter for the composition structure of a machine.
pub trait Structure: Sized {
    /// Representation produced for each subtree.
    type Output;

    /// Whether this interpreter follows the spec functions below. An
    /// interpreter that does not say so is promised nothing.
    open spec fn obeys_structure_spec() -> bool {
        false
    }

    /// The output of interpreting an indivisible machine of `topology`, and
    /// the interpreter's next state.
    open spec fn base_spec(&self, topology: Topology) -> (Self::Output, Self) {
        vstd::pervasive::arbitrary()
    }

    /// The output of interpreting sequential composition, and the
    /// interpreter's next state.
    open spec fn and_then_spec(&self, first: Self::Output, second: Self::Output) -> (Self::Output, Self) {
        vstd::pervasive::arbitrary()
    }

    /// The output of interpreting product composition, and the interpreter's
    /// next state.
    open spec fn product_spec(&self, left: Self::Output, right: Self::Output) -> (Self::Output, Self) {
        vstd::pervasive::arbitrary()
    }

    /// The output of interpreting sum composition, and the interpreter's next
    /// state.
    open spec fn routed_spec(&self, left: Self::Output, right: Self::Output) -> (Self::Output, Self) {
        vstd::pervasive::arbitrary()
    }

    /// Interpret an indivisible machine.
    fn base(&mut self, topology: Topology) -> (output: Self::Output)
        ensures
            Self::obeys_structure_spec() ==> (output, *final(self)) == old(self).base_spec(topology),
    ;

    /// Interpret sequential composition.
    fn and_then(&mut self, first: Self::Output, second: Self::Output) -> (output: Self::Output)
        ensures
            Self::obeys_structure_spec() ==> (output, *final(self)) == old(self).and_then_spec(first, second),
    ;

    /// Interpret product composition.
    fn product(&mut self, left: Self::Output, right: Self::Output) -> (output: Self::Output)
        ensures
            Self::obeys_structure_spec() ==> (output, *final(self)) == old(self).product_spec(left, right),
    ;

    /// Interpret sum composition.
    fn routed(&mut self, left: Self::Output, right: Self::Output) -> (output: Self::Output)
        ensures
            Self::obeys_structure_spec() ==> (output, *final(self)) == old(self).routed_spec(left, right),
    ;
}

/// An indivisible stateful machine and its inspectable topology.
pub struct Base<S, F, I, O> {
    state: S,
    transition: F,
    topology: ValidatedTopology,
    signature: core::marker::PhantomData<(I, O)>,
}

impl<S, F, I, O> Base<S, F, I, O> {
    /// The retained machine state.
    pub closed spec fn state_of(self) -> S {
        self.state
    }

    /// The retained transition function.
    pub closed spec fn transition_of(self) -> F {
        self.transition
    }

    /// The retained topology.
    pub closed spec fn topology_of(self) -> ValidatedTopology {
        self.topology
    }

    /// Construct a base machine from state, topology, and transition function.
    pub fn new(state: S, topology: ValidatedTopology, transition: F) -> (machine: Self)
        ensures
            machine.state_of() == state,
            machine.topology_of() == topology,
            machine.transition_of() == transition,
    {
        Self { state, transition, topology, signature: core::marker::PhantomData }
    }

    /// Borrow the retained machine state.
    pub fn state(&self) -> (state: &S)
        ensures
            *state == self.state_of(),
    {
        &self.state
    }
}

impl<S, I, O, F> Machine for Base<S, F, I, O> where F: Fn(S, I) -> (O, S) {
    type Input = I;

    type Output = O;

    open spec fn accepts(&self, input: I) -> bool {
        call_requires(self.transition_of(), (self.state_of(), input))
    }

    open spec fn steps_to(&self, input: I, output: O, next: Self) -> bool {
        &&& call_ensures(self.transition_of(), (self.state_of(), input), (output, next.state_of()))
        &&& next.transition_of() == self.transition_of()
        &&& next.topology_of() == self.topology_of()
    }

    fn step(self, input: Self::Input) -> (result: (Self::Output, Self)) {
        let Self { state, transition, topology, signature } = self;
        let (output, state) = transition(state, input);
        (output, Self { state, transition, topology, signature })
    }

    open spec fn composition(&self) -> Composition {
        Composition::Base(self.topology_of()@)
    }

    fn describe<V: Structure>(&self, visitor: &mut V) -> (output: V::Output) {
        visitor.base(self.topology.topology())
    }
}

/// Sequential composition of two machines.
pub struct Then<A, B>(A, B);

impl<A, B> Then<A, B> {
    /// The first and second machines.
    pub closed spec fn parts(self) -> (A, B) {
        (self.0, self.1)
    }
}

impl<A, B> Machine for Then<A, B> where A: Machine, B: Machine<Input = A::Output> {
    type Input = A::Input;

    type Output = B::Output;

    open spec fn accepts(&self, input: A::Input) -> bool {
        &&& self.parts().0.accepts(input)
        &&& forall|middle: A::Output, first: A|
            #[trigger] self.parts().0.steps_to(input, middle, first) ==> self.parts().1.accepts(middle)
    }

    open spec fn steps_to(&self, input: A::Input, output: B::Output, next: Self) -> bool {
        exists|middle: A::Output|
            #[trigger] self.parts().0.steps_to(input, middle, next.parts().0) && self.parts().1.steps_to(
                middle,
                output,
                next.parts().1,
            )
    }

    fn step(self, input: Self::Input) -> (result: (Self::Output, Self)) {
        let (middle, first) = self.0.step(input);
        let (output, second) = self.1.step(middle);
        let result = (output, Self(first, second));
        assert(self.parts().0.steps_to(input, middle, result.1.parts().0));
        result
    }

    open spec fn composition(&self) -> Composition {
        Composition::Then(Box::new(self.parts().0.composition()), Box::new(self.parts().1.composition()))
    }

    fn describe<V: Structure>(&self, visitor: &mut V) -> (output: V::Output) {
        let first = self.0.describe(visitor);
        let second = self.1.describe(visitor);
        visitor.and_then(first, second)
    }
}

/// Product composition of two independent machines.
pub struct Product<A, B>(A, B);

impl<A, B> Product<A, B> {
    /// The left and right machines.
    pub closed spec fn parts(self) -> (A, B) {
        (self.0, self.1)
    }
}

impl<A, B> Machine for Product<A, B> where A: Machine, B: Machine {
    type Input = (A::Input, B::Input);

    type Output = (A::Output, B::Output);

    open spec fn accepts(&self, input: (A::Input, B::Input)) -> bool {
        self.parts().0.accepts(input.0) && self.parts().1.accepts(input.1)
    }

    open spec fn steps_to(&self, input: (A::Input, B::Input), output: (A::Output, B::Output), next: Self) -> bool {
        &&& self.parts().0.steps_to(input.0, output.0, next.parts().0)
        &&& self.parts().1.steps_to(input.1, output.1, next.parts().1)
    }

    fn step(self, input: Self::Input) -> (result: (Self::Output, Self)) {
        let (left, right) = input;
        let (left_output, left_machine) = self.0.step(left);
        let (right_output, right_machine) = self.1.step(right);
        ((left_output, right_output), Self(left_machine, right_machine))
    }

    open spec fn composition(&self) -> Composition {
        Composition::Product(Box::new(self.parts().0.composition()), Box::new(self.parts().1.composition()))
    }

    fn describe<V: Structure>(&self, visitor: &mut V) -> (output: V::Output) {
        let left = self.0.describe(visitor);
        let right = self.1.describe(visitor);
        visitor.product(left, right)
    }
}

/// One of two alternatives.
#[derive(Debug, Clone, Copy, PartialEq, Eq)]
pub enum Either<L, R> {
    /// Left alternative.
    Left(L),
    /// Right alternative.
    Right(R),
}

/// Sum composition routing each alternative to its corresponding machine.
pub struct Routed<A, B>(A, B);

impl<A, B> Routed<A, B> {
    /// The left and right machines.
    pub closed spec fn parts(self) -> (A, B) {
        (self.0, self.1)
    }
}

impl<A, B> Machine for Routed<A, B> where A: Machine, B: Machine {
    type Input = Either<A::Input, B::Input>;

    type Output = Either<A::Output, B::Output>;

    open spec fn accepts(&self, input: Either<A::Input, B::Input>) -> bool {
        match input {
            Either::Left(left) => self.parts().0.accepts(left),
            Either::Right(right) => self.parts().1.accepts(right),
        }
    }

    /// The selected machine steps; the other is returned untouched.
    open spec fn steps_to(
        &self,
        input: Either<A::Input, B::Input>,
        output: Either<A::Output, B::Output>,
        next: Self,
    ) -> bool {
        match (input, output) {
            (Either::Left(left), Either::Left(out)) => self.parts().0.steps_to(left, out, next.parts().0)
                && next.parts().1 == self.parts().1,
            (Either::Right(right), Either::Right(out)) => self.parts().1.steps_to(
                right,
                out,
                next.parts().1,
            ) && next.parts().0 == self.parts().0,
            _ => false,
        }
    }

    fn step(self, input: Self::Input) -> (result: (Self::Output, Self)) {
        match input {
            Either::Left(left) => {
                let (output, machine) = self.0.step(left);
                (Either::Left(output), Self(machine, self.1))
            },
            Either::Right(right) => {
                let (output, machine) = self.1.step(right);
                (Either::Right(output), Self(self.0, machine))
            },
        }
    }

    open spec fn composition(&self) -> Composition {
        Composition::Routed(Box::new(self.parts().0.composition()), Box::new(self.parts().1.composition()))
    }

    fn describe<V: Structure>(&self, visitor: &mut V) -> (output: V::Output) {
        let left = self.0.describe(visitor);
        let right = self.1.describe(visitor);
        visitor.routed(left, right)
    }
}

} // verus!
