//! Ordered monoidal collection of slot effects.

use vstd::prelude::*;

use super::SlotEffect;

verus! {

/// Ordered monoidal collection of slot effects.
///
/// Zero or one effect is held without allocating.
#[derive(Debug)]
pub struct SlotEffectBatch<C, E, L>(pub(crate) EffectStorage<C, E, L>);

#[derive(Debug)]
pub(crate) enum EffectStorage<C, E, L> {
    Empty,
    One(SlotEffect<C, E, L>),
    Many(Vec<SlotEffect<C, E, L>>),
}

impl<C, E, L> View for SlotEffectBatch<C, E, L> {
    type V = Seq<SlotEffect<C, E, L>>;

    closed spec fn view(&self) -> Seq<SlotEffect<C, E, L>> {
        match self.0 {
            EffectStorage::Empty => Seq::empty(),
            EffectStorage::One(effect) => seq![effect],
            EffectStorage::Many(effects) => effects@,
        }
    }
}

/// Borrow one value as a slice of length one.
#[verifier::external_body]
fn slice_of_one<T>(value: &T) -> (slice: &[T])
    ensures
        slice@ == seq![*value],
{
    core::slice::from_ref(value)
}

impl<C, E, L> SlotEffectBatch<C, E, L> {
    /// The empty batch.
    pub fn empty() -> (batch: Self)
        ensures
            batch@ == Seq::<SlotEffect<C, E, L>>::empty(),
    {
        Self(EffectStorage::Empty)
    }

    /// A batch holding exactly one effect.
    pub fn one(effect: SlotEffect<C, E, L>) -> (batch: Self)
        ensures
            batch@ == seq![effect],
    {
        Self(EffectStorage::One(effect))
    }

    /// Borrow the ordered effects.
    pub fn as_slice(&self) -> (effects: &[SlotEffect<C, E, L>])
        ensures
            effects@ == self@,
    {
        match &self.0 {
            EffectStorage::Empty => &[],
            EffectStorage::One(effect) => slice_of_one(effect),
            EffectStorage::Many(effects) => effects.as_slice(),
        }
    }

    /// Consume the batch and return its ordered effects.
    pub fn into_vec(self) -> (effects: Vec<SlotEffect<C, E, L>>)
        ensures
            effects@ == self@,
    {
        match self.0 {
            EffectStorage::Empty => Vec::new(),
            EffectStorage::One(effect) => {
                let mut effects = Vec::new();
                effects.push(effect);
                effects
            },
            EffectStorage::Many(effects) => effects,
        }
    }

    /// Consume effects in declaration order without allocating for zero or one
    /// effect: every effect of the batch is handed to `interpret`.
    pub fn for_each(self, interpret: impl Fn(SlotEffect<C, E, L>))
        requires
            forall|i: int| 0 <= i < self@.len() ==> call_requires(interpret, (#[trigger] self@[i],)),
        ensures
            forall|i: int| 0 <= i < self@.len() ==> call_ensures(interpret, (#[trigger] self@[i],), ()),
    {
        let ghost view = self@;
        match self.0 {
            EffectStorage::Empty => {},
            EffectStorage::One(effect) => {
                assert(view[0] == effect);
                interpret(effect)
            },
            EffectStorage::Many(effects) => {
                let ghost all = effects@;
                assert(all == view);
                for effect in it: effects
                    invariant
                        it.seq() == all,
                        forall|i: int| 0 <= i < all.len() ==> call_requires(interpret, (#[trigger] all[i],)),
                        forall|i: int| 0 <= i < it.index() ==> call_ensures(interpret, (#[trigger] all[i],), ()),
                {
                    interpret(effect);
                }
            },
        }
    }

    /// Append one effect after every effect already in the batch.
    pub(crate) fn push(&mut self, effect: SlotEffect<C, E, L>)
        ensures
            final(self)@ == old(self)@.push(effect),
    {
        let mut previous = EffectStorage::Empty;
        core::mem::swap(&mut previous, &mut self.0);
        match previous {
            EffectStorage::Empty => {
                self.0 = EffectStorage::One(effect);
            },
            EffectStorage::One(first) => {
                let mut effects = Vec::new();
                effects.push(first);
                effects.push(effect);
                self.0 = EffectStorage::Many(effects);
            },
            EffectStorage::Many(mut effects) => {
                effects.push(effect);
                self.0 = EffectStorage::Many(effects);
            },
        }
    }

    /// The batch holding this batch's effects followed by `rhs`'s effects.
    pub fn concat(self, rhs: Self) -> (batch: Self)
        ensures
            batch@ == self@ + rhs@,
    {
        let mut batch = self;
        let ghost start = batch@;
        match rhs.0 {
            EffectStorage::Empty => {
                assert(start + Seq::<SlotEffect<C, E, L>>::empty() =~= start);
            },
            EffectStorage::One(effect) => {
                batch.push(effect);
                assert(start + seq![effect] =~= start.push(effect));
            },
            EffectStorage::Many(effects) => {
                let ghost all = effects@;
                for effect in it: effects
                    invariant
                        it.seq() == all,
                        batch@ == start + all.take(it.index()),
                {
                    batch.push(effect);
                    proof {
                        assert(all.take(it.index() + 1) =~= all.take(it.index()).push(effect));
                    }
                }
                assert(all.take(all.len() as int) =~= all);
            },
        }
        batch
    }
}

impl<C, E, L> Default for SlotEffectBatch<C, E, L> {
    fn default() -> (batch: Self)
        ensures
            batch@ == Seq::<SlotEffect<C, E, L>>::empty(),
    {
        Self::empty()
    }
}

impl<C, E, L> core::ops::Add for SlotEffectBatch<C, E, L> {
    type Output = Self;

    fn add(self, rhs: Self) -> (batch: Self)
        ensures
            batch@ == self@ + rhs@,
    {
        self.concat(rhs)
    }
}

/// `+` on batches is described by the `ensures` of its `add`, which speaks of
/// the batches' views; no batch value is named as its result here.
impl<C, E, L> vstd::std_specs::ops::AddSpecImpl for SlotEffectBatch<C, E, L> {
    open spec fn obeys_add_spec() -> bool {
        false
    }

    open spec fn add_req(self, rhs: Self) -> bool {
        true
    }

    open spec fn add_spec(self, rhs: Self) -> Self {
        vstd::pervasive::arbitrary()
    }
}

/// Concatenation of effect batches, as their views compose under `concat`
/// and `+`, is a monoid: the empty batch is its identity and grouping does not
/// change the order of effects.
pub proof fn lemma_batch_concat_monoid<C, E, L>(
    a: Seq<SlotEffect<C, E, L>>,
    b: Seq<SlotEffect<C, E, L>>,
    c: Seq<SlotEffect<C, E, L>>,
)
    ensures
        Seq::<SlotEffect<C, E, L>>::empty() + a == a,
        a + Seq::<SlotEffect<C, E, L>>::empty() == a,
        (a + b) + c == a + (b + c),
{
    assert(Seq::<SlotEffect<C, E, L>>::empty() + a =~= a);
    assert(a + Seq::<SlotEffect<C, E, L>>::empty() =~= a);
    assert((a + b) + c =~= a + (b + c));
}

} // verus!
