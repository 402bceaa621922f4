//! An ordered registry of consumables, drained front to back.

use vstd::prelude::*;
use std::collections::VecDeque;
use crate::consumable::Consumable;
use crate::error::Error;

verus! {

/// What a drain that stopped early hands to its caller.
#[derive(Debug)]
pub struct DrainFailure {
    /// The effects of the items that were consumed before the stop, in order.
    pub effects: Vec<String>,
    /// How many items were consumed. This is also the position, in the
    /// registry as it was before the drain, of the item that refused.
    pub failed_at: usize,
    /// `ConsumptionFailed`, with the cause that the item gave.
    pub error: Error,
}

impl DrainFailure {
    /// The failure of a drain that consumed the items with `effects` and was
    /// then refused for `cause`.
    pub fn new(effects: Vec<String>, cause: String) -> (failure: DrainFailure)
        ensures
            failure.effects == effects,
            failure.failed_at == effects@.len(),
            failure.error == Error::ConsumptionFailed(cause),
    {
        let failed_at: usize = effects.len();
        DrainFailure { effects, failed_at, error: Error::ConsumptionFailed(cause) }
    }
}

/// The first items of `items` may have said that they were ready and may
/// have had `effects`, one for one and in order.
pub open spec fn consumed_in_order<T: Consumable + ?Sized>(
    items: Seq<Box<T>>,
    effects: Seq<String>,
) -> bool {
    &&& effects.len() <= items.len()
    &&& forall|i: int| 0 <= i < effects.len() ==> (#[trigger] items[i]).may_accept()
    &&& forall|i: int| 0 <= i < effects.len() ==> items[i].may_yield(#[trigger] effects[i]@)
}

/// A drain of a registry that held `before` may leave `after` and return
/// `result`.
///
/// A full drain consumed every item and left nothing. A drain that stopped did
/// so at the first item that refused: the items in front of it were consumed,
/// that item and all behind it are left as they were and in their order.
pub open spec fn drained<T: Consumable + ?Sized>(
    before: Seq<Box<T>>,
    after: Seq<Box<T>>,
    result: Result<Vec<String>, DrainFailure>,
) -> bool {
    match result {
        Ok(effects) => {
            &&& effects@.len() == before.len()
            &&& consumed_in_order(before, effects@)
            &&& after == Seq::<Box<T>>::empty()
        },
        Err(failure) => {
            &&& failure.effects@.len() < before.len()
            &&& failure.failed_at == failure.effects@.len()
            &&& consumed_in_order(before, failure.effects@)
            &&& failure.error matches Error::ConsumptionFailed(cause)
            &&& before[failure.failed_at as int].may_refuse(cause@)
            &&& after == before.skip(failure.failed_at as int)
        },
    }
}

/// Owned consumables in the order in which they were pushed.
///
/// `Registry<dyn Consumable>` holds items of any kinds side by side. A
/// registry of one item type, such as `Registry<u64>`, holds items of that
/// type only, and what the type states of its items is known of each of them.
pub struct Registry<T: Consumable + ?Sized> {
    items: VecDeque<Box<T>>,
}

impl<T: Consumable + ?Sized> Registry<T> {
    /// The items, oldest first.
    pub closed spec fn view(&self) -> Seq<Box<T>> {
        self.items@
    }

    /// An empty registry.
    pub fn new() -> (registry: Self)
        ensures
            registry@ == Seq::<Box<T>>::empty(),
    {
        Registry { items: VecDeque::new() }
    }

    /// Number of items held.
    pub fn len(&self) -> (n: usize)
        ensures
            n == self@.len(),
    {
        self.items.len()
    }

    /// Whether the registry holds no item.
    pub fn is_empty(&self) -> (empty: bool)
        ensures
            empty <==> self@.len() == 0,
    {
        self.items.len() == 0
    }

    /// Appends `item` behind all items held.
    pub fn push(&mut self, item: Box<T>)
        ensures
            final(self)@ == old(self)@.push(item),
    {
        self.items.push_back(item);
    }

    /// Consumes the items front to back, each one once, and returns their
    /// effects in that order.
    ///
    /// The drain stops at the first item that refuses. Nothing is rolled back
    /// and nothing is dropped: see [`drained`].
    pub fn drain(&mut self) -> (result: Result<Vec<String>, DrainFailure>)
        ensures
            drained(old(self)@, final(self)@, result),
    {
        let mut effects: Vec<String> = Vec::new();
        while self.items.len() > 0
            invariant
                effects@.len() <= old(self)@.len(),
                self@ == old(self)@.skip(effects@.len() as int),
                consumed_in_order(old(self)@, effects@),
            decreases self@.len(),
        {
            match self.items[0].ready() {
                Err(cause) => {
                    return Err(DrainFailure::new(effects, cause));
                },
                Ok(()) => {
                    let ghost consumed: Seq<String> = effects@;
                    let item = self.items.pop_front().unwrap();
                    let effect: String = item.finish();
                    effects.push(effect);
                    assert forall|i: int| 0 <= i < effects@.len() implies old(self)@[i].may_yield(
                        #[trigger] effects@[i]@,
                    ) by {
                        if i < consumed.len() {
                            assert(effects@[i] == consumed[i]);
                        }
                    }
                },
            }
        }
        assert(self@ =~= Seq::<Box<T>>::empty());
        Ok(effects)
    }
}

/// Draining an empty registry consumes nothing, returns no effect and leaves
/// the registry empty.
pub proof fn lemma_drain_of_empty<T: Consumable + ?Sized>(
    after: Seq<Box<T>>,
    result: Result<Vec<String>, DrainFailure>,
)
    requires
        drained(Seq::<Box<T>>::empty(), after, result),
    ensures
        result matches Ok(effects) && effects@.len() == 0,
        after == Seq::<Box<T>>::empty(),
{
}

/// After a drain that ran to the end the registry holds nothing, and a second
/// drain does nothing: it returns no effect and leaves the registry empty.
pub proof fn lemma_second_drain_does_nothing<T: Consumable + ?Sized>(
    before: Seq<Box<T>>,
    between: Seq<Box<T>>,
    after: Seq<Box<T>>,
    first: Result<Vec<String>, DrainFailure>,
    second: Result<Vec<String>, DrainFailure>,
)
    requires
        drained(before, between, first),
        first is Ok,
        drained(between, after, second),
    ensures
        between.len() == 0,
        second matches Ok(effects) && effects@.len() == 0,
        after == between,
{
}

/// Three items pushed one after the other are consumed in the order of the
/// pushes: the first effect is the first item's, and so on. Where the drain
/// stops, the effects so far follow that order too.
pub proof fn lemma_drain_follows_push_order<T: Consumable + ?Sized>(
    a: Box<T>,
    b: Box<T>,
    c: Box<T>,
    after: Seq<Box<T>>,
    result: Result<Vec<String>, DrainFailure>,
)
    requires
        drained(Seq::<Box<T>>::empty().push(a).push(b).push(c), after, result),
    ensures
        (match result {
            Ok(effects) => {
                &&& effects@.len() == 3
                &&& a.may_yield(effects@[0]@)
                &&& b.may_yield(effects@[1]@)
                &&& c.may_yield(effects@[2]@)
            },
            Err(failure) => {
                &&& failure.effects@.len() < 3
                &&& failure.effects@.len() > 0 ==> a.may_yield(failure.effects@[0]@)
                &&& failure.effects@.len() > 1 ==> b.may_yield(failure.effects@[1]@)
            },
        }),
{
    let items = Seq::<Box<T>>::empty().push(a).push(b).push(c);
    assert(items[0] == a && items[1] == b && items[2] == c);
}

/// Every item is either consumed, and then has one effect, or still held: a
/// drain loses no item and makes none up. The items still held are the last
/// ones, in their order.
pub proof fn lemma_drain_loses_nothing<T: Consumable + ?Sized>(
    before: Seq<Box<T>>,
    after: Seq<Box<T>>,
    result: Result<Vec<String>, DrainFailure>,
)
    requires
        drained(before, after, result),
    ensures
        (match result {
            Ok(effects) => effects@.len() + after.len() == before.len(),
            Err(failure) => failure.effects@.len() + after.len() == before.len(),
        }),
        forall|i: int| 0 <= i < after.len() ==> after[i] == before[before.len() - after.len() + i],
{
}

/// Where no item can refuse, the drain runs to the end.
pub proof fn lemma_drain_succeeds_where_no_item_refuses<T: Consumable + ?Sized>(
    before: Seq<Box<T>>,
    after: Seq<Box<T>>,
    result: Result<Vec<String>, DrainFailure>,
)
    requires
        drained(before, after, result),
        forall|i: int, cause: Seq<char>| 0 <= i < before.len() ==> !#[trigger] before[i].may_refuse(cause),
    ensures
        result is Ok,
{
}

/// No drain gets past an item that is never ready: it stops at that item or
/// in front of it.
pub proof fn lemma_drain_stops_at_an_item_never_ready<T: Consumable + ?Sized>(
    before: Seq<Box<T>>,
    after: Seq<Box<T>>,
    result: Result<Vec<String>, DrainFailure>,
    k: int,
)
    requires
        drained(before, after, result),
        0 <= k < before.len(),
        !before[k].may_accept(),
    ensures
        result matches Err(failure) && failure.failed_at <= k,
{
}

/// Where the item at `k` is never ready and no item in front of it can
/// refuse, the drain stops exactly at `k`: the items in front were consumed,
/// the item at `k` and those behind it are left.
pub proof fn lemma_drain_stops_exactly_at<T: Consumable + ?Sized>(
    before: Seq<Box<T>>,
    after: Seq<Box<T>>,
    result: Result<Vec<String>, DrainFailure>,
    k: int,
)
    requires
        drained(before, after, result),
        0 <= k < before.len(),
        !before[k].may_accept(),
        forall|i: int, cause: Seq<char>| 0 <= i < k ==> !#[trigger] before[i].may_refuse(cause),
    ensures
        result matches Err(failure) && failure.failed_at == k && failure.effects@.len() == k,
        after == before.skip(k),
{
}

} // verus!
