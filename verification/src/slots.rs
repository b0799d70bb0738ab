//! The slab that hands out slots.
//!
//! A `slab::Slab` keeps a fixed number of slots and a chain of the vacant
//! ones. The loop handler uses one to decide which `Id` the next endpoint
//! gets and whether there is room for it; what the slab stores in a slot is
//! the kind of endpoint that took it. The slab's code is not verified here:
//! this module states what its methods do, and the handler is proved against
//! those statements.

use vstd::prelude::*;

verus! {

/// The kind of endpoint that holds a slot.
#[derive(Clone, Copy, Debug, PartialEq, Eq, Structural)]
pub enum Kind {
    Listener,
    Stream,
}

/// A `slab::Slab` of endpoint kinds, keyed by slot.
///
/// The slab's type carries a bound by a trait of its own crate, which Verus
/// does not take, so the slab stands in a struct whose body Verus does not
/// read. All that is known of a value is what `slab_entries` and
/// `slab_vacant` say of it.
#[verifier::external_body]
pub struct Slots {
    slab: slab::Slab<Kind, usize>,
}

/// The filled slots of the slab and what each holds.
pub uninterp spec fn slab_entries(slots: Slots) -> Map<usize, Kind>;

/// The vacant slots of the slab, in the order in which `insert` will fill
/// them: the slab chains its vacant slots, and the head of the chain is
/// filled next.
pub uninterp spec fn slab_vacant(slots: Slots) -> Seq<usize>;

impl Slots {
    /// The number of slots, filled and vacant.
    pub open spec fn limit(&self) -> nat {
        slab_entries(*self).dom().len() + slab_vacant(*self).len()
    }

    /// Every slot is either filled or once in the chain of vacant slots, and
    /// the slots are numbered from 0. This holds of a slab from `new` and
    /// after every `insert` and every `remove` of a filled slot.
    pub open spec fn wf(&self) -> bool {
        &&& slab_entries(*self).dom().finite()
        &&& slab_vacant(*self).no_duplicates()
        &&& forall|key: usize| #[trigger]
            slab_entries(*self).dom().contains(key) ==> !slab_vacant(*self).contains(key)
                && key < self.limit()
        &&& forall|i: int|
            0 <= i < slab_vacant(*self).len() ==> #[trigger] slab_vacant(*self)[i] < self.limit()
    }

    /// No entry.
    pub open spec fn nothing() -> Map<usize, Kind> {
        Map::empty()
    }

    /// The slots `0`, `1`, ... below `capacity`, in this order.
    pub open spec fn fresh(capacity: nat) -> Seq<usize> {
        Seq::new(capacity, |i: int| i as usize)
    }

    /// `slab::Slab::new`: a slab of `capacity` slots, all vacant, chained in
    /// rising order. The slab allocates its slots at once, each of at most 16
    /// bytes, and panics where they do not fit in `isize::MAX` bytes.
    #[verifier::external_body]
    pub(crate) fn new(capacity: usize) -> (slots: Slots)
        requires
            capacity * 16 <= isize::MAX,
        ensures
            slab_entries(slots) == Slots::nothing(),
            slab_vacant(slots) == Slots::fresh(capacity as nat),
    {
        Slots { slab: slab::Slab::new(capacity) }
    }

    /// `slab::Slab::insert`: fills the slot at the head of the vacant chain
    /// with `kind` and returns that slot; with no vacant slot it returns
    /// nothing and leaves the slab as it is.
    #[verifier::external_body]
    pub(crate) fn insert(&mut self, kind: Kind) -> (key: Option<usize>)
        requires
            old(self).wf(),
        ensures
            slab_vacant(*old(self)).len() == 0 ==> key.is_none(),
            slab_vacant(*old(self)).len() == 0 ==> slab_entries(*final(self)) == slab_entries(
                *old(self),
            ),
            slab_vacant(*old(self)).len() == 0 ==> slab_vacant(*final(self)) == slab_vacant(
                *old(self),
            ),
            slab_vacant(*old(self)).len() > 0 ==> key == Some(slab_vacant(*old(self))[0]),
            slab_vacant(*old(self)).len() > 0 ==> slab_entries(*final(self)) == slab_entries(
                *old(self),
            ).insert(slab_vacant(*old(self))[0], kind),
            slab_vacant(*old(self)).len() > 0 ==> slab_vacant(*final(self)) == slab_vacant(
                *old(self),
            ).drop_first(),
    {
        self.slab.insert(kind).ok()
    }

    /// `slab::Slab::remove` on a filled slot: empties the slot, returns what
    /// it held, and puts the slot at the head of the vacant chain. (On a
    /// vacant slot the slab's `remove` breaks the chain, so that case is
    /// left out.)
    #[verifier::external_body]
    pub(crate) fn remove(&mut self, key: usize) -> (kind: Option<Kind>)
        requires
            old(self).wf(),
            slab_entries(*old(self)).dom().contains(key),
        ensures
            kind == Some(slab_entries(*old(self))[key]),
            slab_entries(*final(self)) == slab_entries(*old(self)).remove(key),
            slab_vacant(*final(self)) == seq![key] + slab_vacant(*old(self)),
    {
        self.slab.remove(key)
    }

    /// `slab::Slab::count`: the number of filled slots.
    #[verifier::external_body]
    pub(crate) fn count(&self) -> (count: usize)
        requires
            self.wf(),
        ensures
            count == slab_entries(*self).dom().len(),
    {
        self.slab.count()
    }

    /// `slab::Slab::get`, with the entry copied: what the slot holds, or
    /// nothing if it is vacant. (A key that is no slot is left out: the slab
    /// holds it against what its vector has allocated, not against the
    /// number of its slots.)
    #[verifier::external_body]
    pub(crate) fn get(&self, key: usize) -> (kind: Option<Kind>)
        requires
            self.wf(),
            key < self.limit(),
        ensures
            slab_entries(*self).dom().contains(key) ==> kind == Some(slab_entries(*self)[key]),
            !slab_entries(*self).dom().contains(key) ==> kind.is_none(),
    {
        self.slab.get(key).copied()
    }
}

/// A slab from `new` is well formed, and its limit is the capacity it was
/// made with.
pub proof fn lemma_fresh_slots(slots: Slots, capacity: nat)
    requires
        slab_entries(slots) == Slots::nothing(),
        slab_vacant(slots) == Slots::fresh(capacity),
        capacity <= usize::MAX,
    ensures
        slots.wf(),
        slots.limit() == capacity,
{
    let vacant = slab_vacant(slots);
    assert forall|i: int, j: int|
        0 <= i < vacant.len() && 0 <= j < vacant.len() && i != j implies vacant[i] != vacant[j] by {
        assert(vacant[i] == i as usize && vacant[j] == j as usize);
    }
}

/// Filling the head of the vacant chain keeps a slab well formed and leaves
/// its limit as it was.
pub proof fn lemma_filled_slots(before: Slots, after: Slots, kind: Kind)
    requires
        before.wf(),
        slab_vacant(before).len() > 0,
        slab_entries(after) == slab_entries(before).insert(slab_vacant(before)[0], kind),
        slab_vacant(after) == slab_vacant(before).drop_first(),
    ensures
        after.wf(),
        after.limit() == before.limit(),
        !slab_entries(before).dom().contains(slab_vacant(before)[0]),
        !slab_vacant(after).contains(slab_vacant(before)[0]),
{
    let vacant = slab_vacant(before);
    let rest = slab_vacant(after);
    // the rest of the chain is the chain shifted by one, so what holds of
    // every link of the chain holds of every link of the rest
    assert forall|i: int| 0 <= i < rest.len() implies rest[i] == vacant[i + 1] && vacant.contains(
        rest[i],
    ) by {}
    assert(vacant.contains(vacant[0]));
    assert forall|key: usize| rest.contains(key) implies vacant.contains(key) && key != vacant[0] by {
        let i = choose|i: int| 0 <= i < rest.len() && rest[i] == key;
        assert(vacant[i + 1] == key);
    }
}

/// Emptying a filled slot keeps a slab well formed and leaves its limit as
/// it was.
pub proof fn lemma_emptied_slots(before: Slots, after: Slots, key: usize)
    requires
        before.wf(),
        slab_entries(before).dom().contains(key),
        slab_entries(after) == slab_entries(before).remove(key),
        slab_vacant(after) == seq![key] + slab_vacant(before),
    ensures
        after.wf(),
        after.limit() == before.limit(),
{
    let vacant = slab_vacant(before);
    let more = slab_vacant(after);
    // the longer chain is the freed slot and then the chain as it was
    assert(more[0] == key);
    assert forall|i: int| 1 <= i < more.len() implies more[i] == vacant[i - 1] && vacant.contains(
        more[i],
    ) by {}
    assert forall|other: usize| more.contains(other) implies other == key || vacant.contains(
        other,
    ) by {
        let i = choose|i: int| 0 <= i < more.len() && more[i] == other;
        assert(i == 0 || more[i] == vacant[i - 1]);
    }
}

} // verus!
