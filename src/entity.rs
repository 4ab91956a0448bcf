use vstd::prelude::*;
use vstd::std_specs::iter::IteratorSpec;

verus! {

/// A strongly typed handle into an `EntityArray`, convertible to and from
/// the raw slot number.
pub trait EntityIndex: Sized {
    /// The slot number this handle stands for.
    spec fn slot(&self) -> nat;

    /// Builds the handle of slot `index`.
    fn from_slot(index: usize) -> (r: Self)
        ensures
            r.slot() == index as nat,
    ;

    /// The slot number of this handle.
    fn into_slot(self) -> (r: usize)
        ensures
            r as nat == self.slot(),
    ;
}

/// A kind of entity, bound to the handle type that indexes its arena.
pub trait Entity: Sized {
    /// Handle type of this entity kind.
    type Index: EntityIndex;
}

/// Dense, append-only storage of one kind of entity, indexed by that kind's
/// handle type. Slot numbers are handed out in insertion order from 0.
pub struct EntityArray<T> {
    items: Vec<T>,
}

impl<T> View for EntityArray<T> {
    type V = Seq<T>;

    closed spec fn view(&self) -> Seq<T> {
        self.items@
    }
}

impl<T: Entity> EntityArray<T> {
    /// Creates an empty arena.
    pub fn new() -> (r: Self)
        ensures
            r@ == Seq::<T>::empty(),
    {
        EntityArray { items: Vec::new() }
    }

    /// Number of entities stored.
    pub fn len(&self) -> (r: usize)
        ensures
            r as nat == self@.len(),
    {
        self.items.len()
    }

    /// Overwrites the entity in an existing slot.
    pub fn set(&mut self, index: T::Index, value: T)
        requires
            index.slot() < old(self)@.len(),
        ensures
            final(self)@ == old(self)@.update(index.slot() as int, value),
    {
        let i = index.into_slot();
        self.items.set(i, value);
    }

    /// Appends an entity and returns the handle of its new slot, which is the
    /// length before the insertion.
    pub fn insert(&mut self, value: T) -> (r: T::Index)
        requires
            old(self)@.len() < usize::MAX,
        ensures
            final(self)@ == old(self)@.push(value),
            r.slot() == old(self)@.len(),
    {
        let index = self.items.len();
        self.items.push(value);
        T::Index::from_slot(index)
    }

    /// The entity in the given slot, or `None` past the end.
    pub fn get(&self, index: T::Index) -> (r: Option<&T>)
        ensures
            r is Some <==> index.slot() < self@.len(),
            r is Some ==> *r->0 == self@[index.slot() as int],
    {
        let i = index.into_slot();
        if i < self.items.len() {
            Some(&self.items[i])
        } else {
            None
        }
    }

    /// Consumes the arena, returning its entities in insertion order.
    pub fn into_vec(self) -> (r: Vec<T>)
        ensures
            r@ == self@,
    {
        self.items
    }

    /// Read-only view of the entities in insertion order.
    pub fn as_slice(&self) -> (r: &[T])
        ensures
            r@ == self@,
    {
        self.items.as_slice()
    }

    /// Exclusive access to the entity in the given slot, or `None` past the end.
    pub fn get_mut(&mut self, index: T::Index) -> (r: Option<&mut T>)
        ensures
            r is Some <==> index.slot() < old(self)@.len(),
            r is Some ==> *r->0 == old(self)@[index.slot() as int]
                && final(self)@ == old(self)@.update(index.slot() as int, *final(r->0)),
            r is None ==> final(self)@ == old(self)@,
    {
        let i = index.into_slot();
        if i < self.items.len() {
            Some(&mut self.items[i])
        } else {
            None
        }
    }
}

/// Reading back what was inserted: the handle returned by an insertion
/// stands for the slot numbered by the length before it, and that slot holds
/// the inserted entity, so `get` on the handle finds it.
pub proof fn lemma_insert_get_round_trip<T: Entity>(
    before: EntityArray<T>,
    after: EntityArray<T>,
    value: T,
    index: T::Index,
)
    requires
        after@ == before@.push(value),
        index.slot() == before@.len(),
    ensures
        index.slot() < after@.len(),
        after@[index.slot() as int] == value,
{
}

/// `states` are the successive contents of an arena that starts empty and
/// receives `items` one insertion at a time.
pub open spec fn filled_in_order<T>(states: Seq<Seq<T>>, items: Seq<T>) -> bool {
    &&& states.len() == items.len() + 1
    &&& states[0] == Seq::<T>::empty()
    &&& forall|i: int| 0 <= i < items.len() ==> #[trigger] states[i + 1] == states[i].push(items[i])
}

/// After `k` insertions into an empty arena its length is `k`, and every
/// slot below `k` is occupied, by the entity inserted `k`-th.
pub proof fn lemma_dense_after_inserts<T>(states: Seq<Seq<T>>, items: Seq<T>)
    requires
        filled_in_order(states, items),
    ensures
        states.last().len() == items.len(),
        forall|j: int| 0 <= j < items.len() ==> #[trigger] states.last()[j] == items[j],
    decreases items.len(),
{
    if items.len() > 0 {
        let k = items.len() - 1;
        let fewer = states.subrange(0, k + 1);
        let first = items.subrange(0, k);
        assert forall|i: int| 0 <= i < first.len() implies #[trigger] fewer[i + 1] == fewer[i].push(
            first[i],
        ) by {
            assert(states[i + 1] == states[i].push(items[i]));
        }
        lemma_dense_after_inserts(fewer, first);
        assert(states[k + 1] == states[k].push(items[k]));
        assert forall|j: int| 0 <= j < items.len() implies #[trigger] states.last()[j] == items[j] by {
            if j < k {
                assert(fewer.last()[j] == first[j]);
            }
        }
    }
}

/// One step of an arena's history: an insertion appends one entity and
/// keeps the others; any other operation (`set`, `get`, `get_mut`) keeps the
/// length.
pub open spec fn history_step<T>(before: Seq<T>, after: Seq<T>, inserted: bool) -> bool {
    if inserted {
        after.len() == before.len() + 1 && after.subrange(0, before.len() as int) == before
    } else {
        after.len() == before.len()
    }
}

/// Number of insertions in a history of operations.
pub open spec fn count_inserts(ops: Seq<bool>) -> nat
    decreases ops.len(),
{
    if ops.len() == 0 {
        0
    } else {
        count_inserts(ops.drop_last()) + if ops.last() {
            1nat
        } else {
            0nat
        }
    }
}

/// Whatever reads and overwrites come between them, after `k` insertions
/// into an empty arena its length is `k`, so every slot below `k` is
/// occupied and `get` finds it.
pub proof fn lemma_length_counts_inserts<T>(states: Seq<Seq<T>>, ops: Seq<bool>)
    requires
        states.len() == ops.len() + 1,
        states[0].len() == 0,
        forall|i: int| 0 <= i < ops.len() ==> history_step(states[i], #[trigger] states[i + 1], ops[i]),
    ensures
        states.last().len() == count_inserts(ops),
    decreases ops.len(),
{
    if ops.len() > 0 {
        let n = ops.len() - 1;
        let fewer = states.subrange(0, n + 1);
        let first = ops.drop_last();
        assert forall|i: int| 0 <= i < first.len() implies history_step(
            fewer[i],
            #[trigger] fewer[i + 1],
            first[i],
        ) by {
            assert(history_step(states[i], states[i + 1], ops[i]));
        }
        lemma_length_counts_inserts(fewer, first);
        assert(history_step(states[n], states[n + 1], ops[n]));
    }
}

impl<T: Entity> std::ops::Index<T::Index> for EntityArray<T> {
    type Output = T;

    /// The entity in the given slot, which must exist.
    fn index(&self, index: T::Index) -> (r: &T)
        ensures
            *r == self@[index.slot() as int],
    {
        let i = index.into_slot();
        &self.items[i]
    }
}

impl<T: Entity> vstd::std_specs::core::IndexSpecImpl<T::Index> for EntityArray<T> {
    open spec fn index_req(&self, index: &T::Index) -> bool {
        index.slot() < self@.len()
    }
}

impl<T: Entity> IntoIterator for EntityArray<T> {
    type Item = T;
    type IntoIter = std::vec::IntoIter<T>;

    /// Consumes the arena, yielding its entities in insertion order.
    fn into_iter(self) -> (r: std::vec::IntoIter<T>)
        ensures
            r.remaining() == self@,
    {
        self.items.into_iter()
    }
}

impl<'a, T: Entity> IntoIterator for &'a EntityArray<T> {
    type Item = &'a T;
    type IntoIter = std::slice::Iter<'a, T>;

    /// Borrows the entities in insertion order.
    fn into_iter(self) -> (r: std::slice::Iter<'a, T>)
        ensures
            r.remaining() == self@.map_values(|t: T| &t),
    {
        (&self.items).into_iter()
    }
}

} // verus!
