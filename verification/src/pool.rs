//! A bounded list of connections to the next hop, filled as they are made and
//! never emptied.

use vstd::prelude::*;

verus! {

/// One place in the pool.
#[derive(Debug)]
pub enum ConnectionSlot<C> {
    /// No connection was put here yet.
    Empty,
    /// A connection that can be used.
    Live(C),
    /// A connection that failed.
    Broken,
}

impl<C> ConnectionSlot<C> {
    /// Whether the slot holds a connection that can be used.
    pub fn is_live(&self) -> (r: bool)
        ensures
            r == (self is Live),
    {
        match self {
            ConnectionSlot::Live(_) => true,
            _ => false,
        }
    }
}

/// The index of the first live slot, or the number of slots where none is live.
pub open spec fn first_live<C>(slots: Seq<ConnectionSlot<C>>) -> int
    decreases slots.len(),
{
    if slots.len() == 0 || slots[0] is Live {
        0
    } else {
        1 + first_live(slots.drop_first())
    }
}

/// The index of the first slot that is not live, or the number of slots where
/// all are live.
pub open spec fn first_free<C>(slots: Seq<ConnectionSlot<C>>) -> int
    decreases slots.len(),
{
    if slots.len() == 0 || !(slots[0] is Live) {
        0
    } else {
        1 + first_free(slots.drop_first())
    }
}

/// The number of live slots.
pub open spec fn live_count<C>(slots: Seq<ConnectionSlot<C>>) -> nat
    decreases slots.len(),
{
    if slots.len() == 0 {
        0
    } else {
        live_count(slots.drop_last()) + if slots.last() is Live {
            1nat
        } else {
            0nat
        }
    }
}

/// The slots after `connection` was handed to a pool of `capacity` places: it
/// takes the first place that is not live; where all are live and the list is
/// shorter than `capacity`, it is added at the end; else the slots stay as
/// they are.
pub open spec fn stored<C>(slots: Seq<ConnectionSlot<C>>, capacity: nat, connection: C) -> Seq<
    ConnectionSlot<C>,
> {
    let i = first_free(slots);
    if i < slots.len() {
        slots.update(i, ConnectionSlot::Live(connection))
    } else if slots.len() < capacity {
        slots.push(ConnectionSlot::Live(connection))
    } else {
        slots
    }
}

/// The slots after the connections were handed to the pool one after another.
pub open spec fn stored_all<C>(
    slots: Seq<ConnectionSlot<C>>,
    capacity: nat,
    connections: Seq<C>,
) -> Seq<ConnectionSlot<C>>
    decreases connections.len(),
{
    if connections.len() == 0 {
        slots
    } else {
        stored(stored_all(slots, capacity, connections.drop_last()), capacity, connections.last())
    }
}

/// `first_live` gives the least index of a live slot.
pub proof fn lemma_first_live<C>(slots: Seq<ConnectionSlot<C>>)
    ensures
        0 <= first_live(slots) <= slots.len(),
        first_live(slots) < slots.len() ==> slots[first_live(slots)] is Live,
        forall|k: int| 0 <= k < first_live(slots) ==> !(#[trigger] slots[k] is Live),
    decreases slots.len(),
{
    if slots.len() == 0 || slots[0] is Live {
    } else {
        lemma_first_live(slots.drop_first());
        assert forall|k: int| 0 <= k < first_live(slots) implies !(#[trigger] slots[k] is Live) by {
            if k > 0 {
                assert(slots.drop_first()[k - 1] == slots[k]);
            }
        }
    }
}

/// `first_free` gives the least index of a slot that is not live.
pub proof fn lemma_first_free<C>(slots: Seq<ConnectionSlot<C>>)
    ensures
        0 <= first_free(slots) <= slots.len(),
        first_free(slots) < slots.len() ==> !(slots[first_free(slots)] is Live),
        forall|k: int| 0 <= k < first_free(slots) ==> #[trigger] slots[k] is Live,
    decreases slots.len(),
{
    if slots.len() == 0 || !(slots[0] is Live) {
    } else {
        lemma_first_free(slots.drop_first());
        assert forall|k: int| 0 <= k < first_free(slots) implies #[trigger] slots[k] is Live by {
            if k > 0 {
                assert(slots.drop_first()[k - 1] == slots[k]);
            }
        }
    }
}

/// There are no more live slots than slots, and as many only where all are live.
pub proof fn lemma_live_count_bound<C>(slots: Seq<ConnectionSlot<C>>)
    ensures
        live_count(slots) <= slots.len(),
        live_count(slots) == slots.len() <==> forall|k: int|
            0 <= k < slots.len() ==> #[trigger] slots[k] is Live,
    decreases slots.len(),
{
    if slots.len() > 0 {
        let front = slots.drop_last();
        lemma_live_count_bound(front);
        if live_count(slots) == slots.len() {
            assert forall|k: int| 0 <= k < slots.len() implies #[trigger] slots[k] is Live by {
                if k < front.len() {
                    assert(front[k] == slots[k]);
                }
            }
        }
        if forall|k: int| 0 <= k < slots.len() ==> #[trigger] slots[k] is Live {
            assert forall|k: int| 0 <= k < front.len() implies #[trigger] front[k] is Live by {
                assert(front[k] == slots[k]);
            }
            assert(slots.last() == slots[slots.len() - 1]);
        }
    }
}

/// Putting a live slot where a slot that was not live stood adds one to the
/// number of live slots.
pub proof fn lemma_live_count_update<C>(slots: Seq<ConnectionSlot<C>>, i: int, connection: C)
    requires
        0 <= i < slots.len(),
        !(slots[i] is Live),
    ensures
        live_count(slots.update(i, ConnectionSlot::Live(connection))) == live_count(slots) + 1,
    decreases slots.len(),
{
    let after = slots.update(i, ConnectionSlot::Live(connection));
    if i == slots.len() - 1 {
        assert(after.drop_last() =~= slots.drop_last());
    } else {
        assert(after.drop_last() =~= slots.drop_last().update(i, ConnectionSlot::Live(connection)));
        lemma_live_count_update(slots.drop_last(), i, connection);
    }
}

/// Handing a connection to the pool adds one live slot as long as fewer than
/// `capacity` slots are live, and none after that. The list never grows
/// beyond `capacity`.
pub proof fn lemma_stored<C>(slots: Seq<ConnectionSlot<C>>, capacity: nat, connection: C)
    requires
        slots.len() <= capacity,
    ensures
        stored(slots, capacity, connection).len() <= capacity,
        stored(slots, capacity, connection).len() >= slots.len(),
        live_count(stored(slots, capacity, connection)) == if live_count(slots) < capacity {
            live_count(slots) + 1
        } else {
            live_count(slots)
        },
{
    lemma_first_free(slots);
    lemma_live_count_bound(slots);
    let i = first_free(slots);
    if i < slots.len() {
        lemma_live_count_update(slots, i, connection);
    } else if slots.len() < capacity {
        let after = slots.push(ConnectionSlot::Live(connection));
        assert(after.drop_last() =~= slots);
    } else {
    }
}

/// However many connections are handed to a pool in which no slot is live,
/// the pool holds one live slot for each of them up to its capacity, and never
/// more: the connections beyond that are not kept.
pub proof fn lemma_pool_never_exceeds_capacity<C>(
    slots: Seq<ConnectionSlot<C>>,
    capacity: nat,
    connections: Seq<C>,
)
    requires
        slots.len() <= capacity,
        live_count(slots) == 0,
    ensures
        stored_all(slots, capacity, connections).len() <= capacity,
        live_count(stored_all(slots, capacity, connections)) == if connections.len() < capacity {
            connections.len()
        } else {
            capacity
        },
    decreases connections.len(),
{
    if connections.len() > 0 {
        lemma_pool_never_exceeds_capacity(slots, capacity, connections.drop_last());
        lemma_stored(
            stored_all(slots, capacity, connections.drop_last()),
            capacity,
            connections.last(),
        );
    }
}

/// One operation on the pool, as the tasks that share it make them one at a
/// time, in any order.
pub enum PoolEvent<C> {
    /// A task asks for a live connection. The slots stay as they are.
    Acquire,
    /// A task hands over a connection that it made.
    Store(C),
    /// A task reports that the connection in the slot with this index broke.
    MarkBroken(int),
}

/// The slots after `index` was reported as broken: a live slot at that index
/// is broken now, and nothing else has changed.
pub open spec fn broken_at<C>(slots: Seq<ConnectionSlot<C>>, index: int) -> Seq<ConnectionSlot<C>> {
    if 0 <= index < slots.len() && slots[index] is Live {
        slots.update(index, ConnectionSlot::Broken)
    } else {
        slots
    }
}

/// The slots after the operations were made one after another.
pub open spec fn after_events<C>(
    slots: Seq<ConnectionSlot<C>>,
    capacity: nat,
    events: Seq<PoolEvent<C>>,
) -> Seq<ConnectionSlot<C>>
    decreases events.len(),
{
    if events.len() == 0 {
        slots
    } else {
        let before = after_events(slots, capacity, events.drop_last());
        match events.last() {
            PoolEvent::Acquire => before,
            PoolEvent::Store(connection) => stored(before, capacity, connection),
            PoolEvent::MarkBroken(index) => broken_at(before, index),
        }
    }
}

/// Whatever the tasks that share a pool do, and in whatever order, the pool
/// never holds more slots than its capacity, nor more live ones: what is
/// made beyond that is not kept.
pub proof fn lemma_pool_stays_bounded<C>(
    slots: Seq<ConnectionSlot<C>>,
    capacity: nat,
    events: Seq<PoolEvent<C>>,
)
    requires
        slots.len() <= capacity,
    ensures
        after_events(slots, capacity, events).len() <= capacity,
        live_count(after_events(slots, capacity, events)) <= capacity,
    decreases events.len(),
{
    if events.len() > 0 {
        let before = after_events(slots, capacity, events.drop_last());
        lemma_pool_stays_bounded(slots, capacity, events.drop_last());
        match events.last() {
            PoolEvent::Store(connection) => {
                lemma_stored(before, capacity, connection);
            },
            _ => {},
        }
    }
    lemma_live_count_bound(after_events(slots, capacity, events));
}

/// Where a connection went that was handed to the pool.
#[derive(Clone, Copy, Debug, PartialEq, Eq, Structural)]
pub enum Placement {
    /// Into the slot with this index.
    Slot(usize),
    /// Nowhere: every place holds a live connection.
    Unpooled,
}

/// Connections to the next hop, kept for reuse. The pool starts without
/// slots, gets one more whenever a connection is handed to it and no place is
/// free, and never holds more than `capacity` of them.
#[derive(Debug)]
pub struct ConnectionPool<C> {
    capacity: usize,
    slots: Vec<ConnectionSlot<C>>,
}

impl<C> ConnectionPool<C> {
    #[verifier::type_invariant]
    spec fn well_formed(&self) -> bool {
        self.slots@.len() <= self.capacity
    }

    /// The largest number of slots.
    pub closed spec fn spec_capacity(&self) -> nat {
        self.capacity as nat
    }

    /// The slots, in order.
    pub closed spec fn slots(&self) -> Seq<ConnectionSlot<C>> {
        self.slots@
    }

    /// A pool without slots.
    pub fn new(capacity: usize) -> (out: Self)
        ensures
            out.spec_capacity() == capacity,
            out.slots().len() == 0,
    {
        ConnectionPool { capacity, slots: Vec::new() }
    }

    /// The largest number of slots.
    pub fn capacity(&self) -> (n: usize)
        ensures
            n == self.spec_capacity(),
    {
        self.capacity
    }

    /// The number of slots.
    pub fn len(&self) -> (n: usize)
        ensures
            n == self.slots().len(),
            n <= self.spec_capacity(),
    {
        proof {
            use_type_invariant(self);
        }
        self.slots.len()
    }

    /// The number of live slots.
    pub fn live(&self) -> (n: usize)
        ensures
            n == live_count(self.slots()),
            n <= self.slots().len() <= self.spec_capacity(),
    {
        proof {
            use_type_invariant(self);
        }
        let mut n: usize = 0;
        let mut i: usize = 0;
        while i < self.slots.len()
            invariant
                i <= self.slots.len(),
                n <= i,
                n == live_count(self.slots@.take(i as int)),
            decreases self.slots.len() - i,
        {
            assert(self.slots@.take(i + 1).drop_last() =~= self.slots@.take(i as int));
            match &self.slots[i] {
                ConnectionSlot::Live(_) => {
                    n += 1;
                },
                _ => {},
            }
            i += 1;
        }
        assert(self.slots@.take(i as int) =~= self.slots@);
        n
    }

    /// The connection of the first live slot, for the caller to duplicate, or
    /// `None` where no slot is live: the caller then makes a connection and
    /// hands it to `store`.
    pub fn acquire(&self) -> (r: Option<&C>)
        ensures
            match r {
                Some(connection) => first_live(self.slots()) < self.slots().len()
                    && self.slots()[first_live(self.slots())] == ConnectionSlot::Live(*connection),
                None => first_live(self.slots()) == self.slots().len(),
            },
    {
        proof {
            lemma_first_live(self.slots@);
        }
        let mut i: usize = 0;
        while i < self.slots.len()
            invariant
                i <= self.slots.len(),
                i <= first_live(self.slots@),
                first_live(self.slots@) <= self.slots@.len(),
                first_live(self.slots@) < self.slots@.len() ==> self.slots@[first_live(
                    self.slots@,
                )] is Live,
                forall|k: int| 0 <= k < first_live(self.slots@) ==> !(#[trigger] self.slots@[k] is Live),
            decreases self.slots.len() - i,
        {
            match &self.slots[i] {
                ConnectionSlot::Live(connection) => {
                    assert(first_live(self.slots@) == i);
                    return Some(connection);
                },
                _ => {},
            }
            i += 1;
        }
        None
    }

    /// Takes a connection that was just made: into the first slot that is not
    /// live, or into a new slot where the pool has room, or not at all.
    pub fn store(&mut self, connection: C) -> (placement: Placement)
        ensures
            final(self).spec_capacity() == old(self).spec_capacity(),
            final(self).slots() == stored(old(self).slots(), old(self).spec_capacity(), connection),
            match placement {
                Placement::Slot(i) => i < final(self).slots().len() && final(self).slots()[i as int]
                    == ConnectionSlot::Live(connection) && (i == first_free(old(self).slots())),
                Placement::Unpooled => final(self).slots() == old(self).slots()
                    && live_count(old(self).slots()) == old(self).spec_capacity(),
            },
    {
        proof {
            use_type_invariant(&*self);
            lemma_first_free(self.slots@);
            lemma_live_count_bound(self.slots@);
        }
        let ghost before = self.slots@;
        let capacity = self.capacity;
        let mut i: usize = 0;
        while i < self.slots.len() && self.slots[i].is_live()
            invariant
                self.slots@ == before,
                i <= before.len(),
                i <= first_free(before),
                first_free(before) <= before.len(),
                first_free(before) < before.len() ==> !(before[first_free(before)] is Live),
                forall|k: int| 0 <= k < first_free(before) ==> #[trigger] before[k] is Live,
            decreases self.slots.len() - i,
        {
            i += 1;
        }
        assert(i == first_free(before));
        let mut taken = ConnectionPool { capacity, slots: Vec::new() };
        std::mem::swap(self, &mut taken);
        let mut slots = taken.slots;
        if i < slots.len() {
            slots.set(i, ConnectionSlot::Live(connection));
            *self = ConnectionPool { capacity, slots };
            Placement::Slot(i)
        } else if slots.len() < capacity {
            slots.push(ConnectionSlot::Live(connection));
            *self = ConnectionPool { capacity, slots };
            Placement::Slot(i)
        } else {
            *self = ConnectionPool { capacity, slots };
            Placement::Unpooled
        }
    }

    /// Whether a connection that is handed to `store` finds a place.
    pub fn has_room(&self) -> (r: bool)
        ensures
            r == (live_count(self.slots()) < self.spec_capacity()),
    {
        proof {
            use_type_invariant(self);
            lemma_live_count_bound(self.slots@);
        }
        self.live() < self.capacity
    }

    /// A connection to use: a duplicate of the first live one, or else the
    /// one that `connect` makes, of which the pool keeps a duplicate where
    /// it has a place for it. Where `connect` fails, the call fails with its
    /// failure and the pool stays as it was.
    pub fn get_client<E, F: FnOnce() -> Result<C, E>>(&mut self, connect: F) -> (r: Result<C, E>) where
        C: Clone,

        requires
            call_requires(connect, ()),
        ensures
            final(self).spec_capacity() == old(self).spec_capacity(),
            first_live(old(self).slots()) < old(self).slots().len() ==> (r matches Ok(connection)
                && cloned(old(self).slots()[first_live(old(self).slots())]->Live_0, connection)
                && final(self).slots() == old(self).slots()),
            first_live(old(self).slots()) >= old(self).slots().len() ==> call_ensures(
                connect,
                (),
                r,
            ) && match r {
                Ok(connection) => if live_count(old(self).slots()) < old(self).spec_capacity() {
                    exists|kept: C|
                        cloned(connection, kept) && final(self).slots() == #[trigger] stored(
                            old(self).slots(),
                            old(self).spec_capacity(),
                            kept,
                        )
                } else {
                    final(self).slots() == old(self).slots()
                },
                Err(_) => final(self).slots() == old(self).slots(),
            },
    {
        proof {
            lemma_first_live(self.slots());
        }
        match self.acquire() {
            Some(connection) => {
                return Ok(connection.clone());
            },
            None => {},
        }
        match connect() {
            Ok(connection) => {
                if self.has_room() {
                    let kept = connection.clone();
                    self.store(kept);
                }
                Ok(connection)
            },
            Err(e) => Err(e),
        }
    }

    /// Marks the slot at `index` as broken where it is live, so that the next
    /// connection made takes its place. Any other index changes nothing.
    pub fn mark_broken(&mut self, index: usize)
        ensures
            final(self).spec_capacity() == old(self).spec_capacity(),
            final(self).slots() == broken_at(old(self).slots(), index as int),
    {
        proof {
            use_type_invariant(&*self);
        }
        let capacity = self.capacity;
        let mut taken = ConnectionPool { capacity, slots: Vec::new() };
        std::mem::swap(self, &mut taken);
        let mut slots = taken.slots;
        if index < slots.len() && slots[index].is_live() {
            slots.set(index, ConnectionSlot::Broken);
        }
        *self = ConnectionPool { capacity, slots };
    }
}

} // verus!
