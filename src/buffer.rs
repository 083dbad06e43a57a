use vstd::prelude::*;

verus! {

/// The capacity a native buffer has after a frame of `len` items was uploaded
/// into one of capacity `cap`: it grows to the staging length when that does not
/// fit (`needed_capacity`, then `resource_replaced` once the allocation
/// succeeded), and never shrinks.
pub open spec fn next_capacity(cap: nat, len: nat) -> nat {
    if len > cap {
        len
    } else {
        cap
    }
}

/// The capacities after each of a sequence of frames, starting from `init`.
pub open spec fn capacity_trace(init: nat, lens: Seq<nat>) -> Seq<nat>
    decreases lens.len(),
{
    if lens.len() == 0 {
        seq![]
    } else {
        let prev = capacity_trace(init, lens.drop_last());
        let cap = if prev.len() == 0 {
            init
        } else {
            prev.last()
        };
        prev.push(next_capacity(cap, lens.last()))
    }
}

/// A grow-only staging list paired with a native buffer resource of
/// `resource_capacity` items.
pub struct DynamicBuffer<T> {
    pub data: Vec<T>,
    pub resource_capacity: usize,
}

impl<T> DynamicBuffer<T> {
    /// An empty staging list beside a native resource of `capacity` items.
    pub fn new(capacity: usize) -> (r: Self)
        ensures
            r.data@.len() == 0,
            r.resource_capacity == capacity,
    {
        DynamicBuffer { data: Vec::new(), resource_capacity: capacity }
    }

    /// Resets the logical length to zero; the resource's capacity stays.
    pub fn clear(&mut self)
        ensures
            final(self).data@.len() == 0,
            final(self).resource_capacity == old(self).resource_capacity,
    {
        self.data.clear();
    }

    /// Appends `items` to the staging list, in order.
    pub fn extend(&mut self, items: Vec<T>)
        ensures
            final(self).data@ == old(self).data@ + items@,
            final(self).resource_capacity == old(self).resource_capacity,
    {
        let mut items = items;
        self.data.append(&mut items);
    }

    /// The capacity of the native resource that must replace the current one
    /// before the staging list can be uploaded, where the list does not fit.
    /// Nothing is recorded: the replacement is recorded by `resource_replaced`
    /// once it has been allocated.
    pub fn needed_capacity(&self) -> (r: Option<usize>)
        ensures
            r == (if self.data@.len() > self.resource_capacity {
                Some(self.data@.len() as usize)
            } else {
                None::<usize>
            }),
            r matches Some(c) ==> c as nat == next_capacity(
                self.resource_capacity as nat,
                self.data@.len(),
            ),
    {
        let len = self.data.len();
        if len > self.resource_capacity {
            Some(len)
        } else {
            None
        }
    }

    /// Records that the native resource was replaced by one of `capacity` items.
    pub fn resource_replaced(&mut self, capacity: usize)
        requires
            capacity >= old(self).resource_capacity,
            capacity >= old(self).data@.len(),
        ensures
            final(self).data@ == old(self).data@,
            final(self).resource_capacity == capacity,
    {
        self.resource_capacity = capacity;
    }
}

/// The capacity never falls below the frame's item count, and never decreases
/// from one frame to the next, whatever the sequence of item counts.
pub proof fn lemma_capacity_grow_only(init: nat, lens: Seq<nat>)
    ensures
        capacity_trace(init, lens).len() == lens.len(),
        forall|i: int| 0 <= i < lens.len() ==> capacity_trace(init, lens)[i] >= lens[i],
        lens.len() > 0 ==> capacity_trace(init, lens)[0] >= init,
        forall|i: int, j: int|
            0 <= i <= j < lens.len() ==> capacity_trace(init, lens)[i] <= capacity_trace(
                init,
                lens,
            )[j],
    decreases lens.len(),
{
    if lens.len() > 0 {
        lemma_capacity_grow_only(init, lens.drop_last());
        let prev = capacity_trace(init, lens.drop_last());
        let t = capacity_trace(init, lens);
        assert(t == prev.push(t.last()));
        assert forall|i: int| 0 <= i < lens.len() implies t[i] >= lens[i] by {
            if i < lens.len() - 1 {
                assert(t[i] == prev[i]);
                assert(lens[i] == lens.drop_last()[i]);
            }
        }
        assert forall|i: int, j: int| 0 <= i <= j < lens.len() implies t[i] <= t[j] by {
            if j < lens.len() - 1 {
                assert(t[i] == prev[i]);
                assert(t[j] == prev[j]);
            } else if i < lens.len() - 1 {
                assert(t[i] == prev[i]);
                assert(prev[i] <= prev.last());
            }
        }
    }
}

} // verus!
