//! Resource pool: permits for the encoder's preallocated slots.
//!
//! A pool of capacity `n` owns the slots `0` to `n - 1`. A permit is the
//! right to use one slot: it is taken from the front of the free list before
//! a picture is submitted and put back at its end once the picture's
//! bitstream has been read. The number of permits bounds how many pictures
//! the engine holds at once.
use std::collections::VecDeque;
use vstd::prelude::*;
use vstd::set_lib::lemma_int_range;

verus! {

/// The right to use one slot of a pool.
#[derive(Clone, Copy, Debug)]
pub struct Permit(usize);

impl Permit {
    /// The slot that this permit stands for.
    pub closed spec fn slot(self) -> usize {
        self.0
    }

    /// The slot that this permit stands for.
    pub fn index(&self) -> (index: usize)
        ensures
            index == self.slot(),
    {
        self.0
    }
}

/// Free list of a fixed number of slots.
#[derive(Debug)]
pub struct ResourcePool {
    free: VecDeque<usize>,
    capacity: usize,
}

/// A list without repetition whose items all lie in a finite set is no
/// longer than the set is large.
proof fn lemma_distinct_items_fit(items: Seq<usize>, among: Set<int>)
    requires
        among.finite(),
        items.no_duplicates(),
        forall|i: int| 0 <= i < items.len() ==> among.contains(#[trigger] items[i] as int),
    ensures
        items.len() <= among.len(),
    decreases items.len(),
{
    if items.len() > 0 {
        let last = items.last();
        let rest = items.drop_last();
        assert forall|i: int| 0 <= i < rest.len() implies among.remove(last as int).contains(
            #[trigger] rest[i] as int,
        ) by {
            assert(rest[i] == items[i]);
            assert(items[i] != items[items.len() - 1]);
        }
        assert(among.contains(items[items.len() - 1] as int));
        lemma_distinct_items_fit(rest, among.remove(last as int));
    }
}

impl ResourcePool {
    /// The free slots, the one handed out next in front.
    pub closed spec fn free_slots(self) -> Seq<usize> {
        self.free@
    }

    /// Number of slots that the pool owns.
    pub closed spec fn capacity_of(self) -> nat {
        self.capacity as nat
    }

    /// The free list names slots of this pool, each at most once.
    pub open spec fn wf(self) -> bool {
        &&& self.free_slots().no_duplicates()
        &&& self.free_slots().len() <= self.capacity_of()
        &&& forall|i: int|
            0 <= i < self.free_slots().len() ==> (#[trigger] self.free_slots()[i])
                < self.capacity_of()
    }

    /// Number of permits that are out.
    pub open spec fn outstanding(self) -> int {
        self.capacity_of() - self.free_slots().len()
    }

    /// `permit` is out: it names a slot of this pool that is not free.
    pub open spec fn holds_out(self, permit: Permit) -> bool {
        permit.slot() < self.capacity_of() && !self.free_slots().contains(permit.slot())
    }

    /// `post` is `pre` after one attempt to take a permit, which gave `got`.
    pub open spec fn get_step(pre: Self, post: Self, got: Option<Permit>) -> bool {
        &&& post.capacity_of() == pre.capacity_of()
        &&& match got {
            Some(permit) => {
                &&& pre.free_slots().len() > 0
                &&& permit.slot() == pre.free_slots()[0]
                &&& post.free_slots() == pre.free_slots().drop_first()
            },
            None => pre.free_slots().len() == 0 && post.free_slots() == pre.free_slots(),
        }
    }

    /// `post` is `pre` after `permit` was put back.
    pub open spec fn put_step(pre: Self, post: Self, permit: Permit) -> bool {
        &&& post.capacity_of() == pre.capacity_of()
        &&& post.free_slots() == pre.free_slots().push(permit.slot())
    }

    /// A pool of `size` slots, all free, in rising order.
    pub fn with_capacity(size: usize) -> (pool: Self)
        ensures
            pool.wf(),
            pool.capacity_of() == size,
            pool.free_slots() == Seq::new(size as nat, |i: int| i as usize),
            pool.outstanding() == 0,
    {
        let mut free: VecDeque<usize> = VecDeque::new();
        let mut next: usize = 0;
        while next < size
            invariant
                next <= size,
                free@ == Seq::new(next as nat, |i: int| i as usize),
            decreases size - next,
        {
            free.push_back(next);
            next = next + 1;
            assert(free@ =~= Seq::new(next as nat, |i: int| i as usize));
        }
        ResourcePool { free, capacity: size }
    }

    /// Number of slots that the pool owns.
    pub fn capacity(&self) -> (capacity: usize)
        ensures
            capacity == self.capacity_of(),
    {
        self.capacity
    }

    /// Number of permits that can be taken before one has to come back.
    pub fn available(&self) -> (available: usize)
        ensures
            available == self.free_slots().len(),
    {
        self.free.len()
    }

    /// Takes the permit of the slot at the front of the free list. `None`
    /// means that every permit is out: the caller waits for one to be put
    /// back and asks again.
    pub fn get(&mut self) -> (permit: Option<Permit>)
        ensures
            Self::get_step(*old(self), *final(self), permit),
            old(self).wf() ==> final(self).wf(),
            permit is None <==> old(self).free_slots().len() == 0,
            old(self).wf() ==> (permit is None <==> old(self).outstanding()
                == old(self).capacity_of()),
            old(self).wf() ==> (permit matches Some(p) ==> {
                &&& final(self).holds_out(p)
                &&& !old(self).holds_out(p)
                &&& final(self).outstanding() == old(self).outstanding() + 1
            }),
    {
        let ghost before = self.free@;
        match self.free.pop_front() {
            Some(slot) => {
                proof {
                    assert(self.free@ =~= before.drop_first());
                    if old(self).wf() {
                        assert forall|i: int| 0 <= i < self.free@.len() implies (
                        #[trigger] self.free@[i]) < self.capacity as nat by {
                            assert(self.free@[i] == before[i + 1]);
                        }
                        assert forall|i: int, j: int|
                            0 <= i < self.free@.len() && 0 <= j < self.free@.len() && i
                                != j implies self.free@[i] != self.free@[j] by {
                            assert(self.free@[i] == before[i + 1]);
                            assert(self.free@[j] == before[j + 1]);
                        }
                        assert forall|i: int| 0 <= i < self.free@.len() implies self.free@[i]
                            != slot by {
                            assert(self.free@[i] == before[i + 1]);
                            assert(slot == before[0]);
                        }
                        assert(before.contains(before[0]));
                    }
                }
                Some(Permit(slot))
            },
            None => None,
        }
    }

    /// Puts `permit` back at the end of the free list. Where the permit was
    /// out, the pool stays well formed and one more permit can be taken.
    pub fn put(&mut self, permit: Permit)
        ensures
            Self::put_step(*old(self), *final(self), permit),
            old(self).wf() && old(self).holds_out(permit) ==> {
                &&& final(self).wf()
                &&& final(self).outstanding() == old(self).outstanding() - 1
                &&& !final(self).holds_out(permit)
            },
    {
        let ghost before = self.free@;
        self.free.push_back(permit.0);
        proof {
            if old(self).wf() && old(self).holds_out(permit) {
                let capacity = self.capacity as int;
                let others = Set::new(|x: int| 0 <= x < capacity).remove(permit.0 as int);
                lemma_int_range(0, capacity);
                assert(Set::new(|x: int| 0 <= x < capacity) =~= vstd::set_lib::set_int_range(
                    0,
                    capacity,
                ));
                assert forall|i: int| 0 <= i < before.len() implies others.contains(
                    #[trigger] before[i] as int,
                ) by {
                    assert(before.contains(before[i]));
                }
                lemma_distinct_items_fit(before, others);
                assert(self.free@.last() == permit.0);
                assert(self.free@.contains(permit.0));
                assert forall|i: int, j: int|
                    0 <= i < self.free@.len() && 0 <= j < self.free@.len() && i
                        != j implies self.free@[i] != self.free@[j] by {
                    if i < before.len() {
                        assert(before.contains(before[i]));
                    }
                    if j < before.len() {
                        assert(before.contains(before[j]));
                    }
                }
            }
        }
    }
}

/// At most as many permits are out as the pool has slots, and none can be
/// taken exactly when all of them are out.
pub proof fn law_outstanding_permits_bounded(pool: ResourcePool, after: ResourcePool, got: Option<
    Permit,
>)
    requires
        pool.wf(),
        ResourcePool::get_step(pool, after, got),
    ensures
        0 <= pool.outstanding() <= pool.capacity_of(),
        0 <= after.outstanding() <= after.capacity_of(),
        got is None <==> pool.outstanding() == pool.capacity_of(),
{
}

/// A permit that is put back while every other permit is out is the one
/// that the next caller gets.
pub proof fn law_released_permit_is_reacquired(
    drained: ResourcePool,
    refilled: ResourcePool,
    permit: Permit,
    after: ResourcePool,
    got: Option<Permit>,
)
    requires
        drained.free_slots().len() == 0,
        ResourcePool::put_step(drained, refilled, permit),
        ResourcePool::get_step(refilled, after, got),
    ensures
        got matches Some(again) && again.slot() == permit.slot(),
        after.free_slots().len() == 0,
{
    assert(refilled.free_slots()[0] == permit.slot());
}

/// A permit that is put back is handed out again after those that were free
/// before it, whatever their number.
pub proof fn law_released_permit_queues_last(
    pool: ResourcePool,
    refilled: ResourcePool,
    permit: Permit,
)
    requires
        ResourcePool::put_step(pool, refilled, permit),
    ensures
        refilled.free_slots().len() == pool.free_slots().len() + 1,
        refilled.free_slots().last() == permit.slot(),
        forall|i: int|
            0 <= i < pool.free_slots().len() ==> refilled.free_slots()[i] == pool.free_slots()[i],
{
}

} // verus!
