//! `MyVec<T>`: an owning buffer that reserves a block of slots, keeps the
//! live elements at the front of it, and doubles the block when it is full.
use vstd::prelude::*;
use crate::buffer_model::{grown_capacity, BufferModel};

verus! {

/// Number of slots reserved by the first allocation.
pub const INITIAL_CAPACITY: usize = 8;

/// A growable buffer.
///
/// The backing block is absent while nothing has been allocated. Once
/// present it has exactly `capacity` slots; slots below `size` hold the live
/// elements, the others are vacant and never read.
///
/// Dropping a buffer drops the block, which destroys the live elements once
/// each, from index 0 upwards, and then releases the block itself.
pub struct MyVec<T> {
    block: Option<Vec<Option<T>>>,
    size: usize,
    capacity: usize,
}

impl<T> View for MyVec<T> {
    type V = Seq<T>;

    /// The live elements, in index order.
    closed spec fn view(&self) -> Seq<T> {
        Seq::new(self.size as nat, |i: int| self.slots()[i].unwrap())
    }
}

impl<T> MyVec<T> {
    /// All slots of the backing block, live and vacant.
    closed spec fn slots(&self) -> Seq<Option<T>> {
        match self.block {
            Some(b) => b@,
            None => Seq::empty(),
        }
    }

    /// Number of slots currently reserved.
    pub closed spec fn cap(&self) -> nat {
        self.capacity as nat
    }

    /// The buffer's abstract state.
    pub open spec fn model(&self) -> BufferModel<T> {
        BufferModel { items: self@, capacity: self.cap() }
    }

    /// Internal consistency: the block has exactly `capacity` slots, it is
    /// absent exactly when the capacity is zero, and a slot is occupied
    /// exactly when its index is below the length.
    pub closed spec fn wf(&self) -> bool {
        &&& self.size <= self.capacity
        &&& self.slots().len() == self.capacity
        &&& (self.block is None <==> self.capacity == 0)
        &&& forall|i: int|
            0 <= i < self.capacity ==> (#[trigger] self.slots()[i] is Some <==> i < self.size)
    }

    /// In every well-formed buffer the length is at most the capacity, and
    /// nothing is live while nothing is allocated.
    pub proof fn law_length_within_capacity(&self)
        requires
            self.wf(),
        ensures
            self@.len() <= self.cap(),
            self.cap() == 0 ==> self@.len() == 0,
            self.model().valid(),
    {
    }

    /// An empty buffer; nothing is allocated.
    pub fn new() -> (r: Self)
        ensures
            r.wf(),
            r@ == Seq::<T>::empty(),
            r.cap() == 0,
            r.model() == BufferModel::<T>::empty(),
    {
        MyVec { block: None, size: 0, capacity: 0 }
    }

    /// Number of live elements.
    pub fn len(&self) -> (r: usize)
        requires
            self.wf(),
        ensures
            r == self@.len(),
            r <= self.cap(),
    {
        self.size
    }

    /// Number of slots currently reserved.
    pub fn capacity(&self) -> (r: usize)
        requires
            self.wf(),
        ensures
            r == self.cap(),
    {
        self.capacity
    }

    /// Appends `value` at index `len`, growing the block first when it is
    /// full.
    pub fn push(&mut self, value: T)
        requires
            old(self).wf(),
            old(self)@.len() < old(self).cap() || grown_capacity(old(self).cap()) <= usize::MAX,
        ensures
            final(self).wf(),
            final(self).model() == old(self).model().push(value),
            final(self)@ == old(self)@.push(value),
            final(self).cap() == if old(self)@.len() == old(self).cap() {
                grown_capacity(old(self).cap())
            } else {
                old(self).cap()
            },
    {
        if self.size == self.capacity {
            self.expand_capacity();
        }
        let index = self.size;
        // The block exists: the capacity is now above the length.
        match &mut self.block {
            Some(b) => {
                b.set(index, Some(value));
            },
            None => {},
        }
        self.size = index + 1;
        assert(self@ =~= old(self)@.push(value));
    }

    /// Removes and returns the last live element; `None` when there is none,
    /// in which case nothing changes.
    pub fn pop(&mut self) -> (r: Option<T>)
        requires
            old(self).wf(),
        ensures
            final(self).wf(),
            (final(self).model(), r) == old(self).model().pop(),
            final(self).cap() == old(self).cap(),
            old(self)@.len() == 0 ==> r is None && final(self)@ == old(self)@,
            old(self)@.len() > 0 ==> r == Some(old(self)@.last()) && final(self)@
                == old(self)@.drop_last(),
    {
        if self.size == 0 {
            None
        } else {
            self.size = self.size - 1;
            let index = self.size;
            let mut taken: Option<T> = None;
            // The block exists: it held at least one live element.
            match &mut self.block {
                Some(b) => {
                    b.set_and_swap(index, &mut taken);
                },
                None => {},
            }
            assert(self@ =~= old(self)@.drop_last());
            taken
        }
    }

    /// The live element at `index`, or `None` when `index` is not below the
    /// length (whatever the capacity).
    pub fn get(&self, index: usize) -> (r: Option<&T>)
        requires
            self.wf(),
        ensures
            index < self@.len() ==> r == Some(&self@[index as int]),
            index >= self@.len() ==> r is None,
            match r {
                Some(x) => self.model().get(index as int) == Some(*x),
                None => self.model().get(index as int) is None,
            },
    {
        if index >= self.size {
            None
        } else {
            match &self.block {
                Some(b) => b[index].as_ref(),
                None => None,
            }
        }
    }

    /// Grows the block by one step: to `INITIAL_CAPACITY` slots when nothing
    /// is allocated, else to twice its size. Live elements keep their slots.
    fn expand_capacity(&mut self)
        requires
            old(self).wf(),
            grown_capacity(old(self).cap()) <= usize::MAX,
        ensures
            final(self).wf(),
            final(self)@ == old(self)@,
            final(self).cap() == grown_capacity(old(self).cap()),
    {
        let new_capacity: usize = if self.capacity == 0 {
            INITIAL_CAPACITY
        } else {
            self.capacity * 2
        };
        let mut block = match self.block.take() {
            Some(b) => b,
            None => Vec::with_capacity(new_capacity),
        };
        let ghost before = block@;
        while block.len() < new_capacity
            invariant
                before.len() == old(self).capacity,
                before.len() <= block@.len() <= new_capacity,
                block@.subrange(0, before.len() as int) == before,
                forall|i: int| before.len() <= i < block@.len() ==> #[trigger] block@[i] is None,
            decreases new_capacity - block@.len(),
        {
            block.push(None);
        }
        self.block = Some(block);
        self.capacity = new_capacity;
        assert forall|i: int| 0 <= i < self.capacity implies (#[trigger] self.slots()[i] is Some
            <==> i < self.size) by {
            if i < before.len() {
                assert(self.slots()[i] == before[i]);
            }
        }
        assert(self@ =~= old(self)@);
    }
}

} // verus!
