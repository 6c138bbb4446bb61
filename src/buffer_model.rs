//! The abstract state of a `MyVec`: its live elements and its capacity, and
//! what each operation does to them.
use vstd::prelude::*;
use crate::my_vec::INITIAL_CAPACITY;

verus! {

/// Capacity after one growth step from `cap` slots.
pub open spec fn grown_capacity(cap: nat) -> nat {
    if cap == 0 {
        INITIAL_CAPACITY as nat
    } else {
        2 * cap
    }
}

/// Live elements in index order, and the number of reserved slots.
pub ghost struct BufferModel<T> {
    pub items: Seq<T>,
    pub capacity: nat,
}

/// One mutating call on a buffer.
pub ghost enum BufferOp<T> {
    Push(T),
    Pop,
}

impl<T> BufferModel<T> {
    /// A freshly constructed buffer.
    pub open spec fn empty() -> Self {
        BufferModel { items: Seq::empty(), capacity: 0 }
    }

    /// The length never exceeds the capacity.
    pub open spec fn valid(self) -> bool {
        self.items.len() <= self.capacity
    }

    /// `push(v)`: grow when full, then append.
    pub open spec fn push(self, v: T) -> Self {
        BufferModel {
            items: self.items.push(v),
            capacity: if self.items.len() >= self.capacity {
                grown_capacity(self.capacity)
            } else {
                self.capacity
            },
        }
    }

    /// `pop()`: the new state and the returned value.
    pub open spec fn pop(self) -> (Self, Option<T>) {
        if self.items.len() == 0 {
            (self, None)
        } else {
            (
                BufferModel { items: self.items.drop_last(), capacity: self.capacity },
                Some(self.items.last()),
            )
        }
    }

    /// `get(i)`: the element at `i` when `i` is below the length.
    pub open spec fn get(self, i: int) -> Option<T> {
        if 0 <= i < self.items.len() {
            Some(self.items[i])
        } else {
            None
        }
    }

    /// One operation: the new state, and for a pop what it returned.
    pub open spec fn step(self, op: BufferOp<T>) -> (Self, Seq<Option<T>>) {
        match op {
            BufferOp::Push(v) => (self.push(v), Seq::empty()),
            BufferOp::Pop => (self.pop().0, seq![self.pop().1]),
        }
    }

    /// A sequence of operations in order: the final state, and what the pops
    /// returned, in order.
    pub open spec fn run(self, ops: Seq<BufferOp<T>>) -> (Self, Seq<Option<T>>)
        decreases ops.len(),
    {
        if ops.len() == 0 {
            (self, Seq::empty())
        } else {
            let (next, out) = self.step(ops[0]);
            let (last, rest) = next.run(ops.drop_first());
            (last, out + rest)
        }
    }
}

/// One push for each element of `xs`, in order.
pub open spec fn pushes<T>(xs: Seq<T>) -> Seq<BufferOp<T>> {
    xs.map_values(|x: T| BufferOp::Push(x))
}

/// `n` pops.
pub open spec fn pops<T>(n: nat) -> Seq<BufferOp<T>> {
    Seq::new(n, |i: int| BufferOp::Pop)
}

/// Number of pushes in `ops`.
pub open spec fn count_pushes<T>(ops: Seq<BufferOp<T>>) -> nat
    decreases ops.len(),
{
    if ops.len() == 0 {
        0
    } else {
        (if ops[0] is Push { 1nat } else { 0nat }) + count_pushes(ops.drop_first())
    }
}

/// Number of present values in `outs`.
pub open spec fn count_some<T>(outs: Seq<Option<T>>) -> nat
    decreases outs.len(),
{
    if outs.len() == 0 {
        0
    } else {
        (if outs[0] is Some { 1nat } else { 0nat }) + count_some(outs.drop_first())
    }
}

} // verus!
