//! A plain function usable as a function pointer, and the Fibonacci
//! sequence as a stepping state.
use vstd::prelude::*;

verus! {

/// Sum of two integers.
pub fn add(x: i32, y: i32) -> (r: i32)
    requires
        i32::MIN <= x + y <= i32::MAX,
    ensures
        r == x + y,
{
    x + y
}

/// The Fibonacci numbers: 0, 1, 1, 2, 3, 5, ...
pub open spec fn fib_spec(n: nat) -> nat
    decreases n,
{
    if n == 0 {
        0
    } else if n == 1 {
        1
    } else {
        fib_spec((n - 2) as nat) + fib_spec((n - 1) as nat)
    }
}

/// Two consecutive Fibonacci numbers.
pub struct Fibonacci {
    pub prev: u32,
    pub curr: u32,
}

/// The state before the first step: `prev` is fib(0), `curr` is fib(1).
pub fn fib() -> (r: Fibonacci)
    ensures
        r.prev == fib_spec(0),
        r.curr == fib_spec(1),
{
    Fibonacci { prev: 0, curr: 1 }
}

impl Fibonacci {
    /// Advances by one and returns the new `prev`: from the state at index
    /// `n` this yields fib(n + 1). The step is defined while the next sum
    /// fits in a `u32`.
    pub fn next(&mut self) -> (r: Option<u32>)
        requires
            old(self).prev + old(self).curr <= u32::MAX,
        ensures
            r == Some(old(self).curr),
            final(self).prev == old(self).curr,
            final(self).curr == old(self).prev + old(self).curr,
            forall|n: nat|
                old(self).prev == #[trigger] fib_spec(n) && old(self).curr == fib_spec(n + 1) ==> {
                    &&& final(self).prev == fib_spec(n + 1)
                    &&& final(self).curr == fib_spec(n + 2)
                },
    {
        let new = self.prev + self.curr;
        self.prev = self.curr;
        self.curr = new;
        Some(self.prev)
    }
}

} // verus!
