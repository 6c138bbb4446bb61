//! A small public API: a free function and a struct with a private field.
use vstd::prelude::*;

verus! {

/// Sum of two integers.
pub fn my_add(a: i32, b: i32) -> (r: i32)
    requires
        i32::MIN <= a + b <= i32::MAX,
    ensures
        r == a + b,
{
    a + b
}

/// A value whose single field is reached only through methods.
pub struct Foo {
    x: i32,
}

impl Foo {
    /// The stored value.
    pub closed spec fn value(&self) -> i32 {
        self.x
    }

    pub fn new(x: i32) -> (r: Foo)
        ensures
            r.value() == x,
    {
        Foo { x }
    }

    pub fn get_x(&self) -> (r: i32)
        ensures
            r == self.value(),
    {
        self.x
    }

    pub fn set_x(&mut self, x: i32)
        ensures
            final(self).value() == x,
    {
        self.x = x;
    }
}

} // verus!
