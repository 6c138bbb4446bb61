//! The smaller of two values, for concrete types and for any type ordered
//! through `PartialOrd`, and the first smallest element of a vector.
use vstd::prelude::*;
use vstd::std_specs::cmp::PartialOrdSpec;
use core::cmp::Ordering;

verus! {

/// The smaller of two integers; `b` when they are equal.
pub fn smallest_i32(a: i32, b: i32) -> (r: i32)
    ensures
        r == if a < b { a } else { b },
{
    if a < b {
        a
    } else {
        b
    }
}

/// The smaller of two characters; `b` when they are equal.
pub fn smallest_char(a: char, b: char) -> (r: char)
    ensures
        r == if a < b { a } else { b },
{
    if a < b {
        a
    } else {
        b
    }
}

/// `a` when it compares less than `b`, else `b`.
pub open spec fn smaller_of<T: PartialOrd>(a: T, b: T) -> T {
    if a.partial_cmp_spec(&b) == Some(Ordering::Less) {
        a
    } else {
        b
    }
}

/// `a` when `a < b`, else `b`. Exact for every type whose `<` follows its
/// `partial_cmp`.
pub fn smallest<T: PartialOrd>(a: T, b: T) -> (r: T)
    ensures
        r == a || r == b,
        T::obeys_partial_cmp_spec() ==> r == smaller_of(a, b),
{
    if a < b {
        a
    } else {
        b
    }
}

/// The same as `smallest`, with the bound written in a `where` clause.
pub fn smallest_where<T>(a: T, b: T) -> (r: T)
    where
        T: PartialOrd,
    ensures
        r == a || r == b,
        T::obeys_partial_cmp_spec() ==> r == smaller_of(a, b),
{
    if a < b {
        a
    } else {
        b
    }
}

/// The same as `smallest`, for types that can also be displayed.
pub fn smallest_display<T>(a: T, b: T) -> (r: T)
    where
        T: PartialOrd + std::fmt::Display,
    ensures
        r == a || r == b,
        T::obeys_partial_cmp_spec() ==> r == smaller_of(a, b),
{
    if a < b {
        a
    } else {
        b
    }
}

/// The first element of `s` that no later element is less than: scanning
/// from the front, a later element replaces the current one only when it
/// compares less.
pub open spec fn first_smallest<T: PartialOrd>(s: Seq<T>) -> T
    decreases s.len(),
{
    if s.len() <= 1 {
        s[0]
    } else {
        let m = first_smallest(s.drop_last());
        if s.last().partial_cmp_spec(&m) == Some(Ordering::Less) {
            s.last()
        } else {
            m
        }
    }
}

/// The smallest element of `xs`, `None` when it is empty. Of equal elements
/// the first is kept.
pub fn smallest_general2<T>(xs: Vec<T>) -> (r: Option<T>)
    where
        T: PartialOrd + Default,
    ensures
        r is None <==> xs@.len() == 0,
        r matches Some(m) ==> xs@.contains(m),
        T::obeys_partial_cmp_spec() && xs@.len() > 0 ==> r == Some(first_smallest(xs@)),
{
    let mut xs = xs;
    if xs.len() == 0 {
        return None;
    }
    let mut best: usize = 0;
    let mut i: usize = 1;
    while i < xs.len()
        invariant
            1 <= i <= xs@.len(),
            best < i,
            T::obeys_partial_cmp_spec() ==> xs@[best as int] == first_smallest(
                xs@.subrange(0, i as int),
            ),
        decreases xs@.len() - i,
    {
        assert(xs@.subrange(0, i + 1).drop_last() =~= xs@.subrange(0, i as int));
        if xs[i] < xs[best] {
            best = i;
        }
        i = i + 1;
    }
    assert(xs@.subrange(0, i as int) =~= xs@);
    let ghost all = xs@;
    let m = xs.swap_remove(best);
    assert(all[best as int] == m);
    Some(m)
}

/// A wrapper around one value.
pub struct MyStruct<T> {
    pub value: T,
}

impl<T> MyStruct<T> {
    pub fn new(value: T) -> (r: Self)
        ensures
            r.value == value,
    {
        MyStruct { value }
    }
}

impl<T: Default> MyStruct<T> {
    /// Holds the default value of `T`.
    pub fn default() -> (r: Self)
        ensures
            call_ensures(T::default, (), r.value),
    {
        MyStruct { value: T::default() }
    }
}

} // verus!
