//! Computations over vectors of integers: the longest run of positions at
//! which two vectors agree, and the most frequent element.
use vstd::prelude::*;

verus! {

/// Positions `start .. start + len` all hold equal values in `x` and `y`.
pub open spec fn equal_window(x: Seq<i32>, y: Seq<i32>, start: int, len: int) -> bool {
    forall|k: int| start <= k < start + len ==> #[trigger] x[k] == y[k]
}

/// `r` is the length of the longest run of consecutive positions below `n`
/// at which `x` and `y` agree.
pub open spec fn is_longest_equal_run(x: Seq<i32>, y: Seq<i32>, n: int, r: int) -> bool {
    &&& exists|s: int| 0 <= s && s + r <= n && #[trigger] equal_window(x, y, s, r)
    &&& forall|s: int, l: int|
        0 <= s && 0 <= l && s + l <= n && #[trigger] equal_window(x, y, s, l) ==> l <= r
}

/// The state of a scan that has looked at positions below `i`: the run of
/// agreeing positions ending at `i` has length `run`, and `best` is the
/// longest run so far.
spec fn scan_state(x: Seq<i32>, y: Seq<i32>, i: int, run: int, best: int) -> bool {
    &&& 0 <= run <= best
    &&& run <= i
    &&& equal_window(x, y, i - run, run)
    &&& (i - run == 0 || x[i - run - 1] != y[i - run - 1])
    &&& is_longest_equal_run(x, y, i, best)
}

/// One step of the scan over position `i`.
proof fn lemma_scan_step(x: Seq<i32>, y: Seq<i32>, i: int, run: int, best: int)
    requires
        0 <= i < x.len(),
        i < y.len(),
        scan_state(x, y, i, run, best),
    ensures
        x[i] == y[i] ==> scan_state(
            x,
            y,
            i + 1,
            run + 1,
            if run + 1 > best {
                run + 1
            } else {
                best
            },
        ),
        x[i] != y[i] ==> scan_state(x, y, i + 1, 0, best),
{
    let s0 = choose|s: int| 0 <= s && s + best <= i && #[trigger] equal_window(x, y, s, best);
    if x[i] == y[i] {
        let nb = if run + 1 > best {
            run + 1
        } else {
            best
        };
        assert(equal_window(x, y, i + 1 - (run + 1), run + 1));
        if run + 1 > best {
            assert(equal_window(x, y, i - run, nb));
        } else {
            assert(equal_window(x, y, s0, nb));
        }
        assert forall|s: int, l: int|
            0 <= s && 0 <= l && s + l <= i + 1 && #[trigger] equal_window(x, y, s, l) implies l
            <= nb by {
            if s + l <= i {
            } else if s < i - run {
                assert(x[i - run - 1] == y[i - run - 1]);
            }
        }
    } else {
        assert(equal_window(x, y, i + 1, 0));
        assert(equal_window(x, y, s0, best));
        assert forall|s: int, l: int|
            0 <= s && 0 <= l && s + l <= i + 1 && #[trigger] equal_window(x, y, s, l) implies l
            <= best by {
            if s + l == i + 1 && l > 0 {
                assert(x[i] == y[i]);
            }
        }
    }
}

/// Nothing has been scanned yet.
proof fn lemma_scan_start(x: Seq<i32>, y: Seq<i32>)
    ensures
        scan_state(x, y, 0, 0, 0),
{
    assert(equal_window(x, y, 0, 0));
}

/// Longest run of consecutive indices at which `x` and `y` hold equal
/// values. `y` must be at least as long as `x`.
pub fn longest_equal_run_imperative(x: Vec<i32>, y: Vec<i32>) -> (r: usize)
    requires
        y.len() >= x.len(),
    ensures
        is_longest_equal_run(x@, y@, x.len() as int, r as int),
{
    let mut max_run: usize = 0;
    let mut run: usize = 0;
    proof {
        lemma_scan_start(x@, y@);
    }
    for i in 0..x.len()
        invariant
            y.len() >= x.len(),
            scan_state(x@, y@, i as int, run as int, max_run as int),
    {
        proof {
            lemma_scan_step(x@, y@, i as int, run as int, max_run as int);
        }
        if x[i] == y[i] {
            run += 1;
        } else {
            run = 0;
        }
        if run > max_run {
            max_run = run;
        }
    }
    max_run
}

/// Longest run of consecutive indices at which `x` and `y` hold equal
/// values, over the indices that both vectors have.
pub fn longest_equal_run_functional(x: Vec<i32>, y: Vec<i32>) -> (r: usize)
    ensures
        is_longest_equal_run(
            x@,
            y@,
            if x.len() <= y.len() {
                x.len() as int
            } else {
                y.len() as int
            },
            r as int,
        ),
{
    let n: usize = if x.len() <= y.len() {
        x.len()
    } else {
        y.len()
    };
    let mut state: (usize, usize) = (0, 0);
    proof {
        lemma_scan_start(x@, y@);
    }
    let mut i: usize = 0;
    while i < n
        invariant
            n <= x.len(),
            n <= y.len(),
            0 <= i <= n,
            scan_state(x@, y@, i as int, state.1 as int, state.0 as int),
        decreases n - i,
    {
        proof {
            lemma_scan_step(x@, y@, i as int, state.1 as int, state.0 as int);
        }
        let (max_run, run) = state;
        state = if x[i] == y[i] {
            (if run + 1 > max_run {
                run + 1
            } else {
                max_run
            }, run + 1)
        } else {
            (max_run, 0)
        };
        i = i + 1;
    }
    state.0
}

/// Number of occurrences of `v` in `s`.
pub open spec fn occurrences(s: Seq<i32>, v: i32) -> nat
    decreases s.len(),
{
    if s.len() == 0 {
        0
    } else {
        occurrences(s.drop_last(), v) + if s.last() == v {
            1nat
        } else {
            0nat
        }
    }
}

/// A value that occurs somewhere is found at some index.
proof fn lemma_occurs_at_index(s: Seq<i32>, v: i32)
    requires
        occurrences(s, v) > 0,
    ensures
        exists|j: int| 0 <= j < s.len() && s[j] == v,
    decreases s.len(),
{
    if s.last() != v {
        lemma_occurs_at_index(s.drop_last(), v);
        let j = choose|j: int| 0 <= j < s.drop_last().len() && s.drop_last()[j] == v;
        assert(s[j] == v);
    } else {
        assert(s[s.len() - 1] == v);
    }
}

/// Counts the occurrences of `v` in `x`.
fn count_of(x: &Vec<i32>, v: i32) -> (r: usize)
    ensures
        r == occurrences(x@, v),
{
    let mut c: usize = 0;
    let mut i: usize = 0;
    while i < x.len()
        invariant
            0 <= i <= x.len(),
            c == occurrences(x@.subrange(0, i as int), v),
            c <= i,
        decreases x.len() - i,
    {
        assert(x@.subrange(0, i + 1).drop_last() =~= x@.subrange(0, i as int));
        if x[i] == v {
            c = c + 1;
        }
        i = i + 1;
    }
    assert(x@.subrange(0, i as int) =~= x@);
    c
}

/// A most frequent element of `x`: `None` for an empty vector, else an
/// element that occurs in `x` at least as often as any other value. Which
/// one of several equally frequent elements is returned is not specified.
pub fn mode(x: Vec<i32>) -> (r: Option<i32>)
    ensures
        r is None <==> x@.len() == 0,
        r matches Some(m) ==> x@.contains(m) && forall|v: i32|
            occurrences(x@, v) <= occurrences(x@, m),
{
    if x.len() == 0 {
        return None;
    }
    let mut best: i32 = x[0];
    let mut best_count: usize = count_of(&x, best);
    let mut i: usize = 1;
    while i < x.len()
        invariant
            1 <= i <= x.len(),
            x@.contains(best),
            best_count == occurrences(x@, best),
            forall|j: int| 0 <= j < i ==> occurrences(x@, #[trigger] x@[j]) <= best_count,
        decreases x.len() - i,
    {
        let c = count_of(&x, x[i]);
        if c > best_count {
            best = x[i];
            best_count = c;
        }
        i = i + 1;
    }
    assert forall|v: i32| occurrences(x@, v) <= occurrences(x@, best) by {
        if occurrences(x@, v) > 0 {
            lemma_occurs_at_index(x@, v);
        }
    }
    Some(best)
}

} // verus!
