//! Properties of every run of buffer operations, proved over `BufferModel`,
//! the state that the contracts of `MyVec::push`, `pop` and `get` speak of.
use vstd::prelude::*;
use crate::buffer_model::{count_pushes, count_some, grown_capacity, pops, pushes, BufferModel, BufferOp};
use crate::my_vec::INITIAL_CAPACITY;

verus! {

/// Running `a` then `b` is running `a + b`.
proof fn lemma_run_append<T>(m: BufferModel<T>, a: Seq<BufferOp<T>>, b: Seq<BufferOp<T>>)
    ensures
        m.run(a + b).0 == m.run(a).0.run(b).0,
        m.run(a + b).1 == m.run(a).1 + m.run(a).0.run(b).1,
    decreases a.len(),
{
    if a.len() == 0 {
        assert(a + b =~= b);
        assert(m.run(a).1 + m.run(b).1 =~= m.run(b).1);
    } else {
        let next = m.step(a[0]).0;
        assert((a + b)[0] == a[0]);
        assert((a + b).drop_first() =~= a.drop_first() + b);
        lemma_run_append(next, a.drop_first(), b);
        assert(m.step(a[0]).1 + (next.run(a.drop_first()).1 + next.run(a.drop_first()).0.run(b).1)
            =~= (m.step(a[0]).1 + next.run(a.drop_first()).1) + next.run(a.drop_first()).0.run(
            b,
        ).1);
    }
}

/// Pushing `xs` appends them and returns nothing.
proof fn lemma_run_pushes<T>(m: BufferModel<T>, xs: Seq<T>)
    ensures
        m.run(pushes(xs)).0.items == m.items + xs,
        m.run(pushes(xs)).1 == Seq::<Option<T>>::empty(),
        m.run(pushes(xs)).0.capacity >= m.capacity,
        m.valid() ==> m.run(pushes(xs)).0.valid(),
    decreases xs.len(),
{
    if xs.len() == 0 {
        assert(pushes(xs) =~= Seq::<BufferOp<T>>::empty());
        assert(m.items + xs =~= m.items);
    } else {
        let ops = pushes(xs);
        assert(ops[0] == BufferOp::Push(xs[0]));
        assert(ops.drop_first() =~= pushes(xs.drop_first()));
        let next = m.push(xs[0]);
        lemma_run_pushes(next, xs.drop_first());
        assert(next.items + xs.drop_first() =~= m.items + xs);
        assert(Seq::<Option<T>>::empty() + Seq::<Option<T>>::empty() =~= Seq::<
            Option<T>,
        >::empty());
    }
}

/// Popping `n` elements off a buffer that holds at least `n` removes the
/// last `n` and returns them from the last one down.
proof fn lemma_run_pops<T>(m: BufferModel<T>, n: nat)
    requires
        n <= m.items.len(),
    ensures
        m.run(pops(n)).0.items == m.items.subrange(0, m.items.len() - n),
        m.run(pops(n)).0.capacity == m.capacity,
        m.run(pops(n)).1.len() == n,
        forall|i: int|
            0 <= i < n ==> #[trigger] m.run(pops(n)).1[i] == Some(m.items[m.items.len() - 1 - i]),
    decreases n,
{
    if n == 0 {
        assert(m.items.subrange(0, m.items.len() as int) =~= m.items);
    } else {
        let ops = pops::<T>(n);
        assert(ops[0] == BufferOp::<T>::Pop);
        assert(ops.drop_first() =~= pops::<T>((n - 1) as nat));
        let next = m.pop().0;
        lemma_run_pops(next, (n - 1) as nat);
        assert(next.items.subrange(0, next.items.len() - (n - 1)) =~= m.items.subrange(
            0,
            m.items.len() - n,
        ));
        let outs = m.run(ops).1;
        assert forall|i: int| 0 <= i < n implies #[trigger] outs[i] == Some(
            m.items[m.items.len() - 1 - i],
        ) by {
            if i > 0 {
                assert(outs[i] == next.run(pops::<T>((n - 1) as nat)).1[i - 1]);
            }
        }
    }
}

/// Pushing the elements of `xs` and then popping as many returns them in
/// reverse order, and leaves the elements that were there before.
pub proof fn law_pushes_then_pops_reverse<T>(m: BufferModel<T>, xs: Seq<T>)
    ensures
        m.run(pushes(xs) + pops(xs.len())).1 == xs.reverse().map_values(|x: T| Some(x)),
        m.run(pushes(xs) + pops(xs.len())).0.items == m.items,
{
    lemma_run_append(m, pushes(xs), pops(xs.len()));
    lemma_run_pushes(m, xs);
    let full = m.run(pushes(xs)).0;
    lemma_run_pops(full, xs.len());
    assert(full.items.subrange(0, full.items.len() - xs.len()) =~= m.items);
    let outs = full.run(pops(xs.len())).1;
    assert(Seq::<Option<T>>::empty() + outs =~= outs);
    assert forall|i: int| 0 <= i < xs.len() implies #[trigger] outs[i] == xs.reverse().map_values(
        |x: T| Some(x),
    )[i] by {
        assert(full.items[full.items.len() - 1 - i] == xs[xs.len() - 1 - i]);
    }
    assert(outs =~= xs.reverse().map_values(|x: T| Some(x)));
}

/// After any operations, the length is the starting length plus the number
/// of pushes minus the number of pops that returned a value, and it never
/// exceeds the capacity.
pub proof fn law_length_counts<T>(m: BufferModel<T>, ops: Seq<BufferOp<T>>)
    requires
        m.valid(),
    ensures
        m.run(ops).0.items.len() + count_some(m.run(ops).1) == m.items.len() + count_pushes(ops),
        m.run(ops).0.valid(),
    decreases ops.len(),
{
    if ops.len() > 0 {
        let (next, out) = m.step(ops[0]);
        law_length_counts(next, ops.drop_first());
        let rest = next.run(ops.drop_first()).1;
        lemma_count_some_append(out, rest);
        assert(m.run(ops).1 == out + rest);
        match ops[0] {
            BufferOp::Push(v) => {
                assert(count_some(out) == 0);
            },
            BufferOp::Pop => {
                assert(out.drop_first() =~= Seq::<Option<T>>::empty());
                assert(out[0] == m.pop().1);
                assert(count_some(out.drop_first()) == 0);
                assert(count_some(out) == if m.items.len() == 0 { 0nat } else { 1nat });
            },
        }
    }
}

proof fn lemma_count_some_append<T>(a: Seq<Option<T>>, b: Seq<Option<T>>)
    ensures
        count_some(a + b) == count_some(a) + count_some(b),
    decreases a.len(),
{
    if a.len() == 0 {
        assert(a + b =~= b);
    } else {
        assert((a + b).drop_first() =~= a.drop_first() + b);
        lemma_count_some_append(a.drop_first(), b);
    }
}

/// A push onto a full buffer grows it to `INITIAL_CAPACITY` slots from
/// nothing, or to twice its capacity, and every element already there stays
/// readable at its index.
pub proof fn law_full_push_grows<T>(m: BufferModel<T>, v: T)
    requires
        m.valid(),
        m.items.len() == m.capacity,
    ensures
        m.push(v).capacity == grown_capacity(m.capacity),
        m.capacity == 0 ==> m.push(v).capacity == INITIAL_CAPACITY,
        m.capacity > 0 ==> m.push(v).capacity == 2 * m.capacity,
        m.push(v).items.len() <= m.push(v).capacity,
        forall|i: int| 0 <= i < m.items.len() ==> #[trigger] m.push(v).get(i) == m.get(i),
        m.push(v).get(m.items.len() as int) == Some(v),
{
}

/// Pushing any elements keeps every earlier element readable at its index,
/// and the pushed ones follow in order.
pub proof fn law_pushes_keep_elements<T>(m: BufferModel<T>, xs: Seq<T>)
    ensures
        forall|i: int|
            0 <= i < m.items.len() ==> #[trigger] m.run(pushes(xs)).0.get(i) == m.get(i),
        forall|j: int|
            0 <= j < xs.len() ==> #[trigger] m.run(pushes(xs)).0.get(m.items.len() + j) == Some(
                xs[j],
            ),
        m.run(pushes(xs)).0.get((m.items.len() + xs.len()) as int) is None,
{
    lemma_run_pushes(m, xs);
}

/// Once a buffer is drained, `pop` returns nothing and changes nothing; a
/// fresh buffer is the case with nothing to drain.
pub proof fn law_pop_after_drain<T>(m: BufferModel<T>)
    ensures
        m.run(pops(m.items.len())).0.items.len() == 0,
        m.run(pops(m.items.len())).0.pop() == (m.run(pops(m.items.len())).0, None::<T>),
        BufferModel::<T>::empty().pop() == (BufferModel::<T>::empty(), None::<T>),
{
    lemma_run_pops(m, m.items.len());
}

} // verus!
