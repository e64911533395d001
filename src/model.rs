//! The sequence model of a stack: what `push` and `pop` do to its view, and
//! the laws that follow.
//!
//! Both `first::List` and `second::List` view a stack as the sequence of its
//! values from the top down; `push(e)` turns a view `v` into `seq![e] + v`,
//! and `pop` returns `popped(v)` and leaves `after_pop(v)`.
use vstd::prelude::*;

verus! {

/// The view after pushing the values of `es` in order onto a stack whose
/// view is `v`.
pub open spec fn after_pushes<T>(v: Seq<T>, es: Seq<T>) -> Seq<T>
    decreases es.len(),
{
    if es.len() == 0 {
        v
    } else {
        seq![es.last()] + after_pushes(v, es.drop_last())
    }
}

/// What one `pop` returns on a stack whose view is `v`.
pub open spec fn popped<T>(v: Seq<T>) -> Option<T> {
    if v.len() == 0 {
        None
    } else {
        Some(v[0])
    }
}

/// The view that one `pop` leaves on a stack whose view is `v`.
pub open spec fn after_pop<T>(v: Seq<T>) -> Seq<T> {
    if v.len() == 0 {
        v
    } else {
        v.drop_first()
    }
}

/// The results of `n` pops in a row on a stack whose view is `v`, in order.
pub open spec fn pops<T>(v: Seq<T>, n: nat) -> Seq<Option<T>>
    decreases n,
{
    if n == 0 {
        Seq::empty()
    } else {
        seq![popped(v)] + pops(after_pop(v), (n - 1) as nat)
    }
}

/// The view left by `n` pops in a row on a stack whose view is `v`.
pub open spec fn after_pops<T>(v: Seq<T>, n: nat) -> Seq<T>
    decreases n,
{
    if n == 0 {
        v
    } else {
        after_pops(after_pop(v), (n - 1) as nat)
    }
}

/// Pushing values in order puts them on top of the stack in reverse order.
pub proof fn lemma_after_pushes<T>(v: Seq<T>, es: Seq<T>)
    ensures
        after_pushes(v, es) == es.reverse() + v,
    decreases es.len(),
{
    if es.len() > 0 {
        lemma_after_pushes(v, es.drop_last());
        assert(es.reverse() =~= seq![es.last()] + es.drop_last().reverse());
        assert(after_pushes(v, es) =~= es.reverse() + v);
    } else {
        assert(es.reverse() + v =~= v);
    }
}

/// `n` pops take the first `n` values of the view, in order, when there are
/// that many.
pub proof fn lemma_pops_prefix<T>(v: Seq<T>, n: nat)
    requires
        n <= v.len(),
    ensures
        pops(v, n) == v.take(n as int).map_values(|e: T| Some(e)),
        after_pops(v, n) == v.skip(n as int),
    decreases n,
{
    if n == 0 {
        assert(v.take(0).map_values(|e: T| Some(e)) =~= Seq::<Option<T>>::empty());
        assert(v.skip(0) =~= v);
    } else {
        lemma_pops_prefix(v.drop_first(), (n - 1) as nat);
        assert(pops(v, n) =~= v.take(n as int).map_values(|e: T| Some(e)));
        assert(after_pops(v, n) =~= v.skip(n as int));
    }
}

/// Pops on an empty stack all return `None`.
pub proof fn lemma_pops_empty<T>(n: nat)
    ensures
        pops(Seq::<T>::empty(), n) == Seq::new(n, |i: int| None::<T>),
        after_pops(Seq::<T>::empty(), n) == Seq::<T>::empty(),
    decreases n,
{
    if n > 0 {
        lemma_pops_empty::<T>((n - 1) as nat);
        assert(pops(Seq::<T>::empty(), n) =~= Seq::new(n, |i: int| None::<T>));
    } else {
        assert(pops(Seq::<T>::empty(), n) =~= Seq::new(n, |i: int| None::<T>));
    }
}

/// Strict LIFO order: after pushing `e1, ..., en` onto any stack, `n` pops
/// return `en, ..., e1` and leave the stack as it was before the pushes.
pub proof fn lemma_lifo<T>(v: Seq<T>, es: Seq<T>)
    ensures
        pops(after_pushes(v, es), es.len()) == es.reverse().map_values(|e: T| Some(e)),
        after_pops(after_pushes(v, es), es.len()) == v,
{
    lemma_after_pushes(v, es);
    let w = es.reverse() + v;
    lemma_pops_prefix(w, es.len());
    assert(w.take(es.len() as int) =~= es.reverse());
    assert(w.skip(es.len() as int) =~= v);
}

/// Pops past the bottom return `None`: on a new stack that is given
/// `e1, ..., en`, pops return `en, ..., e1` and then `None` for every pop
/// after the stack is drained (with no pushes, every pop returns `None`).
pub proof fn lemma_pops_after_drain<T>(es: Seq<T>, k: nat)
    ensures
        pops(after_pushes(Seq::<T>::empty(), es), es.len() + k) == es.reverse().map_values(
            |e: T| Some(e),
        ) + Seq::new(k, |i: int| None::<T>),
{
    lemma_pops_split(after_pushes(Seq::<T>::empty(), es), es.len(), k);
    lemma_lifo(Seq::<T>::empty(), es);
    lemma_pops_empty::<T>(k);
}

/// `m + k` pops are `m` pops followed by `k` pops on what they leave.
proof fn lemma_pops_split<T>(v: Seq<T>, m: nat, k: nat)
    ensures
        pops(v, m + k) == pops(v, m) + pops(after_pops(v, m), k),
        after_pops(v, m + k) == after_pops(after_pops(v, m), k),
    decreases m,
{
    if m == 0 {
        assert(pops(v, m) + pops(after_pops(v, m), k) =~= pops(v, k));
    } else {
        lemma_pops_split(after_pop(v), (m - 1) as nat, k);
        assert((m + k - 1) as nat == (m - 1) as nat + k);
        assert(pops(v, m + k) =~= pops(v, m) + pops(after_pops(v, m), k));
    }
}

} // verus!
