//! Laws of the queue discipline.
//!
//! The contracts in `buffer` tie every queue operation to a sequence
//! model: `push_back` appends at the back (`Seq::push`) and a successful
//! `pop_front` removes the front (`Seq::drop_first`). The channel serializes
//! all operations through its lock, so any run of channel operations
//! denotes a run of these model functions on the queue's view. The lemmas
//! here state the ordering guarantees of that model.

use vstd::prelude::*;

verus! {

/// The queue contents after pushing the values of `vs`, in order, at the
/// back of `q`.
pub open spec fn after_pushes<T>(q: Seq<T>, vs: Seq<T>) -> Seq<T>
    decreases vs.len(),
{
    if vs.len() == 0 {
        q
    } else {
        after_pushes(q.push(vs.first()), vs.drop_first())
    }
}

/// One pop: removes the front value if there is one; an empty queue is
/// left as it is.
pub open spec fn popped<T>(q: Seq<T>) -> Seq<T> {
    if q.len() == 0 {
        q
    } else {
        q.drop_first()
    }
}

/// The queue contents after `n` pops.
pub open spec fn after_pops<T>(q: Seq<T>, n: nat) -> Seq<T>
    decreases n,
{
    if n == 0 {
        q
    } else {
        after_pops(popped(q), (n - 1) as nat)
    }
}

/// The values that `n` pops return, in order; pops beyond the queued
/// values return nothing.
pub open spec fn pop_results<T>(q: Seq<T>, n: nat) -> Seq<T>
    decreases n,
{
    if n == 0 || q.len() == 0 {
        Seq::<T>::empty()
    } else {
        seq![q.first()] + pop_results(q.drop_first(), (n - 1) as nat)
    }
}

/// Pushes accumulate: pushing the values of `vs` in order at the back of
/// `q` leaves the queue holding `q` followed by `vs`.
pub proof fn lemma_after_pushes_appends<T>(q: Seq<T>, vs: Seq<T>)
    ensures
        after_pushes(q, vs) == q + vs,
    decreases vs.len(),
{
    if vs.len() == 0 {
        assert(after_pushes(q, vs) =~= q + vs);
    } else {
        lemma_after_pushes_appends(q.push(vs.first()), vs.drop_first());
        assert(q.push(vs.first()) + vs.drop_first() =~= q + vs);
    }
}

/// Popping as often as the queue holds values returns the whole queue, in
/// queue order.
pub proof fn lemma_pop_results_drain<T>(q: Seq<T>)
    ensures
        pop_results(q, q.len()) == q,
    decreases q.len(),
{
    if q.len() == 0 {
        assert(pop_results(q, q.len()) =~= q);
    } else {
        lemma_pop_results_drain(q.drop_first());
        assert(seq![q.first()] + q.drop_first() =~= q);
    }
}

/// The FIFO law: pushing `vs` into an empty queue, with no interleaved
/// pops, and then popping `vs.len()` times returns exactly the values of
/// `vs`, in push order.
pub proof fn lemma_fifo_order<T>(vs: Seq<T>)
    ensures
        pop_results(after_pushes(Seq::<T>::empty(), vs), vs.len()) == vs,
{
    lemma_after_pushes_appends(Seq::<T>::empty(), vs);
    assert(after_pushes(Seq::<T>::empty(), vs) =~= vs);
    lemma_pop_results_drain(vs);
}

/// `n` pops shorten the queue by `n`, as long as the queue holds that
/// many values.
pub proof fn lemma_after_pops_len<T>(q: Seq<T>, n: nat)
    requires
        n <= q.len(),
    ensures
        after_pops(q, n).len() == q.len() - n,
    decreases n,
{
    if n != 0 {
        lemma_after_pops_len(q.drop_first(), (n - 1) as nat);
    }
}

/// Size accuracy: after `k` pushes and `j <= k` pops on a queue that
/// started empty, the queue holds `k - j` values, which is what `size`
/// reports.
pub proof fn lemma_size_accuracy<T>(vs: Seq<T>, j: nat)
    requires
        j <= vs.len(),
    ensures
        after_pops(after_pushes(Seq::<T>::empty(), vs), j).len() == vs.len() - j,
{
    lemma_after_pushes_appends(Seq::<T>::empty(), vs);
    assert(after_pushes(Seq::<T>::empty(), vs) =~= vs);
    lemma_after_pops_len(vs, j);
}

/// Multi-producer safety: two producers hand one value each to a shared
/// queue, in whichever order the lock admits them; two pops then return
/// both values, none lost and none duplicated. No order across producers
/// is promised, only the set of values.
pub proof fn lemma_two_producers_no_loss<T>(a: T, b: T)
    ensures
        pop_results(after_pushes(Seq::<T>::empty(), seq![a, b]), 2).to_multiset() == seq![a, b]
            .to_multiset(),
        pop_results(after_pushes(Seq::<T>::empty(), seq![b, a]), 2).to_multiset() == seq![a, b]
            .to_multiset(),
{
    broadcast use vstd::seq_lib::group_to_multiset_ensures;

    lemma_fifo_order(seq![a, b]);
    lemma_fifo_order(seq![b, a]);
    let e = Seq::<T>::empty();
    assert(seq![a, b] =~= e.push(a).push(b));
    assert(seq![b, a] =~= e.push(b).push(a));
    assert(e.push(a).push(b).to_multiset() =~= e.to_multiset().insert(a).insert(b));
    assert(e.push(b).push(a).to_multiset() =~= e.to_multiset().insert(b).insert(a));
    assert(e.to_multiset().insert(b).insert(a) =~= e.to_multiset().insert(a).insert(b));
}

/// The safety half of the blocking receive: once a value has been pushed
/// into an empty queue, the next pop returns exactly that value. (That
/// the waiting `recv` eventually performs this pop is a liveness claim
/// that is out of reach of these contracts.)
pub proof fn lemma_pop_returns_pushed<T>(v: T)
    ensures
        pop_results(after_pushes(Seq::<T>::empty(), seq![v]), 1) == seq![v],
{
    lemma_fifo_order(seq![v]);
}

} // verus!
