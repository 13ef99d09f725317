use vstd::prelude::*;

use crate::state::{closes, front, registered, released, take_rest, waits};

verus! {

/// One operation of the consumer or of any producer on the shared state.
pub enum Step<T> {
    /// A producer sends the value.
    Send(T),
    /// The consumer takes the front value, if any.
    Take,
}

/// Runs `ops` in order on the queue `q`: the values the takes yielded, and the queue left.
pub open spec fn run<T>(q: Seq<T>, ops: Seq<Step<T>>) -> (Seq<T>, Seq<T>)
    decreases ops.len(),
{
    if ops.len() == 0 {
        (Seq::empty(), q)
    } else {
        match ops[0] {
            Step::Send(v) => run(q.push(v), ops.drop_first()),
            Step::Take => {
                let (got, left) = run(take_rest(q), ops.drop_first());
                match front(q) {
                    Some(v) => (seq![v] + got, left),
                    None => (got, left),
                }
            },
        }
    }
}

/// The values that the sends of `ops` hand over, in order.
pub open spec fn sent<T>(ops: Seq<Step<T>>) -> Seq<T>
    decreases ops.len(),
{
    if ops.len() == 0 {
        Seq::empty()
    } else {
        match ops[0] {
            Step::Send(v) => seq![v] + sent(ops.drop_first()),
            Step::Take => sent(ops.drop_first()),
        }
    }
}

/// The sends of the values `vs`, in order.
pub open spec fn sends<T>(vs: Seq<T>) -> Seq<Step<T>> {
    vs.map_values(|v: T| Step::Send(v))
}

/// `n` takes in a row.
pub open spec fn takes<T>(n: nat) -> Seq<Step<T>> {
    Seq::new(n, |i: int| Step::Take)
}

/// Nothing is lost, duplicated or reordered: whatever the interleaving of sends and
/// takes, the values taken followed by those still queued are the values first queued
/// followed by the values sent.
pub proof fn lemma_conserves<T>(q: Seq<T>, ops: Seq<Step<T>>)
    ensures
        run(q, ops).0 + run(q, ops).1 == q + sent(ops),
    decreases ops.len(),
{
    if ops.len() > 0 {
        match ops[0] {
            Step::Send(v) => {
                lemma_conserves(q.push(v), ops.drop_first());
                assert(q.push(v) + sent(ops.drop_first()) =~= q + (seq![v] + sent(ops.drop_first())));
            },
            Step::Take => {
                lemma_conserves(take_rest(q), ops.drop_first());
                let (got, left) = run(take_rest(q), ops.drop_first());
                if q.len() > 0 {
                    assert(seq![q[0]] + got + left =~= seq![q[0]] + (got + left));
                    assert(seq![q[0]] + (q.drop_first() + sent(ops.drop_first())) =~= q + sent(
                        ops.drop_first(),
                    ));
                }
            },
        }
    }
}

/// Sending values one after another and then taking as many yields them in the order sent.
pub proof fn lemma_fifo<T>(vs: Seq<T>)
    ensures
        run(Seq::empty(), sends(vs) + takes(vs.len())) == (vs, Seq::<T>::empty()),
{
    lemma_sends_then(Seq::empty(), vs, takes(vs.len()));
    assert(Seq::<T>::empty() + vs =~= vs);
    lemma_takes_drain(vs);
}

/// Sends of `vs` followed by `rest` act as `rest` on the queue with `vs` appended.
proof fn lemma_sends_then<T>(q: Seq<T>, vs: Seq<T>, rest: Seq<Step<T>>)
    ensures
        run(q, sends(vs) + rest) == run(q + vs, rest),
    decreases vs.len(),
{
    if vs.len() == 0 {
        assert(sends(vs) + rest =~= rest);
        assert(q + vs =~= q);
    } else {
        let ops = sends(vs) + rest;
        assert(ops[0] == Step::Send(vs[0]));
        assert(ops.drop_first() =~= sends(vs.drop_first()) + rest);
        lemma_sends_then(q.push(vs[0]), vs.drop_first(), rest);
        assert(q.push(vs[0]) + vs.drop_first() =~= q + vs);
    }
}

/// As many takes as there are queued values yield the queue, front first, and empty it.
proof fn lemma_takes_drain<T>(q: Seq<T>)
    ensures
        run(q, takes(q.len())) == (q, Seq::<T>::empty()),
    decreases q.len(),
{
    if q.len() == 0 {
        assert(q =~= Seq::<T>::empty());
    } else {
        let ops = takes::<T>(q.len());
        assert(ops.drop_first() =~= takes::<T>(q.drop_first().len()));
        lemma_takes_drain(q.drop_first());
        assert(seq![q[0]] + q.drop_first() =~= q);
    }
}

/// Over any interleaving of several producers' sends with takes, once the queue is
/// drained the values received are, as a multiset, exactly the values sent.
pub proof fn lemma_received_multiset<T>(ops: Seq<Step<T>>)
    requires
        run(Seq::empty(), ops).1.len() == 0,
    ensures
        run(Seq::empty(), ops).0.to_multiset() == sent(ops).to_multiset(),
{
    lemma_conserves(Seq::empty(), ops);
    let (got, left) = run(Seq::<T>::empty(), ops);
    assert(left =~= Seq::<T>::empty());
    assert(got + left =~= got);
    assert(Seq::<T>::empty() + sent(ops) =~= sent(ops));
}

/// Once the consumer stops waiting, a take comes back empty exactly when the queue is
/// empty and no producer is live.
pub proof fn lemma_closed_iff<T>(q: Seq<T>, live: nat)
    requires
        !waits(q, live),
    ensures
        front(q) is None <==> (q.len() == 0 && live == 0),
{
}

/// While a producer is live the consumer never sees the channel closed: it either takes
/// a value or waits.
pub proof fn lemma_open_never_closed<T>(q: Seq<T>, live: nat)
    requires
        live > 0,
    ensures
        waits(q, live) || front(q) is Some,
{
}

/// Closure is permanent: once no producer is live, neither a registration nor a release
/// brings one back, and a consumer facing that state never waits.
pub proof fn lemma_closure_permanent<T>(q: Seq<T>)
    ensures
        registered(0) == 0,
        released(0) == 0,
        !waits(q, 0),
{
}

/// The producer count after `k` registrations starting from `live`.
pub open spec fn registered_times(live: nat, k: nat) -> nat
    decreases k,
{
    if k == 0 {
        live
    } else {
        registered_times(registered(live), (k - 1) as nat)
    }
}

/// For `n` releases starting from `live` producers, whether each closed the channel.
pub open spec fn release_closures(live: nat, n: nat) -> Seq<bool>
    decreases n,
{
    if n == 0 {
        Seq::empty()
    } else {
        seq![closes(live)] + release_closures(released(live), (n - 1) as nat)
    }
}

/// Cloning the first producer `k` times and then releasing all `k + 1` handles closes
/// the channel exactly once, at the last release.
pub proof fn lemma_single_closure(k: nat)
    requires
        k < usize::MAX,
    ensures
        registered_times(1, k) == k + 1,
        release_closures(k + 1, k + 1) == Seq::new(k + 1, |i: int| i == k),
{
    lemma_registered_times(1, k);
    lemma_release_closures(k + 1);
}

proof fn lemma_registered_times(live: nat, k: nat)
    requires
        live > 0,
        live + k <= usize::MAX,
    ensures
        registered_times(live, k) == live + k,
    decreases k,
{
    if k > 0 {
        lemma_registered_times(live + 1, (k - 1) as nat);
    }
}

proof fn lemma_release_closures(n: nat)
    requires
        n > 0,
    ensures
        release_closures(n, n) == Seq::new(n, |i: int| i == n - 1),
    decreases n,
{
    if n > 1 {
        lemma_release_closures((n - 1) as nat);
    }
    assert(release_closures(n, n) =~= Seq::new(n, |i: int| i == n - 1)) by {
        if n > 1 {
            assert(release_closures((n - 1) as nat, (n - 1) as nat) =~= Seq::new(
                (n - 1) as nat,
                |i: int| i == n - 2,
            ));
        } else {
            assert(release_closures(0, 0) =~= Seq::<bool>::empty());
        }
    }
}

} // verus!
