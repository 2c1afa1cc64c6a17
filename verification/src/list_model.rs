//! The list seen as a sequence: what runs of pushes and drops do to it.
//!
//! `DLLStore`'s operations are specified by `pushed_back`, `pushed_front`,
//! `dropped_start` and `dropped_end`; the lemmas here are about those
//! functions, so they hold of every store.

use vstd::prelude::*;
use vstd::multiset::Multiset;
use crate::list::{pushed_back, pushed_front, dropped_start, dropped_end};

verus! {

/// One operation at an end of the list.
pub enum ListOp<T> {
    PushBack(T),
    PushFront(T),
    DropStart,
    DropEnd,
}

/// The list after `op`.
pub open spec fn step<T>(s: Seq<T>, op: ListOp<T>) -> Seq<T> {
    match op {
        ListOp::PushBack(v) => pushed_back(s, v),
        ListOp::PushFront(v) => pushed_front(s, v),
        ListOp::DropStart => dropped_start(s).1,
        ListOp::DropEnd => dropped_end(s).1,
    }
}

/// The list after all of `ops`, in order.
pub open spec fn run<T>(s: Seq<T>, ops: Seq<ListOp<T>>) -> Seq<T>
    decreases ops.len(),
{
    if ops.len() == 0 {
        s
    } else {
        step(run(s, ops.drop_last()), ops.last())
    }
}

/// How many of `ops` are pushes.
pub open spec fn pushes<T>(ops: Seq<ListOp<T>>) -> nat
    decreases ops.len(),
{
    if ops.len() == 0 {
        0
    } else {
        pushes(ops.drop_last()) + (match ops.last() {
            ListOp::PushBack(_) | ListOp::PushFront(_) => 1nat,
            _ => 0nat,
        })
    }
}

/// How many of `ops`, run from `s`, are drops that return an element: those
/// that meet a list that is not empty.
pub open spec fn drops_that_return<T>(s: Seq<T>, ops: Seq<ListOp<T>>) -> nat
    decreases ops.len(),
{
    if ops.len() == 0 {
        0
    } else {
        drops_that_return(s, ops.drop_last()) + (match ops.last() {
            ListOp::DropStart | ListOp::DropEnd => if run(s, ops.drop_last()).len() > 0 {
                1nat
            } else {
                0nat
            },
            _ => 0nat,
        })
    }
}

/// After any run of operations the length is the length before, plus the
/// pushes, minus the drops that returned an element; so from an empty list it
/// is the pushes minus the successful drops, and never below zero.
pub proof fn lemma_length_counts<T>(s: Seq<T>, ops: Seq<ListOp<T>>)
    ensures
        drops_that_return(s, ops) <= s.len() + pushes(ops),
        run(s, ops).len() == s.len() + pushes(ops) - drops_that_return(s, ops),
    decreases ops.len(),
{
    if ops.len() > 0 {
        lemma_length_counts(s, ops.drop_last());
    }
}

/// The list after every element of `vs` was pushed to the back, in order.
pub open spec fn all_pushed_back<T>(s: Seq<T>, vs: Seq<T>) -> Seq<T>
    decreases vs.len(),
{
    if vs.len() == 0 {
        s
    } else {
        pushed_back(all_pushed_back(s, vs.drop_last()), vs.last())
    }
}

/// The list after every element of `vs` was pushed to the front, in order.
pub open spec fn all_pushed_front<T>(s: Seq<T>, vs: Seq<T>) -> Seq<T>
    decreases vs.len(),
{
    if vs.len() == 0 {
        s
    } else {
        pushed_front(all_pushed_front(s, vs.drop_last()), vs.last())
    }
}

/// What repeated `drop_start` returns until the list is empty.
pub open spec fn drained_from_start<T>(s: Seq<T>) -> Seq<T>
    decreases s.len(),
{
    match dropped_start(s).0 {
        None => Seq::empty(),
        Some(v) => seq![v] + drained_from_start(dropped_start(s).1),
    }
}

/// Draining a list from the start returns its elements first to last.
pub proof fn lemma_drained_is_list<T>(s: Seq<T>)
    ensures
        drained_from_start(s) == s,
    decreases s.len(),
{
    if s.len() > 0 {
        lemma_drained_is_list(s.drop_first());
        assert(seq![s[0]] + s.drop_first() =~= s);
    } else {
        assert(drained_from_start(s) =~= s);
    }
}

/// First in, first out: values pushed to the back of an empty list come out
/// of the start in the order in which they went in.
pub proof fn lemma_push_back_is_fifo<T>(vs: Seq<T>)
    ensures
        drained_from_start(all_pushed_back(Seq::empty(), vs)) == vs,
    decreases vs.len(),
{
    lemma_all_pushed_back(Seq::empty(), vs);
    assert(Seq::<T>::empty() + vs =~= vs);
    lemma_drained_is_list(vs);
}

/// Last in, first out: values pushed to the front of an empty list come out
/// of the start in the reverse of the order in which they went in.
pub proof fn lemma_push_front_is_lifo<T>(vs: Seq<T>)
    ensures
        drained_from_start(all_pushed_front(Seq::empty(), vs)) == vs.reverse(),
    decreases vs.len(),
{
    lemma_all_pushed_front(Seq::empty(), vs);
    assert(vs.reverse() + Seq::<T>::empty() =~= vs.reverse());
    lemma_drained_is_list(vs.reverse());
}

/// Pushing `vs` to the back of `s` one by one appends `vs`.
pub proof fn lemma_all_pushed_back<T>(s: Seq<T>, vs: Seq<T>)
    ensures
        all_pushed_back(s, vs) == s + vs,
    decreases vs.len(),
{
    if vs.len() > 0 {
        lemma_all_pushed_back(s, vs.drop_last());
        assert((s + vs.drop_last()).push(vs.last()) =~= s + vs);
    } else {
        assert(s + vs =~= s);
    }
}

/// Pushing `vs` to the front of `s` one by one puts `vs`, reversed, before `s`.
pub proof fn lemma_all_pushed_front<T>(s: Seq<T>, vs: Seq<T>)
    ensures
        all_pushed_front(s, vs) == vs.reverse() + s,
    decreases vs.len(),
{
    if vs.len() > 0 {
        lemma_all_pushed_front(s, vs.drop_last());
        assert(seq![vs.last()] + (vs.drop_last().reverse() + s) =~= vs.reverse() + s);
    } else {
        assert(vs.reverse() + s =~= s);
    }
}

/// A push followed at once by a drop at the same end returns the pushed value
/// and leaves the list as it was; on an empty list that is empty again.
pub proof fn lemma_push_then_drop<T>(s: Seq<T>, v: T)
    ensures
        dropped_end(pushed_back(s, v)) == (Some(v), s),
        dropped_start(pushed_front(s, v)) == (Some(v), s),
{
    assert(pushed_back(s, v).drop_last() =~= s);
    assert(pushed_front(s, v).drop_first() =~= s);
}

/// `ops` holds drops only.
pub open spec fn only_drops<T>(ops: Seq<ListOp<T>>) -> bool {
    forall|i: int| 0 <= i < ops.len() ==> (#[trigger] ops[i] is DropStart || ops[i] is DropEnd)
}

/// However often one drops from an empty list, at whichever end, each drop
/// returns nothing and the list stays empty.
pub proof fn lemma_drops_on_empty<T>(ops: Seq<ListOp<T>>)
    requires
        only_drops(ops),
    ensures
        run(Seq::<T>::empty(), ops) == Seq::<T>::empty(),
        drops_that_return(Seq::<T>::empty(), ops) == 0,
        dropped_start(Seq::<T>::empty()) == (None::<T>, Seq::<T>::empty()),
        dropped_end(Seq::<T>::empty()) == (None::<T>, Seq::<T>::empty()),
    decreases ops.len(),
{
    if ops.len() > 0 {
        assert(only_drops(ops.drop_last())) by {
            assert forall|i: int| 0 <= i < ops.drop_last().len() implies (
            #[trigger] ops.drop_last()[i] is DropStart || ops.drop_last()[i] is DropEnd) by {
                assert(ops.drop_last()[i] == ops[i]);
            }
        }
        lemma_drops_on_empty(ops.drop_last());
        assert(ops.last() == ops[ops.len() - 1]);
    }
}

/// `ops` holds pushes only.
pub open spec fn only_pushes<T>(ops: Seq<ListOp<T>>) -> bool {
    forall|i: int| 0 <= i < ops.len() ==> (#[trigger] ops[i] is PushBack || ops[i] is PushFront)
}

/// The values that the pushes among `ops` put into the list, each as often
/// as it is pushed.
pub open spec fn pushed_values<T>(ops: Seq<ListOp<T>>) -> Multiset<T>
    decreases ops.len(),
{
    if ops.len() == 0 {
        Multiset::empty()
    } else {
        match ops.last() {
            ListOp::PushBack(v) => pushed_values(ops.drop_last()).insert(v),
            ListOp::PushFront(v) => pushed_values(ops.drop_last()).insert(v),
            _ => pushed_values(ops.drop_last()),
        }
    }
}

/// Pushes lose nothing and make up nothing, at whichever end and in
/// whichever order they come: after a run of pushes the list holds what it
/// held before and every pushed value, each as often as it was pushed, and
/// it is longer by the number of pushes. So two pushers who take turns in
/// any way at the two ends of a list leave all their values in it.
pub proof fn lemma_pushes_keep_everything<T>(s: Seq<T>, ops: Seq<ListOp<T>>)
    requires
        only_pushes(ops),
    ensures
        run(s, ops).to_multiset() =~= s.to_multiset().add(pushed_values(ops)),
        run(s, ops).len() == s.len() + ops.len(),
    decreases ops.len(),
{
    broadcast use vstd::seq_lib::group_to_multiset_ensures;

    if ops.len() > 0 {
        let before = ops.drop_last();
        assert(only_pushes(before)) by {
            assert forall|i: int| 0 <= i < before.len() implies (#[trigger] before[i] is PushBack
                || before[i] is PushFront) by {
                assert(before[i] == ops[i]);
            }
        }
        lemma_pushes_keep_everything(s, before);
        let r = run(s, before);
        assert(ops.last() == ops[ops.len() - 1]);
        match ops.last() {
            ListOp::PushBack(v) => {
                assert(r.push(v).to_multiset() =~= r.to_multiset().insert(v));
            },
            ListOp::PushFront(v) => {
                vstd::seq_lib::lemma_seq_union_to_multiset_commutative(seq![v], r);
                assert(r + seq![v] =~= r.push(v));
                assert(r.push(v).to_multiset() =~= r.to_multiset().insert(v));
            },
            _ => {},
        }
    }
}

} // verus!
