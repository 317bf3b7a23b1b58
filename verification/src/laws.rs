//! What holds of every list, whatever is pushed and popped, stated over the
//! model that the contracts of the operations use.

use crate::model::{first, first_ref, kept, pushed, pushed_all, rest, yielded};
use vstd::prelude::*;

verus! {

/// Pushing the elements of `xs` one by one puts them in front of the list
/// in reverse order: the element pushed last is the head.
pub proof fn lemma_pushed_all<T>(s: Seq<T>, xs: Seq<T>)
    ensures
        pushed_all(s, xs) == xs.reverse() + s,
    decreases xs.len(),
{
    if xs.len() == 0 {
        assert(xs.reverse() + s =~= s);
    } else {
        let tail = xs.drop_first();
        lemma_pushed_all(pushed(s, xs[0]), tail);
        assert(tail.reverse() + pushed(s, xs[0]) =~= xs.reverse() + s);
    }
}

/// `n` removals in a row yield the first `n` elements, in their order, and
/// keep those behind them; where the list holds fewer than `n`, they yield
/// all of it and keep nothing.
pub proof fn lemma_yielded_kept<T>(s: Seq<T>, n: nat)
    ensures
        n <= s.len() ==> yielded(s, n) == s.take(n as int) && kept(s, n) == s.skip(n as int),
        n >= s.len() ==> yielded(s, n) == s && kept(s, n) == Seq::<T>::empty(),
    decreases n,
{
    if n == 0 {
        assert(s.take(0) =~= Seq::<T>::empty());
        assert(s.skip(0) =~= s);
    } else if s.len() == 0 {
        lemma_yielded_kept(rest(s), (n - 1) as nat);
    } else {
        let m = (n - 1) as nat;
        lemma_yielded_kept(rest(s), m);
        if n <= s.len() {
            assert(seq![s[0]] + rest(s).take(m as int) =~= s.take(n as int));
            assert(rest(s).skip(m as int) =~= s.skip(n as int));
        } else {
            assert(seq![s[0]] + rest(s) =~= s);
        }
    }
}

/// Last in, first out, one step: a pop that follows a push returns the
/// element that was pushed and leaves the list as it was before the push.
pub proof fn law_pop_undoes_push<T>(s: Seq<T>, elem: T)
    ensures
        first(pushed(s, elem)) == Some(elem),
        rest(pushed(s, elem)) == s,
{
    assert(pushed(s, elem).drop_first() =~= s);
}

/// Last in, first out: after the elements of `xs` have been pushed in their
/// order, as many pops return them in reverse order and leave the list as it
/// was before.
pub proof fn law_lifo<T>(s: Seq<T>, xs: Seq<T>)
    ensures
        yielded(pushed_all(s, xs), xs.len()) == xs.reverse(),
        kept(pushed_all(s, xs), xs.len()) == s,
{
    let full = xs.reverse() + s;
    lemma_pushed_all(s, xs);
    lemma_yielded_kept(full, xs.len());
    assert(full.take(xs.len() as int) =~= xs.reverse());
    assert(full.skip(xs.len() as int) =~= s);
}

/// The length counts pushes and pops: after `xs.len()` pushes and `j` pops,
/// with `j` no more than the pushes, the list is longer by the difference.
pub proof fn law_len_counts<T>(s: Seq<T>, xs: Seq<T>, j: nat)
    requires
        j <= xs.len(),
    ensures
        kept(pushed_all(s, xs), j).len() == s.len() + xs.len() - j,
{
    lemma_pushed_all(s, xs);
    lemma_yielded_kept(xs.reverse() + s, j);
}

/// An empty list has no head to peek at; after a push the head is the
/// element that was pushed, and the list is longer by one.
pub proof fn law_peek_sees_last_push<T>(s: Seq<T>, elem: T)
    ensures
        first_ref(&Seq::<T>::empty()) is None,
        first_ref(&pushed(s, elem)) == Some(&elem),
        pushed(s, elem).len() == s.len() + 1,
{
}

/// A value written to the head is the value that a later peek sees, and
/// nothing behind the head changes.
pub proof fn law_peek_sees_write<T>(s: Seq<T>, value: T)
    requires
        s.len() > 0,
    ensures
        first_ref(&s.update(0, value)) == Some(&value),
        rest(s.update(0, value)) == rest(s),
{
    assert(s.update(0, value).drop_first() =~= s.drop_first());
}

/// Draining: removals in a row, as many as the list has elements or more,
/// yield the elements of the list in their order, head first, and leave the
/// list empty; the removals beyond its length yield nothing more.
pub proof fn law_drain<T>(s: Seq<T>, n: nat)
    requires
        n >= s.len(),
    ensures
        yielded(s, n) == s,
        kept(s, n) == Seq::<T>::empty(),
{
    lemma_yielded_kept(s, n);
}

/// An exhausted iterator stays exhausted: a removal from the empty sequence
/// yields `None` and leaves it empty.
pub proof fn law_exhaustion_lasts<T>()
    ensures
        first(Seq::<T>::empty()) is None,
        first_ref(&Seq::<T>::empty()) is None,
        rest(Seq::<T>::empty()) == Seq::<T>::empty(),
{
}

} // verus!
