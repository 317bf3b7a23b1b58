//! The mathematical model of the list: a sequence of elements, head first,
//! and what the stack operations do to it.

use vstd::prelude::*;

verus! {

/// The sequence after `elem` has been pushed onto `s`: `elem` becomes the head.
pub open spec fn pushed<T>(s: Seq<T>, elem: T) -> Seq<T> {
    seq![elem] + s
}

/// The head of `s`, or `None` where `s` is empty.
pub open spec fn first<T>(s: Seq<T>) -> Option<T> {
    if s.len() == 0 {
        None
    } else {
        Some(s[0])
    }
}

/// The head of `s` by reference, or `None` where `s` is empty.
pub open spec fn first_ref<T>(s: &Seq<T>) -> Option<&T> {
    if s.len() == 0 {
        None
    } else {
        Some(&s[0])
    }
}

/// What is left of `s` once its head is removed; an empty `s` stays as it is.
pub open spec fn rest<T>(s: Seq<T>) -> Seq<T> {
    if s.len() == 0 {
        s
    } else {
        s.drop_first()
    }
}

/// The sequence after the elements of `xs` have been pushed onto `s` one by
/// one, `xs[0]` first.
pub open spec fn pushed_all<T>(s: Seq<T>, xs: Seq<T>) -> Seq<T>
    decreases xs.len(),
{
    if xs.len() == 0 {
        s
    } else {
        pushed_all(pushed(s, xs[0]), xs.drop_first())
    }
}

/// The elements that `n` removals in a row yield from `s`, in the order in
/// which they come out. A removal from an empty sequence yields nothing.
pub open spec fn yielded<T>(s: Seq<T>, n: nat) -> Seq<T>
    decreases n,
{
    if n == 0 {
        Seq::empty()
    } else {
        match first(s) {
            None => Seq::empty(),
            Some(x) => seq![x] + yielded(rest(s), (n - 1) as nat),
        }
    }
}

/// What `n` removals in a row keep of `s`.
pub open spec fn kept<T>(s: Seq<T>, n: nat) -> Seq<T>
    decreases n,
{
    if n == 0 {
        s
    } else {
        kept(rest(s), (n - 1) as nat)
    }
}

} // verus!
