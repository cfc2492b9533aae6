//! Small helpers over std collections that vstd leaves unspecified.
use std::collections::VecDeque;

use vstd::prelude::*;

verus! {

/// Exchanges two elements of a deque.
///
/// Calls `VecDeque::swap`, which std documents as swapping the elements at
/// the two indices (which may be equal) and panicking when either is out of
/// bounds; the contract states exactly that exchange.
#[verifier::external_body]
pub fn deque_swap<T>(v: &mut VecDeque<T>, a: usize, b: usize)
    requires
        a < old(v)@.len(),
        b < old(v)@.len(),
    ensures
        final(v)@ == old(v)@.update(a as int, old(v)@[b as int]).update(b as int, old(v)@[a as int]),
{
    v.swap(a, b);
}

/// The element at `i` of a deque, for modification.
///
/// Calls `IndexMut::index_mut` of `VecDeque`, which std documents as giving
/// a mutable reference to the element at `i` and panicking when `i` is out
/// of bounds; the contract says that the reference starts at that element
/// and that the deque then holds whatever it ends at, in the same place.
#[verifier::external_body]
pub fn deque_index_mut<T>(v: &mut VecDeque<T>, i: usize) -> (r: &mut T)
    requires
        i < old(v)@.len(),
    ensures
        *r == old(v)@[i as int],
        final(v)@ == old(v)@.update(i as int, *final(r)),
{
    &mut v[i]
}

/// The string of the characters `chars`.
///
/// Calls std's `FromIterator<char>` for `String`, which std documents as
/// collecting the characters in order.
#[verifier::external_body]
pub fn string_from_chars(chars: &Vec<char>) -> (s: String)
    ensures
        s@ == chars@,
{
    String::from_iter(chars.iter())
}

/// Filtering one more element of a sequence keeps it exactly when the
/// predicate holds of it.
pub proof fn lemma_filter_step<A>(s: Seq<A>, i: int, p: spec_fn(A) -> bool)
    requires
        0 <= i < s.len(),
    ensures
        s.subrange(0, i + 1).filter(p) == (if p(s[i]) {
            s.subrange(0, i).filter(p).push(s[i])
        } else {
            s.subrange(0, i).filter(p)
        }),
{
    reveal(Seq::filter);
    assert(s.subrange(0, i + 1).drop_last() == s.subrange(0, i));
}

/// Applies `func` to the cell `v[i]`, leaving the others as they were.
pub fn apply_at<T, F: Fn(&mut T)>(v: &mut Vec<T>, func: &F, i: usize)
    requires
        i < old(v)@.len(),
        forall|x: &mut T| func.requires((x,)),
    ensures
        final(v)@.len() == old(v)@.len(),
        forall|k: int| 0 <= k < old(v)@.len() && k != i ==> final(v)@[k] == old(v)@[k],
        exists|x: &mut T|
            call_ensures(*func, (x,), ()) && *x == old(v)@[i as int] && *final(x) == final(v)@[i as int],
{
    let cell = &mut v[i];
    func(cell);
}


} // verus!
