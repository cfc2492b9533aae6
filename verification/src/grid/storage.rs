//! Bounded storage for grid rows: once full, pushing drops the oldest row.
use vstd::prelude::*;

verus! {

/// Types whose values can be exchanged in place.
pub trait Swappable: Sized {
    fn swap(&mut self, other: &mut Self)
        ensures
            *final(self) == *old(other),
            *final(other) == *old(self),
    {
        std::mem::swap(self, other);
    }
}

/// Every type can be swapped by exchanging the values.
impl<T> Swappable for T {

}

/// Storage for grid rows, holding at most `max_size` of them.
pub struct Storage<T> {
    inner: Vec<T>,
    max_size: usize,
}

/// The contents after pushing `item` onto `s` in a storage of capacity `max`.
pub open spec fn pushed<A>(s: Seq<A>, max: nat, item: A) -> Seq<A> {
    if s.len() >= max {
        s.drop_first().push(item)
    } else {
        s.push(item)
    }
}

impl<T> View for Storage<T> {
    type V = Seq<T>;

    closed spec fn view(&self) -> Seq<T> {
        self.inner@
    }
}

impl<T> Storage<T> {
    /// The storage never holds more than its capacity.
    pub open spec fn wf(&self) -> bool {
        self@.len() <= self.capacity()
    }

    /// The capacity the storage was made with.
    pub closed spec fn capacity(&self) -> nat {
        self.max_size as nat
    }

    pub fn new(max_size: usize) -> (s: Storage<T>)
        ensures
            s.wf(),
            s@ == Seq::<T>::empty(),
            s.capacity() == max_size,
    {
        Storage { inner: Vec::with_capacity(max_size), max_size }
    }

    /// Appends `item`, dropping the oldest item when the storage is full.
    pub fn push(&mut self, item: T)
        requires
            old(self).wf(),
            old(self).capacity() > 0,
        ensures
            final(self).wf(),
            final(self).capacity() == old(self).capacity(),
            final(self)@ == pushed(old(self)@, old(self).capacity(), item),
    {
        if self.inner.len() >= self.max_size {
            self.inner.remove(0);
        }
        self.inner.push(item);
        proof {
            if old(self)@.len() >= old(self).capacity() {
                assert(self.inner@ =~= old(self)@.drop_first().push(item));
            }
        }
    }

    pub fn get(&self, index: usize) -> (r: Option<&T>)
        ensures
            index < self@.len() ==> r == Some(&self@[index as int]),
            index >= self@.len() ==> r.is_none(),
    {
        if index < self.inner.len() {
            Some(&self.inner[index])
        } else {
            None
        }
    }

    pub fn get_mut(&mut self, index: usize) -> (r: Option<&mut T>)
        ensures
            index < old(self)@.len() ==> r.is_some() && *r.unwrap() == old(self)@[index as int]
                && final(self)@ == old(self)@.update(index as int, *final(r.unwrap())),
            index >= old(self)@.len() ==> r.is_none() && final(self)@ == old(self)@,
            final(self).capacity() == old(self).capacity(),
    {
        if index < self.inner.len() {
            Some(&mut self.inner[index])
        } else {
            None
        }
    }

    pub fn len(&self) -> (r: usize)
        ensures
            r == self@.len(),
    {
        self.inner.len()
    }

    pub fn clear(&mut self)
        ensures
            final(self)@ == Seq::<T>::empty(),
            final(self).wf(),
            final(self).capacity() == old(self).capacity(),
    {
        self.inner.clear();
    }
}

impl<T: Swappable> Storage<T> {
    /// Exchanges the items at `i` and `j`; does nothing when either index is
    /// out of bounds or both are the same.
    pub fn swap(&mut self, i: usize, j: usize)
        requires
            old(self).wf(),
        ensures
            final(self).wf(),
            final(self).capacity() == old(self).capacity(),
            i < old(self)@.len() && j < old(self)@.len() && i != j ==> final(self)@ == old(self)@.update(
                i as int,
                old(self)@[j as int],
            ).update(j as int, old(self)@[i as int]),
            !(i < old(self)@.len() && j < old(self)@.len() && i != j) ==> final(self)@ == old(self)@,
    {
        if i < self.inner.len() && j < self.inner.len() && i != j {
            let (lo, hi) = if i < j { (i, j) } else { (j, i) };
            let mut b = self.inner.remove(hi);
            let mut a = self.inner.remove(lo);
            a.swap(&mut b);
            self.inner.insert(lo, a);
            self.inner.insert(hi, b);
            proof {
                let s = old(self)@;
                assert(self.inner@ =~= s.update(lo as int, s[hi as int]).update(hi as int, s[lo as int]));
                assert(s.update(i as int, s[j as int]).update(j as int, s[i as int]) =~= s.update(
                    lo as int,
                    s[hi as int],
                ).update(hi as int, s[lo as int]));
            }
        }
    }
}

/// Exchanging the same two items twice leaves a sequence unchanged.
pub proof fn swap_twice_restores<A>(s: Seq<A>, i: int, j: int)
    requires
        0 <= i < s.len(),
        0 <= j < s.len(),
    ensures
        ({
            let t = s.update(i, s[j]).update(j, s[i]);
            t.update(i, t[j]).update(j, t[i]) == s
        }),
{
    let t = s.update(i, s[j]).update(j, s[i]);
    assert(t.update(i, t[j]).update(j, t[i]) =~= s);
}

/// After a push, the pushed item is the newest one, and the storage holds
/// no more items than its capacity.
pub proof fn push_then_last<A>(s: Seq<A>, max: nat, item: A)
    requires
        s.len() <= max,
        max > 0,
    ensures
        pushed(s, max, item).len() <= max,
        pushed(s, max, item).last() == item,
        pushed(s, max, item).len() == (if s.len() == max { s.len() } else { s.len() + 1 }),
{
}

} // verus!
