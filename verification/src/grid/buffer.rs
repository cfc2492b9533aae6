//! A grid of rows kept in bounded storage: once the storage is full, pushing
//! a row drops the oldest one.
use vstd::prelude::*;

use crate::grid::storage::{pushed, Storage, Swappable};

verus! {

/// Rows of a grid of `width` by `height` cells, with scrollback limited by
/// the capacity of the storage.
pub struct Grid<T> {
    pub storage: Storage<T>,
    width: usize,
    height: usize,
}

impl<T> Grid<T> {
    /// The rows, oldest first.
    pub closed spec fn rows(&self) -> Seq<T> {
        self.storage@
    }

    /// The grid keeps no more rows than its capacity.
    pub open spec fn wf(&self) -> bool {
        self.rows().len() <= self.capacity()
    }

    /// The number of rows the grid keeps.
    pub closed spec fn capacity(&self) -> nat {
        self.storage.capacity()
    }

    /// The width the grid was made with.
    pub closed spec fn width(&self) -> nat {
        self.width as nat
    }

    /// The height the grid was made with.
    pub closed spec fn height(&self) -> nat {
        self.height as nat
    }

    pub fn new(width: usize, height: usize, max_scrollback: usize) -> (g: Grid<T>)
        ensures
            g.wf(),
            g.rows() == Seq::<T>::empty(),
            g.capacity() == max_scrollback,
            g.width() == width,
            g.height() == height,
    {
        Grid { storage: Storage::new(max_scrollback), width, height }
    }

    /// Appends a row, dropping the oldest row when the storage is full.
    pub fn push_row(&mut self, row: T)
        requires
            old(self).wf(),
            old(self).capacity() > 0,
        ensures
            final(self).wf(),
            final(self).capacity() == old(self).capacity(),
            final(self).rows() == pushed(old(self).rows(), old(self).capacity(), row),
            final(self).width() == old(self).width(),
            final(self).height() == old(self).height(),
    {
        self.storage.push(row);
    }

    pub fn get_row(&self, index: usize) -> (r: Option<&T>)
        ensures
            index < self.rows().len() ==> r == Some(&self.rows()[index as int]),
            index >= self.rows().len() ==> r.is_none(),
    {
        self.storage.get(index)
    }

    pub fn get_row_mut(&mut self, index: usize) -> (r: Option<&mut T>)
        ensures
            index < old(self).rows().len() ==> r.is_some() && *r.unwrap() == old(self).rows()[index as int]
                && final(self).rows() == old(self).rows().update(index as int, *final(r.unwrap())),
            index >= old(self).rows().len() ==> r.is_none() && final(self).rows() == old(self).rows(),
            final(self).capacity() == old(self).capacity(),
            final(self).width() == old(self).width(),
            final(self).height() == old(self).height(),
    {
        self.storage.get_mut(index)
    }

    /// Removes every row.
    pub fn clear(&mut self)
        ensures
            final(self).rows() == Seq::<T>::empty(),
            final(self).wf(),
            final(self).capacity() == old(self).capacity(),
            final(self).width() == old(self).width(),
            final(self).height() == old(self).height(),
    {
        self.storage.clear();
    }
}

impl<T: Swappable> Grid<T> {
    /// Exchanges rows `i` and `j`; does nothing when either is out of bounds.
    pub fn swap_rows(&mut self, i: usize, j: usize)
        requires
            old(self).wf(),
        ensures
            final(self).wf(),
            final(self).capacity() == old(self).capacity(),
            i < old(self).rows().len() && j < old(self).rows().len() && i != j
                ==> final(self).rows() == old(self).rows().update(
                i as int,
                old(self).rows()[j as int],
            ).update(j as int, old(self).rows()[i as int]),
            !(i < old(self).rows().len() && j < old(self).rows().len() && i != j)
                ==> final(self).rows() == old(self).rows(),
            final(self).width() == old(self).width(),
            final(self).height() == old(self).height(),
    {
        self.storage.swap(i, j);
    }
}

} // verus!
