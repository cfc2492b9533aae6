//! Line and Column newtypes for strongly typed tty/grid/terminal APIs.
use std::cmp::Ordering;
use std::ops::Range;

use vstd::prelude::*;
use vstd::std_specs::cmp::PartialOrdSpecImpl;

verus! {

/// The side of a cell.
#[derive(Debug, Copy, Clone, PartialEq, Eq, Structural)]
pub enum Side {
    Left,
    Right,
}

/// A line.
///
/// Newtype to avoid passing values incorrectly.
#[derive(Debug, Copy, Clone, PartialEq, Eq, Structural, Default, PartialOrd, Ord, Hash)]
pub struct Line(pub usize);

/// A line counted from the oldest line of the scrollback buffer.
///
/// Newtype to avoid passing values incorrectly.
#[derive(Debug, Copy, Clone, PartialEq, Eq, Structural, Default, PartialOrd, Ord, Hash)]
pub struct AbsoluteLine(pub usize);

/// A column.
///
/// Newtype to avoid passing values incorrectly.
#[derive(Debug, Copy, Clone, PartialEq, Eq, Structural, Default, PartialOrd, Ord, Hash)]
pub struct Column(pub usize);

/// A linear index.
///
/// Newtype to avoid passing values incorrectly.
#[derive(Debug, Copy, Clone, PartialEq, Eq, Structural, Default, PartialOrd, Ord, Hash)]
pub struct Linear(pub usize);

impl Line {
    /// The same index, counted from the top of the scrollback buffer.
    pub fn to_absolute(self) -> (r: AbsoluteLine)
        ensures
            r.0 == self.0,
    {
        AbsoluteLine(self.0)
    }
}

impl AbsoluteLine {
    /// The same index, read as a line relative to a region.
    pub fn to_relative(self) -> (r: Line)
        ensures
            r.0 == self.0,
    {
        Line(self.0)
    }
}

/// Index in the grid using row, column notation.
#[derive(Debug, Clone, Copy, Default, PartialEq, Eq, Structural, Ord)]
pub struct Point {
    pub line: Line,
    pub col: Column,
}

impl Point {
    pub fn new(line: Line, col: Column) -> (p: Point)
        ensures
            p.line == line,
            p.col == col,
    {
        Point { line: line, col: col }
    }
}

/// Points are ordered by line first, and by column within a line.
pub open spec fn point_order(a: Point, b: Point) -> Ordering {
    if a.line.0 < b.line.0 {
        Ordering::Less
    } else if a.line.0 > b.line.0 {
        Ordering::Greater
    } else if a.col.0 < b.col.0 {
        Ordering::Less
    } else if a.col.0 > b.col.0 {
        Ordering::Greater
    } else {
        Ordering::Equal
    }
}

impl PartialOrd for Point {
    fn partial_cmp(&self, other: &Point) -> (r: Option<Ordering>) {
        if self.line.0 < other.line.0 {
            Some(Ordering::Less)
        } else if self.line.0 > other.line.0 {
            Some(Ordering::Greater)
        } else if self.col.0 < other.col.0 {
            Some(Ordering::Less)
        } else if self.col.0 > other.col.0 {
            Some(Ordering::Greater)
        } else {
            Some(Ordering::Equal)
        }
    }
}

impl PartialOrdSpecImpl for Point {
    open spec fn obeys_partial_cmp_spec() -> bool {
        true
    }

    open spec fn partial_cmp_spec(&self, other: &Point) -> Option<Ordering> {
        Some(point_order(*self, *other))
    }
}

/// Index types whose successor and distance are computed on the wrapped `usize`.
pub trait IndexValue: Copy + Sized {
    spec fn value(&self) -> usize;

    fn get(&self) -> (v: usize)
        ensures
            v == self.value(),
    ;

    fn from_value(v: usize) -> (r: Self)
        ensures
            r.value() == v,
    ;
}

impl IndexValue for Line {
    open spec fn value(&self) -> usize {
        self.0
    }

    fn get(&self) -> (v: usize) {
        self.0
    }

    fn from_value(v: usize) -> (r: Self) {
        Line(v)
    }
}

impl IndexValue for AbsoluteLine {
    open spec fn value(&self) -> usize {
        self.0
    }

    fn get(&self) -> (v: usize) {
        self.0
    }

    fn from_value(v: usize) -> (r: Self) {
        AbsoluteLine(v)
    }
}

impl IndexValue for Column {
    open spec fn value(&self) -> usize {
        self.0
    }

    fn get(&self) -> (v: usize) {
        self.0
    }

    fn from_value(v: usize) -> (r: Self) {
        Column(v)
    }
}

impl IndexValue for Linear {
    open spec fn value(&self) -> usize {
        self.0
    }

    fn get(&self) -> (v: usize) {
        self.0
    }

    fn from_value(v: usize) -> (r: Self) {
        Linear(v)
    }
}

/// Number of steps of size `by` needed to go from `start` to `end`;
/// `None` when the step is zero.
pub fn steps_between<T: IndexValue>(start: &T, end: &T, by: &T) -> (r: Option<usize>)
    ensures
        by.value() == 0 ==> r.is_none(),
        by.value() != 0 && start.value() < end.value() ==> r == Some(
            (((end.value() - start.value()) + by.value() - 1) / (by.value() as int)) as usize,
        ),
        by.value() != 0 && start.value() >= end.value() ==> r == Some(0usize),
{
    let by_v = by.get();
    if by_v == 0 {
        return None;
    }
    let s = start.get();
    let e = end.get();
    if s < e {
        let diff = e - s;
        let q = diff / by_v;
        let rem = diff % by_v;
        proof {
            assert(diff == by_v * q + rem) by (nonlinear_arith)
                requires
                    q == diff / by_v,
                    rem == diff % by_v,
                    by_v > 0,
            ;
            assert(0 <= rem < by_v) by (nonlinear_arith)
                requires
                    rem == diff % by_v,
                    by_v > 0,
            ;
            let ghost d = diff as int;
            let ghost b = by_v as int;
            if rem > 0 {
                assert(q < diff) by (nonlinear_arith)
                    requires
                        diff == by_v * q + rem,
                        0 < rem < by_v,
                ;
                assert((d + b - 1) / b == q + 1) by (nonlinear_arith)
                    requires
                        d == b * q + rem,
                        0 < rem < b,
                ;
            } else {
                assert((d + b - 1) / b == q) by (nonlinear_arith)
                    requires
                        d == b * q,
                        b > 0,
                ;
            }
            assert(q < diff || q == diff) by (nonlinear_arith)
                requires
                    q == diff / by_v,
                    by_v > 0,
            ;
        }
        if rem > 0 {
            Some(q + 1)
        } else {
            Some(q)
        }
    } else {
        Some(0)
    }
}

/// Number of unit steps from `start` to `end`.
pub fn steps_between_by_one<T: IndexValue>(start: &T, end: &T) -> (r: Option<usize>)
    ensures
        start.value() < end.value() ==> r == Some((end.value() - start.value()) as usize),
        start.value() >= end.value() ==> r == Some(0usize),
{
    let one = T::from_value(1);
    let r = steps_between(start, end, &one);
    proof {
        if start.value() < end.value() {
            let d = (end.value() - start.value()) as nat;
            assert((d + 1 - 1) / 1 == d);
        }
    }
    r
}

/// Iteration over a half-open range of index values.
pub struct IndexRange<T>(pub Range<T>);

impl<T> IndexRange<T> {
    pub fn from_range(from: Range<T>) -> (r: IndexRange<T>)
        ensures
            r.0 == from,
    {
        IndexRange(from)
    }
}

impl<T: IndexValue> IndexRange<T> {
    /// Yield the start of the range and move the start one step forward.
    pub fn next(&mut self) -> (r: Option<T>)
        ensures
            old(self).0.start.value() < old(self).0.end.value() ==> {
                &&& r == Some(old(self).0.start)
                &&& final(self).0.start.value() == old(self).0.start.value() + 1
                &&& final(self).0.end == old(self).0.end
            },
            old(self).0.start.value() >= old(self).0.end.value() ==> {
                &&& r.is_none()
                &&& *final(self) == *old(self)
            },
    {
        let s = self.0.start.get();
        let e = self.0.end.get();
        if s < e {
            let old = self.0.start;
            self.0.start = T::from_value(s + 1);
            Some(old)
        } else {
            None
        }
    }

    /// Move the end one step back and yield it.
    pub fn next_back(&mut self) -> (r: Option<T>)
        ensures
            old(self).0.start.value() < old(self).0.end.value() ==> {
                &&& r.is_some()
                &&& r.unwrap().value() == old(self).0.end.value() - 1
                &&& final(self).0.end.value() == old(self).0.end.value() - 1
                &&& final(self).0.start == old(self).0.start
            },
            old(self).0.start.value() >= old(self).0.end.value() ==> {
                &&& r.is_none()
                &&& *final(self) == *old(self)
            },
    {
        let s = self.0.start.get();
        let e = self.0.end.get();
        if s < e {
            let new = T::from_value(e - 1);
            self.0.end = new;
            Some(new)
        } else {
            None
        }
    }

    /// The exact number of values left in the range.
    pub fn size_hint(&self) -> (r: (usize, Option<usize>))
        ensures
            self.0.start.value() < self.0.end.value() ==> r == (
                (self.0.end.value() - self.0.start.value()) as usize,
                Some((self.0.end.value() - self.0.start.value()) as usize),
            ),
            self.0.start.value() >= self.0.end.value() ==> r == (0usize, Some(0usize)),
    {
        match steps_between_by_one(&self.0.start, &self.0.end) {
            Some(hint) => (hint, Some(hint)),
            None => (0, None),
        }
    }
}

/// An inclusive range that knows when it has been exhausted.
#[derive(Debug, Clone, Copy, PartialEq, Eq, Structural)]
pub enum RangeInclusive<Idx> {
    Empty { at: Idx },
    NonEmpty { start: Idx, end: Idx },
}

impl<Idx> RangeInclusive<Idx> {
    pub fn new(from: Idx, to: Idx) -> (r: Self)
        ensures
            r == (RangeInclusive::NonEmpty { start: from, end: to }),
    {
        RangeInclusive::NonEmpty { start: from, end: to }
    }
}

/// Steps from `start` to `end` for `u8` ranges; `None` unless `start < end`.
pub fn steps_add_one_u8(start: &u8, end: &u8) -> (r: Option<usize>)
    ensures
        *start < *end ==> r == Some((*end - *start) as usize),
        *start >= *end ==> r.is_none(),
{
    if *start < *end {
        Some((*end - *start) as usize)
    } else {
        None
    }
}

impl RangeInclusive<u8> {
    /// Yield the next value, or turn into `Empty` once `start` has passed `end`.
    pub fn next(&mut self) -> (r: Option<u8>)
        requires
            match *old(self) {
                RangeInclusive::NonEmpty { start, end } => start <= end ==> start < u8::MAX,
                RangeInclusive::Empty { .. } => true,
            },
        ensures
            match *old(self) {
                RangeInclusive::Empty { .. } => r.is_none() && *final(self) == *old(self),
                RangeInclusive::NonEmpty { start, end } => if start <= end {
                    &&& r == Some(start)
                    &&& *final(self) == (RangeInclusive::NonEmpty { start: (start + 1) as u8, end })
                } else {
                    &&& r.is_none()
                    &&& *final(self) == (RangeInclusive::<u8>::Empty { at: end })
                },
            },
    {
        match *self {
            RangeInclusive::Empty { .. } => None,
            RangeInclusive::NonEmpty { start, end } => {
                if start <= end {
                    *self = RangeInclusive::NonEmpty { start: start + 1, end };
                    Some(start)
                } else {
                    *self = RangeInclusive::Empty { at: end };
                    None
                }
            },
        }
    }

    /// Lower and upper bound on the number of values left.
    pub fn size_hint(&self) -> (r: (usize, Option<usize>))
        ensures
            match *self {
                RangeInclusive::Empty { .. } => r == (0usize, Some(0usize)),
                RangeInclusive::NonEmpty { start, end } => if start < end {
                    r == ((end - start + 1) as usize, Some((end - start + 1) as usize))
                } else {
                    r == (0usize, None::<usize>)
                },
            },
    {
        match *self {
            RangeInclusive::Empty { .. } => (0, Some(0)),
            RangeInclusive::NonEmpty { start, end } => {
                let added = steps_add_one_u8(&start, &end);
                match added {
                    Some(hint) => (hint.saturating_add(1), hint.checked_add(1)),
                    None => (0, None),
                }
            },
        }
    }
}

impl<T: IndexValue> RangeInclusive<T> {
    /// Yield the next value, or turn into `Empty` once `start` has passed `end`.
    pub fn next_index(&mut self) -> (r: Option<T>)
        requires
            match *old(self) {
                RangeInclusive::NonEmpty { start, end } => start.value() <= end.value()
                    ==> start.value() < usize::MAX,
                RangeInclusive::Empty { .. } => true,
            },
        ensures
            match *old(self) {
                RangeInclusive::Empty { .. } => r.is_none() && *final(self) == *old(self),
                RangeInclusive::NonEmpty { start, end } => if start.value() <= end.value() {
                    &&& r == Some(start)
                    &&& (match *final(self) {
                        RangeInclusive::NonEmpty { start: s2, end: e2 } => s2.value()
                            == start.value() + 1 && e2 == end,
                        RangeInclusive::Empty { .. } => false,
                    })
                } else {
                    &&& r.is_none()
                    &&& *final(self) == (RangeInclusive::<T>::Empty { at: end })
                },
            },
    {
        match *self {
            RangeInclusive::Empty { .. } => None,
            RangeInclusive::NonEmpty { start, end } => {
                let s = start.get();
                if s <= end.get() {
                    *self = RangeInclusive::NonEmpty { start: T::from_value(s + 1), end };
                    Some(start)
                } else {
                    *self = RangeInclusive::Empty { at: end };
                    None
                }
            },
        }
    }

    /// Lower and upper bound on the number of values left.
    pub fn index_size_hint(&self) -> (r: (usize, Option<usize>))
        ensures
            r == index_size_hint_spec(*self),
    {
        match self {
            RangeInclusive::Empty { .. } => (0, Some(0)),
            RangeInclusive::NonEmpty { start, end } => {
                let added = steps_between_by_one(start, end);
                match added {
                    Some(hint) => (hint.saturating_add(1), hint.checked_add(1)),
                    None => (0, None),
                }
            },
        }
    }
}

/// The bounds reported for the values left in an inclusive index range.
pub open spec fn index_size_hint_spec<T: IndexValue>(r: RangeInclusive<T>) -> (usize, Option<usize>) {
    match r {
        RangeInclusive::Empty { .. } => (0usize, Some(0usize)),
        RangeInclusive::NonEmpty { start, end } => {
            let d: int = if start.value() < end.value() { end.value() - start.value() } else { 0 };
            if d + 1 > usize::MAX {
                (usize::MAX, None)
            } else {
                ((d + 1) as usize, Some((d + 1) as usize))
            }
        },
    }
}

/// Membership test for ranges.
pub trait Contains {
    type Content;

    spec fn spec_contains(&self, item: Self::Content) -> bool;

    fn contains_(&self, item: Self::Content) -> (r: bool)
        ensures
            r == self.spec_contains(item),
    ;
}

impl Contains for Range<i64> {
    type Content = i64;

    open spec fn spec_contains(&self, item: i64) -> bool {
        self.start <= item && item < self.end
    }

    fn contains_(&self, item: i64) -> (r: bool) {
        (self.start <= item) && (item < self.end)
    }
}

impl Contains for RangeInclusive<i64> {
    type Content = i64;

    open spec fn spec_contains(&self, item: i64) -> bool {
        match *self {
            RangeInclusive::NonEmpty { start, end } => start <= item && item <= end,
            RangeInclusive::Empty { .. } => false,
        }
    }

    fn contains_(&self, item: i64) -> (r: bool) {
        if let RangeInclusive::NonEmpty { start, end } = *self {
            (start <= item) && (item <= end)
        } else {
            false
        }
    }
}

} // verus!
