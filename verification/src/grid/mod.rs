//! A generic 2d grid implementation optimized for use in a terminal.
//!
//! The grid keeps a buffer of rows. The last `num_lines()` rows form the
//! active region, which applications modify; the rows before it are the
//! scrollback history. Independently of that, a window of `num_lines()` rows
//! is the visible region shown to the user.
use std::collections::VecDeque;
use std::ops::{Index, Range};

use vstd::prelude::*;

use crate::index::{AbsoluteLine, Column, Line, Point, RangeInclusive, Linear};
use crate::util::{apply_at, deque_index_mut, deque_swap};
use vstd::arithmetic::div_mod::{
    lemma_fundamental_div_mod, lemma_mod_add_multiples_vanish, lemma_mod_multiples_vanish,
    lemma_small_mod,
};

pub mod buffer;
pub mod storage;

verus! {

/// Convert a type to a linear index range.
pub trait ToRange {
    fn to_range(&self) -> RangeInclusive<Linear>;
}

/// A value together with the cell it was found at.
pub struct Indexed<T> {
    pub line: Line,
    pub column: Column,
    pub inner: T,
}

/// Why the visible region could not be moved.
#[derive(Debug, Clone, Copy, PartialEq, Eq, Structural)]
pub enum MoveRegionError {
    AtTop,
    AtBottom,
}

/// Represents a vertical movement within some abstract space
/// ie: the contents of the terminal window inside the scroll pane.
#[derive(Copy, Clone, Debug, PartialEq, Eq, Structural)]
pub enum Movement<T: Copy> {
    Up(T),
    Down(T),
    Unmoved,
}

/// The scrollback system used for the grid: either no scrollback, or
/// scrollback with a capped number of lines.
#[derive(Copy, Clone, Debug, PartialEq, Eq, Structural)]
pub enum Scrollback {
    Disabled,
    MaxLines(AbsoluteLine),
}

/// Internal record of the scrollback configuration.
#[derive(Copy, Clone, Debug, PartialEq, Eq, Structural)]
struct ScrollbackState {
    // Whether scrollback is enabled at all.
    enabled: bool,
    // Maximum number of lines in the total buffer. Once this limit is
    // reached, the oldest rows are reused for new lines.
    max_lines: AbsoluteLine,
}

/// The scrollback of a grid whose description leaves it out: enabled, with
/// 10000 lines.
fn default_scrollback_state() -> (s: ScrollbackState)
    ensures
        s.enabled,
        s.max_lines.0 == 10000,
{
    ScrollbackState { enabled: true, max_lines: AbsoluteLine(10000) }
}

/// A row in the grid.
#[derive(Clone, Debug)]
pub struct Row<T>(Vec<T>);

impl<T> View for Row<T> {
    type V = Seq<T>;

    closed spec fn view(&self) -> Seq<T> {
        self.0@
    }
}

impl<T: Clone> Row<T> {
    /// A row of `columns` cells, each a clone of `template`.
    pub fn new(columns: Column, template: &T) -> (r: Row<T>)
        ensures
            r@.len() == columns.0,
            forall|i: int| 0 <= i < columns.0 ==> cloned(*template, #[trigger] r@[i]),
    {
        let mut cells: Vec<T> = Vec::with_capacity(columns.0);
        while cells.len() < columns.0
            invariant
                cells@.len() <= columns.0,
                forall|i: int| 0 <= i < cells@.len() ==> cloned(*template, #[trigger] cells@[i]),
            decreases columns.0 - cells@.len(),
        {
            cells.push(template.clone());
        }
        Row(cells)
    }

    /// Append clones of `template` until the row has `cols` cells.
    pub fn grow(&mut self, cols: Column, template: &T)
        requires
            old(self)@.len() <= cols.0,
        ensures
            final(self)@.len() == cols.0,
            final(self)@.subrange(0, old(self)@.len() as int) == old(self)@,
            forall|i: int|
                old(self)@.len() <= i < cols.0 ==> cloned(*template, #[trigger] final(self)@[i]),
    {
        let ghost start = self.0@;
        while self.0.len() != cols.0
            invariant
                start.len() <= self.0@.len() <= cols.0,
                self.0@.subrange(0, start.len() as int) == start,
                forall|i: int|
                    start.len() <= i < self.0@.len() ==> cloned(*template, #[trigger] self.0@[i]),
            decreases cols.0 - self.0@.len(),
        {
            self.0.push(template.clone());
        }
    }
}

impl<T: Copy> Row<T> {
    /// Resets every cell to `other`.
    pub fn reset(&mut self, other: &T)
        ensures
            final(self)@.len() == old(self)@.len(),
            forall|i: int| 0 <= i < final(self)@.len() ==> #[trigger] final(self)@[i] == *other,
    {
        let mut i: usize = 0;
        while i < self.0.len()
            invariant
                i <= self.0@.len(),
                self.0@.len() == old(self)@.len(),
                forall|k: int| 0 <= k < i ==> #[trigger] self.0@[k] == *other,
            decreases self.0@.len() - i,
        {
            self.0.set(i, *other);
            i += 1;
        }
    }
}

impl<T> Row<T> {
    /// Applies `func` to the cells from column `i` on.
    fn clear_cells_from<F: Fn(&mut T)>(&mut self, func: &F, i: usize)
        requires
            i <= old(self)@.len(),
            forall|x: &mut T| func.requires((x,)),
        ensures
            final(self)@.len() == old(self)@.len(),
            forall|k: int| 0 <= k < i ==> final(self)@[k] == old(self)@[k],
            forall|k: int|
                i <= k < old(self)@.len() ==> exists|x: &mut T|
                    call_ensures(*func, (x,), ()) && *x == #[trigger] old(self)@[k] && *final(x)
                        == final(self)@[k],
        decreases old(self)@.len() - i,
    {
        if i < self.0.len() {
            let ghost v0 = self@;
            apply_at(&mut self.0, func, i);
            let ghost v1 = self@;
            assert(exists|x: &mut T|
                call_ensures(*func, (x,), ()) && *x == v0[i as int] && *final(x) == v1[i as int]);
            self.clear_cells_from(func, i + 1);
            assert(self@[i as int] == v1[i as int]);
            assert(forall|k: int| i < k < v0.len() ==> v1[k] == v0[k]);
        }
    }

    /// Applies `func` to every cell of the row: each cell becomes what one
    /// call of `func` on it leaves there.
    pub fn clear_cells<F: Fn(&mut T)>(&mut self, func: &F)
        requires
            forall|x: &mut T| func.requires((x,)),
        ensures
            final(self)@.len() == old(self)@.len(),
            forall|k: int|
                0 <= k < old(self)@.len() ==> exists|x: &mut T|
                    call_ensures(*func, (x,), ()) && *x == #[trigger] old(self)@[k] && *final(x)
                        == final(self)@[k],
    {
        if self.0.len() > 0 {
            let ghost v0 = self@;
            apply_at(&mut self.0, func, 0);
            let ghost v1 = self@;
            assert(exists|x: &mut T|
                call_ensures(*func, (x,), ()) && *x == v0[0] && *final(x) == v1[0]);
            self.clear_cells_from(func, 1);
            assert(self@[0] == v1[0]);
            assert(forall|k: int| 0 < k < v0.len() ==> v1[k] == v0[k]);
        }
    }
}

impl<T> Row<T> {
    /// Drop cells from the end until the row has `cols` cells.
    pub fn shrink(&mut self, cols: Column)
        requires
            cols.0 <= old(self)@.len(),
        ensures
            final(self)@ == old(self)@.subrange(0, cols.0 as int),
    {
        while self.0.len() != cols.0
            invariant
                cols.0 <= self.0@.len() <= old(self)@.len(),
                self.0@ == old(self)@.subrange(0, self.0@.len() as int),
            decreases self.0@.len(),
        {
            self.0.pop();
        }
    }

    /// The cells of the row.
    pub fn cells(&self) -> (r: &[T])
        ensures
            r@ == self@,
    {
        self.0.as_slice()
    }

    /// The cells of the row, to change in place.
    pub fn cells_mut(&mut self) -> (r: &mut [T])
        ensures
            r@ == old(self)@,
            final(r)@ == final(self)@,
    {
        self.0.as_mut_slice()
    }

    /// Number of cells in the row.
    pub fn len(&self) -> (r: usize)
        ensures
            r == self@.len(),
    {
        self.0.len()
    }

    /// The cell in column `col`.
    pub fn cell(&self, col: Column) -> (r: &T)
        requires
            col.0 < self@.len(),
        ensures
            *r == self@[col.0 as int],
    {
        &self.0[col.0]
    }

    /// Replace the cell in column `col`.
    pub fn set_cell(&mut self, col: Column, value: T)
        requires
            col.0 < old(self)@.len(),
        ensures
            final(self)@ == old(self)@.update(col.0 as int, value),
    {
        self.0.set(col.0, value);
    }
}

/// Represents the terminal display contents.
///
/// The grid itself has no knowledge of what the current scroll position is.
/// Instead, it handles changes to the active region of the buffer, which is
/// always the last `num_lines()` rows.
#[derive(Clone, Debug)]
pub struct Grid<T> {
    /// Rows of the buffer, oldest first.
    raw: VecDeque<Row<T>>,
    /// Number of columns.
    cols: Column,
    /// Number of lines in the active and in the visible region.
    lines: Line,
    /// The index of the first visible row.
    visible_region_start: AbsoluteLine,
    /// Scrollback configuration.
    scrollback: ScrollbackState,
}

/// The rows `s`, with rows `a` and `b` exchanged.
pub open spec fn seq_swap<A>(s: Seq<A>, a: int, b: int) -> Seq<A> {
    s.update(a, s[b]).update(b, s[a])
}

/// The result of moving every element of `[start, end)` up by `p` places
/// through successive exchanges of the elements `p` apart: the first
/// `end - start - p` places receive the elements `p` further down, and the
/// last `p` places receive the first `p` elements taken in the order in which
/// the exchanges carried them along.
pub open spec fn scroll_up_seq<A>(s: Seq<A>, start: int, end: int, p: int) -> Seq<A> {
    Seq::new(
        s.len(),
        |j: int|
            if start <= j < end - p {
                s[j + p]
            } else if p > 0 && start <= j && end - p <= j < end {
                s[start + (j - start) % p]
            } else {
                s[j]
            },
    )
}

/// The mirror image of `scroll_up_seq`: the last `end - start - p` places of
/// `[start, end)` receive the elements `p` further up, and the first `p`
/// places receive the last `p` elements.
pub open spec fn scroll_down_seq<A>(s: Seq<A>, start: int, end: int, p: int) -> Seq<A> {
    Seq::new(
        s.len(),
        |j: int|
            if start + p <= j < end {
                s[j - p]
            } else if p > 0 && start <= j < start + p && j < end {
                s[end - 1 - (end - 1 - j) % p]
            } else {
                s[j]
            },
    )
}

/// `scroll_up_seq` after the exchanges for the places `[start, line)` are done.
pub open spec fn scroll_up_partial<A>(s: Seq<A>, start: int, line: int, p: int) -> Seq<A> {
    Seq::new(
        s.len(),
        |j: int|
            if start <= j < line {
                s[j + p]
            } else if line <= j < line + p {
                s[start + (j - start) % p]
            } else {
                s[j]
            },
    )
}

/// `scroll_down_seq` after the exchanges for the places `[line, end)` are done.
pub open spec fn scroll_down_partial<A>(s: Seq<A>, end: int, line: int, p: int) -> Seq<A> {
    Seq::new(
        s.len(),
        |j: int|
            if line <= j < end {
                s[j - p]
            } else if line - p <= j < line {
                s[end - 1 - (end - 1 - j) % p]
            } else {
                s[j]
            },
    )
}

proof fn lemma_mod_shift(x: int, p: int)
    requires
        0 <= x,
        0 < p,
    ensures
        (x + p) % p == x % p,
        x < p ==> x % p == x,
{
    lemma_mod_add_multiples_vanish(x, p);
    if x < p {
        lemma_small_mod(x as nat, p as nat);
    }
}

/// Scrolling a region down by `p` lines undoes scrolling it up by `p` lines:
/// whatever the region and the amount, the rows come back in their order.
pub proof fn scroll_down_undoes_scroll_up<A>(s: Seq<A>, start: int, end: int, p: nat)
    requires
        0 <= start <= end <= s.len(),
    ensures
        scroll_down_seq(scroll_up_seq(s, start, end, p as int), start, end, p as int) == s,
{
    let p = p as int;
    let up = scroll_up_seq(s, start, end, p);
    let down = scroll_down_seq(up, start, end, p);
    assert forall|j: int| 0 <= j < s.len() implies #[trigger] down[j] == s[j] by {
        if start + p <= j < end {
        } else if p > 0 && start <= j < start + p && j < end {
            let k = end - 1 - (end - 1 - j) % p;
            let q = end - 1 - j;
            lemma_fundamental_div_mod(q, p);
            lemma_mod_shift(q, p);
            assert(0 <= q % p < p) by {
                vstd::arithmetic::div_mod::lemma_mod_pos_bound(q, p);
            }
            if start + p <= end {
                assert(k - start == p * (q / p) + (j - start));
                lemma_mod_multiples_vanish(q / p, j - start, p);
                lemma_mod_shift(j - start, p);
                assert(up[k] == s[start + (k - start) % p]);
            } else {
                lemma_mod_shift(q, p);
                assert(q < p);
                assert(k == j);
                lemma_mod_shift(j - start, p);
            }
        }
    }
    assert(down =~= s);
}

/// Scrolling a region up by `p` lines undoes scrolling it down by `p` lines.
pub proof fn scroll_up_undoes_scroll_down<A>(s: Seq<A>, start: int, end: int, p: nat)
    requires
        0 <= start <= end <= s.len(),
    ensures
        scroll_up_seq(scroll_down_seq(s, start, end, p as int), start, end, p as int) == s,
{
    let p = p as int;
    let down = scroll_down_seq(s, start, end, p);
    let up = scroll_up_seq(down, start, end, p);
    assert forall|j: int| 0 <= j < s.len() implies #[trigger] up[j] == s[j] by {
        if start <= j < end - p {
        } else if p > 0 && start <= j && end - p <= j < end {
            let x = j - start;
            let k = start + x % p;
            lemma_fundamental_div_mod(x, p);
            assert(0 <= x % p < p) by {
                vstd::arithmetic::div_mod::lemma_mod_pos_bound(x, p);
            }
            if start + p <= end {
                let q = end - 1 - k;
                // end - 1 - j is the distance of j from the bottom, below p
                assert(end - 1 - j < p);
                assert(q == (end - 1 - j) + p * (x / p));
                lemma_mod_multiples_vanish(x / p, end - 1 - j, p);
                lemma_mod_shift(end - 1 - j, p);
                assert(down[k] == s[end - 1 - q % p]);
            } else {
                lemma_mod_shift(x, p);
                assert(k == j);
                lemma_mod_shift(end - 1 - j, p);
            }
        }
    }
    assert(up =~= s);
}

impl<T> Grid<T> {
    /// The buffer's invariant: the active and the visible region lie inside
    /// the buffer and every row has `num_cols()` cells.
    pub closed spec fn wf(&self) -> bool {
        &&& self.raw@.len() <= usize::MAX
        &&& self.lines.0 <= self.raw@.len()
        &&& self.visible_region_start.0 + self.lines.0 <= self.raw@.len()
        &&& forall|i: int| 0 <= i < self.raw@.len() ==> (#[trigger] self.raw@[i])@.len() == self.cols.0
    }

    /// The cells of the buffer, row by row, oldest row first.
    pub closed spec fn rows(&self) -> Seq<Seq<T>> {
        self.raw@.map_values(|r: Row<T>| r@)
    }

    /// Number of rows in the buffer.
    pub closed spec fn total(&self) -> nat {
        self.raw@.len()
    }

    /// Height of the active and of the visible region.
    pub closed spec fn height(&self) -> nat {
        self.lines.0 as nat
    }

    /// Number of cells per row.
    pub closed spec fn width(&self) -> nat {
        self.cols.0 as nat
    }

    /// Index of the first visible row.
    pub closed spec fn visible_start(&self) -> nat {
        self.visible_region_start.0 as nat
    }

    /// Whether scrollback is enabled.
    pub closed spec fn scrollback_enabled(&self) -> bool {
        self.scrollback.enabled
    }

    /// Number of rows the buffer may hold before old rows are reused.
    pub closed spec fn max_lines(&self) -> nat {
        self.scrollback.max_lines.0 as nat
    }

    /// Index of the first row of the active region.
    pub open spec fn active_start(&self) -> int {
        self.total() - self.height()
    }

    /// The configuration is unchanged between two states.
    pub open spec fn same_config(&self, other: &Self) -> bool {
        &&& self.scrollback_enabled() == other.scrollback_enabled()
        &&& self.max_lines() == other.max_lines()
    }

    /// The shape of a well-formed buffer: `total()` rows of `width()` cells
    /// each, at least `height()` of them, with the visible region of
    /// `height()` rows inside the buffer.
    pub proof fn lemma_shape(&self)
        requires
            self.wf(),
        ensures
            self.rows().len() == self.total(),
            forall|i: int| 0 <= i < self.total() ==> (#[trigger] self.rows()[i]).len() == self.width(),
            self.height() <= self.total(),
            self.visible_start() + self.height() <= self.total(),
            self.active_start() >= 0,
            self.total() <= usize::MAX,
    {
    }

    proof fn lemma_rows(&self)
        ensures
            self.rows().len() == self.raw@.len(),
            forall|i: int| 0 <= i < self.raw@.len() ==> #[trigger] self.rows()[i] == self.raw@[i]@,
    {
    }
}

impl<T: Clone> Grid<T> {
    /// A grid of `lines` rows of `cols` clones of `template`.
    pub fn new(lines: Line, cols: Column, scrollback: Scrollback, template: &T) -> (g: Grid<T>)
        ensures
            g.wf(),
            g.total() == lines.0,
            g.height() == lines.0,
            g.width() == cols.0,
            g.visible_start() == 0,
            forall|i: int, j: int|
                0 <= i < lines.0 && 0 <= j < cols.0 ==> cloned(*template, #[trigger] g.rows()[i][j]),
            match scrollback {
                Scrollback::Disabled => !g.scrollback_enabled() && g.max_lines() == lines.0,
                Scrollback::MaxLines(l) => g.scrollback_enabled() && g.max_lines() == l.0,
            },
    {
        let mut raw: VecDeque<Row<T>> = VecDeque::with_capacity(lines.0);
        let mut i: usize = 0;
        while i < lines.0
            invariant
                i <= lines.0,
                raw@.len() == i,
                forall|k: int| 0 <= k < i ==> (#[trigger] raw@[k])@.len() == cols.0,
                forall|k: int, j: int|
                    0 <= k < i && 0 <= j < cols.0 ==> cloned(*template, #[trigger] raw@[k]@[j]),
            decreases lines.0 - i,
        {
            raw.push_back(Row::new(cols, template));
            i += 1;
        }
        let scrollback_state = match scrollback {
            Scrollback::Disabled => ScrollbackState { enabled: false, max_lines: lines.to_absolute() },
            Scrollback::MaxLines(l) => ScrollbackState { enabled: true, max_lines: l },
        };
        let g = Grid {
            raw: raw,
            cols: cols,
            lines: lines,
            visible_region_start: AbsoluteLine(0),
            scrollback: scrollback_state,
        };
        proof {
            g.lemma_rows();
        }
        g
    }
}

/// `new_row` is `old_row` (which has `old_cols` cells) resized to `cols`
/// cells: cut at the end, or extended with clones of `template`.
pub open spec fn resized_row<T: Clone>(old_row: Seq<T>, new_row: Seq<T>, old_cols: nat, cols: nat, template: T) -> bool {
    &&& new_row.len() == cols
    &&& if cols >= old_cols {
        &&& new_row.subrange(0, old_cols as int) == old_row
        &&& forall|j: int| old_cols <= j < cols ==> cloned(template, #[trigger] new_row[j])
    } else {
        new_row == old_row.subrange(0, cols as int)
    }
}

/// Start of the visible region after it moved up by `shift` rows, stopping at the top.
pub open spec fn grown_visible_start(vs: nat, shift: nat) -> nat {
    if vs < shift {
        0
    } else {
        (vs - shift) as nat
    }
}

/// Start of the visible region of height `lines` after it moved down by
/// `shift` rows in a buffer of `total` rows, stopping at the bottom.
pub open spec fn shrunk_visible_start(vs: nat, lines: nat, shift: nat, total: nat) -> nat {
    if vs + lines == total {
        vs
    } else if vs + lines + shift >= total {
        (total - lines) as nat
    } else {
        vs + shift
    }
}

/// Shrinking the window keeps the bottom line of the visible region in
/// place: the region moves down by the lines removed, so its end stays
/// where it was, and a view at the bottom of the buffer stays there.
pub proof fn shrinking_keeps_visible_end(vs: nat, old_lines: nat, new_lines: nat, total: nat)
    requires
        new_lines < old_lines,
        vs + old_lines <= total,
    ensures
        shrunk_visible_start(vs, new_lines, (old_lines - new_lines) as nat, total) + new_lines == vs
            + old_lines,
        vs + old_lines == total ==> shrunk_visible_start(vs, new_lines, (old_lines - new_lines) as nat, total)
            == total - new_lines,
{
}

/// Growing the window keeps the bottom line of the visible region in place
/// while the region can move up by the lines added; at the top of the
/// buffer it stops there.
pub proof fn growing_keeps_visible_end(vs: nat, old_lines: nat, new_lines: nat)
    requires
        old_lines < new_lines,
    ensures
        new_lines - old_lines <= vs ==> grown_visible_start(vs, (new_lines - old_lines) as nat) + new_lines
            == vs + old_lines,
        vs < new_lines - old_lines ==> grown_visible_start(vs, (new_lines - old_lines) as nat) == 0,
{
}

impl<T: Clone> Grid<T> {
    /// Resizes the visible region to the given number of lines and columns.
    ///
    /// Growing keeps the contents of the bottom line of the screen in place;
    /// the returned movement says how far the active region moved.
    pub fn resize(&mut self, lines: Line, cols: Column, template: &T) -> (r: Movement<Line>)
        requires
            old(self).wf(),
        ensures
            op_effect(*old(self), GridOp::Resize(lines, cols), *final(self)),
            final(self).wf(),
            final(self).width() == cols.0,
            final(self).height() == lines.0,
            final(self).same_config(&*old(self)),
            final(self).total() == (if lines.0 > old(self).height() && old(self).total() < lines.0 {
                lines.0 as nat
            } else {
                old(self).total()
            }),
            forall|i: int|
                0 <= i < old(self).total() ==> resized_row(
                    old(self).rows()[i],
                    #[trigger] final(self).rows()[i],
                    old(self).width(),
                    cols.0 as nat,
                    *template,
                ),
            forall|i: int, j: int|
                old(self).total() <= i < final(self).total() && 0 <= j < cols.0 ==> cloned(
                    *template,
                    #[trigger] final(self).rows()[i][j],
                ),
            lines.0 > old(self).height() ==> final(self).visible_start() == grown_visible_start(
                old(self).visible_start(),
                (lines.0 - old(self).height()) as nat,
            ) && r == Movement::Up(
                Line((old(self).active_start() - final(self).active_start()) as usize),
            ),
            lines.0 < old(self).height() ==> final(self).visible_start() == shrunk_visible_start(
                old(self).visible_start(),
                lines.0 as nat,
                (old(self).height() - lines.0) as nat,
                old(self).total(),
            ) && r == Movement::Down(Line((old(self).height() - lines.0) as usize)),
            lines.0 == old(self).height() ==> final(self).visible_start() == old(self).visible_start()
                && r == Movement::<Line>::Unmoved,
            lines.0 < old(self).height() ==> final(self).visible_start() + final(self).height()
                == old(self).visible_start() + old(self).height(),
    {
        if self.cols.0 < cols.0 {
            self.grow_cols(cols, template);
        } else if self.cols.0 > cols.0 {
            self.shrink_cols(cols);
        }
        proof {
            assert forall|i: int| 0 <= i < old(self).total() implies resized_row(
                old(self).rows()[i],
                #[trigger] self.rows()[i],
                old(self).width(),
                cols.0 as nat,
                *template,
            ) by {
                if old(self).width() == cols.0 {
                    assert(old(self).rows()[i].subrange(0, cols.0 as int) =~= old(self).rows()[i]);
                }
            }
        }
        let ghost mid = self.rows();
        let r = if self.lines.0 < lines.0 {
            self.grow_lines(lines, template)
        } else if self.lines.0 > lines.0 {
            self.shrink_lines(lines)
        } else {
            Movement::Unmoved
        };
        proof {
            assert forall|i: int| 0 <= i < old(self).total() implies #[trigger] self.rows()[i] == mid[i] by {
                if lines.0 > old(self).height() {
                    assert(self.rows().subrange(0, old(self).total() as int)[i] == self.rows()[i]);
                }
            }
        }
        r
    }

    /// Grows every row to `cols` cells with clones of `template`.
    fn grow_cols(&mut self, cols: Column, template: &T)
        requires
            old(self).wf(),
            old(self).width() <= cols.0,
        ensures
            final(self).wf(),
            final(self).width() == cols.0,
            final(self).height() == old(self).height(),
            final(self).total() == old(self).total(),
            final(self).visible_start() == old(self).visible_start(),
            final(self).same_config(&*old(self)),
            forall|i: int|
                0 <= i < old(self).total() ==> resized_row(
                    old(self).rows()[i],
                    #[trigger] final(self).rows()[i],
                    old(self).width(),
                    cols.0 as nat,
                    *template,
                ),
    {
        let ghost old_cols = self.cols.0 as nat;
        let mut i: usize = 0;
        while i < self.raw.len()
            invariant
                i <= self.raw@.len(),
                self.raw@.len() == old(self).raw@.len(),
                self.cols == old(self).cols,
                self.lines == old(self).lines,
                self.visible_region_start == old(self).visible_region_start,
                self.scrollback == old(self).scrollback,
                old(self).wf(),
                old_cols == old(self).width(),
                old_cols <= cols.0,
                forall|k: int|
                    0 <= k < i ==> resized_row(
                        old(self).raw@[k]@,
                        #[trigger] self.raw@[k]@,
                        old_cols,
                        cols.0 as nat,
                        *template,
                    ),
                forall|k: int| i <= k < self.raw@.len() ==> #[trigger] self.raw@[k] == old(self).raw@[k],
            decreases self.raw@.len() - i,
        {
            deque_index_mut(&mut self.raw, i).grow(cols, template);
            i += 1;
        }
        self.cols = cols;
        proof {
            assert forall|k: int| 0 <= k < self.raw@.len() implies (#[trigger] self.raw@[k])@.len() == self.cols.0 by {
                assert(resized_row(old(self).raw@[k]@, self.raw@[k]@, old_cols, cols.0 as nat, *template));
            }
        }
    }

    /// Grows the active and the visible region to `lines` rows, adding rows
    /// of clones of `template` if the buffer is too short.
    fn grow_lines(&mut self, lines: Line, template: &T) -> (r: Movement<Line>)
        requires
            old(self).wf(),
            old(self).height() < lines.0,
        ensures
            final(self).wf(),
            final(self).width() == old(self).width(),
            final(self).height() == lines.0,
            final(self).same_config(&*old(self)),
            final(self).total() == (if old(self).total() < lines.0 {
                lines.0 as nat
            } else {
                old(self).total()
            }),
            final(self).rows().subrange(0, old(self).total() as int) == old(self).rows(),
            forall|i: int, j: int|
                old(self).total() <= i < final(self).total() && 0 <= j < old(self).width() ==> cloned(
                    *template,
                    #[trigger] final(self).rows()[i][j],
                ),
            final(self).visible_start() == grown_visible_start(
                old(self).visible_start(),
                (lines.0 - old(self).height()) as nat,
            ),
            r == Movement::Up(Line((old(self).active_start() - final(self).active_start()) as usize)),
    {
        let old_start = self.raw.len() - self.lines.0;
        while self.raw.len() < lines.0
            invariant
                self.wf(),
                self.cols == old(self).cols,
                self.lines == old(self).lines,
                self.visible_region_start == old(self).visible_region_start,
                self.scrollback == old(self).scrollback,
                old(self).raw@.len() <= self.raw@.len(),
                self.raw@.len() <= lines.0 || self.raw@.len() == old(self).raw@.len(),
                self.raw@.subrange(0, old(self).raw@.len() as int) == old(self).raw@,
                forall|i: int, j: int|
                    old(self).raw@.len() <= i < self.raw@.len() && 0 <= j < self.cols.0 ==> cloned(
                        *template,
                        #[trigger] self.raw@[i]@[j],
                    ),
            decreases lines.0 - self.raw@.len(),
        {
            let row = Row::new(self.cols, template);
            self.raw.push_back(row);
        }
        let visible_shift = lines.0 - self.lines.0;
        let ghost grown = self.rows();
        let _ = self.move_visible_region_up(AbsoluteLine(visible_shift));
        assert(self.raw@.len() >= lines.0);
        self.lines = lines;
        let new_start = self.raw.len() - self.lines.0;
        proof {
            assert(self.rows().subrange(0, old(self).total() as int) =~= old(self).rows());
        }
        Movement::Up(Line(old_start - new_start))
    }
}

impl<T> Grid<T> {
    /// Cuts every row down to `cols` cells.
    fn shrink_cols(&mut self, cols: Column)
        requires
            old(self).wf(),
            cols.0 <= old(self).width(),
        ensures
            final(self).wf(),
            final(self).width() == cols.0,
            final(self).height() == old(self).height(),
            final(self).total() == old(self).total(),
            final(self).visible_start() == old(self).visible_start(),
            final(self).same_config(&*old(self)),
            forall|i: int|
                0 <= i < old(self).total() ==> #[trigger] final(self).rows()[i] == old(self).rows()[i].subrange(
                    0,
                    cols.0 as int,
                ),
    {
        let mut i: usize = 0;
        while i < self.raw.len()
            invariant
                i <= self.raw@.len(),
                self.raw@.len() == old(self).raw@.len(),
                self.cols == old(self).cols,
                self.lines == old(self).lines,
                self.visible_region_start == old(self).visible_region_start,
                self.scrollback == old(self).scrollback,
                old(self).wf(),
                cols.0 <= old(self).width(),
                forall|k: int|
                    0 <= k < i ==> #[trigger] self.raw@[k]@ == old(self).raw@[k]@.subrange(0, cols.0 as int),
                forall|k: int| i <= k < self.raw@.len() ==> #[trigger] self.raw@[k] == old(self).raw@[k],
            decreases self.raw@.len() - i,
        {
            deque_index_mut(&mut self.raw, i).shrink(cols);
            i += 1;
        }
        self.cols = cols;
    }

    /// Shrinks the active and the visible region to `lines` rows, keeping the
    /// bottom line of the visible region in place where it can.
    fn shrink_lines(&mut self, lines: Line) -> (r: Movement<Line>)
        requires
            old(self).wf(),
            lines.0 < old(self).height(),
        ensures
            final(self).wf(),
            final(self).rows() == old(self).rows(),
            final(self).total() == old(self).total(),
            final(self).width() == old(self).width(),
            final(self).height() == lines.0,
            final(self).same_config(&*old(self)),
            final(self).visible_start() == shrunk_visible_start(
                old(self).visible_start(),
                lines.0 as nat,
                (old(self).height() - lines.0) as nat,
                old(self).total(),
            ),
            r == Movement::Down(Line((old(self).height() - lines.0) as usize)),
    {
        let shift = self.lines.0 - lines.0;
        self.lines = lines;
        let _ = self.move_visible_region_down(AbsoluteLine(shift));
        Movement::Down(Line(shift))
    }
}


/// The first visible line after the view moves `n` lines up: `n` lines
/// earlier, but not before the first line of the buffer.
pub open spec fn view_up_spec(start: nat, n: nat) -> nat {
    if start < n {
        0
    } else {
        (start - n) as nat
    }
}

/// The first visible line after the view of `height` lines moves `n`
/// lines down in a buffer of `total` lines: `n` lines later, but not past
/// the bottom.
pub open spec fn view_down_spec(start: nat, n: nat, total: nat, height: nat) -> nat {
    if start + height == total {
        start
    } else if start + height + n >= total {
        (total - height) as nat
    } else {
        start + n
    }
}

/// An operation on a grid, with the arguments that decide its size.
pub enum GridOp {
    Resize(Line, Column),
    InsertNewLines(Line),
    SwapLines,
    ScrollUp,
    ScrollDown,
    Clear,
    MoveVisibleRegion,
}

/// What an operation does to the size of a grid: the result is well formed
/// with the same configuration; a resize sets the height and width to its
/// arguments and does not lower the number of rows; inserting lines keeps
/// the height and width and does not lower the number of rows; every other
/// operation keeps the height, the width and the number of rows.
pub open spec fn op_effect<T>(before: Grid<T>, op: GridOp, after: Grid<T>) -> bool {
    &&& after.wf()
    &&& after.same_config(&before)
    &&& match op {
        GridOp::Resize(lines, cols) => {
            &&& after.height() == lines.0
            &&& after.width() == cols.0
            &&& after.total() >= before.total()
        },
        GridOp::InsertNewLines(_) => {
            &&& after.height() == before.height()
            &&& after.width() == before.width()
            &&& after.total() >= before.total()
        },
        _ => {
            &&& after.height() == before.height()
            &&& after.width() == before.width()
            &&& after.total() == before.total()
        },
    }
}

proof fn lemma_total_grows<T>(states: Seq<Grid<T>>, ops: Seq<GridOp>, i: int, j: int)
    requires
        states.len() == ops.len() + 1,
        forall|k: int| 0 <= k < ops.len() ==> op_effect(states[k], #[trigger] ops[k], states[k + 1]),
        0 <= i <= j < states.len(),
    ensures
        states[i].total() <= states[j].total(),
        (forall|k: int| i <= k < j ==> !(#[trigger] ops[k] is Resize)) ==> states[j].height()
            == states[i].height() && states[j].width() == states[i].width(),
    decreases j - i,
{
    if i < j {
        lemma_total_grows(states, ops, i, j - 1);
        assert(op_effect(states[j - 1], ops[j - 1], states[j]));
    }
}

/// Along any sequence of grid operations: every grid is well formed, so it
/// holds `total()` rows, at least `height()` of them, with the visible
/// region inside; the number of rows never decreases, and only a resize or
/// an insertion of lines changes it; the height and width change only by a
/// resize, which sets them to its arguments.
pub proof fn sizes_along_operations<T>(states: Seq<Grid<T>>, ops: Seq<GridOp>)
    requires
        states.len() == ops.len() + 1,
        states[0].wf(),
        forall|k: int| 0 <= k < ops.len() ==> op_effect(states[k], #[trigger] ops[k], states[k + 1]),
    ensures
        forall|k: int|
            0 <= k < states.len() ==> {
                &&& (#[trigger] states[k]).wf()
                &&& states[k].rows().len() == states[k].total()
                &&& states[k].height() <= states[k].total()
                &&& states[k].visible_start() + states[k].height() <= states[k].total()
            },
        forall|i: int, j: int| 0 <= i <= j < states.len() ==> #[trigger] states[i].total() <= #[trigger] states[j].total(),
        forall|k: int|
            0 <= k < ops.len() && !(#[trigger] ops[k] is Resize) && !(ops[k] is InsertNewLines)
                ==> states[k + 1].total() == states[k].total(),
        forall|k: int|
            0 <= k < ops.len() ==> match #[trigger] ops[k] {
                GridOp::Resize(lines, cols) => states[k + 1].height() == lines.0 && states[k + 1].width()
                    == cols.0,
                _ => states[k + 1].height() == states[k].height() && states[k + 1].width()
                    == states[k].width(),
            },
        (forall|k: int| 0 <= k < ops.len() ==> !(#[trigger] ops[k] is Resize)) ==> states.last().height()
            == states[0].height() && states.last().width() == states[0].width(),
{
    assert forall|k: int| 0 <= k < states.len() implies {
        &&& (#[trigger] states[k]).wf()
        &&& states[k].rows().len() == states[k].total()
        &&& states[k].height() <= states[k].total()
        &&& states[k].visible_start() + states[k].height() <= states[k].total()
    } by {
        if k > 0 {
            assert(op_effect(states[k - 1], ops[k - 1], states[k]));
        }
        states[k].lemma_shape();
    }
    assert forall|i: int, j: int| 0 <= i <= j < states.len() implies #[trigger] states[i].total()
        <= #[trigger] states[j].total() by {
        lemma_total_grows(states, ops, i, j);
    }
    lemma_total_grows(states, ops, 0, states.len() - 1);
}

/// Moving the view up by `n` lines and back down by `n` lines comes back
/// to where it was, when the way up did not stop at the top.
pub proof fn view_down_undoes_view_up(start: nat, n: nat, total: nat, height: nat)
    requires
        n <= start,
        start + height <= total,
    ensures
        view_down_spec(view_up_spec(start, n), n, total, height) == start,
{
}

/// Moving the view down by `n` lines and back up by `n` lines comes back
/// to where it was, when the way down did not stop at the bottom.
pub proof fn view_up_undoes_view_down(start: nat, n: nat, total: nat, height: nat)
    requires
        start + height + n < total,
    ensures
        view_up_spec(view_down_spec(start, n, total, height), n) == start,
{
}

impl<T> Grid<T> {
    /// The number of lines in the active region; the height of the window.
    pub fn num_lines(&self) -> (r: Line)
        ensures
            r.0 == self.height(),
    {
        self.lines
    }

    /// The number of columns; the width of the window.
    pub fn num_cols(&self) -> (r: Column)
        ensures
            r.0 == self.width(),
    {
        self.cols
    }

    /// The number of rows in the buffer, scrollback included.
    pub fn total_lines_in_buffer(&self) -> (r: AbsoluteLine)
        ensures
            r.0 == self.total(),
    {
        AbsoluteLine(self.raw.len())
    }

    /// The region that is not part of the scrollback buffer.
    pub fn active_region(&self) -> (r: Range<AbsoluteLine>)
        requires
            self.wf(),
        ensures
            r.start.0 == self.active_start(),
            r.end.0 == self.total(),
    {
        let end = self.raw.len();
        AbsoluteLine(end - self.lines.0)..AbsoluteLine(end)
    }

    /// The region that is currently visible to the user.
    pub fn visible_region(&self) -> (r: Range<AbsoluteLine>)
        requires
            self.wf(),
        ensures
            r.start.0 == self.visible_start(),
            r.end.0 == self.visible_start() + self.height(),
    {
        let start = self.visible_region_start;
        start..AbsoluteLine(start.0 + self.lines.0)
    }

    /// Moves the visible region up by `lines` rows, stopping at the top.
    pub fn move_visible_region_up(&mut self, lines: AbsoluteLine) -> (r: Result<(), MoveRegionError>)
        requires
            old(self).wf(),
        ensures
            op_effect(*old(self), GridOp::MoveVisibleRegion, *final(self)),
            final(self).wf(),
            final(self).rows() == old(self).rows(),
            final(self).total() == old(self).total(),
            final(self).height() == old(self).height(),
            final(self).width() == old(self).width(),
            final(self).same_config(&*old(self)),
            old(self).visible_start() == 0 ==> r == Err::<(), MoveRegionError>(MoveRegionError::AtTop),
            old(self).visible_start() != 0 ==> r is Ok,
            final(self).visible_start() == view_up_spec(old(self).visible_start(), lines.0 as nat),
    {
        if self.visible_region_start.0 == 0 {
            Err(MoveRegionError::AtTop)
        } else if self.visible_region_start.0 < lines.0 {
            self.visible_region_start = AbsoluteLine(0);
            Ok(())
        } else {
            self.visible_region_start = AbsoluteLine(self.visible_region_start.0 - lines.0);
            Ok(())
        }
    }

    /// Moves the visible region down by `lines` rows, stopping at the bottom.
    pub fn move_visible_region_down(&mut self, lines: AbsoluteLine) -> (r: Result<(), MoveRegionError>)
        requires
            old(self).wf(),
            old(self).visible_start() + old(self).height() == old(self).total()
                || old(self).visible_start() + old(self).height() + lines.0 <= usize::MAX,
        ensures
            op_effect(*old(self), GridOp::MoveVisibleRegion, *final(self)),
            final(self).wf(),
            final(self).rows() == old(self).rows(),
            final(self).total() == old(self).total(),
            final(self).height() == old(self).height(),
            final(self).width() == old(self).width(),
            final(self).same_config(&*old(self)),
            old(self).visible_start() + old(self).height() == old(self).total() ==> r == Err::<
                (),
                MoveRegionError,
            >(MoveRegionError::AtBottom),
            old(self).visible_start() + old(self).height() != old(self).total() ==> r is Ok,
            final(self).visible_start() == view_down_spec(
                old(self).visible_start(),
                lines.0 as nat,
                old(self).total(),
                old(self).height(),
            ),
    {
        let end = self.visible_region_start.0 + self.lines.0;
        let total = self.raw.len();
        if end == total {
            Err(MoveRegionError::AtBottom)
        } else if end + lines.0 >= total {
            self.visible_region_start = AbsoluteLine(total - self.lines.0);
            Ok(())
        } else {
            self.visible_region_start = AbsoluteLine(self.visible_region_start.0 + lines.0);
            Ok(())
        }
    }

    /// Moves the visible region to the very bottom (eg: on new input).
    pub fn move_visible_region_to_bottom(&mut self) -> (r: Result<(), MoveRegionError>)
        requires
            old(self).wf(),
        ensures
            op_effect(*old(self), GridOp::MoveVisibleRegion, *final(self)),
            final(self).wf(),
            final(self).rows() == old(self).rows(),
            final(self).total() == old(self).total(),
            final(self).height() == old(self).height(),
            final(self).width() == old(self).width(),
            final(self).same_config(&*old(self)),
            final(self).visible_start() == old(self).active_start(),
            r is Err <==> old(self).visible_start() == old(self).active_start(),
            r is Err ==> r == Err::<(), MoveRegionError>(MoveRegionError::AtBottom),
    {
        let total = self.raw.len();
        if self.visible_region_start.0 + self.lines.0 == total {
            Err(MoveRegionError::AtBottom)
        } else {
            self.visible_region_start = AbsoluteLine(total - self.lines.0);
            Ok(())
        }
    }

    /// Converts a line of the active region to an absolute index into the
    /// scrollback buffer.
    pub fn active_to_absolute_line(&self, line: Line) -> (r: AbsoluteLine)
        requires
            self.wf(),
            line.0 + self.active_start() <= usize::MAX,
        ensures
            r.0 == line.0 + self.active_start(),
    {
        AbsoluteLine(line.0 + (self.raw.len() - self.lines.0))
    }

    /// Whether `point` lies inside the window.
    pub fn contains(&self, point: &Point) -> (r: bool)
        ensures
            r == (point.line.0 < self.height() && point.col.0 < self.width()),
    {
        self.lines.0 > point.line.0 && self.cols.0 > point.col.0
    }

    /// Swap two lines of the active region.
    pub fn swap_lines(&mut self, src: Line, dst: Line)
        requires
            old(self).wf(),
            src.0 < old(self).height(),
            dst.0 < old(self).height(),
        ensures
            op_effect(*old(self), GridOp::SwapLines, *final(self)),
            final(self).wf(),
            final(self).rows() == seq_swap(
                old(self).rows(),
                old(self).active_start() + src.0,
                old(self).active_start() + dst.0,
            ),
            final(self).height() == old(self).height(),
            final(self).width() == old(self).width(),
            final(self).visible_start() == old(self).visible_start(),
            final(self).same_config(&*old(self)),
    {
        let src = self.active_to_absolute_line(src).0;
        let dst = self.active_to_absolute_line(dst).0;
        let ghost before = self.raw@;
        deque_swap(&mut self.raw, src, dst);
        proof {
            assert(self.rows() =~= seq_swap(old(self).rows(), src as int, dst as int));
        }
    }

    /// Moves the lines of `region` up by `positions`, through successive
    /// exchanges of lines `positions` apart.
    #[verifier::spinoff_prover]
    #[verifier::rlimit(50)]
    pub fn scroll_up(&mut self, region: Range<Line>, positions: Line)
        requires
            old(self).wf(),
            positions.0 <= region.end.0,
            region.start.0 + positions.0 < region.end.0 ==> region.end.0 <= old(self).height(),
        ensures
            op_effect(*old(self), GridOp::ScrollUp, *final(self)),
            final(self).wf(),
            final(self).rows() == scroll_up_seq(
                old(self).rows(),
                old(self).active_start() + region.start.0,
                old(self).active_start() + region.end.0,
                positions.0 as int,
            ),
            final(self).height() == old(self).height(),
            final(self).width() == old(self).width(),
            final(self).visible_start() == old(self).visible_start(),
            final(self).same_config(&*old(self)),
    {
        let ghost a = self.active_start();
        let ghost orig = self.rows();
        let ghost st = a + region.start.0;
        let ghost e = a + region.end.0;
        let ghost p = positions.0 as int;
        let end = region.end.0 - positions.0;
        let mut line = region.start.0;
        if line < end {
            proof {
                assert(scroll_up_partial(orig, st, st, p) =~= orig) by {
                    assert forall|j: int| 0 <= j < orig.len() implies
                        #[trigger] scroll_up_partial(orig, st, st, p)[j] == orig[j] by {
                        if st <= j < st + p {
                            lemma_mod_shift(j - st, p);
                        }
                    }
                }
            }
            while line < end
                invariant
                    self.wf(),
                    region.start.0 <= line <= end,
                    end == region.end.0 - positions.0,
                    region.end.0 <= self.height(),
                    self.height() == old(self).height(),
                    self.width() == old(self).width(),
                    self.visible_start() == old(self).visible_start(),
                    self.same_config(&*old(self)),
                    self.active_start() == a,
                    orig == old(self).rows(),
                    st == a + region.start.0,
                    p == positions.0,
                    self.rows() == scroll_up_partial(orig, st, a + line, p),
                decreases end - line,
            {
                let ghost cur = self.rows();
                self.swap_lines(Line(line), Line(line + positions.0));
                proof {
                    let l = a + line;
                    assert(self.rows() =~= scroll_up_partial(orig, st, l + 1, p)) by {
                        assert forall|j: int| 0 <= j < orig.len() implies
                            #[trigger] self.rows()[j] == scroll_up_partial(orig, st, l + 1, p)[j] by {
                            if j == l + p && p > 0 {
                                lemma_mod_shift(l - st, p);
                            }
                        }
                    }
                }
                line += 1;
            }
            proof {
                assert(self.rows() =~= scroll_up_seq(orig, st, e, p));
            }
        } else {
            proof {
                assert(orig =~= scroll_up_seq(orig, st, e, p)) by {
                    assert forall|j: int| 0 <= j < orig.len() implies
                        #[trigger] scroll_up_seq(orig, st, e, p)[j] == orig[j] by {
                        if p > 0 && st <= j && e - p <= j < e {
                            lemma_mod_shift(j - st, p);
                        }
                    }
                }
            }
        }
    }

    /// Moves the lines of `region` down by `positions`, through successive
    /// exchanges of lines `positions` apart, starting from the bottom.
    #[verifier::spinoff_prover]
    #[verifier::rlimit(50)]
    pub fn scroll_down(&mut self, region: Range<Line>, positions: Line)
        requires
            old(self).wf(),
            region.start.0 + positions.0 <= usize::MAX,
            region.start.0 + positions.0 < region.end.0 ==> region.end.0 <= old(self).height(),
        ensures
            op_effect(*old(self), GridOp::ScrollDown, *final(self)),
            final(self).wf(),
            final(self).rows() == scroll_down_seq(
                old(self).rows(),
                old(self).active_start() + region.start.0,
                old(self).active_start() + region.end.0,
                positions.0 as int,
            ),
            final(self).height() == old(self).height(),
            final(self).width() == old(self).width(),
            final(self).visible_start() == old(self).visible_start(),
            final(self).same_config(&*old(self)),
    {
        let ghost a = self.active_start();
        let ghost orig = self.rows();
        let ghost st = a + region.start.0;
        let ghost e = a + region.end.0;
        let ghost p = positions.0 as int;
        let first = region.start.0 + positions.0;
        let mut line = region.end.0;
        if first < line {
            proof {
                assert(scroll_down_partial(orig, e, e, p) =~= orig) by {
                    assert forall|j: int| 0 <= j < orig.len() implies
                        #[trigger] scroll_down_partial(orig, e, e, p)[j] == orig[j] by {
                        if e - p <= j < e {
                            lemma_mod_shift(e - 1 - j, p);
                        }
                    }
                }
            }
            while first < line
                invariant
                    self.wf(),
                    first <= line <= region.end.0,
                    first == region.start.0 + positions.0,
                    region.end.0 <= self.height(),
                    self.height() == old(self).height(),
                    self.width() == old(self).width(),
                    self.visible_start() == old(self).visible_start(),
                    self.same_config(&*old(self)),
                    self.active_start() == a,
                    orig == old(self).rows(),
                    e == a + region.end.0,
                    p == positions.0,
                    self.rows() == scroll_down_partial(orig, e, a + line, p),
                decreases line,
            {
                line -= 1;
                self.swap_lines(Line(line), Line(line - positions.0));
                proof {
                    let l = a + line;
                    assert(self.rows() =~= scroll_down_partial(orig, e, l, p)) by {
                        assert forall|j: int| 0 <= j < orig.len() implies
                            #[trigger] self.rows()[j] == scroll_down_partial(orig, e, l, p)[j] by {
                            if j == l - p && p > 0 {
                                lemma_mod_shift(e - 1 - l, p);
                            }
                        }
                    }
                }
            }
            proof {
                assert(self.rows() =~= scroll_down_seq(orig, st, e, p));
            }
        } else {
            proof {
                assert(orig =~= scroll_down_seq(orig, st, e, p)) by {
                    assert forall|j: int| 0 <= j < orig.len() implies
                        #[trigger] scroll_down_seq(orig, st, e, p)[j] == orig[j] by {
                        if p > 0 && st <= j < st + p && j < e {
                            lemma_mod_shift(e - 1 - j, p);
                        }
                    }
                }
            }
        }
    }

    /// The row at absolute index `line`, counted from the oldest row of the
    /// scrollback buffer.
    pub fn get_absolute_line(&self, line: AbsoluteLine) -> (r: &Row<T>)
        requires
            line.0 < self.total(),
        ensures
            r@ == self.rows()[line.0 as int],
    {
        &self.raw[line.0]
    }

    /// The row at `line` of the active region.
    pub fn row(&self, line: Line) -> (r: &Row<T>)
        requires
            self.wf(),
            line.0 < self.height(),
        ensures
            r@ == self.rows()[self.active_start() + line.0],
    {
        let index = self.active_to_absolute_line(line).0;
        &self.raw[index]
    }
}

/// Row indexing for the grid: `grid[line]` is the row at `line` of the
/// active region.
impl<T> Index<Line> for Grid<T> {
    type Output = Row<T>;

    fn index(&self, index: Line) -> (r: &Row<T>)
        ensures
            r@ == self.rows()[self.active_start() + index.0],
    {
        self.row(index)
    }
}

impl<T> vstd::std_specs::core::IndexSpecImpl<Line> for Grid<T> {
    open spec fn index_req(&self, index: &Line) -> bool {
        self.wf() && index.0 < self.height()
    }
}

/// Column indexing for a row: `row[col]` is the cell in column `col`.
impl<T> Index<Column> for Row<T> {
    type Output = T;

    fn index(&self, index: Column) -> (r: &T)
        ensures
            *r == self@[index.0 as int],
    {
        self.cell(index)
    }
}

impl<T> vstd::std_specs::core::IndexSpecImpl<Column> for Row<T> {
    open spec fn index_req(&self, index: &Column) -> bool {
        index.0 < self@.len()
    }
}

impl<T> Grid<T> {
    /// The row at `index` of the whole buffer, scrollback included, for
    /// modification; the grid stays well formed when the row keeps its
    /// width.
    pub fn all_lines_mut(&mut self, index: AbsoluteLine) -> (r: &mut Row<T>)
        requires
            old(self).wf(),
            index.0 < old(self).total(),
        ensures
            r@ == old(self).rows()[index.0 as int],
            final(self).rows() == old(self).rows().update(index.0 as int, final(r)@),
            final(self).total() == old(self).total(),
            final(self).height() == old(self).height(),
            final(self).width() == old(self).width(),
            final(self).visible_start() == old(self).visible_start(),
            final(self).same_config(&*old(self)),
            final(r)@.len() == old(self).width() ==> final(self).wf(),
    {
        deque_index_mut(&mut self.raw, index.0)
    }
}

impl<T> Grid<T> {
    /// The cell at `point` of the active region, for modification.
    pub fn cell_mut(&mut self, point: &Point) -> (r: &mut T)
        requires
            old(self).wf(),
            point.line.0 < old(self).height(),
            point.col.0 < old(self).width(),
        ensures
            *r == old(self).rows()[old(self).active_start() + point.line.0][point.col.0 as int],
            final(self).rows() == old(self).rows().update(
                old(self).active_start() + point.line.0,
                old(self).rows()[old(self).active_start() + point.line.0].update(point.col.0 as int, *final(r)),
            ),
            final(self).wf(),
            final(self).total() == old(self).total(),
            final(self).height() == old(self).height(),
            final(self).width() == old(self).width(),
            final(self).visible_start() == old(self).visible_start(),
            final(self).same_config(&*old(self)),
    {
        let index = self.active_to_absolute_line(point.line).0;
        let row: &mut Row<T> = deque_index_mut(&mut self.raw, index);
        &mut row.0[point.col.0]
    }
}

/// Clearing of a region of the active lines, one cell at a time.
pub trait ClearRegion<R, T>: Sized {
    /// Whether `region` lies inside the active region.
    spec fn region_valid(&self, region: R) -> bool;

    /// `self` is `before` with the cells of `region` passed through the
    /// clearing function and everything else unchanged.
    spec fn region_cleared(&self, before: &Self, region: R) -> bool;

    /// Whether the cell at row `a`, column `b` lies in `region`.
    spec fn in_region(&self, region: R, a: int, b: int) -> bool;

    /// The cell at row `a`, column `b`.
    spec fn cell_value(&self, a: int, b: int) -> T;

    /// Each cell of `region` becomes what one call of `func` on it leaves
    /// there; the rest stays as it was.
    fn clear_region<F: Fn(&mut T)>(&mut self, region: R, func: F)
        requires
            old(self).region_valid(region),
            forall|x: &mut T| func.requires((x,)),
        ensures
            final(self).region_cleared(&*old(self), region),
            forall|a: int, b: int|
                old(self).in_region(region, a, b) ==> exists|x: &mut T|
                    call_ensures(func, (x,), ()) && *x == #[trigger] old(self).cell_value(a, b) && *final(x)
                        == final(self).cell_value(a, b),
    ;
}

impl<T> Grid<T> {
    /// `self` differs from `before` only in the cells of the active lines
    /// `[start, end)`, and those rows keep their length.
    pub open spec fn rows_cleared(&self, before: &Self, start: int, end: int) -> bool {
        &&& self.wf()
        &&& self.total() == before.total()
        &&& self.height() == before.height()
        &&& self.width() == before.width()
        &&& self.visible_start() == before.visible_start()
        &&& self.same_config(before)
        &&& forall|i: int|
            0 <= i < self.total() && !(before.active_start() + start <= i < before.active_start() + end)
                ==> #[trigger] self.rows()[i] == before.rows()[i]
    }

    /// The cell `(a, b)` comes after the cell `(i, j)`, row by row, in a
    /// row before `end`.
    pub open spec fn cell_after(a: int, b: int, i: int, j: int, end: int) -> bool {
        (a == i && j < b) || (i < a < end)
    }

    /// Applies `func` to the cell `(i, j)` of the buffer.
    fn clear_cell<F: Fn(&mut T)>(&mut self, func: &F, i: usize, j: usize)
        requires
            old(self).wf(),
            i < old(self).total(),
            j < old(self).width(),
            forall|x: &mut T| func.requires((x,)),
        ensures
            final(self).wf(),
            final(self).total() == old(self).total(),
            final(self).cols == old(self).cols,
            final(self).lines == old(self).lines,
            final(self).visible_region_start == old(self).visible_region_start,
            final(self).scrollback == old(self).scrollback,
            forall|a: int, b: int|
                0 <= a < old(self).total() && 0 <= b < old(self).width() && !(a == i && b == j)
                    ==> #[trigger] final(self).rows()[a][b] == old(self).rows()[a][b],
            exists|x: &mut T|
                call_ensures(*func, (x,), ()) && *x == old(self).rows()[i as int][j as int] && *final(x)
                    == final(self).rows()[i as int][j as int],
    {
        let ghost r0 = self.raw@;
        let row: &mut Row<T> = deque_index_mut(&mut self.raw, i);
        apply_at(&mut row.0, func, j);
        let ghost r1 = self.raw@;
        assert(forall|k: int| 0 <= k < r0.len() && k != i ==> r1[k] == r0[k]);
        assert(self.rows()[i as int] == r1[i as int]@);
        assert(old(self).rows()[i as int] == r0[i as int]@);
        assert forall|a: int, b: int|
            0 <= a < old(self).total() && 0 <= b < old(self).width() && !(a == i && b == j) implies
            #[trigger] self.rows()[a][b] == old(self).rows()[a][b] by {
            assert(self.rows()[a] == r1[a]@);
            assert(old(self).rows()[a] == r0[a]@);
        }
        assert forall|k: int| 0 <= k < self.raw@.len() implies (#[trigger] self.raw@[k])@.len() == self.cols.0 by {
            if k != i {
                assert(r1[k] == r0[k]);
            }
        }
    }

    /// Applies `func` to every cell after `(i, j)` in the rows before
    /// `end`, row by row.
    fn clear_after<F: Fn(&mut T)>(&mut self, func: &F, i: usize, j: usize, end: usize)
        requires
            old(self).wf(),
            i < end <= old(self).total(),
            j < old(self).width(),
            forall|x: &mut T| func.requires((x,)),
        ensures
            final(self).wf(),
            final(self).total() == old(self).total(),
            final(self).cols == old(self).cols,
            final(self).lines == old(self).lines,
            final(self).visible_region_start == old(self).visible_region_start,
            final(self).scrollback == old(self).scrollback,
            forall|a: int, b: int|
                0 <= a < old(self).total() && 0 <= b < old(self).width() && !Self::cell_after(
                    a,
                    b,
                    i as int,
                    j as int,
                    end as int,
                ) ==> #[trigger] final(self).rows()[a][b] == old(self).rows()[a][b],
            forall|a: int, b: int|
                0 <= b < old(self).width() && Self::cell_after(a, b, i as int, j as int, end as int)
                    ==> exists|x: &mut T|
                    call_ensures(*func, (x,), ()) && *x == #[trigger] old(self).rows()[a][b] && *final(x)
                        == final(self).rows()[a][b],
        decreases end - i, old(self).width() - j,
    {
        let width = self.cols.0;
        let (ni, nj) = if j + 1 < width {
            (i, j + 1)
        } else {
            (i + 1, 0)
        };
        if ni < end {
            let ghost g0 = self.rows();
            self.clear_cell(func, ni, nj);
            let ghost g1 = self.rows();
            assert(exists|x: &mut T|
                call_ensures(*func, (x,), ()) && *x == g0[ni as int][nj as int] && *final(x)
                    == g1[ni as int][nj as int]);
            self.clear_after(func, ni, nj, end);
            assert(self.rows()[ni as int][nj as int] == g1[ni as int][nj as int]);
            assert(forall|a: int, b: int|
                0 <= a < g0.len() && 0 <= b < width && !(a == ni && b == nj) ==> g1[a][b] == g0[a][b]);
            assert(exists|x: &mut T|
                call_ensures(*func, (x,), ()) && *x == g0[ni as int][nj as int] && *final(x)
                    == self.rows()[ni as int][nj as int]);
            assert(forall|a: int, b: int|
                0 <= b < width && Self::cell_after(a, b, ni as int, nj as int, end as int)
                    ==> exists|x: &mut T|
                    call_ensures(*func, (x,), ()) && *x == #[trigger] g0[a][b] && *final(x)
                        == self.rows()[a][b]);
        }
    }

    /// Applies `func` to every cell of the active region.
    #[verifier::spinoff_prover]
    pub fn clear<F: Fn(&mut T)>(&mut self, func: F)
        requires
            old(self).wf(),
            forall|x: &mut T| func.requires((x,)),
        ensures
            op_effect(*old(self), GridOp::Clear, *final(self)),
            final(self).rows_cleared(&*old(self), 0, old(self).height() as int),
            forall|a: int, b: int|
                old(self).active_start() <= a < old(self).total() && 0 <= b < old(self).width()
                    ==> exists|x: &mut T|
                    call_ensures(func, (x,), ()) && *x == #[trigger] old(self).rows()[a][b] && *final(x)
                        == final(self).rows()[a][b],
    {
        let start: usize = 0;
        let end = self.lines.0;
        let func = &func;
        let offset = self.raw.len() - self.lines.0;
        let width = self.cols.0;
        if start < end && width > 0 {
            let ghost g0 = self.rows();
            self.clear_cell(func, offset + start, 0);
            let ghost g1 = self.rows();
            assert(exists|x: &mut T|
                call_ensures(*func, (x,), ()) && *x == g0[(offset + start) as int][0] && *final(x)
                    == g1[(offset + start) as int][0]);
            self.clear_after(func, offset + start, 0, offset + end);
            assert(self.rows()[(offset + start) as int][0] == g1[(offset + start) as int][0]);
            assert(forall|a: int, b: int|
                0 <= a < g0.len() && 0 <= b < width && !(a == offset + start && b == 0) ==> g1[a][b]
                    == g0[a][b]);
            assert(exists|x: &mut T|
                call_ensures(*func, (x,), ()) && *x == g0[(offset + start) as int][0] && *final(x)
                    == self.rows()[(offset + start) as int][0]);
            assert(forall|a: int, b: int|
                0 <= b < width && Self::cell_after(a, b, (offset + start) as int, 0, (offset + end) as int)
                    ==> exists|x: &mut T|
                    call_ensures(*func, (x,), ()) && *x == #[trigger] g0[a][b] && *final(x)
                        == self.rows()[a][b]);
            assert forall|a: int|
                0 <= a < self.total() && !(offset + start <= a < offset + end) implies #[trigger] self.rows()[a]
                    == g0[a] by {
                assert(self.rows()[a].len() == g0[a].len());
                assert(forall|b: int| 0 <= b < width ==> self.rows()[a][b] == g0[a][b]);
                assert(self.rows()[a] =~= g0[a]);
            }
        }
        assert(forall|a: int, b: int|
            old(self).active_start() + start <= a < old(self).active_start() + end && 0 <= b
                < old(self).width() ==> exists|x: &mut T|
                call_ensures(*func, (x,), ()) && *x == #[trigger] old(self).rows()[a][b] && *final(x)
                    == self.rows()[a][b]);
    }
}

impl<T> ClearRegion<Range<Line>, T> for Grid<T> {
    open spec fn region_valid(&self, region: Range<Line>) -> bool {
        self.wf() && region.start.0 <= region.end.0 <= self.height()
    }

    open spec fn region_cleared(&self, before: &Self, region: Range<Line>) -> bool {
        self.rows_cleared(before, region.start.0 as int, region.end.0 as int)
    }

    open spec fn in_region(&self, region: Range<Line>, a: int, b: int) -> bool {
        &&& self.active_start() + region.start.0 <= a < self.active_start() + region.end.0
        &&& 0 <= b < self.width()
    }

    open spec fn cell_value(&self, a: int, b: int) -> T {
        self.rows()[a][b]
    }

    #[verifier::spinoff_prover]
    fn clear_region<F: Fn(&mut T)>(&mut self, region: Range<Line>, func: F) {
        let start = region.start.0;
        let end = region.end.0;
        let func = &func;
        let offset = self.raw.len() - self.lines.0;
        let width = self.cols.0;
        if start < end && width > 0 {
            let ghost g0 = self.rows();
            self.clear_cell(func, offset + start, 0);
            let ghost g1 = self.rows();
            assert(exists|x: &mut T|
                call_ensures(*func, (x,), ()) && *x == g0[(offset + start) as int][0] && *final(x)
                    == g1[(offset + start) as int][0]);
            self.clear_after(func, offset + start, 0, offset + end);
            assert(self.rows()[(offset + start) as int][0] == g1[(offset + start) as int][0]);
            assert(forall|a: int, b: int|
                0 <= a < g0.len() && 0 <= b < width && !(a == offset + start && b == 0) ==> g1[a][b]
                    == g0[a][b]);
            assert(exists|x: &mut T|
                call_ensures(*func, (x,), ()) && *x == g0[(offset + start) as int][0] && *final(x)
                    == self.rows()[(offset + start) as int][0]);
            assert(forall|a: int, b: int|
                0 <= b < width && Self::cell_after(a, b, (offset + start) as int, 0, (offset + end) as int)
                    ==> exists|x: &mut T|
                    call_ensures(*func, (x,), ()) && *x == #[trigger] g0[a][b] && *final(x)
                        == self.rows()[a][b]);
            assert forall|a: int|
                0 <= a < self.total() && !(offset + start <= a < offset + end) implies #[trigger] self.rows()[a]
                    == g0[a] by {
                assert(self.rows()[a].len() == g0[a].len());
                assert(forall|b: int| 0 <= b < width ==> self.rows()[a][b] == g0[a][b]);
                assert(self.rows()[a] =~= g0[a]);
            }
        }
        assert(forall|a: int, b: int|
            old(self).active_start() + start <= a < old(self).active_start() + end && 0 <= b
                < old(self).width() ==> exists|x: &mut T|
                call_ensures(*func, (x,), ()) && *x == #[trigger] old(self).rows()[a][b] && *final(x)
                    == self.rows()[a][b]);
        assert(forall|a: int, b: int|
            old(self).in_region(region, a, b) ==> exists|x: &mut T|
                call_ensures(*func, (x,), ()) && *x == #[trigger] old(self).cell_value(a, b) && *final(x)
                    == self.cell_value(a, b));
    }
}

/// Number of rows that inserting `n` rows into a buffer of `total` rows
/// allocates: as many as fit under the limit of `max` rows.
pub open spec fn allocated_rows(total: nat, max: nat, n: nat) -> nat {
    if total >= max {
        0
    } else if n < max - total {
        n
    } else {
        (max - total) as nat
    }
}

/// Number of old rows that inserting `n` rows reuses: those that were not allocated.
pub open spec fn recycled_rows(total: nat, max: nat, n: nat) -> nat {
    (n - allocated_rows(total, max, n)) as nat
}

/// Cell `(k, j)` lies in the first `rows` rows and `cols` columns.
pub open spec fn in_block(k: int, j: int, rows: int, cols: int) -> bool {
    0 <= k < rows && 0 <= j < cols
}

/// Cell `(k, j)` of a buffer of `total` rows of `width` cells is in a row
/// that inserting `n` rows under a limit of `max` rows reuses, when no
/// row is reused twice.
pub open spec fn reused_cell(total: nat, max: nat, n: nat, width: nat, k: int, j: int) -> bool {
    &&& recycled_rows(total, max, n) <= total + allocated_rows(total, max, n)
    &&& 0 <= k < recycled_rows(total, max, n)
    &&& k < total
    &&& 0 <= j < width
}

impl<T> Grid<T> {
    /// Moves the first row to the end `n` times, passing every cell of the
    /// moved row through `clear` on the way. When `n` is at most the number
    /// of rows, the others move up by `n` and the `n` first rows end up,
    /// cleared and in order, at the bottom.
    fn recycle_rows<F: Fn(&mut T)>(&mut self, clear: &F, n: usize)
        requires
            old(self).wf(),
            old(self).total() > 0 || n == 0,
            forall|x: &mut T| clear.requires((x,)),
        ensures
            final(self).wf(),
            final(self).total() == old(self).total(),
            final(self).cols == old(self).cols,
            final(self).lines == old(self).lines,
            final(self).visible_region_start == old(self).visible_region_start,
            final(self).scrollback == old(self).scrollback,
            n <= old(self).total() ==> forall|i: int|
                0 <= i < old(self).total() - n ==> #[trigger] final(self).rows()[i] == old(self).rows()[i + n],
            n <= old(self).total() ==> forall|k: int, j: int|
                #[trigger] in_block(k, j, n as int, old(self).width() as int) ==> exists|x: &mut T|
                    call_ensures(*clear, (x,), ()) && *x == old(self).rows()[k][j] && *final(x)
                        == final(self).rows()[old(self).total() - n + k][j],
        decreases n,
    {
        if n > 0 {
            let width = self.cols.0;
            let ghost r0 = self.rows();
            if width > 0 {
                self.clear_cell(clear, 0, 0);
                let ghost g1 = self.rows();
                assert(exists|x: &mut T|
                    call_ensures(*clear, (x,), ()) && *x == r0[0][0] && *final(x) == g1[0][0]);
                self.clear_after(clear, 0, 0, 1);
                assert(self.rows()[0][0] == g1[0][0]);
                assert(forall|a: int, b: int|
                    0 <= a < r0.len() && 0 <= b < width && !(a == 0 && b == 0) ==> g1[a][b] == r0[a][b]);
                assert(exists|x: &mut T|
                    call_ensures(*clear, (x,), ()) && *x == r0[0][0] && *final(x) == self.rows()[0][0]);
                assert(forall|a: int, b: int|
                    0 <= b < width && Self::cell_after(a, b, 0, 0, 1) ==> exists|x: &mut T|
                        call_ensures(*clear, (x,), ()) && *x == #[trigger] r0[a][b] && *final(x)
                            == self.rows()[a][b]);
                assert forall|a: int| 1 <= a < self.total() implies #[trigger] self.rows()[a] == r0[a] by {
                    assert(self.rows()[a].len() == r0[a].len());
                    assert(forall|b: int| 0 <= b < width ==> self.rows()[a][b] == r0[a][b]);
                    assert(self.rows()[a] =~= r0[a]);
                }
            } else {
                assert forall|a: int| 0 <= a < self.total() implies #[trigger] self.rows()[a] == r0[a] by {
                }
            }
            assert(forall|b: int|
                0 <= b < width ==> exists|x: &mut T|
                    call_ensures(*clear, (x,), ()) && *x == #[trigger] r0[0][b] && *final(x)
                        == self.rows()[0][b]);
            let ghost c = self.rows();
            let ghost before = self.raw@;
            let row = self.raw.pop_front().unwrap();
            self.raw.push_back(row);
            proof {
                assert forall|i: int| 0 <= i < self.raw@.len() implies (#[trigger] self.raw@[i])@.len()
                    == self.cols.0 by {
                    if i < self.raw@.len() - 1 {
                        assert(self.raw@[i] == before[i + 1]);
                    }
                }
            }
            let ghost len = before.len();
            let ghost r1 = self.rows();
            assert(r1[len - 1] == c[0]);
            assert(forall|i: int| 0 <= i < len - 1 ==> #[trigger] r1[i] == c[i + 1]);
            let m: usize = n - 1;
            let ghost w1 = self.width();
            self.recycle_rows(clear, m);
            proof {
                if n <= len {
                    assert forall|i: int| 0 <= i < len - n implies #[trigger] self.rows()[i] == r0[i + n] by {
                        assert(self.rows()[i] == r1[i + n - 1]);
                        assert(r1[i + n - 1] == c[i + n]);
                    }
                    assert forall|k: int, j: int| #[trigger] in_block(k, j, n as int, old(self).width() as int) implies exists|
                        x: &mut T,
                    |
                        call_ensures(*clear, (x,), ()) && *x == r0[k][j] && *final(x)
                            == self.rows()[len - n + k][j] by {
                        if k == 0 {
                            assert(self.rows()[len - n] == r1[len - 1]);
                            assert(r0[0][j] == r0[0][j]);
                            assert(exists|x: &mut T|
                                call_ensures(*clear, (x,), ()) && *x == r0[0][j] && *final(x) == c[0][j]);
                        } else {
                            assert(r1[k - 1] == r0[k]);
                            assert(r1[k - 1][j] == r0[k][j]);
                            assert(in_block(k - 1, j, m as int, w1 as int));
                            assert(exists|x: &mut T|
                                call_ensures(*clear, (x,), ()) && *x == r1[k - 1][j] && *final(x)
                                    == self.rows()[len - m + (k - 1)][j]);
                        }
                    }
                }
            }
        }
    }
}

impl<T: Default + Clone> Grid<T> {
    /// Inserts new rows at the bottom of the buffer.
    ///
    /// New rows are allocated until the buffer holds `max_lines` rows; from
    /// then on the oldest rows are cleared with `clear` and reused.
    #[verifier::spinoff_prover]
    pub fn insert_new_lines<F: Fn(&mut T)>(&mut self, lines: Line, clear: F)
        requires
            old(self).wf(),
            forall|x: &mut T| clear.requires((x,)),
            recycled_rows(old(self).total(), old(self).max_lines(), lines.0 as nat) > 0
                ==> old(self).total() > 0,
        ensures
            op_effect(*old(self), GridOp::InsertNewLines(lines), *final(self)),
            final(self).wf(),
            final(self).height() == old(self).height(),
            final(self).width() == old(self).width(),
            final(self).same_config(&*old(self)),
            ({
                let alloc = allocated_rows(old(self).total(), old(self).max_lines(), lines.0 as nat);
                let recycle = recycled_rows(old(self).total(), old(self).max_lines(), lines.0 as nat);
                let was_at_end = old(self).visible_start() + old(self).height() == old(self).total();
                &&& final(self).total() == old(self).total() + alloc
                &&& forall|i: int|
                    0 <= i < old(self).total() - recycle ==> #[trigger] final(self).rows()[i]
                        == old(self).rows()[i + recycle]
                &&& recycle == 0 ==> final(self).rows().subrange(0, old(self).total() as int)
                    == old(self).rows()
                &&& was_at_end ==> final(self).visible_start() == final(self).active_start()
                &&& !was_at_end ==> final(self).visible_start() == grown_visible_start(
                    old(self).visible_start(),
                    recycle,
                )
            }),
            forall|k: int, j: int|
                #[trigger] reused_cell(
                    old(self).total(),
                    old(self).max_lines(),
                    lines.0 as nat,
                    old(self).width(),
                    k,
                    j,
                ) ==> exists|x: &mut T|
                    call_ensures(clear, (x,), ()) && *x == old(self).rows()[k][j] && *final(x)
                        == final(self).rows()[old(self).total() + allocated_rows(
                        old(self).total(),
                        old(self).max_lines(),
                        lines.0 as nat,
                    ) - recycled_rows(old(self).total(), old(self).max_lines(), lines.0 as nat) + k][j],
    {
        let was_at_end = self.visible_region_start.0 + self.lines.0 == self.raw.len();
        let total = self.raw.len();
        let max = self.scrollback.max_lines.0;
        let alloc: usize = if total >= max {
            0
        } else if lines.0 < max - total {
            lines.0
        } else {
            max - total
        };
        let recycle: usize = lines.0 - alloc;
        let cols = self.num_cols();
        let mut k: usize = 0;
        while k < alloc
            invariant
                k <= alloc,
                total + alloc <= usize::MAX,
                total == old(self).raw@.len(),
                self.wf(),
                self.raw@.len() == total + k,
                cols == self.cols,
                self.cols == old(self).cols,
                self.lines == old(self).lines,
                self.visible_region_start == old(self).visible_region_start,
                self.scrollback == old(self).scrollback,
                self.raw@.subrange(0, total as int) == old(self).raw@,
            decreases alloc - k,
        {
            let template: T = T::default();
            let row = Row::new(cols, &template);
            self.raw.push_back(row);
            k += 1;
        }
        let ghost grown = self.raw@;
        let ghost grown_rows = self.rows();
        let ghost grown_width = self.width();
        self.recycle_rows(&clear, recycle);
        let ghost recycled = self.rows();
        proof {
            assert forall|i: int| 0 <= i < total implies #[trigger] grown_rows[i] == old(self).rows()[i] by {
                assert(grown.subrange(0, total as int)[i] == grown[i]);
            }
            assert forall|i: int| 0 <= i < total - recycle implies #[trigger] self.rows()[i]
                == old(self).rows()[i + recycle] by {
                assert(self.rows()[i] == grown_rows[i + recycle]);
            }
            if recycle == 0 {
                assert(self.rows().subrange(0, total as int) =~= old(self).rows());
            }
        }
        if recycle > 0 {
            let _ = self.move_visible_region_up(AbsoluteLine(recycle));
        }
        if was_at_end {
            let _ = self.move_visible_region_to_bottom();
        }
        proof {
            assert(self.rows() == recycled);
            assert forall|k: int, j: int|
                #[trigger] reused_cell(
                    old(self).total(),
                    old(self).max_lines(),
                    lines.0 as nat,
                    old(self).width(),
                    k,
                    j,
                ) implies exists|x: &mut T|
                call_ensures(clear, (x,), ()) && *x == old(self).rows()[k][j] && *final(x)
                    == self.rows()[old(self).total() + allocated_rows(
                    old(self).total(),
                    old(self).max_lines(),
                    lines.0 as nat,
                ) - recycled_rows(old(self).total(), old(self).max_lines(), lines.0 as nat) + k][j] by {
                assert(grown_rows[k] == old(self).rows()[k]);
                assert(grown_rows[k][j] == old(self).rows()[k][j]);
                assert(in_block(k, j, recycle as int, grown_width as int));
                assert(exists|x: &mut T|
                    call_ensures(clear, (x,), ()) && *x == grown_rows[k][j] && *final(x)
                        == recycled[grown_rows.len() - recycle + k][j]);
            }
        }
    }
}

/// Iterator over the cells of the window, row by row.
pub struct GridIterator<'a, T: 'a> {
    grid: &'a Grid<T>,
    pub cur: Point,
}

impl<T> Grid<T> {
    /// An iterator that starts at `point`, relative to the window.
    pub fn iter_from(&self, point: Point) -> (it: GridIterator<'_, T>)
        ensures
            it.position() == point,
            it.grid() == *self,
    {
        GridIterator { grid: self, cur: point }
    }
}

impl<'a, T> GridIterator<'a, T> {
    /// The grid being walked.
    pub closed spec fn grid(&self) -> Grid<T> {
        *self.grid
    }

    /// The current position.
    pub closed spec fn position(&self) -> Point {
        self.cur
    }

    /// `next` stays inside the window from the current position.
    pub open spec fn next_in_bounds(&self) -> bool {
        let h = self.grid().height();
        let w = self.grid().width();
        let (l, c) = (self.position().line.0 as int, self.position().col.0 as int);
        &&& self.grid().wf()
        &&& h > 0 && w > 0
        &&& !(l == h - 1 && c == w - 1) ==> if c == w - 1 {
            l + 1 < h
        } else {
            l < h && c + 1 < w
        }
    }

    /// `prev` stays inside the window from the current position.
    pub open spec fn prev_in_bounds(&self) -> bool {
        let h = self.grid().height();
        let w = self.grid().width();
        let (l, c) = (self.position().line.0 as int, self.position().col.0 as int);
        &&& self.grid().wf()
        &&& !(l == 0 && c == 0) ==> if c == 0 {
            w > 0 && l - 1 < h
        } else {
            l < h && c - 1 < w
        }
    }

    /// The cell at `p`, relative to the window.
    pub open spec fn cell_at(&self, p: Point) -> T {
        self.grid().rows()[self.grid().active_start() + p.line.0][p.col.0 as int]
    }

    /// Moves to the next cell, wrapping to the start of the next line, and
    /// yields it; `None` at the last cell of the window.
    pub fn next(&mut self) -> (r: Option<&'a T>)
        requires
            old(self).next_in_bounds(),
        ensures
            final(self).grid() == old(self).grid(),
            ({
                let h = old(self).grid().height();
                let w = old(self).grid().width();
                let p = old(self).position();
                if p.line.0 == h - 1 && p.col.0 == w - 1 {
                    r.is_none() && final(self).position() == p
                } else {
                    &&& final(self).position() == (if p.col.0 == w - 1 {
                        Point { line: Line((p.line.0 + 1) as usize), col: Column(0) }
                    } else {
                        Point { line: p.line, col: Column((p.col.0 + 1) as usize) }
                    })
                    &&& r.is_some()
                    &&& *r.unwrap() == final(self).cell_at(final(self).position())
                }
            }),
    {
        let last_line = self.grid.lines.0 - 1;
        let last_col = self.grid.cols.0 - 1;
        if self.cur.line.0 == last_line && self.cur.col.0 == last_col {
            None
        } else if self.cur.col.0 == last_col {
            self.cur.line = Line(self.cur.line.0 + 1);
            self.cur.col = Column(0);
            let grid: &'a Grid<T> = self.grid;
            let row: &'a Row<T> = grid.row(self.cur.line);
            Some(row.cell(self.cur.col))
        } else {
            self.cur.col = Column(self.cur.col.0 + 1);
            let grid: &'a Grid<T> = self.grid;
            let row: &'a Row<T> = grid.row(self.cur.line);
            Some(row.cell(self.cur.col))
        }
    }

    /// Moves to the previous cell, wrapping to the end of the previous line,
    /// and yields it; `None` at the first cell of the window.
    pub fn prev(&mut self) -> (r: Option<&'a T>)
        requires
            old(self).prev_in_bounds(),
        ensures
            final(self).grid() == old(self).grid(),
            ({
                let w = old(self).grid().width();
                let p = old(self).position();
                if p.line.0 == 0 && p.col.0 == 0 {
                    r.is_none() && final(self).position() == p
                } else {
                    &&& final(self).position() == (if p.col.0 == 0 {
                        Point { line: Line((p.line.0 - 1) as usize), col: Column((w - 1) as usize) }
                    } else {
                        Point { line: p.line, col: Column((p.col.0 - 1) as usize) }
                    })
                    &&& r.is_some()
                    &&& *r.unwrap() == final(self).cell_at(final(self).position())
                }
            }),
    {
        let num_cols = self.grid.cols.0;
        if self.cur.line.0 == 0 && self.cur.col.0 == 0 {
            None
        } else if self.cur.col.0 == 0 {
            self.cur.line = Line(self.cur.line.0 - 1);
            self.cur.col = Column(num_cols - 1);
            let grid: &'a Grid<T> = self.grid;
            let row: &'a Row<T> = grid.row(self.cur.line);
            Some(row.cell(self.cur.col))
        } else {
            self.cur.col = Column(self.cur.col.0 - 1);
            let grid: &'a Grid<T> = self.grid;
            let row: &'a Row<T> = grid.row(self.cur.line);
            Some(row.cell(self.cur.col))
        }
    }
}

} // verus!
