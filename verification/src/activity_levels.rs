//! A time series of integer metrics, one slot per time unit, with policies
//! for values that collide in a slot and for slots without a value.
use vstd::prelude::*;

use crate::config::parse::{chars_eq_str, str_chars};

verus! {

/// How to fill the slots that hold no value when drawing the metric.
#[derive(Debug, Clone, Copy, PartialEq, Eq, Structural)]
pub enum MissingValuesPolicy {
    Zero,
    One,
    First,
    Last,
    Fixed(i64),
    Avg,
    Max,
    Min,
}

impl Default for MissingValuesPolicy {
    fn default() -> (r: MissingValuesPolicy)
        ensures
            r == MissingValuesPolicy::Zero,
    {
        MissingValuesPolicy::Zero
    }
}

/// What to do when several values are collected for the same time unit.
#[derive(Debug, Clone, Copy, PartialEq, Eq, Structural)]
pub enum ValueCollisionPolicy {
    Overwrite,
    Increment,
    Decrement,
    Ignore,
}

impl Default for ValueCollisionPolicy {
    fn default() -> (r: ValueCollisionPolicy)
        ensures
            r == ValueCollisionPolicy::Increment,
    {
        ValueCollisionPolicy::Increment
    }
}

/// Statistics about the current time series.
#[derive(Debug, Clone, Copy, PartialEq, Eq, Structural)]
pub struct TimeSeriesStats {
    pub max: i64,
    pub min: i64,
    pub avg: i64,
    pub first: i64,
    pub last: i64,
    pub count: usize,
    pub sum: i64,
    pub is_dirty: bool,
}

impl Default for TimeSeriesStats {
    fn default() -> (r: TimeSeriesStats)
        ensures
            r == (TimeSeriesStats {
                max: 0,
                min: 0,
                avg: 0,
                first: 0,
                last: 0,
                count: 0,
                sum: 0,
                is_dirty: false,
            }),
    {
        TimeSeriesStats { max: 0, min: 0, avg: 0, first: 0, last: 0, count: 0, sum: 0, is_dirty: false }
    }
}

/// A vector of (epoch, value) slots, one per time unit.
#[derive(Debug, Clone)]
pub struct TimeSeries {
    /// One entry per time unit
    pub metrics: Vec<(u64, Option<i64>)>,
    /// Number of items to store in the metrics vector
    pub metrics_capacity: usize,
    /// Stats for the time series
    pub metric_stats: TimeSeriesStats,
    /// What colliding values in one slot give
    pub collision_policy: ValueCollisionPolicy,
    /// How missing values are shown
    pub missing_values_policy: MissingValuesPolicy,
}

impl Default for TimeSeries {
    /// Room for 5 minutes of metrics, one per second.
    fn default() -> (r: TimeSeries)
        ensures
            r.metrics@.len() == 0,
            r.metrics_capacity == 300,
            r.collision_policy == ValueCollisionPolicy::Increment,
            r.missing_values_policy == MissingValuesPolicy::Zero,
    {
        TimeSeries {
            metrics_capacity: 300,
            metrics: Vec::new(),
            metric_stats: TimeSeriesStats::default(),
            collision_policy: ValueCollisionPolicy::Increment,
            missing_values_policy: MissingValuesPolicy::Zero,
        }
    }
}

/// The missing values policy that a name selects; unknown names select
/// zero.
pub open spec fn policy_named(name: Seq<char>) -> MissingValuesPolicy {
    if name == "zero"@ {
        MissingValuesPolicy::Zero
    } else if name == "one"@ {
        MissingValuesPolicy::One
    } else if name == "min"@ {
        MissingValuesPolicy::Min
    } else if name == "max"@ {
        MissingValuesPolicy::Max
    } else if name == "last"@ {
        MissingValuesPolicy::Last
    } else if name == "avg"@ {
        MissingValuesPolicy::Avg
    } else if name == "first"@ {
        MissingValuesPolicy::First
    } else {
        MissingValuesPolicy::Zero
    }
}

/// The slots after time moves on to `epoch`: the slots of time units that
/// passed without a value are added empty, and the oldest slots make way
/// when there is no room. After a gap longer than the capacity, the first
/// `cap` slots are refilled empty and any slots beyond them stay.
pub open spec fn rotated(m: Seq<(u64, Option<i64>)>, cap: nat, epoch: u64) -> Seq<(u64, Option<i64>)> {
    let len = m.len();
    if len == 0 || m[len - 1].0 == epoch {
        m
    } else {
        let last = m[len - 1].0;
        let inactive = ((epoch - last) as usize) as nat;
        if inactive > cap {
            Seq::new(
                if len > cap {
                    len
                } else {
                    cap
                },
                |i: int|
                    if i < cap {
                        ((epoch - cap + i + 1) as u64, None::<i64>)
                    } else {
                        m[i]
                    },
            )
        } else if inactive + len > cap {
            let shift = (inactive + len - cap) as nat;
            let base = m[len - shift].0;
            Seq::new(
                len,
                |i: int|
                    if i < len - shift {
                        m[i + shift]
                    } else {
                        ((base + (i - (len - shift)) + 1) as u64, None::<i64>)
                    },
            )
        } else if inactive > 1 {
            m + Seq::new((inactive - 1) as nat, |i: int| ((last + 1 + i) as u64, None::<i64>))
        } else {
            m
        }
    }
}

/// The inputs on which rotation computes no out-of-range epoch: time does
/// not go back, and the epochs it makes fit.
pub open spec fn rotation_ok(m: Seq<(u64, Option<i64>)>, cap: nat, epoch: u64) -> bool {
    let len = m.len();
    len > 0 ==> {
        let last = m[len - 1].0;
        let inactive = ((epoch - last) as usize) as nat;
        &&& last <= epoch
        &&& inactive <= cap ==> inactive + len <= usize::MAX
        &&& inactive > cap ==> epoch >= cap
        &&& (inactive <= cap && inactive + len > cap) ==> m[len - (inactive + len - cap)].0 + (
        inactive + len - cap) <= u64::MAX
        &&& (inactive <= cap && inactive + len <= cap && inactive > 1) ==> last + inactive <= u64::MAX
    }
}

/// The value that a colliding value `new` and the slot's `existing` give.
pub open spec fn collision_spec(policy: ValueCollisionPolicy, existing: i64, new: i64) -> int {
    match policy {
        ValueCollisionPolicy::Increment => existing + new,
        ValueCollisionPolicy::Overwrite => new as int,
        ValueCollisionPolicy::Decrement => existing - new,
        ValueCollisionPolicy::Ignore => existing as int,
    }
}

/// The slots after `input` is recorded in the rotated slots `r`.
pub open spec fn updated(
    r: Seq<(u64, Option<i64>)>,
    cap: nat,
    policy: ValueCollisionPolicy,
    input: (u64, i64),
) -> Seq<(u64, Option<i64>)> {
    let len = r.len();
    if len == 0 {
        r.push((input.0, Some(input.1)))
    } else if input.0 == r[len - 1].0 {
        match r[len - 1].1 {
            Some(existing) => r.update(len - 1, (input.0, Some(collision_spec(policy, existing, input.1) as i64))),
            None => r.update(len - 1, (input.0, Some(input.1))),
        }
    } else if len < cap {
        r.push((input.0, Some(input.1)))
    } else {
        r.update(len - 1, (input.0, Some(input.1)))
    }
}

/// The largest value, starting from 0.
pub open spec fn max_of(m: Seq<(u64, Option<i64>)>) -> i64
    decreases m.len(),
{
    if m.len() == 0 {
        0
    } else {
        let rest = max_of(m.drop_last());
        match m.last().1 {
            Some(v) => if v > rest { v } else { rest },
            None => rest,
        }
    }
}

/// The smallest value, starting from `i64::MAX`.
pub open spec fn min_of(m: Seq<(u64, Option<i64>)>) -> i64
    decreases m.len(),
{
    if m.len() == 0 {
        i64::MAX
    } else {
        let rest = min_of(m.drop_last());
        match m.last().1 {
            Some(v) => if v < rest { v } else { rest },
            None => rest,
        }
    }
}

/// The sum of the values.
pub open spec fn sum_of(m: Seq<(u64, Option<i64>)>) -> int
    decreases m.len(),
{
    if m.len() == 0 {
        0
    } else {
        sum_of(m.drop_last()) + match m.last().1 {
            Some(v) => v as int,
            None => 0,
        }
    }
}

/// The number of slots that hold a value.
pub open spec fn count_of(m: Seq<(u64, Option<i64>)>) -> nat
    decreases m.len(),
{
    if m.len() == 0 {
        0
    } else {
        count_of(m.drop_last()) + if m.last().1 is Some {
            1nat
        } else {
            0nat
        }
    }
}

/// Every partial sum of the values fits in an `i64`.
pub open spec fn sums_fit(m: Seq<(u64, Option<i64>)>) -> bool {
    forall|k: int| 0 <= k <= m.len() ==> i64::MIN <= #[trigger] sum_of(m.take(k)) <= i64::MAX
}

/// Integer division rounding toward zero, as Rust's `/` does.
pub open spec fn truncating_div(a: int, b: int) -> int {
    if a >= 0 {
        a / b
    } else {
        -((-a) / b)
    }
}

proof fn lemma_count_bound(m: Seq<(u64, Option<i64>)>)
    ensures
        count_of(m) <= m.len(),
    decreases m.len(),
{
    if m.len() > 0 {
        lemma_count_bound(m.drop_last());
    }
}

impl TimeSeries {
    /// The series with room for `n` slots, emptied.
    pub fn with_capacity(self, n: usize) -> (r: TimeSeries)
        ensures
            r.metrics@.len() == 0,
            r.metrics_capacity == n,
            r.metric_stats == self.metric_stats,
            r.collision_policy == self.collision_policy,
            r.missing_values_policy == self.missing_values_policy,
    {
        let mut new_self = self;
        new_self.metrics = Vec::new();
        new_self.metrics_capacity = n;
        new_self
    }

    /// The series with the missing values policy of the given name.
    pub fn with_missing_values_policy(self, policy_type: String) -> (r: TimeSeries)
        ensures
            r.missing_values_policy == policy_named(policy_type@),
            r.metrics@ == self.metrics@,
            r.metrics_capacity == self.metrics_capacity,
            r.metric_stats == self.metric_stats,
            r.collision_policy == self.collision_policy,
    {
        let mut new_self = self;
        let v = str_chars(policy_type.as_str());
        let n = v.len();
        assert(v@.subrange(0, n as int) == v@);
        new_self.missing_values_policy = if chars_eq_str(&v, 0, n, "zero") {
            MissingValuesPolicy::Zero
        } else if chars_eq_str(&v, 0, n, "one") {
            MissingValuesPolicy::One
        } else if chars_eq_str(&v, 0, n, "min") {
            MissingValuesPolicy::Min
        } else if chars_eq_str(&v, 0, n, "max") {
            MissingValuesPolicy::Max
        } else if chars_eq_str(&v, 0, n, "last") {
            MissingValuesPolicy::Last
        } else if chars_eq_str(&v, 0, n, "avg") {
            MissingValuesPolicy::Avg
        } else if chars_eq_str(&v, 0, n, "first") {
            MissingValuesPolicy::First
        } else {
            MissingValuesPolicy::Zero
        };
        new_self
    }

    /// Recomputes the largest and smallest values, their sum and their
    /// average.
    pub fn calculate_stats(&mut self)
        requires
            count_of(old(self).metrics@) > 0,
            old(self).metrics@.len() <= i64::MAX,
            sums_fit(old(self).metrics@),
        ensures
            final(self).metrics@ == old(self).metrics@,
            final(self).metrics_capacity == old(self).metrics_capacity,
            final(self).collision_policy == old(self).collision_policy,
            final(self).missing_values_policy == old(self).missing_values_policy,
            final(self).metric_stats.max == max_of(old(self).metrics@),
            final(self).metric_stats.min == min_of(old(self).metrics@),
            final(self).metric_stats.sum == sum_of(old(self).metrics@),
            final(self).metric_stats.avg as int == truncating_div(
                sum_of(old(self).metrics@),
                count_of(old(self).metrics@) as int,
            ),
            final(self).metric_stats.first == old(self).metric_stats.first,
            final(self).metric_stats.last == old(self).metric_stats.last,
            final(self).metric_stats.count == old(self).metric_stats.count,
            final(self).metric_stats.is_dirty == old(self).metric_stats.is_dirty,
    {
        let mut max_activity_value: i64 = 0;
        let mut min_activity_value: i64 = i64::MAX;
        let mut sum_activity_values: i64 = 0;
        let mut filled_metrics: usize = 0;
        let ghost m = self.metrics@;
        let mut idx: usize = 0;
        while idx < self.metrics.len()
            invariant
                idx <= m.len(),
                self.metrics@ == m,
                sums_fit(m),
                max_activity_value == max_of(m.take(idx as int)),
                min_activity_value == min_of(m.take(idx as int)),
                sum_activity_values == sum_of(m.take(idx as int)),
                filled_metrics == count_of(m.take(idx as int)),
            decreases m.len() - idx,
        {
            proof {
                assert(m.take(idx + 1).drop_last() == m.take(idx as int));
                assert(m.take(idx + 1).last() == m[idx as int]);
                lemma_count_bound(m.take(idx as int));
                assert(i64::MIN <= sum_of(m.take(idx + 1)) <= i64::MAX);
            }
            if let Some(metric) = self.metrics[idx].1 {
                if metric > max_activity_value {
                    max_activity_value = metric;
                }
                if metric < min_activity_value {
                    min_activity_value = metric;
                }
                sum_activity_values = sum_activity_values + metric;
                filled_metrics = filled_metrics + 1;
            }
            idx = idx + 1;
        }
        assert(m.take(m.len() as int) == m);
        self.metric_stats.max = max_activity_value;
        self.metric_stats.min = min_activity_value;
        self.metric_stats.sum = sum_activity_values;
        proof {
            lemma_count_bound(m);
        }
        let count = filled_metrics as i64;
        self.metric_stats.avg = sum_activity_values / count;
    }
}

/// The value shown for slots without one: by the policy, a constant or one
/// of the statistics; the first and last policies show zero.
pub open spec fn fill_spec(policy: MissingValuesPolicy, m: Seq<(u64, Option<i64>)>) -> int {
    match policy {
        MissingValuesPolicy::Zero => 0,
        MissingValuesPolicy::One => 1,
        MissingValuesPolicy::Min => min_of(m) as int,
        MissingValuesPolicy::Max => max_of(m) as int,
        MissingValuesPolicy::Last => 0,
        MissingValuesPolicy::First => 0,
        MissingValuesPolicy::Avg => truncating_div(sum_of(m), count_of(m) as int),
        MissingValuesPolicy::Fixed(v) => v as int,
    }
}

/// The two series differ at most in their slots.
pub open spec fn same_but_metrics(a: TimeSeries, b: TimeSeries) -> bool {
    &&& a.metrics_capacity == b.metrics_capacity
    &&& a.metric_stats == b.metric_stats
    &&& a.collision_policy == b.collision_policy
    &&& a.missing_values_policy == b.missing_values_policy
}

/// The colliding value fits in an `i64`.
pub open spec fn update_ok(ts: TimeSeries, input: (u64, i64)) -> bool {
    let r = rotated(ts.metrics@, ts.metrics_capacity as nat, input.0);
    &&& rotation_ok(ts.metrics@, ts.metrics_capacity as nat, input.0)
    &&& (r.len() > 0 && input.0 == r[r.len() - 1].0) ==> match r[r.len() - 1].1 {
        Some(e) => i64::MIN <= collision_spec(ts.collision_policy, e, input.1) <= i64::MAX,
        None => true,
    }
}

/// The slots never outgrow the capacity: with room for at least one slot,
/// moving on in time and recording a value keep at most `cap` slots.
pub proof fn update_keeps_capacity(
    m: Seq<(u64, Option<i64>)>,
    cap: nat,
    policy: ValueCollisionPolicy,
    input: (u64, i64),
)
    requires
        m.len() <= cap,
        cap >= 1,
        rotation_ok(m, cap, input.0),
    ensures
        rotated(m, cap, input.0).len() <= cap,
        1 <= updated(rotated(m, cap, input.0), cap, policy, input).len() <= cap,
{
}

impl TimeSeries {
    /// The value to show for slots without one; recomputes the statistics.
    pub fn get_missing_values_fill(&mut self) -> (r: i64)
        requires
            count_of(old(self).metrics@) > 0,
            old(self).metrics@.len() <= i64::MAX,
            sums_fit(old(self).metrics@),
        ensures
            r as int == fill_spec(old(self).missing_values_policy, old(self).metrics@),
            final(self).metrics@ == old(self).metrics@,
            final(self).metrics_capacity == old(self).metrics_capacity,
            final(self).collision_policy == old(self).collision_policy,
            final(self).missing_values_policy == old(self).missing_values_policy,
    {
        self.calculate_stats();
        match self.missing_values_policy {
            MissingValuesPolicy::Zero => 0,
            MissingValuesPolicy::One => 1,
            MissingValuesPolicy::Min => self.metric_stats.min,
            MissingValuesPolicy::Max => self.metric_stats.max,
            MissingValuesPolicy::Last => 0,
            MissingValuesPolicy::First => 0,
            MissingValuesPolicy::Avg => self.metric_stats.avg,
            MissingValuesPolicy::Fixed(val) => val,
        }
    }

    /// Moves the slots on to `epoch`: empty slots for the time units that
    /// passed, dropping the oldest when there is no room.
    pub fn rotate_metrics(&mut self, epoch: u64)
        requires
            rotation_ok(old(self).metrics@, old(self).metrics_capacity as nat, epoch),
        ensures
            final(self).metrics@ == rotated(old(self).metrics@, old(self).metrics_capacity as nat, epoch),
            final(self).metrics_capacity == old(self).metrics_capacity,
            final(self).metric_stats == old(self).metric_stats,
            final(self).collision_policy == old(self).collision_policy,
            final(self).missing_values_policy == old(self).missing_values_policy,
    {
        let ghost m = self.metrics@;
        let ghost s0 = *self;
        let cap = self.metrics_capacity;
        let metrics_length = self.metrics.len();
        if metrics_length == 0 {
            return;
        }
        let max_metrics_epoch = self.metrics[metrics_length - 1].0;
        if max_metrics_epoch == epoch {
            return;
        }
        let inactive_time = (epoch - max_metrics_epoch) as usize;
        if inactive_time > cap {
            // The whole vector is outdated: fill it with empty slots.
            let mut idx: usize = 0;
            while idx < cap
                invariant
                    same_but_metrics(*self, s0),
                    idx <= cap,
                    cap == self.metrics_capacity,
                    metrics_length == m.len(),
                    epoch >= cap,
                    self.metrics@.len() == if idx < m.len() { m.len() } else { idx as nat },
                    forall|i: int| 0 <= i < idx ==> #[trigger] self.metrics@[i] == ((epoch - cap + i + 1) as u64, None::<i64>),
                    forall|i: int| idx <= i < m.len() ==> #[trigger] self.metrics@[i] == m[i],
                decreases cap - idx,
            {
                let fill_epoch = epoch - cap as u64 + idx as u64 + 1;
                if idx < metrics_length {
                    self.metrics.set(idx, (fill_epoch, None));
                } else {
                    self.metrics.push((fill_epoch, None));
                }
                idx = idx + 1;
            }
            assert(self.metrics@ == rotated(m, cap as nat, epoch));
        } else if inactive_time + metrics_length > cap {
            let shift = inactive_time + metrics_length - cap;
            let keep = metrics_length - shift;
            let mut idx: usize = 0;
            while idx < keep
                invariant
                    same_but_metrics(*self, s0),
                    idx <= keep,
                    keep + shift == m.len(),
                    metrics_length == m.len(),
                    self.metrics@.len() == m.len(),
                    forall|i: int| 0 <= i < idx ==> #[trigger] self.metrics@[i] == m[i + shift],
                    forall|i: int| idx <= i < m.len() ==> #[trigger] self.metrics@[i] == m[i],
                decreases keep - idx,
            {
                let moved = self.metrics[idx + shift];
                self.metrics.set(idx, moved);
                idx = idx + 1;
            }
            let base = self.metrics[keep].0;
            let mut fill_epoch = base;
            let mut idx = keep;
            while idx < metrics_length
                invariant
                    same_but_metrics(*self, s0),
                    keep <= idx <= metrics_length,
                    keep + shift == m.len(),
                    metrics_length == m.len(),
                    base == m[keep as int].0,
                    base + shift <= u64::MAX,
                    fill_epoch == base + (idx - keep),
                    self.metrics@.len() == m.len(),
                    forall|i: int| 0 <= i < keep ==> #[trigger] self.metrics@[i] == m[i + shift],
                    forall|i: int| keep <= i < idx ==> #[trigger] self.metrics@[i] == ((base + (i - keep) + 1) as u64, None::<i64>),
                decreases metrics_length - idx,
            {
                fill_epoch = fill_epoch + 1;
                self.metrics.set(idx, (fill_epoch, None));
                idx = idx + 1;
            }
            assert(self.metrics@ == rotated(m, cap as nat, epoch));
        } else if inactive_time > 1 {
            // Fill the inactive time as None
            let mut idx: usize = 0;
            while idx < inactive_time - 1
                invariant
                    same_but_metrics(*self, s0),
                    idx <= inactive_time - 1,
                    inactive_time > 1,
                    max_metrics_epoch == m[m.len() - 1].0,
                    max_metrics_epoch + inactive_time <= u64::MAX,
                    self.metrics@ == m + Seq::new(idx as nat, |i: int| ((max_metrics_epoch + 1 + i) as u64, None::<i64>)),
                decreases inactive_time - 1 - idx,
            {
                self.metrics.push((max_metrics_epoch + 1 + idx as u64, None));
                assert(Seq::new((idx + 1) as nat, |i: int| ((max_metrics_epoch + 1 + i) as u64, None::<i64>))
                    == Seq::new(idx as nat, |i: int| ((max_metrics_epoch + 1 + i) as u64, None::<i64>)).push(
                    ((max_metrics_epoch + 1 + idx) as u64, None::<i64>),
                ));
                idx = idx + 1;
            }
        }
    }

    /// The value that a colliding value `new` and the slot's `existing`
    /// give under the collision policy.
    pub fn resolve_metric_collision(&self, existing: i64, new: i64) -> (r: i64)
        requires
            i64::MIN <= collision_spec(self.collision_policy, existing, new) <= i64::MAX,
        ensures
            r == collision_spec(self.collision_policy, existing, new),
    {
        match self.collision_policy {
            ValueCollisionPolicy::Increment => existing + new,
            ValueCollisionPolicy::Overwrite => new,
            ValueCollisionPolicy::Decrement => existing - new,
            ValueCollisionPolicy::Ignore => existing,
        }
    }

    /// Records the value `input.1` at epoch `input.0`.
    pub fn update(&mut self, input: (u64, i64))
        requires
            update_ok(*old(self), input),
        ensures
            final(self).metrics@ == updated(
                rotated(old(self).metrics@, old(self).metrics_capacity as nat, input.0),
                old(self).metrics_capacity as nat,
                old(self).collision_policy,
                input,
            ),
            final(self).metrics_capacity == old(self).metrics_capacity,
            final(self).metric_stats == old(self).metric_stats,
            final(self).collision_policy == old(self).collision_policy,
            final(self).missing_values_policy == old(self).missing_values_policy,
    {
        // Rotation might be needed to discard old values or clear inactivity
        self.rotate_metrics(input.0);
        let metrics_length = self.metrics.len();
        if metrics_length == 0 {
            self.metrics.push((input.0, Some(input.1)));
        } else if input.0 == self.metrics[metrics_length - 1].0 {
            // The last metric epoch and the new metric are the same:
            // resolve the collision.
            let last_metric_value = self.metrics[metrics_length - 1].1;
            if let Some(metric) = last_metric_value {
                let resolved_metric = self.resolve_metric_collision(metric, input.1);
                self.metrics.set(metrics_length - 1, (input.0, Some(resolved_metric)));
            } else {
                self.metrics.set(metrics_length - 1, (input.0, Some(input.1)));
            }
        } else if metrics_length < self.metrics_capacity {
            // There is enough space to push to the vector.
            self.metrics.push((input.0, Some(input.1)));
        } else {
            // There is not enough space to push to the vector.
            self.metrics.set(metrics_length - 1, (input.0, Some(input.1)));
        }
    }
}

} // verus!
