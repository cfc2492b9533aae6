//! Activity per time unit (a second): one value per unit, the oldest
//! dropped when there is no more room, and the units without activity
//! filled by a policy.
use vstd::prelude::*;

use crate::activity_levels::{truncating_div, MissingValuesPolicy};
use crate::config::parse::{chars_eq_str, str_chars};
use crate::Rgb;

verus! {

/// The activity levels of a metric, one per second.
#[derive(Debug, Clone)]
pub struct ActivityLevels {
    /// One entry per second
    pub activity_levels: Vec<i64>,
    /// The second of the last activity
    pub last_activity_time: u64,
    /// How many seconds to keep; older entries make way for newer ones
    pub max_activity_ticks: usize,
    /// The color of the activity line
    pub color: Rgb,
    /// Whether a value replaces the current second's entry instead of
    /// adding to it
    pub overwrite_last_entry: bool,
    /// A reference value to mark, such as one task per core for load
    pub marker_line: Option<i64>,
    /// How the seconds without activity are filled
    pub missing_values_policy: MissingValuesPolicy,
}

/// The largest level, starting from 0.
pub open spec fn levels_max(s: Seq<i64>) -> i64
    decreases s.len(),
{
    if s.len() == 0 {
        0
    } else {
        let rest = levels_max(s.drop_last());
        if s.last() > rest {
            s.last()
        } else {
            rest
        }
    }
}

/// The smallest level, starting from `i64::MAX`.
pub open spec fn levels_min(s: Seq<i64>) -> i64
    decreases s.len(),
{
    if s.len() == 0 {
        i64::MAX
    } else {
        let rest = levels_min(s.drop_last());
        if s.last() < rest {
            s.last()
        } else {
            rest
        }
    }
}

/// The sum of the levels.
pub open spec fn levels_sum(s: Seq<i64>) -> int
    decreases s.len(),
{
    if s.len() == 0 {
        0
    } else {
        levels_sum(s.drop_last()) + s.last()
    }
}

/// Every partial sum of the levels fits in an `i64`.
pub open spec fn level_sums_fit(s: Seq<i64>) -> bool {
    forall|k: int| 0 <= k <= s.len() ==> i64::MIN <= #[trigger] levels_sum(s.take(k)) <= i64::MAX
}

/// The value that fills the seconds without activity.
pub open spec fn level_fill_spec(policy: MissingValuesPolicy, s: Seq<i64>) -> int {
    match policy {
        MissingValuesPolicy::Zero => 0,
        MissingValuesPolicy::One => 1,
        MissingValuesPolicy::Min => levels_min(s) as int,
        MissingValuesPolicy::Max => levels_max(s) as int,
        MissingValuesPolicy::Last => s.last() as int,
        MissingValuesPolicy::First => s[0] as int,
        MissingValuesPolicy::Avg => truncating_div(levels_sum(s), s.len() as int),
        MissingValuesPolicy::Fixed(v) => v as int,
    }
}

/// The inputs on which the fill is computed without overflow, and the
/// first, last and average policies have a level to read.
pub open spec fn level_fill_ok(policy: MissingValuesPolicy, s: Seq<i64>) -> bool {
    &&& level_sums_fit(s)
    &&& s.len() <= i64::MAX
    &&& (policy is First || policy is Last || policy is Avg) ==> s.len() > 0
}

/// The missing values policy that a name selects; names that select none
/// select the first value.
pub open spec fn level_policy_named(name: Seq<char>) -> MissingValuesPolicy {
    if name == "zero"@ {
        MissingValuesPolicy::Zero
    } else if name == "one"@ {
        MissingValuesPolicy::One
    } else if name == "min"@ {
        MissingValuesPolicy::Min
    } else if name == "max"@ {
        MissingValuesPolicy::Max
    } else if name == "last"@ {
        MissingValuesPolicy::Last
    } else if name == "avg"@ {
        MissingValuesPolicy::Avg
    } else {
        MissingValuesPolicy::First
    }
}

/// The seconds of inactivity that count: at most `max`.
pub open spec fn inactive_ticks(elapsed: u64, max: nat) -> nat {
    let t = (elapsed as usize) as nat;
    if t > max {
        max
    } else {
        t
    }
}

/// The levels after `inactive` seconds without activity: when they would
/// not fit, the oldest are dropped and the newest slots take the fill;
/// otherwise `inactive - 1` fills are added.
pub open spec fn rotated_levels(s: Seq<i64>, max: nat, inactive: nat, fill: i64) -> Seq<i64> {
    let len = s.len();
    if inactive + len > max {
        let shift = (inactive + len - max) as nat;
        Seq::new(len, |i: int| if i < len - shift { s[i + shift] } else { fill })
    } else {
        s + Seq::new((inactive - 1) as nat, |i: int| fill)
    }
}

/// The inputs on which rotation to `now` neither goes back in time nor
/// overflows.
pub open spec fn rotation_at_ok(a: ActivityLevels, now: u64) -> bool {
    let s = a.activity_levels@;
    let inactive = inactive_ticks((now - a.last_activity_time) as u64, a.max_activity_ticks as nat);
    &&& a.last_activity_time <= now
    &&& inactive + s.len() <= usize::MAX
    &&& inactive + s.len() <= a.max_activity_ticks ==> inactive >= 1
    &&& level_fill_ok(a.missing_values_policy, s)
}

/// The levels after rotation to `now`.
pub open spec fn rotated_at(a: ActivityLevels, now: u64) -> Seq<i64> {
    rotated_levels(
        a.activity_levels@,
        a.max_activity_ticks as nat,
        inactive_ticks((now - a.last_activity_time) as u64, a.max_activity_ticks as nat),
        level_fill_spec(a.missing_values_policy, a.activity_levels@) as i64,
    )
}

/// The levels after `value` is recorded at second `now`.
pub open spec fn updated_levels(a: ActivityLevels, now: u64, value: i64) -> Seq<i64> {
    let s = a.activity_levels@;
    let len = s.len();
    if len == 0 {
        seq![value]
    } else if now == a.last_activity_time {
        if a.overwrite_last_entry {
            s.update(len - 1, value)
        } else {
            s.update(len - 1, (s[len - 1] + value) as i64)
        }
    } else {
        let r = rotated_at(a, now);
        if r.len() < a.max_activity_ticks {
            r.push(value)
        } else {
            r.update(r.len() - 1, value)
        }
    }
}

/// The inputs on which recording a value at `now` neither goes back in
/// time nor overflows.
pub open spec fn update_at_ok(a: ActivityLevels, now: u64, value: i64) -> bool {
    let s = a.activity_levels@;
    let len = s.len();
    len > 0 ==> if now == a.last_activity_time {
        !a.overwrite_last_entry ==> i64::MIN <= s[len - 1] + value <= i64::MAX
    } else {
        rotation_at_ok(a, now)
    }
}

/// The two differ at most in their levels and the time of the last
/// activity.
pub open spec fn same_settings(a: ActivityLevels, b: ActivityLevels) -> bool {
    &&& a.max_activity_ticks == b.max_activity_ticks
    &&& a.color == b.color
    &&& a.overwrite_last_entry == b.overwrite_last_entry
    &&& a.marker_line == b.marker_line
    &&& a.missing_values_policy == b.missing_values_policy
}

/// The levels never outgrow `max_activity_ticks`: with room for one
/// entry, recording a value keeps at most that many.
pub proof fn update_keeps_ticks(a: ActivityLevels, now: u64, value: i64)
    requires
        a.activity_levels@.len() <= a.max_activity_ticks,
        a.max_activity_ticks >= 1,
        update_at_ok(a, now, value),
    ensures
        1 <= updated_levels(a, now, value).len() <= a.max_activity_ticks,
{
}

/// The value recorded at a new second, or that overwrites the current
/// one, is the newest level.
pub proof fn update_records_value_last(a: ActivityLevels, now: u64, value: i64)
    requires
        a.max_activity_ticks >= 1,
        update_at_ok(a, now, value),
        a.activity_levels@.len() == 0 || now != a.last_activity_time || a.overwrite_last_entry,
    ensures
        updated_levels(a, now, value).len() > 0,
        updated_levels(a, now, value).last() == value,
{
}

/// The levels of the seconds before the current one stay as they were
/// when a value is added to the current second.
pub proof fn same_second_keeps_history(a: ActivityLevels, now: u64, value: i64)
    requires
        a.activity_levels@.len() > 0,
        now == a.last_activity_time,
        update_at_ok(a, now, value),
    ensures
        updated_levels(a, now, value).len() == a.activity_levels@.len(),
        forall|i: int|
            0 <= i < a.activity_levels@.len() - 1 ==> #[trigger] updated_levels(a, now, value)[i]
                == a.activity_levels@[i],
{
}

proof fn lemma_max_at_least_zero(s: Seq<i64>)
    ensures
        levels_max(s) >= 0,
    decreases s.len(),
{
    if s.len() > 0 {
        lemma_max_at_least_zero(s.drop_last());
    }
}

impl ActivityLevels {
    /// Five minutes of activity, one entry per second, drawn in red, with
    /// the last activity at `last_activity_time`.
    pub fn new(last_activity_time: u64) -> (r: ActivityLevels)
        ensures
            r.activity_levels@.len() == 0,
            r.last_activity_time == last_activity_time,
            r.max_activity_ticks == 300,
            r.color == (Rgb { r: 183, g: 28, b: 28 }),
            !r.overwrite_last_entry,
            r.marker_line is None,
            r.missing_values_policy == MissingValuesPolicy::Zero,
    {
        ActivityLevels {
            activity_levels: Vec::new(),
            last_activity_time,
            max_activity_ticks: 300,
            color: Rgb { r: 183, g: 28, b: 28 },
            overwrite_last_entry: false,
            marker_line: None,
            missing_values_policy: MissingValuesPolicy::Zero,
        }
    }

    /// The levels drawn in `color`.
    pub fn with_color(self, color: Rgb) -> (r: ActivityLevels)
        ensures
            r == (ActivityLevels { color, ..self }),
    {
        let mut new_self = self;
        new_self.color = color;
        new_self
    }

    /// The levels with values replacing, or adding to, the current second's.
    pub fn with_overwrite_last_entry(self, value: bool) -> (r: ActivityLevels)
        ensures
            r == (ActivityLevels { overwrite_last_entry: value, ..self }),
    {
        let mut new_self = self;
        new_self.overwrite_last_entry = value;
        new_self
    }

    /// The levels with a marker line at `value`.
    pub fn with_marker_line(self, value: i64) -> (r: ActivityLevels)
        ensures
            r == (ActivityLevels { marker_line: Some(value), ..self }),
    {
        let mut new_self = self;
        new_self.marker_line = Some(value);
        new_self
    }

    /// The levels with the missing values policy of the given name.
    pub fn with_missing_values_policy(self, policy_type: String) -> (r: ActivityLevels)
        ensures
            r == (ActivityLevels { missing_values_policy: level_policy_named(policy_type@), ..self }),
    {
        let mut new_self = self;
        let v = str_chars(policy_type.as_str());
        let n = v.len();
        assert(v@.subrange(0, n as int) == v@);
        new_self.missing_values_policy = if chars_eq_str(&v, 0, n, "zero") {
            MissingValuesPolicy::Zero
        } else if chars_eq_str(&v, 0, n, "one") {
            MissingValuesPolicy::One
        } else if chars_eq_str(&v, 0, n, "min") {
            MissingValuesPolicy::Min
        } else if chars_eq_str(&v, 0, n, "max") {
            MissingValuesPolicy::Max
        } else if chars_eq_str(&v, 0, n, "last") {
            MissingValuesPolicy::Last
        } else if chars_eq_str(&v, 0, n, "avg") {
            MissingValuesPolicy::Avg
        } else {
            MissingValuesPolicy::First
        };
        new_self
    }

    /// The value that fills the seconds without activity.
    pub fn get_missing_values_fill(&self) -> (r: i64)
        requires
            level_fill_ok(self.missing_values_policy, self.activity_levels@),
        ensures
            r as int == level_fill_spec(self.missing_values_policy, self.activity_levels@),
    {
        let ghost s = self.activity_levels@;
        let mut max_activity_value: i64 = 0;
        let mut min_activity_value: i64 = i64::MAX;
        let mut sum_activity_values: i64 = 0;
        let activity_time_length = self.activity_levels.len();
        let mut idx: usize = 0;
        while idx < activity_time_length
            invariant
                idx <= activity_time_length,
                activity_time_length == s.len(),
                self.activity_levels@ == s,
                level_sums_fit(s),
                max_activity_value == levels_max(s.take(idx as int)),
                min_activity_value == levels_min(s.take(idx as int)),
                sum_activity_values == levels_sum(s.take(idx as int)),
            decreases activity_time_length - idx,
        {
            proof {
                assert(s.take(idx + 1).drop_last() == s.take(idx as int));
                assert(s.take(idx + 1).last() == s[idx as int]);
                assert(i64::MIN <= levels_sum(s.take(idx + 1)) <= i64::MAX);
            }
            let value = self.activity_levels[idx];
            if value > max_activity_value {
                max_activity_value = value;
            }
            if value < min_activity_value {
                min_activity_value = value;
            }
            sum_activity_values = sum_activity_values + value;
            idx = idx + 1;
        }
        assert(s.take(s.len() as int) == s);
        match self.missing_values_policy {
            MissingValuesPolicy::Zero => 0,
            MissingValuesPolicy::One => 1,
            MissingValuesPolicy::Min => min_activity_value,
            MissingValuesPolicy::Max => max_activity_value,
            MissingValuesPolicy::Last => self.activity_levels[activity_time_length - 1],
            MissingValuesPolicy::First => self.activity_levels[0],
            MissingValuesPolicy::Avg => sum_activity_values / (activity_time_length as i64),
            MissingValuesPolicy::Fixed(val) => val,
        }
    }
    /// Moves the levels on to second `now`: the seconds without activity
    /// get the fill value, and the oldest levels make way when there is no
    /// room.
    pub fn rotate_activity_levels_vec(&mut self, now: u64)
        requires
            rotation_at_ok(*old(self), now),
        ensures
            final(self).activity_levels@ == rotated_at(*old(self), now),
            final(self).last_activity_time == old(self).last_activity_time,
            same_settings(*final(self), *old(self)),
    {
        let ghost s = self.activity_levels@;
        let ghost s0 = *self;
        let activity_time_length = self.activity_levels.len();
        let mut inactive_time = #[verifier::truncate] ((now - self.last_activity_time) as usize);
        if inactive_time > self.max_activity_ticks {
            inactive_time = self.max_activity_ticks;
        }
        let missing_timeslots_fill = self.get_missing_values_fill();
        if inactive_time + activity_time_length > self.max_activity_ticks {
            let shift_left_times = inactive_time + activity_time_length - self.max_activity_ticks;
            let keep = activity_time_length - shift_left_times;
            let mut idx: usize = 0;
            while idx < keep
                invariant
                    same_settings(*self, s0),
                    self.last_activity_time == s0.last_activity_time,
                    idx <= keep,
                    activity_time_length == s.len(),
                    keep + shift_left_times == s.len(),
                    self.activity_levels@.len() == s.len(),
                    forall|i: int| 0 <= i < idx ==> #[trigger] self.activity_levels@[i] == s[i + shift_left_times],
                    forall|i: int| idx <= i < s.len() ==> #[trigger] self.activity_levels@[i] == s[i],
                decreases keep - idx,
            {
                let moved = self.activity_levels[idx + shift_left_times];
                self.activity_levels.set(idx, moved);
                idx = idx + 1;
            }
            let mut idx = keep;
            while idx < activity_time_length
                invariant
                    same_settings(*self, s0),
                    self.last_activity_time == s0.last_activity_time,
                    keep <= idx <= activity_time_length,
                    activity_time_length == s.len(),
                    keep + shift_left_times == s.len(),
                    self.activity_levels@.len() == s.len(),
                    forall|i: int| 0 <= i < keep ==> #[trigger] self.activity_levels@[i] == s[i + shift_left_times],
                    forall|i: int| keep <= i < idx ==> #[trigger] self.activity_levels@[i] == missing_timeslots_fill,
                decreases activity_time_length - idx,
            {
                self.activity_levels.set(idx, missing_timeslots_fill);
                idx = idx + 1;
            }
            assert(self.activity_levels@ == rotated_at(s0, now));
        } else {
            let mut idx: usize = 0;
            while idx < inactive_time - 1
                invariant
                    same_settings(*self, s0),
                    self.last_activity_time == s0.last_activity_time,
                    inactive_time >= 1,
                    idx <= inactive_time - 1,
                    self.activity_levels@ == s + Seq::new(idx as nat, |i: int| missing_timeslots_fill),
                decreases inactive_time - 1 - idx,
            {
                self.activity_levels.push(missing_timeslots_fill);
                assert(Seq::new((idx + 1) as nat, |i: int| missing_timeslots_fill) == Seq::new(
                    idx as nat,
                    |i: int| missing_timeslots_fill,
                ).push(missing_timeslots_fill));
                idx = idx + 1;
            }
            assert(self.activity_levels@ == rotated_at(s0, now));
        }
    }

    /// Records `new_value` at second `now`: it replaces, or adds to, the
    /// current second's level, or starts a new second after the levels
    /// have moved on to `now`.
    pub fn update_activity_level(&mut self, now: u64, new_value: i64)
        requires
            update_at_ok(*old(self), now, new_value),
        ensures
            final(self).activity_levels@ == updated_levels(*old(self), now, new_value),
            final(self).last_activity_time == now,
            same_settings(*final(self), *old(self)),
    {
        let activity_time_length = self.activity_levels.len();
        if activity_time_length == 0 {
            self.activity_levels.push(new_value);
            self.last_activity_time = now;
            return;
        }
        if now == self.last_activity_time {
            if self.overwrite_last_entry {
                self.activity_levels.set(activity_time_length - 1, new_value);
            } else {
                let current = self.activity_levels[activity_time_length - 1];
                self.activity_levels.set(activity_time_length - 1, current + new_value);
            }
            return;
        }
        self.rotate_activity_levels_vec(now);
        let activity_time_length = self.activity_levels.len();
        if activity_time_length < self.max_activity_ticks {
            self.activity_levels.push(new_value);
        } else {
            self.activity_levels.set(activity_time_length - 1, new_value);
        }
        self.last_activity_time = now;
    }

    /// The largest level, at least 0 and at least the marker line: the
    /// value that the chart's height stands for.
    pub fn max_activity_value(&self) -> (r: i64)
        ensures
            r == match self.marker_line {
                Some(m) => if m > levels_max(self.activity_levels@) { m } else { levels_max(self.activity_levels@) },
                None => levels_max(self.activity_levels@),
            },
            r >= 0,
    {
        let ghost s = self.activity_levels@;
        let mut max_activity_value: i64 = 0;
        let mut idx: usize = 0;
        while idx < self.activity_levels.len()
            invariant
                idx <= s.len(),
                self.activity_levels@ == s,
                max_activity_value == levels_max(s.take(idx as int)),
            decreases s.len() - idx,
        {
            proof {
                assert(s.take(idx + 1).drop_last() == s.take(idx as int));
            }
            if self.activity_levels[idx] > max_activity_value {
                max_activity_value = self.activity_levels[idx];
            }
            idx = idx + 1;
        }
        assert(s.take(s.len() as int) == s);
        proof {
            lemma_max_at_least_zero(s);
        }
        if let Some(marker_line_value) = self.marker_line {
            if marker_line_value > max_activity_value {
                max_activity_value = marker_line_value;
            }
        }
        max_activity_value
    }
}

} // verus!
