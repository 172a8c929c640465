//! Local calendar arithmetic used to predict scheduled-task fire times.
//!
//! A [`LocalTime`] is a Win32 `SYSTEMTIME` as `GetLocalTime` reports it
//! (without milliseconds). Dates are numbered by [`day_number`], the count of
//! days since the start of year 0 in the proleptic Gregorian calendar, so that
//! "one day later" is "day number plus one".

use vstd::prelude::*;

use crate::text::{push_char, push_zero_padded, zero_pad};

verus! {

/// Wall-clock local time (`day_of_week`: 0 = Sunday … 6 = Saturday).
#[derive(Debug, Clone, Copy, PartialEq, Eq, Structural)]
pub struct LocalTime {
    pub year: u16,
    pub month: u16,
    pub day_of_week: u16,
    pub day: u16,
    pub hour: u16,
    pub minute: u16,
    pub second: u16,
}

/// Whether `year` is a Gregorian leap year.
pub open spec fn spec_is_leap(year: int) -> bool {
    (year % 4 == 0 && year % 100 != 0) || year % 400 == 0
}

/// Length of `month` in `year`; months outside 1..=12 count as 30 days.
pub open spec fn spec_days_in_month(year: int, month: int) -> int {
    if month == 1 || month == 3 || month == 5 || month == 7 || month == 8 || month == 10
        || month == 12 {
        31
    } else if month == 4 || month == 6 || month == 9 || month == 11 {
        30
    } else if month == 2 {
        if spec_is_leap(year) {
            29
        } else {
            28
        }
    } else {
        30
    }
}

pub open spec fn days_in_year(year: int) -> int {
    if spec_is_leap(year) {
        366
    } else {
        365
    }
}

/// Days in the years before `year`.
pub open spec fn days_before_year(year: nat) -> nat
    decreases year,
{
    if year == 0 {
        0
    } else {
        days_before_year((year - 1) as nat) + days_in_year(year - 1) as nat
    }
}

/// Days in the months of `year` before `month`.
pub open spec fn days_before_month(year: int, month: nat) -> nat
    decreases month,
{
    if month <= 1 {
        0
    } else {
        days_before_month(year, (month - 1) as nat) + spec_days_in_month(year, month - 1) as nat
    }
}

/// A real calendar date: month 1..=12 and day within the month.
pub open spec fn valid_date(t: LocalTime) -> bool {
    &&& 1 <= t.month <= 12
    &&& 1 <= t.day <= spec_days_in_month(t.year as int, t.month as int)
}

/// A real local time as the OS reports it.
pub open spec fn valid_local_time(t: LocalTime) -> bool {
    &&& valid_date(t)
    &&& t.day_of_week < 7
    &&& t.hour < 24
    &&& t.minute < 60
    &&& t.second < 60
}

/// The ordinal of `t`'s date: consecutive dates have consecutive numbers.
pub open spec fn day_number(t: LocalTime) -> int {
    days_before_year(t.year as nat) + days_before_month(t.year as int, t.month as nat) + t.day
}

/// `(d1, h1, m1, s1)` comes strictly before `(d2, h2, m2, s2)`.
pub open spec fn moment_lt(
    d1: int,
    h1: int,
    m1: int,
    s1: int,
    d2: int,
    h2: int,
    m2: int,
    s2: int,
) -> bool {
    ||| d1 < d2
    ||| d1 == d2 && h1 < h2
    ||| d1 == d2 && h1 == h2 && m1 < m2
    ||| d1 == d2 && h1 == h2 && m1 == m2 && s1 < s2
}

/// `a` is strictly earlier than `b`.
pub open spec fn time_lt(a: LocalTime, b: LocalTime) -> bool {
    moment_lt(
        day_number(a),
        a.hour as int,
        a.minute as int,
        a.second as int,
        day_number(b),
        b.hour as int,
        b.minute as int,
        b.second as int,
    )
}

/// `r` is the first moment strictly after `now` at which `slot` holds: a slot
/// is a predicate on (day number, hour, minute, second).
pub open spec fn first_slot_after(
    now: LocalTime,
    r: LocalTime,
    slot: spec_fn(int, int, int, int) -> bool,
) -> bool {
    &&& valid_local_time(r)
    &&& slot(day_number(r), r.hour as int, r.minute as int, r.second as int)
    &&& time_lt(now, r)
    &&& forall|d: int, h: int, m: int, s: int|
        0 <= h < 24 && 0 <= m < 60 && 0 <= s < 60 && #[trigger] slot(d, h, m, s) && moment_lt(
            day_number(now),
            now.hour as int,
            now.minute as int,
            now.second as int,
            d,
            h,
            m,
            s,
        ) ==> !moment_lt(
            d,
            h,
            m,
            s,
            day_number(r),
            r.hour as int,
            r.minute as int,
            r.second as int,
        )
}

/// Weekday (0 = Sunday) of day number `d`, counted from `now`'s weekday.
pub open spec fn weekday_of(now: LocalTime, d: int) -> int {
    (now.day_of_week + (d - day_number(now))) % 7
}

/// Every hour at `minute`.
pub open spec fn hourly_slot(minute: int) -> spec_fn(int, int, int, int) -> bool {
    |d: int, h: int, m: int, s: int| m == minute && s == 0
}

/// Every day at each of `hours`, at `minute`.
pub open spec fn hours_slot(hours: Seq<u16>, minute: int) -> spec_fn(int, int, int, int) -> bool {
    |d: int, h: int, m: int, s: int|
        (exists|i: int| 0 <= i < hours.len() && hours[i] == h) && m == minute && s == 0
}

/// Every day at `hour:minute`.
pub open spec fn daily_slot(hour: int, minute: int) -> spec_fn(int, int, int, int) -> bool {
    |d: int, h: int, m: int, s: int| h == hour && m == minute && s == 0
}

/// Every week on `weekday` at `hour:minute`, weekdays counted from `now`.
pub open spec fn weekly_slot(now: LocalTime, weekday: int, hour: int, minute: int) -> spec_fn(
    int,
    int,
    int,
    int,
) -> bool {
    |d: int, h: int, m: int, s: int|
        weekday_of(now, d) == weekday && h == hour && m == minute && s == 0
}


pub open spec fn time_tuple_lt_spec(a: (u16, u16, u16), b: (u16, u16, u16)) -> bool {
    a.0 < b.0 || (a.0 == b.0 && a.1 < b.1) || (a.0 == b.0 && a.1 == b.1 && a.2 < b.2)
}

pub fn is_leap(year: u16) -> (r: bool)
    ensures
        r == spec_is_leap(year as int),
{
    (year % 4 == 0 && year % 100 != 0) || (year % 400 == 0)
}

pub fn days_in_month(year: u16, month: u16) -> (r: u16)
    ensures
        r == spec_days_in_month(year as int, month as int),
{
    match month {
        1 | 3 | 5 | 7 | 8 | 10 | 12 => 31,
        4 | 6 | 9 | 11 => 30,
        2 => {
            if is_leap(year) {
                29
            } else {
                28
            }
        },
        _ => 30,
    }
}

/// The twelve months of a year add up to the year's length.
pub proof fn lemma_months_fill_year(year: int)
    ensures
        days_before_month(year, 12) + 31 == days_in_year(year),
{
    reveal_with_fuel(days_before_month, 12);
}

/// The walk [`add_days_forward`] makes: `left` days on from `t`, month by
/// month; past December of year 65535 the year stays at 65535.
pub open spec fn walk_days(t: LocalTime, left: nat) -> LocalTime
    decreases left,
{
    if left == 0 {
        t
    } else {
        let dim = spec_days_in_month(t.year as int, t.month as int);
        let room: int = if dim >= t.day {
            dim - t.day
        } else {
            0
        };
        if left <= room {
            LocalTime { day: (t.day + left) as u16, ..t }
        } else {
            let next = if t.month + 1 > 12 {
                LocalTime {
                    day: 1,
                    month: 1,
                    year: if t.year < 65535 {
                        (t.year + 1) as u16
                    } else {
                        65535
                    },
                    ..t
                }
            } else {
                LocalTime { day: 1, month: (t.month + 1) as u16, ..t }
            };
            walk_days(next, (left - room - 1) as nat)
        }
    }
}

/// What [`add_days_forward`] returns: the walk, with the weekday advanced and
/// the seconds cleared.
pub open spec fn add_days_view(t: LocalTime, days: u32) -> LocalTime {
    LocalTime {
        second: 0,
        ..walk_days(LocalTime { day_of_week: ((t.day_of_week + days) % 7) as u16, ..t }, days as nat)
    }
}

/// `t` with the clock set to `hour:minute:00`.
pub open spec fn at_view(t: LocalTime, hour: u16, minute: u16) -> LocalTime {
    LocalTime { hour, minute, second: 0, ..t }
}

/// `days` days after `t` (date only; hour and minute kept, seconds cleared).
pub fn add_days_forward(t: LocalTime, days: u32) -> (r: LocalTime)
    requires
        valid_date(t),
        days <= 28,
    ensures
        r == add_days_view(t, days),
        valid_date(r),
        t.year < 65535 ==> day_number(r) == day_number(t) + days,
        r.day_of_week == (t.day_of_week + days) % 7,
        r.hour == t.hour,
        r.minute == t.minute,
        r.second == 0,
{
    let t0 = t;
    let mut t = t;
    t.day_of_week = ((t.day_of_week as u32 + days) % 7) as u16;
    let ghost start = t;
    let mut left = days;
    while left > 0
        invariant
            valid_date(t),
            walk_days(t, left as nat) == walk_days(start, days as nat),
            t0.year < 65535 ==> day_number(t) + left == day_number(t0) + days,
            left <= days <= 28,
            t0.year < 65535 ==> (t.year == t0.year || (t.year == t0.year + 1 && t.month == 1 && (
            left == 0 || t.day == 1))),
            t.day_of_week == (t0.day_of_week + days) % 7,
            t.hour == t0.hour,
            t.minute == t0.minute,
        decreases left,
    {
        let dim = days_in_month(t.year, t.month) as u32;
        let room = dim - t.day as u32;
        if left <= room {
            t.day = t.day + left as u16;
            left = 0;
        } else {
            let ghost before = t;
            left = left - (room + 1);
            t.day = 1;
            t.month = t.month + 1;
            if t.month > 12 {
                proof {
                    lemma_months_fill_year(before.year as int);
                }
                t.month = 1;
                t.year = t.year.saturating_add(1);
            }
        }
    }
    t.second = 0;
    t
}

/// `t` with the clock set to `hour:minute:00`.
pub fn at_time(t: LocalTime, hour: u16, minute: u16) -> (r: LocalTime)
    ensures
        r == (LocalTime { hour, minute, second: 0, ..t }),
{
    let mut t = t;
    t.hour = hour;
    t.minute = minute;
    t.second = 0;
    t
}

pub fn time_tuple(t: LocalTime) -> (r: (u16, u16, u16))
    ensures
        r == (t.hour, t.minute, t.second),
{
    (t.hour, t.minute, t.second)
}

/// `a < b` in lexicographic `(hour, minute, second)` order.
pub fn time_tuple_lt(a: (u16, u16, u16), b: (u16, u16, u16)) -> (r: bool)
    ensures
        r == time_tuple_lt_spec(a, b),
{
    a.0 < b.0 || (a.0 == b.0 && a.1 < b.1) || (a.0 == b.0 && a.1 == b.1 && a.2 < b.2)
}

/// What [`next_hourly_at_minute`] returns.
pub open spec fn next_hourly_view(now: LocalTime, minute: u16) -> LocalTime {
    if now.minute < minute {
        at_view(now, now.hour, minute)
    } else if now.hour == 23 {
        at_view(add_days_view(now, 1), 0, minute)
    } else {
        at_view(now, (now.hour + 1) as u16, minute)
    }
}

/// The first of `hours` from place `i` on whose `hour:minute:00` is later in
/// the day than `now`.
pub open spec fn first_later_hour(hours: Seq<u16>, now: LocalTime, minute: u16, i: int) -> Option<u16>
    decreases hours.len() - i,
{
    if i < 0 || i >= hours.len() {
        None
    } else if time_tuple_lt_spec((now.hour, now.minute, now.second), (hours[i], minute, 0u16)) {
        Some(hours[i])
    } else {
        first_later_hour(hours, now, minute, i + 1)
    }
}

/// What [`next_every_n_hours`] returns.
pub open spec fn next_hours_view(now: LocalTime, hours: Seq<u16>, minute: u16) -> LocalTime {
    match first_later_hour(hours, now, minute, 0) {
        Some(h) => at_view(now, h, minute),
        None => at_view(add_days_view(now, 1), hours[0], minute),
    }
}

/// What [`next_daily_at`] returns.
pub open spec fn next_daily_view(now: LocalTime, hour: u16, minute: u16) -> LocalTime {
    if time_tuple_lt_spec((now.hour, now.minute, now.second), (hour, minute, 0u16)) {
        at_view(now, hour, minute)
    } else {
        at_view(add_days_view(now, 1), hour, minute)
    }
}

/// What [`next_weekday_at`] returns.
pub open spec fn next_weekday_view(now: LocalTime, weekday: u16, hour: u16, minute: u16) -> LocalTime {
    if now.day_of_week == weekday && time_tuple_lt_spec(
        (now.hour, now.minute, now.second),
        (hour, minute, 0u16),
    ) {
        at_view(now, hour, minute)
    } else {
        let ahead = (weekday + 7 - now.day_of_week) % 7;
        at_view(
            add_days_view(
                now,
                if ahead == 0 {
                    7u32
                } else {
                    ahead as u32
                },
            ),
            hour,
            minute,
        )
    }
}

/// Next occurrence of `HH:mm` on an hourly cadence (minute fixed, e.g. :05):
/// the first such moment strictly after `now`.
pub fn next_hourly_at_minute(now: LocalTime, minute: u16) -> (r: LocalTime)
    requires
        valid_local_time(now),
        minute < 60,
    ensures
        r == next_hourly_view(now, minute),
        now.year < 65535 ==> first_slot_after(now, r, hourly_slot(minute as int)),
        now.year < 65535 ==> r.day_of_week == weekday_of(now, day_number(r)),
{
    if now.minute < minute {
        return at_time(now, now.hour, minute);
    }
    if now.hour == 23 {
        at_time(add_days_forward(now, 1), 0, minute)
    } else {
        at_time(now, now.hour + 1, minute)
    }
}

/// Next slot among fixed local hours (e.g. 3/9/15/21), at `minute`: the first
/// such moment strictly after `now`.
pub fn next_every_n_hours(now: LocalTime, hours: &[u16], minute: u16) -> (r: LocalTime)
    requires
        valid_local_time(now),
        minute < 60,
        hours@.len() > 0,
        forall|i: int| 0 <= i < hours@.len() ==> hours@[i] < 24,
        forall|i: int, j: int| 0 <= i < j < hours@.len() ==> hours@[i] < hours@[j],
    ensures
        r == next_hours_view(now, hours@, minute),
        now.year < 65535 ==> first_slot_after(now, r, hours_slot(hours@, minute as int)),
        now.year < 65535 ==> r.day_of_week == weekday_of(now, day_number(r)),
{
    let mut i: usize = 0;
    while i < hours.len()
        invariant
            0 <= i <= hours@.len(),
            valid_local_time(now),
            first_later_hour(hours@, now, minute, 0) == first_later_hour(hours@, now, minute, i as int),
            minute < 60,
            forall|j: int| 0 <= j < hours@.len() ==> hours@[j] < 24,
            forall|a: int, b: int| 0 <= a < b < hours@.len() ==> hours@[a] < hours@[b],
            forall|j: int|
                0 <= j < i ==> !time_tuple_lt_spec(
                    (now.hour, now.minute, now.second),
                    (#[trigger] hours@[j], minute, 0u16),
                ),
        decreases hours@.len() - i,
    {
        let h = hours[i];
        let candidate = at_time(now, h, minute);
        if time_tuple_lt(time_tuple(now), time_tuple(candidate)) {
            proof {
                assert(hours_slot(hours@, minute as int)(
                    day_number(candidate),
                    h as int,
                    minute as int,
                    0,
                ));
                assert forall|d: int, hh: int, m: int, s: int|
                    0 <= hh < 24 && 0 <= m < 60 && 0 <= s < 60 && #[trigger] hours_slot(
                        hours@,
                        minute as int,
                    )(d, hh, m, s) && moment_lt(
                        day_number(now),
                        now.hour as int,
                        now.minute as int,
                        now.second as int,
                        d,
                        hh,
                        m,
                        s,
                    ) implies !moment_lt(
                    d,
                    hh,
                    m,
                    s,
                    day_number(candidate),
                    candidate.hour as int,
                    candidate.minute as int,
                    candidate.second as int,
                ) by {
                    let k = choose|k: int| 0 <= k < hours@.len() && hours@[k] == hh;
                    if k < i {
                        assert(!time_tuple_lt_spec(
                            (now.hour, now.minute, now.second),
                            (hours@[k], minute, 0u16),
                        ));
                    } else if k > i {
                        assert(hours@[i as int] < hours@[k]);
                    }
                }
            }
            return candidate;
        }
        i = i + 1;
    }
    let r = at_time(add_days_forward(now, 1), hours[0], minute);
    proof {
        if now.year < 65535 {
        assert(hours_slot(hours@, minute as int)(day_number(r), hours@[0] as int, minute as int, 0));
        assert forall|d: int, hh: int, m: int, s: int|
            0 <= hh < 24 && 0 <= m < 60 && 0 <= s < 60 && #[trigger] hours_slot(
                hours@,
                minute as int,
            )(d, hh, m, s) && moment_lt(
                day_number(now),
                now.hour as int,
                now.minute as int,
                now.second as int,
                d,
                hh,
                m,
                s,
            ) implies !moment_lt(
            d,
            hh,
            m,
            s,
            day_number(r),
            r.hour as int,
            r.minute as int,
            r.second as int,
        ) by {
            let k = choose|k: int| 0 <= k < hours@.len() && hours@[k] == hh;
            assert(!time_tuple_lt_spec(
                (now.hour, now.minute, now.second),
                (hours@[k], minute, 0u16),
            ));
            if k > 0 {
                assert(hours@[0] < hours@[k]);
            }
        }
    }
        }
    r
}

/// The first `hour:minute` strictly after `now`, today or tomorrow.
pub fn next_daily_at(now: LocalTime, hour: u16, minute: u16) -> (r: LocalTime)
    requires
        valid_local_time(now),
        hour < 24,
        minute < 60,
    ensures
        r == next_daily_view(now, hour, minute),
        now.year < 65535 ==> first_slot_after(now, r, daily_slot(hour as int, minute as int)),
        now.year < 65535 ==> r.day_of_week == weekday_of(now, day_number(r)),
{
    let today = at_time(now, hour, minute);
    if time_tuple_lt(time_tuple(now), time_tuple(today)) {
        today
    } else {
        at_time(add_days_forward(now, 1), hour, minute)
    }
}

/// The first `weekday` at `hour:minute` strictly after `now`
/// (`weekday`: 0 = Sunday … 6 = Saturday, as in Win32).
pub fn next_weekday_at(now: LocalTime, weekday: u16, hour: u16, minute: u16) -> (r: LocalTime)
    requires
        valid_local_time(now),
        weekday < 7,
        hour < 24,
        minute < 60,
    ensures
        r == next_weekday_view(now, weekday, hour, minute),
        now.year < 65535 ==> first_slot_after(
            now,
            r,
            weekly_slot(now, weekday as int, hour as int, minute as int),
        ),
        now.year < 65535 ==> r.day_of_week == weekday_of(now, day_number(r)),
{
    let today = at_time(now, hour, minute);
    if now.day_of_week == weekday && time_tuple_lt(time_tuple(now), time_tuple(today)) {
        return today;
    }
    let days_ahead = (weekday as u32 + 7 - now.day_of_week as u32) % 7;
    let days = if days_ahead == 0 {
        7
    } else {
        days_ahead
    };
    at_time(add_days_forward(now, days), hour, minute)
}

/// `yyyy-MM-dd HH:mm` for `t`.
pub open spec fn stamp_hm_view(t: LocalTime) -> Seq<char> {
    zero_pad(t.year as nat, 4) + seq!['-'] + zero_pad(t.month as nat, 2) + seq!['-'] + zero_pad(
        t.day as nat,
        2,
    ) + seq![' '] + zero_pad(t.hour as nat, 2) + seq![':'] + zero_pad(t.minute as nat, 2)
}

/// `yyyy-MM-dd HH:mm:ss` for `t`.
pub open spec fn stamp_view(t: LocalTime) -> Seq<char> {
    stamp_hm_view(t) + seq![':'] + zero_pad(t.second as nat, 2)
}

impl LocalTime {
    /// `yyyy-MM-dd HH:mm`.
    pub fn stamp_hm(&self) -> (s: String)
        ensures
            s@ == stamp_hm_view(*self),
    {
        let mut s = String::new();
        push_zero_padded(&mut s, self.year as u64, 4);
        push_char(&mut s, '-');
        push_zero_padded(&mut s, self.month as u64, 2);
        push_char(&mut s, '-');
        push_zero_padded(&mut s, self.day as u64, 2);
        push_char(&mut s, ' ');
        push_zero_padded(&mut s, self.hour as u64, 2);
        push_char(&mut s, ':');
        push_zero_padded(&mut s, self.minute as u64, 2);
        assert(s@ =~= stamp_hm_view(*self));
        s
    }
}

/// Local wall-clock stamp `yyyy-MM-dd HH:mm:ss` of `now`.
pub fn local_stamp(now: LocalTime) -> (s: String)
    ensures
        s@ == stamp_view(now),
{
    let mut s = now.stamp_hm();
    push_char(&mut s, ':');
    push_zero_padded(&mut s, now.second as u64, 2);
    assert(s@ =~= stamp_view(now));
    s
}

proof fn lemma_days_before_year_mono(y1: nat, y2: nat)
    requires
        y1 <= y2,
    ensures
        days_before_year(y1) <= days_before_year(y2),
    decreases y2 - y1,
{
    if y1 < y2 {
        lemma_days_before_year_mono(y1, (y2 - 1) as nat);
    }
}

proof fn lemma_days_before_month_mono(year: int, m1: nat, m2: nat)
    requires
        m1 <= m2,
    ensures
        days_before_month(year, m1) <= days_before_month(year, m2),
    decreases m2 - m1,
{
    if m1 < m2 {
        lemma_days_before_month_mono(year, m1, (m2 - 1) as nat);
    }
}

/// A valid date's number lies within its year.
proof fn lemma_day_number_in_year(t: LocalTime)
    requires
        valid_date(t),
    ensures
        days_before_year(t.year as nat) < day_number(t) <= days_before_year(t.year as nat + 1),
{
    lemma_months_fill_year(t.year as int);
    lemma_days_before_month_mono(t.year as int, t.month as nat + 1, 13);
    assert(days_before_month(t.year as int, 13) == days_before_month(t.year as int, 12) + 31);
    assert(days_before_month(t.year as int, t.month as nat + 1) == days_before_month(
        t.year as int,
        t.month as nat,
    ) + spec_days_in_month(t.year as int, t.month as int));
}

/// Distinct valid dates have distinct day numbers.
pub proof fn lemma_day_number_injective(a: LocalTime, b: LocalTime)
    requires
        valid_date(a),
        valid_date(b),
        day_number(a) == day_number(b),
    ensures
        a.year == b.year,
        a.month == b.month,
        a.day == b.day,
{
    lemma_day_number_in_year(a);
    lemma_day_number_in_year(b);
    if a.year < b.year {
        lemma_days_before_year_mono(a.year as nat + 1, b.year as nat);
    } else if b.year < a.year {
        lemma_days_before_year_mono(b.year as nat + 1, a.year as nat);
    } else {
        let y = a.year as int;
        if a.month < b.month {
            lemma_days_before_month_mono(y, a.month as nat + 1, b.month as nat);
            assert(days_before_month(y, a.month as nat + 1) == days_before_month(y, a.month as nat)
                + spec_days_in_month(y, a.month as int));
        } else if b.month < a.month {
            lemma_days_before_month_mono(y, b.month as nat + 1, a.month as nat);
            assert(days_before_month(y, b.month as nat + 1) == days_before_month(y, b.month as nat)
                + spec_days_in_month(y, b.month as int));
        }
    }
}

/// The first slot after `now` is unique up to the stamp it prints.
pub proof fn lemma_first_slot_unique(
    now: LocalTime,
    a: LocalTime,
    b: LocalTime,
    slot: spec_fn(int, int, int, int) -> bool,
)
    requires
        first_slot_after(now, a, slot),
        first_slot_after(now, b, slot),
    ensures
        a.year == b.year,
        a.month == b.month,
        a.day == b.day,
        a.hour == b.hour,
        a.minute == b.minute,
        a.second == b.second,
{
    assert(slot(day_number(a), a.hour as int, a.minute as int, a.second as int));
    assert(slot(day_number(b), b.hour as int, b.minute as int, b.second as int));
    lemma_day_number_injective(a, b);
}

} // verus!
