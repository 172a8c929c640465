//! Scheduled clearing of logs and temp via Windows Task Scheduler.
//!
//! Triggers supported:
//! - Interval (hourly / 6h / daily / weekly) via TimeTrigger + Repetition or CalendarTrigger
//! - At user logon (`LogonTrigger`) — "on startup" for a per-user tool
//! - At session end (`SessionStateChangeTrigger` ConsoleDisconnect) — best-effort
//!   stand-in for shutdown/logoff
//!
//! This module holds the schedule model, the preference encoding, the next-run
//! prediction and the task definition; registering the task and reading or
//! writing preferences is done by the caller, which hands the outcomes back.

use vstd::prelude::*;

use crate::calendar::{
    daily_slot, day_number, first_slot_after, hourly_slot, hours_slot, next_daily_at,
    next_daily_view, next_every_n_hours, next_hourly_at_minute, next_hourly_view, next_hours_view,
    next_weekday_at, next_weekday_view, stamp_hm_view, valid_local_time, weekday_of, weekly_slot,
    LocalTime,
};
use crate::identity::CLEANUP_TASK_NAME;
use crate::log_cleanup::{format_bytes_view, push_format_bytes, ClearResult};
use crate::temp_cleanup::TempClearResult;
use crate::launch::{result_view, text_result_view};
use crate::text::{
    ascii_lower, chars_eq, chars_of, dec, first_index_of, push_dec, has_prefix, index_of_chars, join, lines,
    lower_chars, normalize_id, normalize_id_chars, push_joined, push_str, slice_chars, split_lines,
    starts_with_chars, str_views, string_from_chars, string_of, trim, trim_chars, trim_start_char,
    trim_start_char_chars,
};

verus! {

/// How often the cleanup task should fire (in addition to optional logon/logoff).
#[derive(Debug, Clone, Copy, PartialEq, Eq, Structural)]
pub enum CleanupInterval {
    Off,
    Hourly,
    Every6Hours,
    Daily,
    Weekly,
}

/// The stored name of an interval.
pub open spec fn interval_name(i: CleanupInterval) -> Seq<char> {
    match i {
        CleanupInterval::Off => "off"@,
        CleanupInterval::Hourly => "hourly"@,
        CleanupInterval::Every6Hours => "6h"@,
        CleanupInterval::Daily => "daily"@,
        CleanupInterval::Weekly => "weekly"@,
    }
}

/// The display label of an interval.
pub open spec fn interval_label(i: CleanupInterval) -> Seq<char> {
    match i {
        CleanupInterval::Off => "Off"@,
        CleanupInterval::Hourly => "Hourly"@,
        CleanupInterval::Every6Hours => "Every 6h"@,
        CleanupInterval::Daily => "Daily"@,
        CleanupInterval::Weekly => "Weekly"@,
    }
}

/// Reading a stored or typed interval name: case and surrounding white space
/// are ignored, a few aliases are accepted, anything else means `Off`.
pub open spec fn parse_interval(s: Seq<char>) -> CleanupInterval {
    let n = normalize_id(s);
    if n == "hourly"@ || n == "1h"@ || n == "hour"@ {
        CleanupInterval::Hourly
    } else if n == "6h"@ || n == "every6hours"@ || n == "every-6-hours"@ {
        CleanupInterval::Every6Hours
    } else if n == "daily"@ || n == "day"@ {
        CleanupInterval::Daily
    } else if n == "weekly"@ || n == "week"@ {
        CleanupInterval::Weekly
    } else {
        CleanupInterval::Off
    }
}

impl CleanupInterval {
    pub const ALL: [CleanupInterval; 5] = [
        CleanupInterval::Off,
        CleanupInterval::Hourly,
        CleanupInterval::Every6Hours,
        CleanupInterval::Daily,
        CleanupInterval::Weekly,
    ];

    pub fn as_str(self) -> (r: &'static str)
        ensures
            r@ == interval_name(self),
    {
        match self {
            CleanupInterval::Off => "off",
            CleanupInterval::Hourly => "hourly",
            CleanupInterval::Every6Hours => "6h",
            CleanupInterval::Daily => "daily",
            CleanupInterval::Weekly => "weekly",
        }
    }

    pub fn label(self) -> (r: &'static str)
        ensures
            r@ == interval_label(self),
    {
        match self {
            CleanupInterval::Off => "Off",
            CleanupInterval::Hourly => "Hourly",
            CleanupInterval::Every6Hours => "Every 6h",
            CleanupInterval::Daily => "Daily",
            CleanupInterval::Weekly => "Weekly",
        }
    }

    pub fn from_str(s: &str) -> (r: Self)
        ensures
            r == parse_interval(s@),
    {
        let n = normalize_id_chars(s);
        if chars_eq(&n, "hourly") || chars_eq(&n, "1h") || chars_eq(&n, "hour") {
            CleanupInterval::Hourly
        } else if chars_eq(&n, "6h") || chars_eq(&n, "every6hours") || chars_eq(
            &n,
            "every-6-hours",
        ) {
            CleanupInterval::Every6Hours
        } else if chars_eq(&n, "daily") || chars_eq(&n, "day") {
            CleanupInterval::Daily
        } else if chars_eq(&n, "weekly") || chars_eq(&n, "week") {
            CleanupInterval::Weekly
        } else {
            CleanupInterval::Off
        }
    }
}

/// Reading back a stored interval name gives the interval that was stored.
pub proof fn lemma_interval_name_round_trip(i: CleanupInterval)
    ensures
        parse_interval(interval_name(i)) == i,
{
    reveal_strlit("off");
    reveal_strlit("hourly");
    reveal_strlit("1h");
    reveal_strlit("hour");
    reveal_strlit("6h");
    reveal_strlit("every6hours");
    reveal_strlit("every-6-hours");
    reveal_strlit("daily");
    reveal_strlit("day");
    reveal_strlit("weekly");
    reveal_strlit("week");
    let s = interval_name(i);
    assert(crate::text::trim_start(s) == s);
    assert(crate::text::trim_end(s) == s);
    assert(crate::text::ascii_lower(s) =~= s);
}

/// What to clear and when. Persisted as preferences; Task Scheduler runs the action.
#[derive(Debug, Clone, Copy, PartialEq, Eq, Structural)]
pub struct CleanupScheduleConfig {
    pub clear_safe_logs: bool,
    pub clear_all_logs: bool,
    pub clear_temp: bool,
    pub on_logon: bool,
    /// Best-effort session end (logoff / console disconnect). Not a guaranteed power-off hook.
    pub on_session_end: bool,
    pub interval: CleanupInterval,
}

/// The configuration used when nothing is stored.
pub open spec fn default_config() -> CleanupScheduleConfig {
    CleanupScheduleConfig {
        clear_safe_logs: true,
        clear_all_logs: false,
        clear_temp: true,
        on_logon: false,
        on_session_end: false,
        interval: CleanupInterval::Off,
    }
}

impl Default for CleanupScheduleConfig {
    fn default() -> (r: Self)
        ensures
            r == default_config(),
    {
        CleanupScheduleConfig {
            clear_safe_logs: true,
            clear_all_logs: false,
            clear_temp: true,
            on_logon: false,
            on_session_end: false,
            interval: CleanupInterval::Off,
        }
    }
}

pub open spec fn has_trigger(c: CleanupScheduleConfig) -> bool {
    c.on_logon || c.on_session_end || c.interval != CleanupInterval::Off
}

pub open spec fn has_target(c: CleanupScheduleConfig) -> bool {
    c.clear_safe_logs || c.clear_all_logs || c.clear_temp
}

/// A schedule does something only with both a trigger and a target.
pub open spec fn is_active_config(c: CleanupScheduleConfig) -> bool {
    has_trigger(c) && has_target(c)
}

/// What the summary lists as cleared.
pub open spec fn summary_targets(c: CleanupScheduleConfig) -> Seq<Seq<char>> {
    (if c.clear_all_logs {
        seq!["all logs"@]
    } else if c.clear_safe_logs {
        seq!["safe logs"@]
    } else {
        Seq::empty()
    }) + (if c.clear_temp {
        seq!["temp"@]
    } else {
        Seq::empty()
    })
}

/// What the summary lists as triggers.
pub open spec fn summary_when(c: CleanupScheduleConfig) -> Seq<Seq<char>> {
    (if c.interval != CleanupInterval::Off {
        seq![interval_label(c.interval)]
    } else {
        Seq::empty()
    }) + (if c.on_logon {
        seq!["logon"@]
    } else {
        Seq::empty()
    }) + (if c.on_session_end {
        seq!["session-end"@]
    } else {
        Seq::empty()
    })
}

/// One-line description of a schedule.
pub open spec fn summary_view(c: CleanupScheduleConfig) -> Seq<char> {
    if !is_active_config(c) {
        "Cleanup schedule: OFF"@
    } else {
        "Cleanup schedule: "@ + join(summary_targets(c), " + "@) + " · "@ + join(
            summary_when(c),
            ", "@,
        )
    }
}

impl CleanupScheduleConfig {
    pub fn has_any_trigger(&self) -> (r: bool)
        ensures
            r == has_trigger(*self),
    {
        self.on_logon || self.on_session_end || self.interval != CleanupInterval::Off
    }

    pub fn has_any_target(&self) -> (r: bool)
        ensures
            r == has_target(*self),
    {
        self.clear_safe_logs || self.clear_all_logs || self.clear_temp
    }

    pub fn is_active(&self) -> (r: bool)
        ensures
            r == is_active_config(*self),
    {
        self.has_any_trigger() && self.has_any_target()
    }

    pub fn summary_line(&self) -> (r: String)
        ensures
            r@ == summary_view(*self),
    {
        if !self.is_active() {
            let mut s = String::new();
            push_str(&mut s, "Cleanup schedule: OFF");
            assert(s@ =~= summary_view(*self));
            return s;
        }
        let mut targets: Vec<&str> = Vec::new();
        if self.clear_all_logs {
            targets.push("all logs");
        } else if self.clear_safe_logs {
            targets.push("safe logs");
        }
        if self.clear_temp {
            targets.push("temp");
        }
        let mut when: Vec<&str> = Vec::new();
        if self.interval != CleanupInterval::Off {
            when.push(self.interval.label());
        }
        if self.on_logon {
            when.push("logon");
        }
        if self.on_session_end {
            when.push("session-end");
        }
        assert(str_views(targets@) =~= summary_targets(*self));
        assert(str_views(when@) =~= summary_when(*self));
        let mut s = String::new();
        push_str(&mut s, "Cleanup schedule: ");
        push_joined(&mut s, &targets, " + ");
        push_str(&mut s, " · ");
        push_joined(&mut s, &when, ", ");
        assert(s@ =~= summary_view(*self));
        s
    }
}

/// The fire times of an interval trigger, as registered with Task Scheduler:
/// hourly at :05, every 6 hours at 03:00 / 09:00 / 15:00 / 21:00, daily at
/// 03:30, weekly on Sunday at 03:30.
pub open spec fn interval_slot(interval: CleanupInterval, now: LocalTime) -> spec_fn(
    int,
    int,
    int,
    int,
) -> bool {
    match interval {
        CleanupInterval::Off => |d: int, h: int, m: int, s: int| false,
        CleanupInterval::Hourly => hourly_slot(5),
        CleanupInterval::Every6Hours => hours_slot(seq![3u16, 9u16, 15u16, 21u16], 0),
        CleanupInterval::Daily => daily_slot(3, 30),
        CleanupInterval::Weekly => weekly_slot(now, 0, 3, 30),
    }
}

/// `t` is the next time `interval` fires after `now`, weekday included.
pub open spec fn is_next_fire(interval: CleanupInterval, now: LocalTime, t: LocalTime) -> bool {
    &&& first_slot_after(now, t, interval_slot(interval, now))
    &&& t.day_of_week == weekday_of(now, day_number(t))
}

/// The next fire time of `interval` after `now` as [`next_interval_run`]
/// computes it (`None` when off). Below the last representable year it is
/// the first slot after `now` (see [`is_next_fire`]); in that year the date
/// is held at 65535 rather than passing it.
pub open spec fn next_run_view(interval: CleanupInterval, now: LocalTime) -> Option<LocalTime> {
    match interval {
        CleanupInterval::Off => None,
        CleanupInterval::Hourly => Some(next_hourly_view(now, 5)),
        CleanupInterval::Every6Hours => Some(next_hours_view(now, seq![3u16, 9u16, 15u16, 21u16], 0)),
        CleanupInterval::Daily => Some(next_daily_view(now, 3, 30)),
        CleanupInterval::Weekly => Some(next_weekday_view(now, 0, 3, 30)),
    }
}

/// The printed next fire time of `interval` after `now`.
pub open spec fn next_fire_stamp(interval: CleanupInterval, now: LocalTime) -> Seq<char> {
    match next_run_view(interval, now) {
        Some(t) => stamp_hm_view(t),
        None => Seq::empty(),
    }
}

/// Cadence blurb matching the Task Scheduler XML we register.
pub open spec fn cadence_view(interval: CleanupInterval) -> Option<Seq<char>> {
    match interval {
        CleanupInterval::Off => None,
        CleanupInterval::Hourly => Some("every hour at :05"@),
        CleanupInterval::Every6Hours => Some("every 6 hours at 03:00 / 09:00 / 15:00 / 21:00"@),
        CleanupInterval::Daily => Some("every day at 03:30"@),
        CleanupInterval::Weekly => Some("every Sunday at 03:30"@),
    }
}

/// Cadence blurb matching the Task Scheduler XML we register.
pub fn interval_cadence(interval: CleanupInterval) -> (r: Option<&'static str>)
    ensures
        match cadence_view(interval) {
            None => r is None,
            Some(v) => r is Some && r.unwrap()@ == v,
        },
{
    match interval {
        CleanupInterval::Off => None,
        CleanupInterval::Hourly => Some("every hour at :05"),
        CleanupInterval::Every6Hours => Some("every 6 hours at 03:00 / 09:00 / 15:00 / 21:00"),
        CleanupInterval::Daily => Some("every day at 03:30"),
        CleanupInterval::Weekly => Some("every Sunday at 03:30"),
    }
}

/// The next wall-clock time an interval trigger fires strictly after `now`.
pub fn next_interval_run(interval: CleanupInterval, now: LocalTime) -> (r: Option<LocalTime>)
    requires
        valid_local_time(now),
    ensures
        r == next_run_view(interval, now),
        interval == CleanupInterval::Off <==> r is None,
        now.year < 65535 ==> (r matches Some(t) ==> is_next_fire(interval, now, t)),
{
    match interval {
        CleanupInterval::Off => None,
        CleanupInterval::Hourly => Some(next_hourly_at_minute(now, 5)),
        CleanupInterval::Every6Hours => {
            let hours: [u16; 4] = [3, 9, 15, 21];
            assert(hours@ =~= seq![3u16, 9u16, 15u16, 21u16]);
            Some(next_every_n_hours(now, &hours, 0))
        },
        CleanupInterval::Daily => Some(next_daily_at(now, 3, 30)),
        CleanupInterval::Weekly => Some(next_weekday_at(now, 0, 3, 30)),
    }
}

/// Estimate the next wall-clock time (`yyyy-MM-dd HH:mm`) for an interval trigger.
pub fn estimate_next_interval_run(interval: CleanupInterval, now: LocalTime) -> (r: Option<
    String,
>)
    requires
        valid_local_time(now),
    ensures
        interval == CleanupInterval::Off <==> r is None,
        r matches Some(s) ==> s@ == next_fire_stamp(interval, now),
{
    match next_interval_run(interval, now) {
        None => None,
        Some(t) => Some(t.stamp_hm()),
    }
}

/// `Next run: {when} ({cadence})` for an interval trigger.
pub open spec fn next_interval_view(interval: CleanupInterval, now: LocalTime) -> Option<
    Seq<char>,
> {
    match cadence_view(interval) {
        None => None,
        Some(c) => Some("Next run: "@ + next_fire_stamp(interval, now) + " ("@ + c + ")"@),
    }
}

/// Next interval fire from our schedule anchors (same as the registered task XML).
pub fn describe_next_interval(interval: CleanupInterval, now: LocalTime) -> (r: Option<String>)
    requires
        valid_local_time(now),
    ensures
        match next_interval_view(interval, now) {
            None => r is None,
            Some(v) => r is Some && r.unwrap()@ == v,
        },
{
    let cadence = match interval_cadence(interval) {
        None => {
            return None;
        },
        Some(c) => c,
    };
    let when = match estimate_next_interval_run(interval, now) {
        None => {
            return None;
        },
        Some(w) => w,
    };
    let mut s = String::new();
    push_str(&mut s, "Next run: ");
    push_str(&mut s, when.as_str());
    push_str(&mut s, " (");
    push_str(&mut s, cadence);
    push_str(&mut s, ")");
    assert(s@ =~= next_interval_view(interval, now).unwrap());
    Some(s)
}


/// Preference value names under which a schedule is stored.
pub const PREF_CLEAR_SAFE_LOGS: &'static str = "CleanupClearSafeLogs";

pub const PREF_CLEAR_ALL_LOGS: &'static str = "CleanupClearAllLogs";

pub const PREF_CLEAR_TEMP: &'static str = "CleanupClearTemp";

pub const PREF_ON_LOGON: &'static str = "CleanupOnLogon";

pub const PREF_ON_SESSION_END: &'static str = "CleanupOnSessionEnd";

pub const PREF_INTERVAL: &'static str = "CleanupInterval";

/// The stored schedule preferences as read back: `None` where no value is stored.
#[derive(Debug, Clone)]
pub struct CleanupPrefs {
    pub clear_safe_logs: Option<bool>,
    pub clear_all_logs: Option<bool>,
    pub clear_temp: Option<bool>,
    pub on_logon: Option<bool>,
    pub on_session_end: Option<bool>,
    pub interval: Option<String>,
}

/// A stored flag, or its default when absent.
pub open spec fn flag_or(v: Option<bool>, default: bool) -> bool {
    match v {
        Some(b) => b,
        None => default,
    }
}

/// The stored interval name, or `off` when absent.
pub open spec fn interval_text(v: Option<String>) -> Seq<char> {
    match v {
        Some(s) => s@,
        None => "off"@,
    }
}

/// The schedule that stored preferences describe; absent values take the defaults.
pub open spec fn load_view(p: CleanupPrefs) -> CleanupScheduleConfig {
    CleanupScheduleConfig {
        clear_safe_logs: flag_or(p.clear_safe_logs, true),
        clear_all_logs: flag_or(p.clear_all_logs, false),
        clear_temp: flag_or(p.clear_temp, true),
        on_logon: flag_or(p.on_logon, false),
        on_session_end: flag_or(p.on_session_end, false),
        interval: parse_interval(interval_text(p.interval)),
    }
}

/// `p` is what saving `cfg` stores: every flag, and the interval by its name.
pub open spec fn saved_prefs(cfg: CleanupScheduleConfig, p: CleanupPrefs) -> bool {
    &&& p.clear_safe_logs == Some(cfg.clear_safe_logs)
    &&& p.clear_all_logs == Some(cfg.clear_all_logs)
    &&& p.clear_temp == Some(cfg.clear_temp)
    &&& p.on_logon == Some(cfg.on_logon)
    &&& p.on_session_end == Some(cfg.on_session_end)
    &&& p.interval matches Some(s) && s@ == interval_name(cfg.interval)
}

fn flag_or_default(v: Option<bool>, default: bool) -> (r: bool)
    ensures
        r == flag_or(v, default),
{
    match v {
        Some(b) => b,
        None => default,
    }
}

/// The schedule stored in the preferences (defaults where a value is missing).
pub fn load_config(prefs: &CleanupPrefs) -> (r: CleanupScheduleConfig)
    ensures
        r == load_view(*prefs),
{
    let interval = match &prefs.interval {
        Some(s) => CleanupInterval::from_str(s.as_str()),
        None => {
            let off = CleanupInterval::Off.as_str();
            CleanupInterval::from_str(off)
        },
    };
    CleanupScheduleConfig {
        clear_safe_logs: flag_or_default(prefs.clear_safe_logs, true),
        clear_all_logs: flag_or_default(prefs.clear_all_logs, false),
        clear_temp: flag_or_default(prefs.clear_temp, true),
        on_logon: flag_or_default(prefs.on_logon, false),
        on_session_end: flag_or_default(prefs.on_session_end, false),
        interval,
    }
}

/// The preference values that store `cfg`.
pub fn save_config(cfg: &CleanupScheduleConfig) -> (r: CleanupPrefs)
    ensures
        saved_prefs(*cfg, r),
{
    CleanupPrefs {
        clear_safe_logs: Some(cfg.clear_safe_logs),
        clear_all_logs: Some(cfg.clear_all_logs),
        clear_temp: Some(cfg.clear_temp),
        on_logon: Some(cfg.on_logon),
        on_session_end: Some(cfg.on_session_end),
        interval: Some(crate::text::string_of(cfg.interval.as_str())),
    }
}

/// Loading what was saved gives back the saved schedule.
pub proof fn lemma_load_after_save(cfg: CleanupScheduleConfig, p: CleanupPrefs)
    requires
        saved_prefs(cfg, p),
    ensures
        load_view(p) == cfg,
{
    lemma_interval_name_round_trip(cfg.interval);
}

/// With nothing stored, the schedule is the default one.
pub proof fn lemma_load_nothing_is_default(p: CleanupPrefs)
    requires
        p.clear_safe_logs is None,
        p.clear_all_logs is None,
        p.clear_temp is None,
        p.on_logon is None,
        p.on_session_end is None,
        p.interval is None,
    ensures
        load_view(p) == default_config(),
{
    lemma_interval_name_round_trip(CleanupInterval::Off);
}


/// The value a `schtasks /Query /FO LIST /V` line gives for "Next Run Time",
/// if the line is that field: after `Next Run Time:` at the start of the
/// trimmed line, else after the first `Next Run Time` in it with colons skipped.
pub open spec fn next_run_field(line: Seq<char>) -> Option<Seq<char>> {
    let t = trim(line);
    if has_prefix(t, "Next Run Time:"@) {
        Some(t.skip(14))
    } else {
        match first_index_of(t, "Next Run Time"@, 0) {
            Some(i) => Some(trim_start_char(t.skip(i + 13), ':')),
            None => None,
        }
    }
}

/// The "Next Run Time" field of the first line that has one.
pub open spec fn first_next_run_field(ls: Seq<Seq<char>>) -> Option<Seq<char>>
    decreases ls.len(),
{
    if ls.len() == 0 {
        None
    } else {
        match next_run_field(ls[0]) {
            Some(v) => Some(v),
            None => first_next_run_field(ls.drop_first()),
        }
    }
}

/// The task's next run time in a `schtasks` listing: the first "Next Run
/// Time" field, trimmed; nothing when blank or `N/A` (any case).
pub open spec fn scheduler_next_view(text: Seq<char>) -> Option<Seq<char>> {
    match first_next_run_field(lines(text)) {
        None => None,
        Some(v) => if trim(v).len() == 0 || ascii_lower(trim(v)) == "n/a"@ {
            None
        } else {
            Some(trim(v))
        },
    }
}

fn next_run_field_chars(line: &[char]) -> (r: Option<Vec<char>>)
    ensures
        match next_run_field(line@) {
            None => r is None,
            Some(v) => r is Some && r.unwrap()@ == v,
        },
{
    let t = trim_chars(line);
    let with_colon = chars_of("Next Run Time:");
    if starts_with_chars(&t, &with_colon) {
        proof {
            reveal_strlit("Next Run Time:");
        }
        return Some(slice_chars(&t, 14, t.len()));
    }
    let key = chars_of("Next Run Time");
    proof {
        reveal_strlit("Next Run Time");
        assert(key@ == "Next Run Time"@);
        assert(key@.len() == 13);
    }
    let found = index_of_chars(&t, &key);
    match found {
        None => None,
        Some(i) => {
            assert(first_index_of(t@, key@, 0) == Some(i as int));
            assert(i + key@.len() <= t@.len());
            let n = t.len();
            let rest = slice_chars(&t, i + 13, n);
            assert(rest@ =~= t@.skip(i + 13));
            Some(trim_start_char_chars(&rest, ':'))
        },
    }
}

/// The next run time `schtasks /Query /TN <task> /FO LIST /V` reports, if any.
pub fn scheduler_next_run(text: &str) -> (r: Option<String>)
    ensures
        match scheduler_next_view(text@) {
            None => r is None,
            Some(v) => r is Some && r.unwrap()@ == v,
        },
{
    let cs = chars_of(text);
    let ls = split_lines(&cs);
    let ghost all = ls.deep_view();
    let mut i: usize = 0;
    let mut found: Option<Vec<char>> = None;
    assert(all.skip(0) =~= all);
    while i < ls.len() && found.is_none()
        invariant
            0 <= i <= ls@.len(),
            all == ls.deep_view(),
            all == lines(text@),
            found is None ==> first_next_run_field(all) == first_next_run_field(all.skip(i as int)),
            found matches Some(v) ==> first_next_run_field(all) == Some(v@),
        decreases ls@.len() - i,
    {
        let f = next_run_field_chars(&ls[i]);
        proof {
            assert(ls@[i as int]@ =~= all[i as int]);
            assert(all.skip(i as int)[0] == all[i as int]);
            assert(all.skip(i as int).drop_first() =~= all.skip(i + 1));
        }
        found = f;
        i = i + 1;
    }
    let v = match found {
        None => {
            proof {
                assert(all.skip(i as int) =~= Seq::<Seq<char>>::empty());
            }
            return None;
        },
        Some(v) => v,
    };
    let t = trim_chars(&v);
    let low = lower_chars(&t);
    proof {
        reveal_strlit("n/a");
    }
    if t.len() == 0 || chars_eq(&low, "n/a") {
        return None;
    }
    Some(string_from_chars(&t))
}

/// Live status: stored schedule, whether the task is registered, when the
/// interval fires next, and what Task Scheduler reports as the next run.
#[derive(Debug, Clone)]
pub struct CleanupScheduleState {
    pub config: CleanupScheduleConfig,
    pub task_registered: bool,
    /// Human line for the next interval fire (if an interval is selected).
    pub next_interval: Option<String>,
    /// Raw "Next Run Time" from `schtasks` when the task is registered (may be absent for logon-only).
    pub scheduler_next: Option<String>,
}

pub open spec fn opt_text(o: Option<String>) -> Option<Seq<char>> {
    match o {
        Some(s) => Some(s@),
        None => None,
    }
}

/// The status from the stored preferences, whether the task exists, and the
/// task's `schtasks` listing (`None` when the query failed).
pub fn read_state(prefs: &CleanupPrefs, task_registered: bool, listing: Option<&str>, now: LocalTime) -> (r:
    CleanupScheduleState)
    requires
        valid_local_time(now),
    ensures
        r.config == load_view(*prefs),
        r.task_registered == task_registered,
        opt_text(r.next_interval) == next_interval_view(load_view(*prefs).interval, now),
        opt_text(r.scheduler_next) == (match listing {
            Some(t) => if task_registered {
                scheduler_next_view(t@)
            } else {
                None
            },
            None => None,
        }),
{
    let config = load_config(prefs);
    let next_interval = describe_next_interval(config.interval, now);
    let scheduler_next = if task_registered {
        match listing {
            Some(t) => scheduler_next_run(t),
            None => None,
        }
    } else {
        None
    };
    CleanupScheduleState { config, task_registered, next_interval, scheduler_next }
}

/// What applying a schedule reports: the save error; else, for an inactive
/// schedule, that the task was removed; else the task-creation error, or the
/// task name, summary and (with an interval) the next run.
pub open spec fn apply_view(
    cfg: CleanupScheduleConfig,
    saved: Result<(), Seq<char>>,
    created: Result<(), Seq<char>>,
    now: LocalTime,
) -> Result<Seq<char>, Seq<char>> {
    match saved {
        Err(e) => Err(e),
        Ok(_) => if !is_active_config(cfg) {
            Ok("Cleanup schedule disabled (task removed)"@)
        } else {
            match created {
                Err(e) => Err(e),
                Ok(_) => Ok(
                    "Cleanup schedule applied — task '"@ + CLEANUP_TASK_NAME@ + "' ("@ + summary_view(
                        cfg,
                    ) + ")"@ + match next_interval_view(cfg.interval, now) {
                        Some(n) => " · "@ + n,
                        None => Seq::empty(),
                    },
                ),
            }
        },
    }
}

/// Outcome of applying `cfg`: `saved` is how storing its preferences went,
/// `created` how registering the task went (only read when `cfg` is active;
/// an inactive schedule has its task deleted instead).
pub fn apply(
    cfg: &CleanupScheduleConfig,
    saved: Result<(), String>,
    created: Result<(), String>,
    now: LocalTime,
) -> (r: Result<String, String>)
    requires
        valid_local_time(now),
    ensures
        text_result_view(r) == apply_view(*cfg, result_view(saved), result_view(created), now),
{
    if let Err(e) = saved {
        return Err(e);
    }
    if !cfg.is_active() {
        return Ok(crate::text::string_of("Cleanup schedule disabled (task removed)"));
    }
    if let Err(e) = created {
        return Err(e);
    }
    let mut msg = String::new();
    push_str(&mut msg, "Cleanup schedule applied — task '");
    push_str(&mut msg, CLEANUP_TASK_NAME);
    push_str(&mut msg, "' (");
    let summary = cfg.summary_line();
    push_str(&mut msg, summary.as_str());
    push_str(&mut msg, ")");
    let ghost head = msg@;
    match describe_next_interval(cfg.interval, now) {
        Some(next) => {
            push_str(&mut msg, " · ");
            push_str(&mut msg, next.as_str());
        },
        None => {},
    }
    assert(msg@ =~= apply_view(*cfg, result_view(saved), result_view(created), now)->Ok_0);
    Ok(msg)
}

/// `cfg` with every trigger switched off (targets kept).
pub open spec fn disabled_view(cfg: CleanupScheduleConfig) -> CleanupScheduleConfig {
    CleanupScheduleConfig {
        on_logon: false,
        on_session_end: false,
        interval: CleanupInterval::Off,
        ..cfg
    }
}

/// The stored schedule with its triggers cleared: what disabling saves.
pub fn disabled_config(cfg: &CleanupScheduleConfig) -> (r: CleanupScheduleConfig)
    ensures
        r == disabled_view(*cfg),
{
    CleanupScheduleConfig {
        on_logon: false,
        on_session_end: false,
        interval: CleanupInterval::Off,
        ..*cfg
    }
}

/// Outcome of disabling the schedule stored as `prefs`: the triggers are
/// cleared, `saved` is how storing that went, and the task is removed.
pub fn disable(prefs: &CleanupPrefs, saved: Result<(), String>, now: LocalTime) -> (r: Result<
    String,
    String,
>)
    requires
        valid_local_time(now),
    ensures
        text_result_view(r) == apply_view(
            disabled_view(load_view(*prefs)),
            result_view(saved),
            Ok(()),
            now,
        ),
        saved is Ok ==> (r matches Ok(m) && m@ == "Cleanup schedule disabled (task removed)"@),
{
    let cfg = disabled_config(&load_config(prefs));
    apply(&cfg, saved, Ok(()), now)
}

/// A disabled schedule is never active, whatever it clears.
pub proof fn lemma_disabled_is_inactive(cfg: CleanupScheduleConfig)
    ensures
        !is_active_config(disabled_view(cfg)),
        disabled_view(cfg).clear_safe_logs == cfg.clear_safe_logs,
        disabled_view(cfg).clear_all_logs == cfg.clear_all_logs,
        disabled_view(cfg).clear_temp == cfg.clear_temp,
{
}


/// What a scheduled run clears: the logs (with whether dangerous targets are
/// included) when a log target is selected, and whether the temp folders are.
pub open spec fn run_plan_view(cfg: CleanupScheduleConfig) -> (Option<bool>, bool) {
    if !has_target(cfg) {
        (None, false)
    } else {
        (
            if cfg.clear_all_logs || cfg.clear_safe_logs {
                Some(cfg.clear_all_logs)
            } else {
                None
            },
            cfg.clear_temp,
        )
    }
}

/// What a scheduled run clears (see [`run_plan_view`]).
pub fn run_plan(cfg: &CleanupScheduleConfig) -> (r: (Option<bool>, bool))
    ensures
        r == run_plan_view(*cfg),
        r.0 is Some <==> (cfg.clear_all_logs || cfg.clear_safe_logs),
        cfg.clear_all_logs ==> r.0 == Some(true),
        !cfg.clear_all_logs && cfg.clear_safe_logs ==> r.0 == Some(false),
        r.1 == cfg.clear_temp,
{
    if !cfg.has_any_target() {
        return (None, false);
    }
    let logs = if cfg.clear_all_logs || cfg.clear_safe_logs {
        Some(cfg.clear_all_logs)
    } else {
        None
    };
    (logs, cfg.clear_temp)
}

/// A scheduled run clears logs exactly when a log target is selected, takes
/// the dangerous ones along exactly when "all logs" is selected (whether or
/// not "safe logs" is too), and clears the temp folders exactly when they are
/// selected.
pub proof fn lemma_run_clears_what_is_selected(cfg: CleanupScheduleConfig)
    ensures
        run_plan_view(cfg).0 is Some <==> (cfg.clear_all_logs || cfg.clear_safe_logs),
        cfg.clear_all_logs ==> run_plan_view(cfg).0 == Some(true),
        !cfg.clear_all_logs && cfg.clear_safe_logs ==> run_plan_view(cfg).0 == Some(false),
        run_plan_view(cfg).1 == cfg.clear_temp,
        cfg.clear_all_logs ==> run_plan_view((CleanupScheduleConfig { clear_safe_logs: true, ..cfg })).0
            == run_plan_view((CleanupScheduleConfig { clear_safe_logs: false, ..cfg })).0,
{
}

/// Per target: the items removed and bytes freed, or nothing for a failure.
pub open spec fn log_outcomes(rs: Seq<Result<ClearResult, String>>) -> Seq<Option<(u64, u64)>> {
    rs.map_values(
        |r: Result<ClearResult, String>|
            match r {
                Ok(c) => Some((c.removed_files, c.freed_bytes)),
                Err(_) => None,
            },
    )
}

/// Per target: the items removed and bytes freed, or nothing for a failure.
pub open spec fn temp_outcomes(rs: Seq<Result<TempClearResult, String>>) -> Seq<Option<(u64, u64)>> {
    rs.map_values(
        |r: Result<TempClearResult, String>|
            match r {
                Ok(c) => Some((c.removed_files, c.freed_bytes)),
                Err(_) => None,
            },
    )
}

/// (targets cleared, items, bytes, failures) over a run's outcomes.
pub open spec fn tally(os: Seq<Option<(u64, u64)>>) -> (nat, nat, nat, nat)
    decreases os.len(),
{
    if os.len() == 0 {
        (0, 0, 0, 0)
    } else {
        let (k, f, b, e) = tally(os.drop_last());
        match os.last() {
            Some((rf, rb)) => (k + 1, f + rf as nat, b + rb as nat, e),
            None => (k, f, b, e + 1),
        }
    }
}

/// One part of a run report: `<label>: N target(s), M item(s), <size>[, K failed]`.
pub open spec fn part_view(label: Seq<char>, t: (nat, nat, nat, nat)) -> Seq<char> {
    label + ": "@ + dec(t.0) + " target(s), "@ + dec(t.1) + " item(s), "@ + format_bytes_view(t.2)
        + if t.3 > 0 {
        ", "@ + dec(t.3) + " failed"@
    } else {
        Seq::empty()
    }
}

/// The report of a scheduled run over the outcomes of its log and temp clears.
pub open spec fn run_now_view(
    cfg: CleanupScheduleConfig,
    logs: Seq<Option<(u64, u64)>>,
    temp: Seq<Option<(u64, u64)>>,
) -> Seq<char> {
    if !has_target(cfg) {
        "Scheduled cleanup: nothing selected to clear (check prefs)"@
    } else {
        let parts = (if cfg.clear_all_logs || cfg.clear_safe_logs {
            seq![part_view("logs"@, tally(logs))]
        } else {
            Seq::empty()
        }) + (if cfg.clear_temp {
            seq![part_view("temp"@, tally(temp))]
        } else {
            Seq::empty()
        });
        "Scheduled cleanup — "@ + join(parts, "; "@)
    }
}

/// The totals of a run fit the counters.
pub open spec fn tally_fits(os: Seq<Option<(u64, u64)>>) -> bool {
    tally(os).1 <= u64::MAX && tally(os).2 <= u64::MAX
}

proof fn lemma_tally_prefix(os: Seq<Option<(u64, u64)>>, k: int)
    requires
        0 <= k <= os.len(),
    ensures
        tally(os.take(k)).1 <= tally(os).1,
        tally(os.take(k)).2 <= tally(os).2,
        tally(os.take(k)).0 + tally(os.take(k)).3 == k,
    decreases os.len() - k,
{
    if k < os.len() {
        lemma_tally_prefix(os, k + 1);
        assert(os.take(k + 1).drop_last() =~= os.take(k));
    } else {
        assert(os.take(k) =~= os);
        lemma_tally_count(os);
    }
}

proof fn lemma_tally_count(os: Seq<Option<(u64, u64)>>)
    ensures
        tally(os).0 + tally(os).3 == os.len(),
    decreases os.len(),
{
    if os.len() > 0 {
        lemma_tally_count(os.drop_last());
    }
}

fn tally_exec(os: &Vec<Option<(u64, u64)>>) -> (r: (u64, u64, u64, u64))
    requires
        tally_fits(os@),
    ensures
        r.0 == tally(os@).0,
        r.1 == tally(os@).1,
        r.2 == tally(os@).2,
        r.3 == tally(os@).3,
{
    let mut k: u64 = 0;
    let mut f: u64 = 0;
    let mut b: u64 = 0;
    let mut e: u64 = 0;
    let mut i: usize = 0;
    while i < os.len()
        invariant
            0 <= i <= os@.len(),
            tally_fits(os@),
            k == tally(os@.take(i as int)).0,
            f == tally(os@.take(i as int)).1,
            b == tally(os@.take(i as int)).2,
            e == tally(os@.take(i as int)).3,
        decreases os@.len() - i,
    {
        proof {
            assert(os@.take(i + 1).drop_last() =~= os@.take(i as int));
            lemma_tally_prefix(os@, i + 1);
            lemma_tally_prefix(os@, i as int);
        }
        match os[i] {
            Some((rf, rb)) => {
                k = k + 1;
                f = f + rf;
                b = b + rb;
            },
            None => {
                e = e + 1;
            },
        }
        i = i + 1;
    }
    assert(os@.take(os@.len() as int) =~= os@);
    (k, f, b, e)
}

fn log_outcome_list(rs: &[Result<ClearResult, String>]) -> (r: Vec<Option<(u64, u64)>>)
    ensures
        r@ == log_outcomes(rs@),
{
    let mut r: Vec<Option<(u64, u64)>> = Vec::new();
    let mut i: usize = 0;
    while i < rs.len()
        invariant
            0 <= i <= rs@.len(),
            r@ == log_outcomes(rs@.take(i as int)),
        decreases rs@.len() - i,
    {
        match &rs[i] {
            Ok(c) => r.push(Some((c.removed_files, c.freed_bytes))),
            Err(_) => r.push(None),
        }
        i = i + 1;
        assert(r@ =~= log_outcomes(rs@.take(i as int)));
    }
    assert(rs@.take(rs@.len() as int) =~= rs@);
    r
}

fn temp_outcome_list(rs: &[Result<TempClearResult, String>]) -> (r: Vec<Option<(u64, u64)>>)
    ensures
        r@ == temp_outcomes(rs@),
{
    let mut r: Vec<Option<(u64, u64)>> = Vec::new();
    let mut i: usize = 0;
    while i < rs.len()
        invariant
            0 <= i <= rs@.len(),
            r@ == temp_outcomes(rs@.take(i as int)),
        decreases rs@.len() - i,
    {
        match &rs[i] {
            Ok(c) => r.push(Some((c.removed_files, c.freed_bytes))),
            Err(_) => r.push(None),
        }
        i = i + 1;
        assert(r@ =~= temp_outcomes(rs@.take(i as int)));
    }
    assert(rs@.take(rs@.len() as int) =~= rs@);
    r
}

fn push_part(s: &mut String, label: &str, os: &Vec<Option<(u64, u64)>>)
    requires
        tally_fits(os@),
    ensures
        final(s)@ == old(s)@ + part_view(label@, tally(os@)),
{
    let (k, f, b, e) = tally_exec(os);
    push_str(s, label);
    push_str(s, ": ");
    push_dec(s, k);
    push_str(s, " target(s), ");
    push_dec(s, f);
    push_str(s, " item(s), ");
    push_format_bytes(s, b);
    if e > 0 {
        push_str(s, ", ");
        push_dec(s, e);
        push_str(s, " failed");
    }
    assert(final(s)@ =~= old(s)@ + part_view(label@, tally(os@)));
}

/// Report of a scheduled cleanup run (no confirmation prompts: it runs
/// unattended): `log_results` are the outcomes of the log clears and
/// `temp_results` those of the temp clears that [`run_plan`] asked for (each
/// read only when its part is selected).
pub fn run_now(
    cfg: &CleanupScheduleConfig,
    log_results: &[Result<ClearResult, String>],
    temp_results: &[Result<TempClearResult, String>],
) -> (r: Result<String, String>)
    requires
        cfg.clear_all_logs || cfg.clear_safe_logs ==> tally_fits(log_outcomes(log_results@)),
        cfg.clear_temp ==> tally_fits(temp_outcomes(temp_results@)),
    ensures
        r matches Ok(m) && m@ == run_now_view(
            *cfg,
            log_outcomes(log_results@),
            temp_outcomes(temp_results@),
        ),
{
    if !cfg.has_any_target() {
        return Ok(string_of("Scheduled cleanup: nothing selected to clear (check prefs)"));
    }
    let ghost lo = log_outcomes(log_results@);
    let ghost to = temp_outcomes(temp_results@);
    let mut s = string_of("Scheduled cleanup — ");
    let ghost head = s@;
    let logs = cfg.clear_all_logs || cfg.clear_safe_logs;
    if logs {
        let os = log_outcome_list(log_results);
        push_part(&mut s, "logs", &os);
    }
    if cfg.clear_temp {
        if logs {
            push_str(&mut s, "; ");
        }
        let os = temp_outcome_list(temp_results);
        push_part(&mut s, "temp", &os);
    }
    proof {
        let parts = (if logs {
            seq![part_view("logs"@, tally(lo))]
        } else {
            Seq::empty()
        }) + (if cfg.clear_temp {
            seq![part_view("temp"@, tally(to))]
        } else {
            Seq::empty()
        });
        if logs && cfg.clear_temp {
            assert(parts.drop_last() =~= seq![part_view("logs"@, tally(lo))]);
            assert(join(parts, "; "@) == join(parts.drop_last(), "; "@) + "; "@ + parts.last());
        } else if logs {
            assert(parts =~= seq![part_view("logs"@, tally(lo))]);
        } else {
            assert(parts =~= seq![part_view("temp"@, tally(to))]);
        }
    }
    assert(s@ =~= run_now_view(*cfg, lo, to));
    Ok(s)
}

/// What happens to the cleanup scheduled task when a schedule is stored.
#[derive(Debug, Clone, Copy, PartialEq, Eq, Structural)]
pub enum TaskAction {
    /// Leave the task as it is (the preferences could not be stored).
    Keep,
    /// Remove the task (the schedule is inactive).
    Delete,
    /// Register the task from [`crate::schedule_task::task_xml`] (the
    /// schedule is active).
    Create,
}

/// The task operation after storing `cfg`: none when storing failed, else
/// create the task for an active schedule and delete it for an inactive one.
pub open spec fn task_action_view(cfg: CleanupScheduleConfig, saved: bool) -> TaskAction {
    if !saved {
        TaskAction::Keep
    } else if is_active_config(cfg) {
        TaskAction::Create
    } else {
        TaskAction::Delete
    }
}

/// The task operation that follows storing `cfg` (see [`task_action_view`]);
/// `saved` is how storing its preferences went. Disabling stores
/// [`disabled_config`], so it deletes the task once stored.
pub fn task_action(cfg: &CleanupScheduleConfig, saved: &Result<(), String>) -> (r: TaskAction)
    ensures
        r == task_action_view(*cfg, saved is Ok),
{
    if saved.is_err() {
        TaskAction::Keep
    } else if cfg.is_active() {
        TaskAction::Create
    } else {
        TaskAction::Delete
    }
}

/// Disabling never creates a task: once the cleared schedule is stored its
/// task is deleted, and when storing fails the task is left alone.
pub proof fn lemma_disabling_deletes_the_task(cfg: CleanupScheduleConfig, saved: bool)
    ensures
        task_action_view(disabled_view(cfg), saved) == if saved {
            TaskAction::Delete
        } else {
            TaskAction::Keep
        },
{
}

} // verus!
