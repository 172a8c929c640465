//! The dashboard's actions: which need administrator rights, and the status
//! line each outcome shows. The window, its widgets and the work itself are
//! the caller's; it hands the outcomes back.

use vstd::prelude::*;

use crate::cleanup_history::{format_size, format_size_view, DayTotals};
use crate::cleanup_schedule::{is_active_config, CleanupScheduleConfig};
use crate::launch::text_result_view;
use crate::log_cleanup::{format_bytes_view, push_format_bytes, ClearResult};
use crate::telemetry::{cli_name_view, SettingId};
use crate::temp_cleanup::{find_target, target_table, TempClearResult, TempTarget};
use crate::text::{dec, join, push_dec, push_str, string_of};
use crate::tray::TrayCommand;

verus! {

/// An action the dashboard was asked to run (after any confirmation).
#[derive(Debug, Clone, Copy)]
pub enum Pending {
    One { id: SettingId, active: bool },
    All { active: bool },
    Verify,
    SetStartup(bool),
    SetPostUpdate(bool),
    ApplyCleanupSchedule(CleanupScheduleConfig),
    Quit,
    ClearLog(&'static str),
    ClearAllSafe,
    ClearAllLogs,
    ClearTemp(&'static str),
    ClearTempAll,
}

/// Whether some available temp target needs administrator rights
/// (`available[i]`: whether table entry `i` is available).
pub open spec fn admin_temp_available(available: Seq<bool>) -> bool {
    exists|i: int| 0 <= i < 6 && available[i] && #[trigger] target_table()[i].needs_admin
}

pub fn any_admin_temp_available(available: &[bool]) -> (r: bool)
    requires
        available@.len() == 6,
    ensures
        r == admin_temp_available(available@),
{
    let table = crate::temp_cleanup::all();
    let mut i: usize = 0;
    while i < 6
        invariant
            0 <= i <= 6,
            available@.len() == 6,
            table@ == target_table(),
            forall|k: int| 0 <= k < i ==> !(available@[k] && #[trigger] target_table()[k].needs_admin),
        decreases 6 - i,
    {
        if available[i] && table[i].needs_admin {
            assert(available@[i as int] && target_table()[i as int].needs_admin);
            return true;
        }
        i = i + 1;
    }
    false
}

/// Why an action is refused before it starts, if it is: most need
/// administrator rights; the cleanup schedule only when a task is to be
/// created, updated or removed; a temp target only when it needs them (an
/// unknown one is refused by name).
pub open spec fn refusal_view(
    p: Pending,
    elevated: bool,
    task_registered: bool,
    admin_temp: bool,
) -> Option<Seq<char>> {
    match p {
        Pending::SetPostUpdate(_) => if !elevated {
            Some("Administrator required to create the post-update scheduled task."@)
        } else {
            None
        },
        Pending::ApplyCleanupSchedule(cfg) => if (is_active_config(cfg) || task_registered)
            && !elevated {
            Some("Administrator required to create or update the cleanup scheduled task."@)
        } else {
            None
        },
        Pending::ClearLog(_) | Pending::ClearAllSafe | Pending::ClearAllLogs => if !elevated {
            Some("Administrator required to clear system logs."@)
        } else {
            None
        },
        Pending::ClearTemp(id) => match find_target(id@) {
            None => Some("Unknown temp target: "@ + id@),
            Some(t) => if t.needs_admin && !elevated {
                Some("Administrator required for this temp target."@)
            } else {
                None
            },
        },
        Pending::ClearTempAll => if admin_temp && !elevated {
            Some("Administrator required to clear all temp targets (includes Windows\\Temp)."@)
        } else {
            None
        },
        Pending::One { .. } | Pending::All { .. } => if !elevated {
            Some("Administrator required to change settings."@)
        } else {
            None
        },
        _ => None,
    }
}

/// Why an action is refused (see [`refusal_view`]): `task_registered` whether
/// the cleanup task exists, `admin_temp` the [`any_admin_temp_available`] of
/// the temp targets.
pub fn refusal(p: &Pending, elevated: bool, task_registered: bool, admin_temp: bool) -> (r: Option<
    String,
>)
    ensures
        match refusal_view(*p, elevated, task_registered, admin_temp) {
            None => r is None,
            Some(m) => r is Some && r.unwrap()@ == m,
        },
{
    match p {
        Pending::SetPostUpdate(_) => if !elevated {
            Some(string_of("Administrator required to create the post-update scheduled task."))
        } else {
            None
        },
        Pending::ApplyCleanupSchedule(cfg) => if (cfg.is_active() || task_registered) && !elevated {
            Some(string_of("Administrator required to create or update the cleanup scheduled task."))
        } else {
            None
        },
        Pending::ClearLog(_) | Pending::ClearAllSafe | Pending::ClearAllLogs => if !elevated {
            Some(string_of("Administrator required to clear system logs."))
        } else {
            None
        },
        Pending::ClearTemp(id) => match TempTarget::find(id) {
            None => {
                let mut m = string_of("Unknown temp target: ");
                push_str(&mut m, id);
                Some(m)
            },
            Some(t) => if t.needs_admin && !elevated {
                Some(string_of("Administrator required for this temp target."))
            } else {
                None
            },
        },
        Pending::ClearTempAll => if admin_temp && !elevated {
            Some(
                string_of(
                    "Administrator required to clear all temp targets (includes Windows\\Temp).",
                ),
            )
        } else {
            None
        },
        Pending::One { .. } | Pending::All { .. } => if !elevated {
            Some(string_of("Administrator required to change settings."))
        } else {
            None
        },
        _ => None,
    }
}

/// The status after a verification re-read found `off` settings off and `on` on.
pub open spec fn verify_status_view(stamp: Seq<char>, off: nat, on: nat) -> Seq<char> {
    "Verified at "@ + stamp + " — re-read "@ + dec(off) + " OFF + "@ + dec(on)
        + " ON from Windows (registry / services / tasks). Nothing was changed — see highlighted switches and Verified values."@
}

pub fn verify_status(stamp: &str, off: u64, on: u64) -> (r: String)
    ensures
        r@ == verify_status_view(stamp@, off as nat, on as nat),
{
    let mut s = string_of("Verified at ");
    push_str(&mut s, stamp);
    push_str(&mut s, " — re-read ");
    push_dec(&mut s, off);
    push_str(&mut s, " OFF + ");
    push_dec(&mut s, on);
    push_str(
        &mut s,
        " ON from Windows (registry / services / tasks). Nothing was changed — see highlighted switches and Verified values.",
    );
    s
}

/// The status of an action that reports a message or an error: the message
/// itself, or the error after a prefix naming the action.
pub open spec fn message_status_view(prefix: Seq<char>, r: Result<Seq<char>, Seq<char>>) -> (Seq<char>, bool) {
    match r {
        Ok(m) => (m, true),
        Err(e) => (prefix + e, false),
    }
}

/// What run-at-startup reports.
pub fn startup_status(r: Result<String, String>) -> (s: (String, bool))
    ensures
        (s.0@, s.1) == message_status_view("Startup option failed: "@, text_result_view(r)),
{
    match r {
        Ok(m) => (m, true),
        Err(e) => {
            let mut s = string_of("Startup option failed: ");
            push_str(&mut s, e.as_str());
            (s, false)
        },
    }
}

/// What the post-update task reports.
pub fn post_update_status(r: Result<String, String>) -> (s: (String, bool))
    ensures
        (s.0@, s.1) == message_status_view("Post-update task failed: "@, text_result_view(r)),
{
    match r {
        Ok(m) => (m, true),
        Err(e) => {
            let mut s = string_of("Post-update task failed: ");
            push_str(&mut s, e.as_str());
            (s, false)
        },
    }
}

/// What applying the cleanup schedule reports.
pub fn schedule_status(r: Result<String, String>) -> (s: (String, bool))
    ensures
        (s.0@, s.1) == message_status_view("Cleanup schedule failed: "@, text_result_view(r)),
{
    match r {
        Ok(m) => (m, true),
        Err(e) => {
            let mut s = string_of("Cleanup schedule failed: ");
            push_str(&mut s, e.as_str());
            (s, false)
        },
    }
}

/// The status of one log clear (`None`: the id is unknown), and on success
/// the longer report with the state before.
pub open spec fn log_clear_status_view(
    id: Seq<char>,
    r: Option<Result<(Seq<char>, Seq<char>), Seq<char>>>,
) -> (Seq<char>, bool, Option<Seq<char>>) {
    match r {
        None => ("Unknown clear target: "@ + id, false, None),
        Some(Ok((summary, before))) => (summary, true, Some(summary + " — was: "@ + before)),
        Some(Err(e)) => ("Clear failed ("@ + id + "): "@ + e, false, None),
    }
}

pub open spec fn log_result_view(r: Option<Result<ClearResult, String>>) -> Option<
    Result<(Seq<char>, Seq<char>), Seq<char>>,
> {
    match r {
        None => None,
        Some(Ok(c)) => Some(
            Ok((crate::log_cleanup::clear_result_line(c), crate::log_cleanup::log_status_line(c.before))),
        ),
        Some(Err(e)) => Some(Err(e@)),
    }
}

/// The status of one log clear (see [`log_clear_status_view`]).
pub fn log_clear_status(id: &str, r: Option<Result<ClearResult, String>>) -> (s: (
    String,
    bool,
    Option<String>,
))
    ensures
        (s.0@, s.1, match s.2 {
            Some(x) => Some(x@),
            None => None,
        }) == log_clear_status_view(id@, log_result_view(r)),
{
    match r {
        None => {
            let mut m = string_of("Unknown clear target: ");
            push_str(&mut m, id);
            (m, false, None)
        },
        Some(Ok(c)) => {
            let summary = c.summary_line();
            let mut report = string_of(summary.as_str());
            push_str(&mut report, " — was: ");
            let before = c.before.summary_line();
            push_str(&mut report, before.as_str());
            (summary, true, Some(report))
        },
        Some(Err(e)) => {
            let mut m = string_of("Clear failed (");
            push_str(&mut m, id);
            push_str(&mut m, "): ");
            push_str(&mut m, e.as_str());
            (m, false, None)
        },
    }
}

pub open spec fn temp_result_view(r: Result<TempClearResult, String>) -> Result<
    (Seq<char>, Seq<char>),
    Seq<char>,
> {
    match r {
        Ok(c) => Ok(
            (crate::temp_cleanup::temp_clear_line(c), crate::temp_cleanup::temp_status_line(c.before)),
        ),
        Err(e) => Err(e@),
    }
}

/// The status of one temp clear, and on success the longer report.
pub open spec fn temp_clear_status_view(id: Seq<char>, r: Result<(Seq<char>, Seq<char>), Seq<char>>) -> (
    Seq<char>,
    bool,
    Option<Seq<char>>,
) {
    match r {
        Ok((summary, before)) => (summary, true, Some(summary + " — was: "@ + before)),
        Err(e) => ("Temp clear failed ("@ + id + "): "@ + e, false, None),
    }
}

pub fn temp_clear_status(id: &str, r: Result<TempClearResult, String>) -> (s: (String, bool, Option<String>))
    ensures
        (s.0@, s.1, match s.2 {
            Some(x) => Some(x@),
            None => None,
        }) == temp_clear_status_view(id@, temp_result_view(r)),
{
    match r {
        Ok(c) => {
            let summary = c.summary_line();
            let mut report = string_of(summary.as_str());
            push_str(&mut report, " — was: ");
            let before = c.before.summary_line();
            push_str(&mut report, before.as_str());
            (summary, true, Some(report))
        },
        Err(e) => {
            let mut m = string_of("Temp clear failed (");
            push_str(&mut m, id);
            push_str(&mut m, "): ");
            push_str(&mut m, e.as_str());
            (m, false, None)
        },
    }
}

/// Which bulk clear a report is for.
#[derive(Debug, Clone, Copy, PartialEq, Eq, Structural)]
pub enum BulkClear {
    SafeLogs,
    AllLogs,
    Temp,
}

/// Per target of a bulk clear: its id and (items, bytes) or the error.
pub type BulkOutcome = (Seq<char>, Result<(u64, u64), Seq<char>>);

pub open spec fn bulk_log_outcomes(rs: Seq<(String, Result<ClearResult, String>)>) -> Seq<BulkOutcome> {
    rs.map_values(
        |p: (String, Result<ClearResult, String>)|
            (
                p.0@,
                match p.1 {
                    Ok(c) => Ok((c.removed_files, c.freed_bytes)),
                    Err(e) => Err(e@),
                },
            ),
    )
}

pub open spec fn bulk_temp_outcomes(rs: Seq<(String, Result<TempClearResult, String>)>) -> Seq<
    BulkOutcome,
> {
    rs.map_values(
        |p: (String, Result<TempClearResult, String>)|
            (
                p.0@,
                match p.1 {
                    Ok(c) => Ok((c.removed_files, c.freed_bytes)),
                    Err(e) => Err(e@),
                },
            ),
    )
}

/// (targets cleared, items, bytes) over a bulk clear.
pub open spec fn bulk_totals(os: Seq<BulkOutcome>) -> (nat, nat, nat)
    decreases os.len(),
{
    if os.len() == 0 {
        (0, 0, 0)
    } else {
        let (k, f, b) = bulk_totals(os.drop_last());
        match os.last().1 {
            Ok((rf, rb)) => (k + 1, f + rf as nat, b + rb as nat),
            Err(_) => (k, f, b),
        }
    }
}

/// The failures of a bulk clear, as `id: error`, in order.
pub open spec fn bulk_failures(os: Seq<BulkOutcome>) -> Seq<Seq<char>>
    decreases os.len(),
{
    if os.len() == 0 {
        Seq::empty()
    } else {
        bulk_failures(os.drop_last()) + match os.last().1 {
            Ok(_) => Seq::empty(),
            Err(e) => seq![os.last().0 + ": "@ + e],
        }
    }
}

pub open spec fn bulk_label(kind: BulkClear) -> (Seq<char>, Seq<char>) {
    match kind {
        BulkClear::SafeLogs => ("Cleared "@, " target(s): "@),
        BulkClear::AllLogs => ("Cleared ALL "@, " log target(s): "@),
        BulkClear::Temp => ("Cleared "@, " temp target(s): "@),
    }
}

/// The status of a bulk clear: how many targets were cleared with how many
/// items and bytes, then any failures; it is good when nothing failed.
pub open spec fn bulk_status_view(kind: BulkClear, os: Seq<BulkOutcome>) -> (Seq<char>, bool) {
    let (k, f, b) = bulk_totals(os);
    let report = bulk_label(kind).0 + dec(k) + bulk_label(kind).1 + dec(f) + " item(s), "@
        + format_bytes_view(b);
    let fails = bulk_failures(os);
    if fails.len() == 0 {
        (report, true)
    } else {
        (report + "; failures: "@ + join(fails, "; "@), false)
    }
}

/// The totals of a bulk clear fit the counters.
pub open spec fn bulk_fits(os: Seq<BulkOutcome>) -> bool {
    bulk_totals(os).1 <= u64::MAX && bulk_totals(os).2 <= u64::MAX
}

proof fn lemma_bulk_prefix(os: Seq<BulkOutcome>, k: int)
    requires
        0 <= k <= os.len(),
    ensures
        bulk_totals(os.take(k)).0 <= k,
        bulk_totals(os.take(k)).1 <= bulk_totals(os).1,
        bulk_totals(os.take(k)).2 <= bulk_totals(os).2,
    decreases os.len() - k,
{
    lemma_bulk_count(os.take(k));
    if k < os.len() {
        lemma_bulk_prefix(os, k + 1);
        assert(os.take(k + 1).drop_last() =~= os.take(k));
    } else {
        assert(os.take(k) =~= os);
    }
}

proof fn lemma_bulk_count(os: Seq<BulkOutcome>)
    ensures
        bulk_totals(os).0 <= os.len(),
    decreases os.len(),
{
    if os.len() > 0 {
        lemma_bulk_count(os.drop_last());
    }
}

/// The per-target outcomes of a bulk log clear.
pub fn bulk_log_list(rs: &[(String, Result<ClearResult, String>)]) -> (r: Vec<
    (String, Result<(u64, u64), String>),
>)
    ensures
        bulk_view(r@) == bulk_log_outcomes(rs@),
{
    let mut r: Vec<(String, Result<(u64, u64), String>)> = Vec::new();
    let mut i: usize = 0;
    while i < rs.len()
        invariant
            0 <= i <= rs@.len(),
            bulk_view(r@) == bulk_log_outcomes(rs@.take(i as int)),
        decreases rs@.len() - i,
    {
        let ghost prev = r@;
        let id = string_of(rs[i].0.as_str());
        let o = match &rs[i].1 {
            Ok(c) => Ok((c.removed_files, c.freed_bytes)),
            Err(e) => Err(string_of(e.as_str())),
        };
        let ghost ov: Result<(u64, u64), Seq<char>> = match &o {
            Ok(t) => Ok(*t),
            Err(e) => Err(e@),
        };
        assert((id@, ov) == bulk_log_outcomes(rs@.take(i + 1))[i as int]);
        r.push((id, o));
        proof {
            assert(rs@.take(i + 1).drop_last() =~= rs@.take(i as int));
            assert(bulk_view(r@) =~= bulk_view(prev).push((id@, ov)));
            assert(bulk_log_outcomes(rs@.take(i + 1)) =~= bulk_log_outcomes(rs@.take(i as int)).push(
                bulk_log_outcomes(rs@.take(i + 1))[i as int],
            ));
        }
        i = i + 1;
        assert(bulk_view(r@) =~= bulk_log_outcomes(rs@.take(i as int)));
    }
    assert(rs@.take(rs@.len() as int) =~= rs@);
    r
}

/// The per-target outcomes of a bulk temp clear.
pub fn bulk_temp_list(rs: &[(String, Result<TempClearResult, String>)]) -> (r: Vec<
    (String, Result<(u64, u64), String>),
>)
    ensures
        bulk_view(r@) == bulk_temp_outcomes(rs@),
{
    let mut r: Vec<(String, Result<(u64, u64), String>)> = Vec::new();
    let mut i: usize = 0;
    while i < rs.len()
        invariant
            0 <= i <= rs@.len(),
            bulk_view(r@) == bulk_temp_outcomes(rs@.take(i as int)),
        decreases rs@.len() - i,
    {
        let ghost prev = r@;
        let id = string_of(rs[i].0.as_str());
        let o = match &rs[i].1 {
            Ok(c) => Ok((c.removed_files, c.freed_bytes)),
            Err(e) => Err(string_of(e.as_str())),
        };
        let ghost ov: Result<(u64, u64), Seq<char>> = match &o {
            Ok(t) => Ok(*t),
            Err(e) => Err(e@),
        };
        assert((id@, ov) == bulk_temp_outcomes(rs@.take(i + 1))[i as int]);
        r.push((id, o));
        proof {
            assert(rs@.take(i + 1).drop_last() =~= rs@.take(i as int));
            assert(bulk_view(r@) =~= bulk_view(prev).push((id@, ov)));
            assert(bulk_temp_outcomes(rs@.take(i + 1)) =~= bulk_temp_outcomes(rs@.take(i as int)).push(
                bulk_temp_outcomes(rs@.take(i + 1))[i as int],
            ));
        }
        i = i + 1;
        assert(bulk_view(r@) =~= bulk_temp_outcomes(rs@.take(i as int)));
    }
    assert(rs@.take(rs@.len() as int) =~= rs@);
    r
}

pub open spec fn bulk_view(v: Seq<(String, Result<(u64, u64), String>)>) -> Seq<BulkOutcome> {
    v.map_values(
        |p: (String, Result<(u64, u64), String>)|
            (
                p.0@,
                match p.1 {
                    Ok(t) => Ok(t),
                    Err(e) => Err(e@),
                },
            ),
    )
}

/// The status of a bulk clear from its per-target outcomes (see [`bulk_status_view`]).
pub fn bulk_status(kind: BulkClear, os: &Vec<(String, Result<(u64, u64), String>)>) -> (s: (
    String,
    bool,
))
    requires
        bulk_fits(bulk_view(os@)),
    ensures
        (s.0@, s.1) == bulk_status_view(kind, bulk_view(os@)),
{
    let ghost ov = bulk_view(os@);
    let mut k: u64 = 0;
    let mut f: u64 = 0;
    let mut b: u64 = 0;
    let mut fails: Vec<String> = Vec::new();
    let mut i: usize = 0;
    while i < os.len()
        invariant
            0 <= i <= os@.len(),
            ov == bulk_view(os@),
            bulk_fits(ov),
            k == bulk_totals(ov.take(i as int)).0,
            f == bulk_totals(ov.take(i as int)).1,
            b == bulk_totals(ov.take(i as int)).2,
            fails.deep_view() == bulk_failures(ov.take(i as int)),
        decreases os@.len() - i,
    {
        proof {
            assert(ov.take(i + 1).drop_last() =~= ov.take(i as int));
            lemma_bulk_prefix(ov, i + 1);
            lemma_bulk_prefix(ov, i as int);
        }
        match &os[i].1 {
            Ok((rf, rb)) => {
                k = k + 1;
                f = f + *rf;
                b = b + *rb;
                assert(fails.deep_view() =~= bulk_failures(ov.take(i + 1)));
            },
            Err(e) => {
                let mut m = string_of(os[i].0.as_str());
                push_str(&mut m, ": ");
                push_str(&mut m, e.as_str());
                let ghost before = fails.deep_view();
                fails.push(m);
                assert(fails.deep_view() =~= bulk_failures(ov.take(i + 1)));
            },
        }
        i = i + 1;
    }
    assert(ov.take(ov.len() as int) =~= ov);
    let mut s = match kind {
        BulkClear::SafeLogs => string_of("Cleared "),
        BulkClear::AllLogs => string_of("Cleared ALL "),
        BulkClear::Temp => string_of("Cleared "),
    };
    push_dec(&mut s, k);
    match kind {
        BulkClear::SafeLogs => push_str(&mut s, " target(s): "),
        BulkClear::AllLogs => push_str(&mut s, " log target(s): "),
        BulkClear::Temp => push_str(&mut s, " temp target(s): "),
    }
    push_dec(&mut s, f);
    push_str(&mut s, " item(s), ");
    push_format_bytes(&mut s, b);
    if fails.len() == 0 {
        return (s, true);
    }
    push_str(&mut s, "; failures: ");
    push_joined_strings(&mut s, &fails, "; ");
    (s, false)
}

fn push_joined_strings(s: &mut String, parts: &Vec<String>, sep: &str)
    ensures
        final(s)@ == old(s)@ + join(parts.deep_view(), sep@),
{
    let ghost start = s@;
    let ghost views = parts.deep_view();
    let mut i: usize = 0;
    assert(views.take(0) =~= Seq::<Seq<char>>::empty());
    while i < parts.len()
        invariant
            0 <= i <= parts@.len(),
            views == parts.deep_view(),
            views.len() == parts@.len(),
            s@ == start + join(views.take(i as int), sep@),
        decreases parts@.len() - i,
    {
        if i != 0 {
            push_str(s, sep);
        }
        push_str(s, parts[i].as_str());
        proof {
            let next = views.take(i + 1);
            assert(next.drop_last() =~= views.take(i as int));
            assert(next.last() == parts@[i as int]@);
            if i == 0 {
                assert(join(next, sep@) == next[0]);
            }
        }
        i = i + 1;
        assert(s@ =~= start + join(views.take(i as int), sep@));
    }
    assert(views.take(views.len() as int) =~= views);
}

/// The status after switching one setting.
pub open spec fn one_setting_status_view(id: SettingId, active: bool, r: Result<Seq<char>, Seq<char>>) -> (
    Seq<char>,
    bool,
) {
    match r {
        Ok(m) => (
            id.title_view() + " — "@ + m + "  (CLI: tluw set "@ + cli_name_view(id) + " "@ + (if active {
                "on"@
            } else {
                "off"@
            }) + ")"@,
            true,
        ),
        Err(e) => ("Failed ("@ + id.title_view() + "): "@ + e, false),
    }
}

pub fn one_setting_status(id: SettingId, active: bool, r: Result<String, String>) -> (s: (String, bool))
    ensures
        (s.0@, s.1) == one_setting_status_view(id, active, text_result_view(r)),
{
    match r {
        Ok(m) => {
            let mut s = string_of(id.title());
            push_str(&mut s, " — ");
            push_str(&mut s, m.as_str());
            push_str(&mut s, "  (CLI: tluw set ");
            push_str(&mut s, id.cli_name());
            push_str(&mut s, " ");
            push_str(
                &mut s,
                if active {
                    "on"
                } else {
                    "off"
                },
            );
            push_str(&mut s, ")");
            (s, true)
        },
        Err(e) => {
            let mut s = string_of("Failed (");
            push_str(&mut s, id.title());
            push_str(&mut s, "): ");
            push_str(&mut s, e.as_str());
            (s, false)
        },
    }
}

/// The failures of switching every setting, as `title: error`, in order.
pub open spec fn setting_failures(rs: Seq<(SettingId, Result<String, String>)>) -> Seq<Seq<char>>
    decreases rs.len(),
{
    if rs.len() == 0 {
        Seq::empty()
    } else {
        setting_failures(rs.drop_last()) + match rs.last().1 {
            Ok(_) => Seq::empty(),
            Err(e) => seq![rs.last().0.title_view() + ": "@ + e@],
        }
    }
}

/// The status after switching every setting on or off.
pub open spec fn all_settings_status_view(active: bool, rs: Seq<(SettingId, Result<String, String>)>) -> (
    Seq<char>,
    bool,
) {
    let fails = setting_failures(rs);
    if fails.len() == 0 {
        (
            if active {
                "All ON — same as `tluw enable`. Dashboard refreshed."@
            } else {
                "All OFF — same as `tluw disable`. Dashboard refreshed. Reboot recommended."@
            },
            true,
        )
    } else {
        ("Some changes failed: "@ + join(fails, "; "@), false)
    }
}

pub fn all_settings_status(active: bool, rs: &[(SettingId, Result<String, String>)]) -> (s: (
    String,
    bool,
))
    ensures
        (s.0@, s.1) == all_settings_status_view(active, rs@),
{
    let mut fails: Vec<String> = Vec::new();
    let mut i: usize = 0;
    while i < rs.len()
        invariant
            0 <= i <= rs@.len(),
            fails.deep_view() == setting_failures(rs@.take(i as int)),
        decreases rs@.len() - i,
    {
        proof {
            assert(rs@.take(i + 1).drop_last() =~= rs@.take(i as int));
        }
        match &rs[i].1 {
            Ok(_) => {
                assert(fails.deep_view() =~= setting_failures(rs@.take(i + 1)));
            },
            Err(e) => {
                let mut m = string_of(rs[i].0.title());
                push_str(&mut m, ": ");
                push_str(&mut m, e.as_str());
                fails.push(m);
                assert(fails.deep_view() =~= setting_failures(rs@.take(i + 1)));
            },
        }
        i = i + 1;
    }
    assert(rs@.take(rs@.len() as int) =~= rs@);
    if fails.len() == 0 {
        return (
            if active {
                string_of("All ON — same as `tluw enable`. Dashboard refreshed.")
            } else {
                string_of("All OFF — same as `tluw disable`. Dashboard refreshed. Reboot recommended.")
            },
            true,
        );
    }
    let mut s = string_of("Some changes failed: ");
    push_joined_strings(&mut s, &fails, "; ");
    (s, false)
}

/// What a tray command does in the dashboard: the action it queues, the
/// status it shows, and whether the application exits.
pub open spec fn tray_command_view(cmd: TrayCommand) -> (Option<Pending>, Option<Seq<char>>, bool) {
    match cmd {
        TrayCommand::Show => (None, Some("Opened from system tray."@), false),
        TrayCommand::DisableTelemetry => (
            Some(Pending::All { active: false }),
            Some("Disabling telemetry (from tray)…"@),
            false,
        ),
        TrayCommand::ClearSafeLogs => (
            Some(Pending::ClearAllSafe),
            Some("Clearing safe logs (from tray)…"@),
            false,
        ),
        TrayCommand::Quit => (None, None, true),
    }
}

pub fn tray_command_effect(cmd: TrayCommand) -> (r: (Option<Pending>, Option<String>, bool))
    ensures
        r.0 == tray_command_view(cmd).0,
        r.2 == tray_command_view(cmd).2,
        match tray_command_view(cmd).1 {
            None => r.1 is None,
            Some(m) => r.1 is Some && r.1.unwrap()@ == m,
        },
{
    match cmd {
        TrayCommand::Show => (None, Some(string_of("Opened from system tray.")), false),
        TrayCommand::DisableTelemetry => (
            Some(Pending::All { active: false }),
            Some(string_of("Disabling telemetry (from tray)…")),
            false,
        ),
        TrayCommand::ClearSafeLogs => (
            Some(Pending::ClearAllSafe),
            Some(string_of("Clearing safe logs (from tray)…")),
            false,
        ),
        TrayCommand::Quit => (None, None, true),
    }
}

/// The status after switching the tray icon: saving the preference decides
/// first; showing it then needs the icon to be created.
pub open spec fn tray_pref_status_view(
    enabled: bool,
    saved: Result<(), Seq<char>>,
    created: Result<(), Seq<char>>,
) -> (Seq<char>, bool) {
    match saved {
        Err(e) => ("Could not save tray preference: "@ + e, false),
        Ok(_) => if !enabled {
            ("System tray disabled."@, true)
        } else {
            match created {
                Ok(_) => ("System tray icon shown — X / Minimize hide the window; Quit exits fully."@, true),
                Err(e) => ("System tray unavailable: "@ + e, false),
            }
        },
    }
}

pub fn tray_pref_status(enabled: bool, saved: Result<(), String>, created: Result<(), String>) -> (s: (
    String,
    bool,
))
    ensures
        (s.0@, s.1) == tray_pref_status_view(
            enabled,
            crate::launch::result_view(saved),
            crate::launch::result_view(created),
        ),
{
    match saved {
        Err(e) => {
            let mut s = string_of("Could not save tray preference: ");
            push_str(&mut s, e.as_str());
            (s, false)
        },
        Ok(()) => if !enabled {
            (string_of("System tray disabled."), true)
        } else {
            match created {
                Ok(()) => (
                    string_of("System tray icon shown — X / Minimize hide the window; Quit exits fully."),
                    true,
                ),
                Err(e) => {
                    let mut s = string_of("System tray unavailable: ");
                    push_str(&mut s, e.as_str());
                    (s, false)
                },
            }
        },
    }
}


/// How many settings are off and on.
pub open spec fn state_counts(states: Seq<crate::telemetry::SettingState>) -> (nat, nat)
    decreases states.len(),
{
    if states.len() == 0 {
        (0, 0)
    } else {
        let (off, on) = state_counts(states.drop_last());
        if states.last().active {
            (off, on + 1)
        } else {
            (off + 1, on)
        }
    }
}

proof fn lemma_state_counts_len(states: Seq<crate::telemetry::SettingState>)
    ensures
        state_counts(states).0 + state_counts(states).1 == states.len(),
    decreases states.len(),
{
    if states.len() > 0 {
        lemma_state_counts_len(states.drop_last());
    }
}

/// Counts the settings read as off and on.
pub fn count_states(states: &[crate::telemetry::SettingState]) -> (r: (u64, u64))
    ensures
        r.0 == state_counts(states@).0,
        r.1 == state_counts(states@).1,
{
    let mut off: u64 = 0;
    let mut on: u64 = 0;
    let mut i: usize = 0;
    while i < states.len()
        invariant
            0 <= i <= states@.len(),
            off == state_counts(states@.take(i as int)).0,
            on == state_counts(states@.take(i as int)).1,
        decreases states@.len() - i,
    {
        proof {
            assert(states@.take(i + 1).drop_last() =~= states@.take(i as int));
            lemma_state_counts_len(states@.take(i as int));
        }
        if states[i].active {
            on = on + 1;
        } else {
            off = off + 1;
        }
        i = i + 1;
    }
    assert(states@.take(states@.len() as int) =~= states@);
    (off, on)
}

/// The one-line telemetry summary over the settings read (the total counts
/// as at least one).
pub open spec fn telemetry_summary_view(off: nat, on: nat) -> Seq<char> {
    let total = if off + on == 0 {
        1
    } else {
        off + on
    };
    if on == 0 {
        dec(off) + "/"@ + dec(total) + " blocked — all quiet"@
    } else if off == 0 {
        dec(on) + "/"@ + dec(total) + " collecting — fully open"@
    } else {
        dec(off) + "/"@ + dec(total) + " blocked · "@ + dec(on) + " still collecting"@
    }
}

pub fn telemetry_summary(off: u64, on: u64) -> (r: String)
    requires
        off + on <= u64::MAX,
    ensures
        r@ == telemetry_summary_view(off as nat, on as nat),
{
    let total = if off + on == 0 {
        1
    } else {
        off + on
    };
    let mut s = String::new();
    if on == 0 {
        push_dec(&mut s, off);
        push_str(&mut s, "/");
        push_dec(&mut s, total);
        push_str(&mut s, " blocked — all quiet");
    } else if off == 0 {
        push_dec(&mut s, on);
        push_str(&mut s, "/");
        push_dec(&mut s, total);
        push_str(&mut s, " collecting — fully open");
    } else {
        push_dec(&mut s, off);
        push_str(&mut s, "/");
        push_dec(&mut s, total);
        push_str(&mut s, " blocked · ");
        push_dec(&mut s, on);
        push_str(&mut s, " still collecting");
    }
    assert(s@ =~= telemetry_summary_view(off as nat, on as nat));
    s
}

/// The line of what clears freed today.
pub open spec fn freed_today_view(today: DayTotals) -> Seq<char> {
    "today  logs "@ + format_size_view(today.logs_bytes as nat) + " · temp "@ + format_size_view(
        today.temp_bytes as nat,
    ) + " · total "@ + format_size_view(saturating_sum(today.logs_bytes, today.temp_bytes))
}

/// `a + b`, held at `u64::MAX`.
pub open spec fn saturating_sum(a: u64, b: u64) -> nat {
    if a + b <= u64::MAX {
        (a + b) as nat
    } else {
        u64::MAX as nat
    }
}

pub fn freed_today_line(today: &DayTotals) -> (r: String)
    ensures
        r@ == freed_today_view(*today),
{
    let mut s = string_of("today  logs ");
    let a = format_size(today.logs_bytes);
    push_str(&mut s, a.as_str());
    push_str(&mut s, " · temp ");
    let b = format_size(today.temp_bytes);
    push_str(&mut s, b.as_str());
    push_str(&mut s, " · total ");
    let c = format_size(today.total_bytes());
    push_str(&mut s, c.as_str());
    s
}

/// The line of what clears freed over all time (`logs` and `temp` from
/// [`crate::cleanup_history::lifetime_totals`]).
pub open spec fn freed_lifetime_view(logs: u64, temp: u64) -> Seq<char> {
    "lifetime  logs "@ + format_size_view(logs as nat) + " · temp "@ + format_size_view(temp as nat)
        + " · total "@ + format_size_view(saturating_sum(logs, temp))
}

pub fn freed_lifetime_line(logs: u64, temp: u64) -> (r: String)
    ensures
        r@ == freed_lifetime_view(logs, temp),
{
    let mut s = string_of("lifetime  logs ");
    let a = format_size(logs);
    push_str(&mut s, a.as_str());
    push_str(&mut s, " · temp ");
    let b = format_size(temp);
    push_str(&mut s, b.as_str());
    push_str(&mut s, " · total ");
    let c = format_size(logs.saturating_add(temp));
    push_str(&mut s, c.as_str());
    s
}

} // verus!
