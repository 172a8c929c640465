//! What the dashboard's controls do before any work runs: the confirmation
//! each risky request asks for, the cleanup-schedule edits its switches make,
//! which setting card is open, and the status lines of the refresh, open and
//! tray controls. The window draws these and performs what is confirmed.

use vstd::prelude::*;

use crate::cleanup_schedule::{disabled_config, disabled_view, CleanupInterval, CleanupScheduleConfig};
use crate::dashboard::Pending;
use crate::identity::PRODUCT_NAME_SHORT;
use crate::log_cleanup::{action_table, format_bytes_view, log_status_line, push_format_bytes, ClearAction, LogStatus};
use crate::telemetry::{cli_name_view, SettingId, SettingState};
use crate::temp_cleanup::{find_target, lemma_find_own_id, target_table, temp_status_line, TempStatus, TempTarget};
use crate::text::{dec, push_dec, push_str, string_of};

verus! {

/// An in-window confirmation: what it asks, the label of the button that
/// confirms, whether that button is styled as dangerous, and the action run
/// once confirmed.
#[derive(Debug, Clone)]
pub struct ConfirmPrompt {
    pub title: String,
    pub body: String,
    pub action_label: String,
    pub danger: bool,
    pub pending: Pending,
}

pub open spec fn prompt_view(p: ConfirmPrompt) -> (Seq<char>, Seq<char>, Seq<char>, bool, Pending) {
    (p.title@, p.body@, p.action_label@, p.danger, p.pending)
}

fn prompt(title: String, body: String, action_label: &str, danger: bool, pending: Pending) -> (r: ConfirmPrompt)
    ensures
        prompt_view(r) == (title@, body@, action_label@, danger, pending),
{
    ConfirmPrompt { title, body, action_label: string_of(action_label), danger, pending }
}

/// Turning every setting off (dangerous) or on.
pub open spec fn turn_all_prompt_view(active: bool) -> (Seq<char>, Seq<char>, Seq<char>, bool, Pending) {
    if active {
        (
            "Turn all telemetry ON?"@,
            "Allow every telemetry / diagnostic setting this app controls.\n\nEach switch will be set to ON (collecting / allowed)."@,
            "Turn all ON"@,
            false,
            Pending::All { active: true },
        )
    } else {
        (
            "Turn all telemetry OFF?"@,
            "Block every telemetry / diagnostic setting this app controls.\n\nEach switch will be set to OFF (not collecting)."@,
            "Turn all OFF"@,
            true,
            Pending::All { active: false },
        )
    }
}

pub fn turn_all_prompt(active: bool) -> (r: ConfirmPrompt)
    ensures
        prompt_view(r) == turn_all_prompt_view(active),
{
    if active {
        prompt(
            string_of("Turn all telemetry ON?"),
            string_of(
                "Allow every telemetry / diagnostic setting this app controls.\n\nEach switch will be set to ON (collecting / allowed).",
            ),
            "Turn all ON",
            false,
            Pending::All { active: true },
        )
    } else {
        prompt(
            string_of("Turn all telemetry OFF?"),
            string_of(
                "Block every telemetry / diagnostic setting this app controls.\n\nEach switch will be set to OFF (not collecting).",
            ),
            "Turn all OFF",
            true,
            Pending::All { active: false },
        )
    }
}

/// Quitting the application, window and tray icon alike.
pub open spec fn quit_prompt_view() -> (Seq<char>, Seq<char>, Seq<char>, bool, Pending) {
    (
        "Quit "@ + PRODUCT_NAME_SHORT@ + "?"@,
        "Exit the application completely?\n\nThe window and system tray icon will both close."@,
        "Quit"@,
        true,
        Pending::Quit,
    )
}

pub fn quit_prompt() -> (r: ConfirmPrompt)
    ensures
        prompt_view(r) == quit_prompt_view(),
{
    let mut title = string_of("Quit ");
    push_str(&mut title, PRODUCT_NAME_SHORT);
    push_str(&mut title, "?");
    prompt(
        title,
        string_of("Exit the application completely?\n\nThe window and system tray icon will both close."),
        "Quit",
        true,
        Pending::Quit,
    )
}

/// Switching one setting: on allows it to collect again, off (dangerous)
/// blocks it; both name the equivalent CLI command.
pub open spec fn toggle_setting_prompt_view(id: SettingId, active: bool) -> (
    Seq<char>,
    Seq<char>,
    Seq<char>,
    bool,
    Pending,
) {
    if active {
        (
            "Turn ON — "@ + id.title_view() + "?"@,
            "Allow this setting to collect / run again?\n\nSetting: "@ + id.title_view() + "\nCLI: tluw set "@
                + cli_name_view(id) + " on\n\nON = collecting / allowed."@,
            "Turn ON"@,
            false,
            Pending::One { id, active: true },
        )
    } else {
        (
            "Turn OFF — "@ + id.title_view() + "?"@,
            "Block this telemetry / diagnostic setting?\n\nSetting: "@ + id.title_view() + "\nCLI: tluw set "@
                + cli_name_view(id) + " off\n\nOFF = not collecting / blocked."@,
            "Turn OFF"@,
            true,
            Pending::One { id, active: false },
        )
    }
}

pub fn toggle_setting_prompt(id: SettingId, active: bool) -> (r: ConfirmPrompt)
    ensures
        prompt_view(r) == toggle_setting_prompt_view(id, active),
{
    let mut title = string_of(if active {
        "Turn ON — "
    } else {
        "Turn OFF — "
    });
    push_str(&mut title, id.title());
    push_str(&mut title, "?");
    let mut body = string_of(if active {
        "Allow this setting to collect / run again?\n\nSetting: "
    } else {
        "Block this telemetry / diagnostic setting?\n\nSetting: "
    });
    push_str(&mut body, id.title());
    push_str(&mut body, "\nCLI: tluw set ");
    push_str(&mut body, id.cli_name());
    if active {
        push_str(&mut body, " on\n\nON = collecting / allowed.");
        prompt(title, body, "Turn ON", false, Pending::One { id, active: true })
    } else {
        push_str(&mut body, " off\n\nOFF = not collecting / blocked.");
        prompt(title, body, "Turn OFF", true, Pending::One { id, active: false })
    }
}

/// Clearing one log target, with its state as just inspected.
pub open spec fn clear_log_prompt_view(action: ClearAction, current: LogStatus) -> (
    Seq<char>,
    Seq<char>,
    Seq<char>,
    bool,
    Pending,
) {
    (
        "Clear "@ + action.title@ + "?"@,
        "Permanently clear this log target.\n\nTarget: "@ + action.title@ + " ("@ + action.id@
            + ")\nCurrent: "@ + log_status_line(current)
            + "\n\nLocked files are skipped. This cannot be undone."@,
        "Clear"@,
        true,
        Pending::ClearLog(action.id),
    )
}

pub fn clear_log_prompt(action: &ClearAction, current: &LogStatus) -> (r: ConfirmPrompt)
    ensures
        prompt_view(r) == clear_log_prompt_view(*action, *current),
{
    let mut title = string_of("Clear ");
    push_str(&mut title, action.title);
    push_str(&mut title, "?");
    let mut body = string_of("Permanently clear this log target.\n\nTarget: ");
    push_str(&mut body, action.title);
    push_str(&mut body, " (");
    push_str(&mut body, action.id);
    push_str(&mut body, ")\nCurrent: ");
    let summary = current.summary_line();
    push_str(&mut body, summary.as_str());
    push_str(&mut body, "\n\nLocked files are skipped. This cannot be undone.");
    prompt(title, body, "Clear", true, Pending::ClearLog(action.id))
}

/// Clearing every available safe log target (`total_bytes` what the log
/// targets hold now).
pub open spec fn clear_all_safe_prompt_view(total_bytes: u64) -> (
    Seq<char>,
    Seq<char>,
    Seq<char>,
    bool,
    Pending,
) {
    (
        "Clear all safe logs?"@,
        "Clear every available non-dangerous log target.\n\nDiagnosis wipe / Security logs are NOT included.\nCurrent total ~"@
            + format_bytes_view(total_bytes as nat)
            + ".\n\nLocked files are skipped. This cannot be undone."@,
        "Clear safe logs"@,
        true,
        Pending::ClearAllSafe,
    )
}

pub fn clear_all_safe_prompt(total_bytes: u64) -> (r: ConfirmPrompt)
    ensures
        prompt_view(r) == clear_all_safe_prompt_view(total_bytes),
{
    let mut body = string_of(
        "Clear every available non-dangerous log target.\n\nDiagnosis wipe / Security logs are NOT included.\nCurrent total ~",
    );
    push_format_bytes(&mut body, total_bytes);
    push_str(&mut body, ".\n\nLocked files are skipped. This cannot be undone.");
    prompt(string_of("Clear all safe logs?"), body, "Clear safe logs", true, Pending::ClearAllSafe)
}

/// Clearing every available log target, the dangerous ones included.
pub open spec fn clear_all_logs_prompt_view(total_bytes: u64) -> (
    Seq<char>,
    Seq<char>,
    Seq<char>,
    bool,
    Pending,
) {
    (
        "Clear ALL logs?"@,
        "Clear every available log target, including dangerous ones (Diagnosis wipe / Security).\n\nCurrent total ~"@
            + format_bytes_view(total_bytes as nat)
            + ".\n\nLocked files are skipped. This cannot be undone."@,
        "Clear ALL logs"@,
        true,
        Pending::ClearAllLogs,
    )
}

pub fn clear_all_logs_prompt(total_bytes: u64) -> (r: ConfirmPrompt)
    ensures
        prompt_view(r) == clear_all_logs_prompt_view(total_bytes),
{
    let mut body = string_of(
        "Clear every available log target, including dangerous ones (Diagnosis wipe / Security).\n\nCurrent total ~",
    );
    push_format_bytes(&mut body, total_bytes);
    push_str(&mut body, ".\n\nLocked files are skipped. This cannot be undone.");
    prompt(string_of("Clear ALL logs?"), body, "Clear ALL logs", true, Pending::ClearAllLogs)
}

/// Clearing one temporary-files location, with its state as just inspected.
pub open spec fn clear_temp_prompt_view(target: TempTarget, current: TempStatus) -> (
    Seq<char>,
    Seq<char>,
    Seq<char>,
    bool,
    Pending,
) {
    (
        "Clear "@ + target.title@ + "?"@,
        "Permanently clear this temporary files location.\n\nTarget: "@ + target.title@ + " ("@
            + target.id@ + ")\nCurrent: "@ + temp_status_line(current) + "\n\nThis cannot be undone."@,
        "Clear"@,
        true,
        Pending::ClearTemp(target.id),
    )
}

pub fn clear_temp_prompt(target: &TempTarget, current: &TempStatus) -> (r: ConfirmPrompt)
    ensures
        prompt_view(r) == clear_temp_prompt_view(*target, *current),
{
    let mut title = string_of("Clear ");
    push_str(&mut title, target.title);
    push_str(&mut title, "?");
    let mut body = string_of("Permanently clear this temporary files location.\n\nTarget: ");
    push_str(&mut body, target.title);
    push_str(&mut body, " (");
    push_str(&mut body, target.id);
    push_str(&mut body, ")\nCurrent: ");
    let summary = current.summary_line();
    push_str(&mut body, summary.as_str());
    push_str(&mut body, "\n\nThis cannot be undone.");
    prompt(title, body, "Clear", true, Pending::ClearTemp(target.id))
}

/// Confirming "Clear all safe logs" runs the safe bulk clear: the same
/// action as the armed "all safe logs" button, and never the clear that takes
/// the dangerous targets along, whatever the totals shown.
pub proof fn lemma_safe_clear_prompt_runs_the_safe_clear(total_bytes: u64, other_total: u64)
    ensures
        clear_all_safe_prompt_view(total_bytes).4 == armed_pending(Armed::AllSafeLogs),
        clear_all_safe_prompt_view(total_bytes).4 == Pending::ClearAllSafe,
        clear_all_safe_prompt_view(total_bytes).4 != clear_all_logs_prompt_view(other_total).4,
{
}

/// Confirming the clear of one temp location runs a clear of that location
/// alone: the action names a target that is found as exactly the one shown,
/// it is the action of that target's armed button, and it is not the clear
/// of every location.
pub proof fn lemma_temp_prompt_runs_that_target(index: usize, current: TempStatus, total_bytes: u64)
    requires
        index < 6,
    ensures
        clear_temp_prompt_view(target_table()[index as int], current).4 == armed_pending(
            Armed::Temp(index),
        ),
        clear_temp_prompt_view(target_table()[index as int], current).4 matches Pending::ClearTemp(id)
            && find_target(id@) == Some(target_table()[index as int]),
        clear_temp_prompt_view(target_table()[index as int], current).4 != clear_temp_all_prompt_view(
            total_bytes,
        ).4,
{
    lemma_find_own_id(index as int);
}

/// Clearing every available temp target.
pub open spec fn clear_temp_all_prompt_view(total_bytes: u64) -> (
    Seq<char>,
    Seq<char>,
    Seq<char>,
    bool,
    Pending,
) {
    (
        "Clear all temporary files?"@,
        "Clear every available temp target (TEMP, Windows\\Temp, Prefetch, …).\n\nCurrent total ~"@
            + format_bytes_view(total_bytes as nat) + ".\n\nThis cannot be undone."@,
        "Clear all temp"@,
        true,
        Pending::ClearTempAll,
    )
}

pub fn clear_temp_all_prompt(total_bytes: u64) -> (r: ConfirmPrompt)
    ensures
        prompt_view(r) == clear_temp_all_prompt_view(total_bytes),
{
    let mut body = string_of(
        "Clear every available temp target (TEMP, Windows\\Temp, Prefetch, …).\n\nCurrent total ~",
    );
    push_format_bytes(&mut body, total_bytes);
    push_str(&mut body, ".\n\nThis cannot be undone.");
    prompt(string_of("Clear all temporary files?"), body, "Clear all temp", true, Pending::ClearTempAll)
}

/// A change one of the cleanup-schedule switches makes.
#[derive(Debug, Clone, Copy)]
pub enum ScheduleEdit {
    ClearSafeLogs(bool),
    /// Turning all logs on turns safe logs on too (they are a part of them).
    ClearAllLogs(bool),
    ClearTemp(bool),
    OnLogon(bool),
    OnSessionEnd(bool),
    Interval(CleanupInterval),
    /// Clears every trigger and keeps the targets.
    TurnOff,
}

pub open spec fn edit_view(cfg: CleanupScheduleConfig, e: ScheduleEdit) -> CleanupScheduleConfig {
    match e {
        ScheduleEdit::ClearSafeLogs(v) => CleanupScheduleConfig { clear_safe_logs: v, ..cfg },
        ScheduleEdit::ClearAllLogs(v) => CleanupScheduleConfig {
            clear_all_logs: v,
            clear_safe_logs: if v {
                true
            } else {
                cfg.clear_safe_logs
            },
            ..cfg
        },
        ScheduleEdit::ClearTemp(v) => CleanupScheduleConfig { clear_temp: v, ..cfg },
        ScheduleEdit::OnLogon(v) => CleanupScheduleConfig { on_logon: v, ..cfg },
        ScheduleEdit::OnSessionEnd(v) => CleanupScheduleConfig { on_session_end: v, ..cfg },
        ScheduleEdit::Interval(i) => CleanupScheduleConfig { interval: i, ..cfg },
        ScheduleEdit::TurnOff => disabled_view(cfg),
    }
}

/// The schedule after one switch (see [`edit_view`]); the caller queues it
/// to be applied.
pub fn edit_schedule(cfg: CleanupScheduleConfig, e: ScheduleEdit) -> (r: CleanupScheduleConfig)
    ensures
        r == edit_view(cfg, e),
{
    match e {
        ScheduleEdit::ClearSafeLogs(v) => CleanupScheduleConfig { clear_safe_logs: v, ..cfg },
        ScheduleEdit::ClearAllLogs(v) => CleanupScheduleConfig {
            clear_all_logs: v,
            clear_safe_logs: if v {
                true
            } else {
                cfg.clear_safe_logs
            },
            ..cfg
        },
        ScheduleEdit::ClearTemp(v) => CleanupScheduleConfig { clear_temp: v, ..cfg },
        ScheduleEdit::OnLogon(v) => CleanupScheduleConfig { on_logon: v, ..cfg },
        ScheduleEdit::OnSessionEnd(v) => CleanupScheduleConfig { on_session_end: v, ..cfg },
        ScheduleEdit::Interval(i) => CleanupScheduleConfig { interval: i, ..cfg },
        ScheduleEdit::TurnOff => disabled_config(&cfg),
    }
}

/// Each switch changes only what it names: all logs on brings safe logs
/// with it (and no switch but safe logs off undoes that), turning off leaves
/// no trigger (so nothing runs) and keeps every target, and every other
/// edit leaves the other fields as they were.
pub proof fn lemma_edit_changes_what_it_names(cfg: CleanupScheduleConfig, e: ScheduleEdit)
    ensures
        (cfg.clear_all_logs ==> cfg.clear_safe_logs) && e != ScheduleEdit::ClearSafeLogs(false)
            ==> (edit_view(cfg, e).clear_all_logs ==> edit_view(cfg, e).clear_safe_logs),
        e == ScheduleEdit::ClearAllLogs(true) ==> edit_view(cfg, e).clear_safe_logs,
        e is TurnOff ==> !crate::cleanup_schedule::is_active_config(edit_view(cfg, e))
            && edit_view(cfg, e).clear_safe_logs == cfg.clear_safe_logs
            && edit_view(cfg, e).clear_all_logs == cfg.clear_all_logs
            && edit_view(cfg, e).clear_temp == cfg.clear_temp,
        !(e is TurnOff) && !(e is Interval) ==> edit_view(cfg, e).interval == cfg.interval,
        !(e is TurnOff) && !(e is OnLogon) ==> edit_view(cfg, e).on_logon == cfg.on_logon,
        !(e is TurnOff) && !(e is OnSessionEnd) ==> edit_view(cfg, e).on_session_end
            == cfg.on_session_end,
        !(e is ClearTemp) ==> edit_view(cfg, e).clear_temp == cfg.clear_temp,
{
}

/// Opening or closing one setting card: the card at `idx` flips and every
/// other card closes, so at most one is open.
pub open spec fn toggle_expand_view(expanded: Seq<bool>, idx: int) -> Seq<bool> {
    Seq::new(expanded.len(), |j: int| if j == idx {
        !expanded[idx]
    } else {
        false
    })
}

pub fn toggle_expand(expanded: &[bool], idx: usize) -> (r: Vec<bool>)
    requires
        idx < expanded@.len(),
    ensures
        r@ == toggle_expand_view(expanded@, idx as int),
        forall|j: int, k: int| 0 <= j < k < r@.len() ==> !(r@[j] && r@[k]),
{
    let mut r: Vec<bool> = Vec::new();
    let mut j: usize = 0;
    while j < expanded.len()
        invariant
            0 <= j <= expanded@.len(),
            idx < expanded@.len(),
            r@ == toggle_expand_view(expanded@, idx as int).take(j as int),
        decreases expanded@.len() - j,
    {
        if j == idx {
            r.push(!expanded[idx]);
        } else {
            r.push(false);
        }
        proof {
            assert(toggle_expand_view(expanded@, idx as int).take(j + 1) =~= toggle_expand_view(
                expanded@,
                idx as int,
            ).take(j as int).push(toggle_expand_view(expanded@, idx as int)[j as int]));
        }
        j = j + 1;
    }
    assert(r@ =~= toggle_expand_view(expanded@, idx as int));
    r
}

/// The status line of a dashboard that has just opened.
pub open spec fn initial_status_view(elevated: bool) -> Seq<char> {
    if elevated {
        "Ready. Verify status re-reads live ON/OFF from Windows (does not change anything)."@
    } else {
        "Not elevated — Verify status is read-only; changes need Administrator."@
    }
}

pub fn initial_status(elevated: bool) -> (r: String)
    ensures
        r@ == initial_status_view(elevated),
{
    if elevated {
        string_of("Ready. Verify status re-reads live ON/OFF from Windows (does not change anything).")
    } else {
        string_of("Not elevated — Verify status is read-only; changes need Administrator.")
    }
}

/// The status after re-reading one setting.
pub open spec fn verify_one_status_view(s: SettingState) -> Seq<char> {
    "Verified "@ + cli_name_view(s.id) + " → "@ + (if s.active {
        "ON"@
    } else {
        "OFF"@
    }) + ": "@ + s.note@ + "  (live re-read; nothing changed)"@
}

pub fn verify_one_status(s: &SettingState) -> (r: String)
    ensures
        r@ == verify_one_status_view(*s),
{
    let mut r = string_of("Verified ");
    push_str(&mut r, s.id.cli_name());
    push_str(&mut r, " → ");
    push_str(
        &mut r,
        if s.active {
            "ON"
        } else {
            "OFF"
        },
    );
    push_str(&mut r, ": ");
    push_str(&mut r, s.note.as_str());
    push_str(&mut r, "  (live re-read; nothing changed)");
    r
}

/// Item and byte totals over several inspections.
pub open spec fn log_totals_view(ss: Seq<LogStatus>) -> (nat, nat)
    decreases ss.len(),
{
    if ss.len() == 0 {
        (0, 0)
    } else {
        let (f, b) = log_totals_view(ss.drop_last());
        (f + ss.last().files as nat, b + ss.last().bytes as nat)
    }
}

pub open spec fn temp_totals_view(ss: Seq<TempStatus>) -> (nat, nat)
    decreases ss.len(),
{
    if ss.len() == 0 {
        (0, 0)
    } else {
        let (f, b) = temp_totals_view(ss.drop_last());
        (f + ss.last().files as nat, b + ss.last().bytes as nat)
    }
}

proof fn lemma_log_totals_prefix(ss: Seq<LogStatus>, k: int)
    requires
        0 <= k <= ss.len(),
    ensures
        log_totals_view(ss.take(k)).0 <= log_totals_view(ss).0,
        log_totals_view(ss.take(k)).1 <= log_totals_view(ss).1,
    decreases ss.len() - k,
{
    if k < ss.len() {
        lemma_log_totals_prefix(ss, k + 1);
        assert(ss.take(k + 1).drop_last() =~= ss.take(k));
    } else {
        assert(ss.take(k) =~= ss);
    }
}

proof fn lemma_temp_totals_prefix(ss: Seq<TempStatus>, k: int)
    requires
        0 <= k <= ss.len(),
    ensures
        temp_totals_view(ss.take(k)).0 <= temp_totals_view(ss).0,
        temp_totals_view(ss.take(k)).1 <= temp_totals_view(ss).1,
    decreases ss.len() - k,
{
    if k < ss.len() {
        lemma_temp_totals_prefix(ss, k + 1);
        assert(ss.take(k + 1).drop_last() =~= ss.take(k));
    } else {
        assert(ss.take(k) =~= ss);
    }
}

/// The items and bytes the log targets hold, over their inspections.
pub fn log_totals(ss: &[LogStatus]) -> (r: (u64, u64))
    requires
        log_totals_view(ss@).0 <= u64::MAX,
        log_totals_view(ss@).1 <= u64::MAX,
    ensures
        r.0 == log_totals_view(ss@).0,
        r.1 == log_totals_view(ss@).1,
{
    let mut f: u64 = 0;
    let mut b: u64 = 0;
    let mut i: usize = 0;
    while i < ss.len()
        invariant
            0 <= i <= ss@.len(),
            log_totals_view(ss@).0 <= u64::MAX,
            log_totals_view(ss@).1 <= u64::MAX,
            f == log_totals_view(ss@.take(i as int)).0,
            b == log_totals_view(ss@.take(i as int)).1,
        decreases ss@.len() - i,
    {
        proof {
            assert(ss@.take(i + 1).drop_last() =~= ss@.take(i as int));
            lemma_log_totals_prefix(ss@, i + 1);
        }
        f = f + ss[i].files;
        b = b + ss[i].bytes;
        i = i + 1;
    }
    assert(ss@.take(ss@.len() as int) =~= ss@);
    (f, b)
}

/// The files and bytes the temp targets hold, over their inspections.
pub fn temp_totals(ss: &[TempStatus]) -> (r: (u64, u64))
    requires
        temp_totals_view(ss@).0 <= u64::MAX,
        temp_totals_view(ss@).1 <= u64::MAX,
    ensures
        r.0 == temp_totals_view(ss@).0,
        r.1 == temp_totals_view(ss@).1,
{
    let mut f: u64 = 0;
    let mut b: u64 = 0;
    let mut i: usize = 0;
    while i < ss.len()
        invariant
            0 <= i <= ss@.len(),
            temp_totals_view(ss@).0 <= u64::MAX,
            temp_totals_view(ss@).1 <= u64::MAX,
            f == temp_totals_view(ss@.take(i as int)).0,
            b == temp_totals_view(ss@.take(i as int)).1,
        decreases ss@.len() - i,
    {
        proof {
            assert(ss@.take(i + 1).drop_last() =~= ss@.take(i as int));
            lemma_temp_totals_prefix(ss@, i + 1);
        }
        f = f + ss[i].files;
        b = b + ss[i].bytes;
        i = i + 1;
    }
    assert(ss@.take(ss@.len() as int) =~= ss@);
    (f, b)
}

/// The status after re-inspecting every log target.
pub open spec fn log_status_report_view(ss: Seq<LogStatus>) -> Seq<char> {
    "Logging status: "@ + dec(ss.len()) + " target(s), "@ + dec(log_totals_view(ss).0)
        + " item(s)/records, "@ + format_bytes_view(log_totals_view(ss).1)
}

pub fn log_status_report(ss: &[LogStatus]) -> (r: String)
    requires
        log_totals_view(ss@).0 <= u64::MAX,
        log_totals_view(ss@).1 <= u64::MAX,
    ensures
        r@ == log_status_report_view(ss@),
{
    let (f, b) = log_totals(ss);
    let mut r = string_of("Logging status: ");
    push_dec(&mut r, ss.len() as u64);
    push_str(&mut r, " target(s), ");
    push_dec(&mut r, f);
    push_str(&mut r, " item(s)/records, ");
    push_format_bytes(&mut r, b);
    r
}

/// The status after re-inspecting every temp target.
pub open spec fn temp_status_report_view(ss: Seq<TempStatus>) -> Seq<char> {
    "Temp status: "@ + dec(ss.len()) + " location(s), "@ + dec(temp_totals_view(ss).0) + " file(s), "@
        + format_bytes_view(temp_totals_view(ss).1)
}

pub fn temp_status_report(ss: &[TempStatus]) -> (r: String)
    requires
        temp_totals_view(ss@).0 <= u64::MAX,
        temp_totals_view(ss@).1 <= u64::MAX,
    ensures
        r@ == temp_status_report_view(ss@),
{
    let (f, b) = temp_totals(ss);
    let mut r = string_of("Temp status: ");
    push_dec(&mut r, ss.len() as u64);
    push_str(&mut r, " location(s), ");
    push_dec(&mut r, f);
    push_str(&mut r, " file(s), ");
    push_format_bytes(&mut r, b);
    r
}

/// How many are true.
pub open spec fn count_true(bs: Seq<bool>) -> nat
    decreases bs.len(),
{
    if bs.len() == 0 {
        0
    } else {
        count_true(bs.drop_last()) + if bs.last() {
            1nat
        } else {
            0nat
        }
    }
}

proof fn lemma_count_true_len(bs: Seq<bool>)
    ensures
        count_true(bs) <= bs.len(),
    decreases bs.len(),
{
    if bs.len() > 0 {
        lemma_count_true_len(bs.drop_last());
    }
}

/// The status after re-checking which log tools this system has
/// (`available[i]` for the `i`-th tool).
pub open spec fn links_report_view(available: Seq<bool>) -> Seq<char> {
    "Log tools: "@ + dec(count_true(available)) + "/"@ + dec(available.len())
        + " available on this system."@
}

pub fn links_report(available: &[bool]) -> (r: String)
    ensures
        r@ == links_report_view(available@),
{
    let mut n: u64 = 0;
    let mut i: usize = 0;
    while i < available.len()
        invariant
            0 <= i <= available@.len(),
            n == count_true(available@.take(i as int)),
        decreases available@.len() - i,
    {
        proof {
            assert(available@.take(i + 1).drop_last() =~= available@.take(i as int));
            lemma_count_true_len(available@.take(i as int));
        }
        if available[i] {
            n = n + 1;
        }
        i = i + 1;
    }
    assert(available@.take(available@.len() as int) =~= available@);
    let mut r = string_of("Log tools: ");
    push_dec(&mut r, n);
    push_str(&mut r, "/");
    push_dec(&mut r, available.len() as u64);
    push_str(&mut r, " available on this system.");
    r
}

/// The status after opening a log or temp location, with its state as just
/// inspected: the launch message, or the error.
pub open spec fn open_status_view(r: Result<Seq<char>, Seq<char>>, summary: Seq<char>) -> (Seq<char>, bool) {
    match r {
        Ok(m) => (m + " | "@ + summary, true),
        Err(e) => ("Open failed ("@ + e + "). Status: "@ + summary, false),
    }
}

pub fn open_status(r: Result<String, String>, summary: &str) -> (s: (String, bool))
    ensures
        (s.0@, s.1) == open_status_view(crate::launch::text_result_view(r), summary@),
{
    match r {
        Ok(m) => {
            let mut s = m;
            push_str(&mut s, " | ");
            push_str(&mut s, summary);
            (s, true)
        },
        Err(e) => {
            let mut s = string_of("Open failed (");
            push_str(&mut s, e.as_str());
            push_str(&mut s, "). Status: ");
            push_str(&mut s, summary);
            (s, false)
        },
    }
}

/// The status after opening a system log tool.
pub open spec fn link_status_view(r: Result<Seq<char>, Seq<char>>) -> (Seq<char>, bool) {
    match r {
        Ok(m) => (m, true),
        Err(e) => ("Open failed: "@ + e, false),
    }
}

pub fn link_status(r: Result<String, String>) -> (s: (String, bool))
    ensures
        (s.0@, s.1) == link_status_view(crate::launch::text_result_view(r)),
{
    match r {
        Ok(m) => (m, true),
        Err(e) => {
            let mut s = string_of("Open failed: ");
            push_str(&mut s, e.as_str());
            (s, false)
        },
    }
}

/// The status after accepting the disclaimer: `saved` how storing the
/// acceptance went, `accepted_at` its time stamp. The disclaimer closes
/// either way.
pub open spec fn acceptance_status_view(saved: Result<(), Seq<char>>, accepted_at: Seq<char>) -> (
    Seq<char>,
    bool,
) {
    match saved {
        Ok(_) => (
            "Disclaimer accepted at "@ + accepted_at
                + " (HKCU registry + APPDATA backup). Use at your own risk."@,
            true,
        ),
        Err(e) => ("Accepted (could not save marker: "@ + e + "). Use at your own risk."@, false),
    }
}

pub fn acceptance_status(saved: Result<(), String>, accepted_at: &str) -> (s: (String, bool))
    ensures
        (s.0@, s.1) == acceptance_status_view(crate::launch::result_view(saved), accepted_at@),
{
    match saved {
        Ok(()) => {
            let mut s = string_of("Disclaimer accepted at ");
            push_str(&mut s, accepted_at);
            push_str(&mut s, " (HKCU registry + APPDATA backup). Use at your own risk.");
            (s, true)
        },
        Err(e) => {
            let mut s = string_of("Accepted (could not save marker: ");
            push_str(&mut s, e.as_str());
            push_str(&mut s, "). Use at your own risk.");
            (s, false)
        },
    }
}

/// What hiding the window to the tray needs first: `None` while the window
/// handle is not known (nothing happens), else whether a tray icon must be
/// created before the window hides.
pub fn hide_to_tray_plan(hwnd: isize, tray_present: bool) -> (r: Option<bool>)
    ensures
        r == (if hwnd == 0 {
            None
        } else {
            Some(!tray_present)
        }),
{
    if hwnd == 0 {
        None
    } else {
        Some(!tray_present)
    }
}

/// The status of hiding to the tray: `ready` whether the window handle is
/// known, `created` how creating the tray icon went (`Ok` when one was
/// there). The window hides exactly when the status is good.
pub open spec fn hide_to_tray_status_view(ready: bool, created: Result<(), Seq<char>>) -> (Seq<char>, bool) {
    if !ready {
        ("Window handle not ready yet — try again in a moment."@, false)
    } else {
        match created {
            Err(e) => (
                "Could not keep running in the tray ("@ + e
                    + "). Use Quit to exit, or enable tray in Settings."@,
                false,
            ),
            Ok(_) => (
                "Running in the system tray. Open it from the tray icon, or Quit from the tray menu."@,
                true,
            ),
        }
    }
}

pub fn hide_to_tray_status(ready: bool, created: Result<(), String>) -> (s: (String, bool))
    ensures
        (s.0@, s.1) == hide_to_tray_status_view(ready, crate::launch::result_view(created)),
{
    if !ready {
        return (string_of("Window handle not ready yet — try again in a moment."), false);
    }
    match created {
        Err(e) => {
            let mut s = string_of("Could not keep running in the tray (");
            push_str(&mut s, e.as_str());
            push_str(&mut s, "). Use Quit to exit, or enable tray in Settings.");
            (s, false)
        },
        Ok(()) => (
            string_of("Running in the system tray. Open it from the tray icon, or Quit from the tray menu."),
            true,
        ),
    }
}

/// Whether the tray icon is created once the window handle is known: when
/// the preference asks for it and none exists yet.
pub fn create_tray_on_start(hwnd: isize, tray_enabled: bool, tray_present: bool) -> (r: bool)
    ensures
        r == (hwnd != 0 && tray_enabled && !tray_present),
{
    hwnd != 0 && tray_enabled && !tray_present
}

/// The title of the notification that reports an action started from the
/// tray.
pub open spec fn tray_report_title_view(ok: bool) -> Seq<char> {
    PRODUCT_NAME_SHORT@ + if ok {
        " — done"@
    } else {
        " — finished with errors"@
    }
}

pub fn tray_report_title(ok: bool) -> (r: String)
    ensures
        r@ == tray_report_title_view(ok),
{
    let mut r = string_of(PRODUCT_NAME_SHORT);
    push_str(
        &mut r,
        if ok {
            " — done"
        } else {
            " — finished with errors"
        },
    );
    r
}

/// A clear button of the two-click kind: one log target or one temp target
/// (by its place in [`action_table`] or [`target_table`]), or one of the
/// clear-everything buttons.
#[derive(Debug, Clone, Copy, PartialEq, Eq, Structural)]
pub enum Armed {
    Log(usize),
    AllSafeLogs,
    AllLogs,
    Temp(usize),
    AllTemp,
}

pub open spec fn armed_valid(a: Armed) -> bool {
    match a {
        Armed::Log(i) => i < 14,
        Armed::Temp(i) => i < 6,
        _ => true,
    }
}

/// The action a confirmed button runs.
pub open spec fn armed_pending(a: Armed) -> Pending {
    match a {
        Armed::Log(i) => Pending::ClearLog(action_table()[i as int].id),
        Armed::AllSafeLogs => Pending::ClearAllSafe,
        Armed::AllLogs => Pending::ClearAllLogs,
        Armed::Temp(i) => Pending::ClearTemp(target_table()[i as int].id),
        Armed::AllTemp => Pending::ClearTempAll,
    }
}

/// A click on `clicked` while `armed` is armed: the second click on the
/// same button disarms it and runs its action; any other click arms the
/// button clicked (disarming the one before).
pub open spec fn click_view(armed: Option<Armed>, clicked: Armed) -> (Option<Armed>, Option<Pending>) {
    if armed == Some(clicked) {
        (None, Some(armed_pending(clicked)))
    } else {
        (Some(clicked), None)
    }
}

pub fn click_armed(armed: Option<Armed>, clicked: Armed) -> (r: (Option<Armed>, Option<Pending>))
    requires
        armed_valid(clicked),
    ensures
        r == click_view(armed, clicked),
{
    let same = match armed {
        Some(a) => a == clicked,
        None => false,
    };
    if !same {
        return (Some(clicked), None);
    }
    let p = match clicked {
        Armed::Log(i) => {
            let table = crate::log_cleanup::all();
            Pending::ClearLog(table[i].id)
        },
        Armed::AllSafeLogs => Pending::ClearAllSafe,
        Armed::AllLogs => Pending::ClearAllLogs,
        Armed::Temp(i) => {
            let table = crate::temp_cleanup::all();
            Pending::ClearTemp(table[i].id)
        },
        Armed::AllTemp => Pending::ClearTempAll,
    };
    (None, Some(p))
}

/// Nothing runs on a first click, and a second click on the same button
/// runs exactly its action: clicking a button twice from any state runs it
/// once.
pub proof fn lemma_two_clicks_run_once(armed: Option<Armed>, b: Armed)
    ensures
        armed != Some(b) ==> click_view(armed, b).1 is None,
        armed != Some(b) ==> click_view(click_view(armed, b).0, b) == (
            None::<Armed>,
            Some(armed_pending(b)),
        ),
        click_view(armed, b).1 is Some ==> click_view(armed, b).0 is None,
{
}

/// The status after arming a button: for one target, its id and state as
/// just inspected (`summary`); for a clear-everything button, what the
/// targets hold now (`total_bytes`).
pub open spec fn armed_status_view(a: Armed, summary: Seq<char>, total_bytes: u64) -> Seq<char> {
    match a {
        Armed::Log(i) => "Armed '"@ + action_table()[i as int].id@ + "'. "@ + summary
            + " — click again to confirm clear."@,
        Armed::Temp(i) => "Armed '"@ + target_table()[i as int].id@ + "'. "@ + summary
            + " — click again to confirm clear."@,
        Armed::AllSafeLogs => "Armed clear-all (safe). Current ~"@ + format_bytes_view(total_bytes as nat)
            + ". Click again to confirm."@,
        Armed::AllLogs => "Armed CLEAR ALL LOGS (incl. dangerous). Current ~"@ + format_bytes_view(
            total_bytes as nat,
        ) + ". Click again to confirm."@,
        Armed::AllTemp => "Armed clear-all temp. Current ~"@ + format_bytes_view(total_bytes as nat)
            + ". Click again to confirm."@,
    }
}

pub fn armed_status(a: Armed, summary: &str, total_bytes: u64) -> (r: String)
    requires
        armed_valid(a),
    ensures
        r@ == armed_status_view(a, summary@, total_bytes),
{
    match a {
        Armed::Log(i) => {
            let table = crate::log_cleanup::all();
            let mut r = string_of("Armed '");
            push_str(&mut r, table[i].id);
            push_str(&mut r, "'. ");
            push_str(&mut r, summary);
            push_str(&mut r, " — click again to confirm clear.");
            r
        },
        Armed::Temp(i) => {
            let table = crate::temp_cleanup::all();
            let mut r = string_of("Armed '");
            push_str(&mut r, table[i].id);
            push_str(&mut r, "'. ");
            push_str(&mut r, summary);
            push_str(&mut r, " — click again to confirm clear.");
            r
        },
        Armed::AllSafeLogs => {
            let mut r = string_of("Armed clear-all (safe). Current ~");
            push_format_bytes(&mut r, total_bytes);
            push_str(&mut r, ". Click again to confirm.");
            r
        },
        Armed::AllLogs => {
            let mut r = string_of("Armed CLEAR ALL LOGS (incl. dangerous). Current ~");
            push_format_bytes(&mut r, total_bytes);
            push_str(&mut r, ". Click again to confirm.");
            r
        },
        Armed::AllTemp => {
            let mut r = string_of("Armed clear-all temp. Current ~");
            push_format_bytes(&mut r, total_bytes);
            push_str(&mut r, ". Click again to confirm.");
            r
        },
    }
}

/// How a two-click clear button shows: its label, whether it can be
/// clicked, and its hover text. `armed` whether it is the armed one;
/// `available` whether a log target is there; `needs_admin` whether a temp
/// target (or, for clear-all temp, some available one) needs administrator
/// rights; `summary` the target's last inspection, if any.
pub open spec fn button_view(
    b: Armed,
    armed: bool,
    available: bool,
    needs_admin: bool,
    elevated: bool,
    summary: Option<Seq<char>>,
) -> (Seq<char>, bool, Seq<char>) {
    match b {
        Armed::Log(i) => {
            let a = action_table()[i as int];
            (
                if armed {
                    "Confirm: "@ + a.title@
                } else {
                    a.title@
                },
                available && elevated,
                if !available {
                    "Not available — "@ + a.description@
                } else if !elevated {
                    "Needs Administrator — "@ + a.description@
                } else if armed {
                    "Click again to confirm clear — "@ + match summary {
                        Some(s) => s,
                        None => a.description@,
                    }
                } else {
                    "Arm clear (confirm on second click) — "@ + a.description@ + " ("@ + a.id@ + ")"@
                },
            )
        },
        Armed::Temp(i) => {
            let t = target_table()[i as int];
            (
                if armed {
                    "Confirm: "@ + t.title@
                } else {
                    t.title@
                },
                !t.needs_admin || elevated,
                if t.needs_admin && !elevated {
                    "Needs Administrator — "@ + t.description@
                } else if armed {
                    "Click again to confirm — "@ + match summary {
                        Some(s) => s,
                        None => t.description@,
                    }
                } else {
                    "Arm clear (confirm on second click) — "@ + t.description@ + " ("@ + t.id@ + ")"@
                },
            )
        },
        Armed::AllSafeLogs => (
            if armed {
                "Confirm: clear all safe logs"@
            } else {
                "Clear all safe logs"@
            },
            elevated,
            "Clears available non-dangerous targets (not Diagnosis wipe / Security). CLI: clear-all --confirm"@,
        ),
        Armed::AllLogs => (
            if armed {
                "Confirm: clear ALL logs"@
            } else {
                "Clear all logs"@
            },
            elevated,
            "Clears every available log target including Diagnosis wipe and Security. CLI: clear-all --dangerous --confirm"@,
        ),
        Armed::AllTemp => (
            if armed {
                "Confirm: clear all temp folders"@
            } else {
                "Clear all temporary files"@
            },
            !needs_admin || elevated,
            "Clears every available temp target (TEMP, Windows\\Temp, Prefetch, …). CLI: clear-temp-all --confirm"@,
        ),
    }
}

pub open spec fn opt_text_view(s: Option<&str>) -> Option<Seq<char>> {
    match s {
        Some(t) => Some(t@),
        None => None,
    }
}

pub fn clear_button(
    b: Armed,
    armed: bool,
    available: bool,
    needs_admin: bool,
    elevated: bool,
    summary: Option<&str>,
) -> (r: (String, bool, String))
    requires
        armed_valid(b),
    ensures
        (r.0@, r.1, r.2@) == button_view(b, armed, available, needs_admin, elevated, opt_text_view(summary)),
{
    match b {
        Armed::Log(i) => {
            let table = crate::log_cleanup::all();
            let a = table[i];
            let label = if armed {
                let mut l = string_of("Confirm: ");
                push_str(&mut l, a.title);
                l
            } else {
                string_of(a.title)
            };
            let tip = if !available {
                let mut t = string_of("Not available — ");
                push_str(&mut t, a.description);
                t
            } else if !elevated {
                let mut t = string_of("Needs Administrator — ");
                push_str(&mut t, a.description);
                t
            } else if armed {
                let mut t = string_of("Click again to confirm clear — ");
                match summary {
                    Some(s) => push_str(&mut t, s),
                    None => push_str(&mut t, a.description),
                }
                t
            } else {
                let mut t = string_of("Arm clear (confirm on second click) — ");
                push_str(&mut t, a.description);
                push_str(&mut t, " (");
                push_str(&mut t, a.id);
                push_str(&mut t, ")");
                t
            };
            (label, available && elevated, tip)
        },
        Armed::Temp(i) => {
            let table = crate::temp_cleanup::all();
            let t = table[i];
            let label = if armed {
                let mut l = string_of("Confirm: ");
                push_str(&mut l, t.title);
                l
            } else {
                string_of(t.title)
            };
            let tip = if t.needs_admin && !elevated {
                let mut s = string_of("Needs Administrator — ");
                push_str(&mut s, t.description);
                s
            } else if armed {
                let mut s = string_of("Click again to confirm — ");
                match summary {
                    Some(x) => push_str(&mut s, x),
                    None => push_str(&mut s, t.description),
                }
                s
            } else {
                let mut s = string_of("Arm clear (confirm on second click) — ");
                push_str(&mut s, t.description);
                push_str(&mut s, " (");
                push_str(&mut s, t.id);
                push_str(&mut s, ")");
                s
            };
            (label, !t.needs_admin || elevated, tip)
        },
        Armed::AllSafeLogs => (
            string_of(if armed {
                "Confirm: clear all safe logs"
            } else {
                "Clear all safe logs"
            }),
            elevated,
            string_of(
                "Clears available non-dangerous targets (not Diagnosis wipe / Security). CLI: clear-all --confirm",
            ),
        ),
        Armed::AllLogs => (
            string_of(if armed {
                "Confirm: clear ALL logs"
            } else {
                "Clear all logs"
            }),
            elevated,
            string_of(
                "Clears every available log target including Diagnosis wipe and Security. CLI: clear-all --dangerous --confirm",
            ),
        ),
        Armed::AllTemp => (
            string_of(if armed {
                "Confirm: clear all temp folders"
            } else {
                "Clear all temporary files"
            }),
            !needs_admin || elevated,
            string_of(
                "Clears every available temp target (TEMP, Windows\\Temp, Prefetch, …). CLI: clear-temp-all --confirm",
            ),
        ),
    }
}

} // verus!
