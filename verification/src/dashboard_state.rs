//! The dashboard window as a state machine: [`update`] takes one message
//! (the user's input, with whatever the window read for it) to the next
//! state; [`start_pending`] refuses a queued action or hands it out to be
//! performed, and [`finish_pending`] reports how it went. Risky requests
//! only ask for confirmation; accepting queues exactly the action asked
//! about, cancelling queues nothing.

use vstd::prelude::*;

use crate::cleanup_schedule::CleanupScheduleConfig;
use crate::controls::{
    acceptance_status, acceptance_status_view, clear_all_logs_prompt, clear_all_logs_prompt_view,
    clear_all_safe_prompt, clear_all_safe_prompt_view, clear_log_prompt, clear_log_prompt_view,
    clear_temp_all_prompt, clear_temp_all_prompt_view, clear_temp_prompt, clear_temp_prompt_view,
    edit_schedule, edit_view, hide_to_tray_status, hide_to_tray_status_view, link_status,
    link_status_view, links_report, links_report_view, log_status_report, log_status_report_view,
    log_totals_view, open_status, open_status_view, prompt_view, quit_prompt, quit_prompt_view,
    temp_status_report, temp_status_report_view, temp_totals_view, toggle_expand,
    toggle_expand_view, toggle_setting_prompt, toggle_setting_prompt_view, turn_all_prompt,
    turn_all_prompt_view, verify_one_status, verify_one_status_view, ConfirmPrompt, ScheduleEdit,
    lemma_safe_clear_prompt_runs_the_safe_clear, lemma_temp_prompt_runs_that_target,
};
use crate::dashboard::{
    all_settings_status, all_settings_status_view, bulk_fits, bulk_status, bulk_status_view,
    bulk_view, log_clear_status, log_clear_status_view, log_result_view, message_status_view,
    one_setting_status, one_setting_status_view, post_update_status, refusal, refusal_view,
    schedule_status, startup_status, temp_clear_status, temp_clear_status_view, temp_result_view,
    tray_command_effect, tray_command_view, tray_pref_status, tray_pref_status_view, verify_status,
    verify_status_view, BulkClear, Pending,
};
use crate::log_cleanup::{action_table, ClearResult, LogStatus};
use crate::telemetry::{SettingId, SettingState};
use crate::temp_cleanup::{find_target, lemma_find_own_id, target_table, TempClearResult, TempStatus};
use crate::tray::TrayCommand;
use crate::launch::{result_view, text_result_view};
use crate::text::string_of;

verus! {

/// The window's state that its controls decide on.
pub struct DashboardState {
    /// Which setting cards are open.
    pub expanded: Vec<bool>,
    /// The confirmation on screen, if any.
    pub confirm: Option<ConfirmPrompt>,
    /// The action to run next, if any.
    pub pending: Option<Pending>,
    pub status: String,
    pub status_ok: bool,
    pub elevated: bool,
    pub show_settings: bool,
    pub show_disclaimer: bool,
    pub hide_verify: bool,
    pub hide_log_details: bool,
    pub hide_temp_details: bool,
    /// The cleanup schedule as its switches show it.
    pub schedule: CleanupScheduleConfig,
    /// The longer report of the last log clear.
    pub last_clear_report: String,
    /// The longer report of the last temp clear.
    pub last_temp_report: String,
}

/// The mathematical view of [`DashboardState`].
pub struct DashboardView {
    pub expanded: Seq<bool>,
    pub confirm: Option<(Seq<char>, Seq<char>, Seq<char>, bool, Pending)>,
    pub pending: Option<Pending>,
    pub status: Seq<char>,
    pub status_ok: bool,
    pub elevated: bool,
    pub show_settings: bool,
    pub show_disclaimer: bool,
    pub hide_verify: bool,
    pub hide_log_details: bool,
    pub hide_temp_details: bool,
    pub schedule: CleanupScheduleConfig,
    pub last_clear_report: Seq<char>,
    pub last_temp_report: Seq<char>,
}

pub open spec fn state_view(s: DashboardState) -> DashboardView {
    DashboardView {
        expanded: s.expanded@,
        confirm: match s.confirm {
            Some(p) => Some(prompt_view(p)),
            None => None,
        },
        pending: s.pending,
        status: s.status@,
        status_ok: s.status_ok,
        elevated: s.elevated,
        show_settings: s.show_settings,
        show_disclaimer: s.show_disclaimer,
        hide_verify: s.hide_verify,
        hide_log_details: s.hide_log_details,
        hide_temp_details: s.hide_temp_details,
        schedule: s.schedule,
        last_clear_report: s.last_clear_report@,
        last_temp_report: s.last_temp_report@,
    }
}

/// One input to the window, with what the window read for it (an
/// inspection, a launch or a save outcome).
pub enum Message {
    Verify,
    /// Turn every setting off (the iced dashboard's button, which asks first).
    TurnAllOff,
    /// Turn every setting on (the iced dashboard's button, which asks first).
    TurnAllOn,
    /// Turn every setting on or off at once (the egui dashboard's buttons,
    /// shown only when elevated, which do not ask).
    TurnAllNow(bool),
    /// Relaunching elevated failed with this error.
    RestartFailed(String),
    /// The settings panel opens, showing the stored schedule.
    ShowSettings(CleanupScheduleConfig),
    CloseSettings,
    SetStartup(bool),
    SetPostUpdate(bool),
    /// The tray switch: how saving the preference and creating the icon went.
    SetTrayEnabled { enabled: bool, saved: Result<(), String>, created: Result<(), String> },
    /// A cleanup-schedule switch.
    EditSchedule(ScheduleEdit),
    /// Hide to the tray (close button or minimise): whether the window handle
    /// is known, and how creating the tray icon went.
    HideToTray { ready: bool, created: Result<(), String> },
    Quit,
    ShowDisclaimer,
    /// The disclaimer was accepted: how storing it went, and its time stamp.
    AcceptDisclaimer { saved: Result<(), String>, accepted_at: String },
    CloseDisclaimer,
    /// The log targets were inspected again.
    RefreshLogStatus(Vec<LogStatus>),
    /// The temp targets were inspected again.
    RefreshTempStatus(Vec<TempStatus>),
    /// Which log tools are available.
    RefreshLinks(Vec<bool>),
    /// A setting switch was flipped to `active`.
    ToggleSetting { id: SettingId, active: bool },
    /// One setting was read again.
    VerifyOne(SettingState),
    ToggleExpand(usize),
    HideVerify(bool),
    HideLogDetails(bool),
    HideTempDetails(bool),
    /// A log or temp location was opened: the launch, and the target's state.
    Opened { opened: Result<String, String>, summary: String },
    /// Clearing the log target at this place of the table was asked for.
    RequestClearLog { index: usize, current: LogStatus },
    RequestClearAllSafe { total_bytes: u64 },
    RequestClearAllLogs { total_bytes: u64 },
    /// Clearing the temp target at this place of the table was asked for.
    RequestClearTemp { index: usize, current: TempStatus },
    RequestClearTempAll { total_bytes: u64 },
    /// A log tool was opened.
    OpenedLink(Result<String, String>),
    ConfirmAccept,
    ConfirmCancel,
    /// A command from the tray menu.
    Tray(TrayCommand),
}

/// What a message needs of the state and of itself: a card that exists, a
/// table place that exists, and totals that fit.
pub open spec fn message_ok(v: DashboardView, m: Message) -> bool {
    match m {
        Message::ToggleExpand(i) => i < v.expanded.len(),
        Message::RequestClearLog { index, .. } => index < 14,
        Message::RequestClearTemp { index, .. } => index < 6,
        Message::RefreshLogStatus(ss) => log_totals_view(ss@).0 <= u64::MAX && log_totals_view(
            ss@,
        ).1 <= u64::MAX,
        Message::RefreshTempStatus(ss) => temp_totals_view(ss@).0 <= u64::MAX && temp_totals_view(
            ss@,
        ).1 <= u64::MAX,
        _ => true,
    }
}

pub open spec fn with_status(v: DashboardView, st: (Seq<char>, bool)) -> DashboardView {
    DashboardView { status: st.0, status_ok: st.1, ..v }
}

pub open spec fn ask(v: DashboardView, p: (Seq<char>, Seq<char>, Seq<char>, bool, Pending)) -> DashboardView {
    DashboardView { confirm: Some(p), ..v }
}

pub open spec fn queue(v: DashboardView, p: Pending) -> DashboardView {
    DashboardView { pending: Some(p), ..v }
}

// Each status and prompt below stands behind an opaque name, so that
// reasoning about one message does not unfold the texts of all the others.

#[verifier::opaque]
pub open spec fn p_turn_all(active: bool) -> (Seq<char>, Seq<char>, Seq<char>, bool, Pending) {
    turn_all_prompt_view(active)
}

#[verifier::opaque]
pub open spec fn p_quit() -> (Seq<char>, Seq<char>, Seq<char>, bool, Pending) {
    quit_prompt_view()
}

#[verifier::opaque]
pub open spec fn p_toggle(id: SettingId, active: bool) -> (Seq<char>, Seq<char>, Seq<char>, bool, Pending) {
    toggle_setting_prompt_view(id, active)
}

#[verifier::opaque]
pub open spec fn p_clear_log(index: usize, current: LogStatus) -> (Seq<char>, Seq<char>, Seq<char>, bool, Pending) {
    clear_log_prompt_view(action_table()[index as int], current)
}

#[verifier::opaque]
pub open spec fn p_all_safe(total_bytes: u64) -> (Seq<char>, Seq<char>, Seq<char>, bool, Pending) {
    clear_all_safe_prompt_view(total_bytes)
}

#[verifier::opaque]
pub open spec fn p_all_logs(total_bytes: u64) -> (Seq<char>, Seq<char>, Seq<char>, bool, Pending) {
    clear_all_logs_prompt_view(total_bytes)
}

#[verifier::opaque]
pub open spec fn p_clear_temp(index: usize, current: TempStatus) -> (Seq<char>, Seq<char>, Seq<char>, bool, Pending) {
    clear_temp_prompt_view(target_table()[index as int], current)
}

#[verifier::opaque]
pub open spec fn p_temp_all(total_bytes: u64) -> (Seq<char>, Seq<char>, Seq<char>, bool, Pending) {
    clear_temp_all_prompt_view(total_bytes)
}

#[verifier::opaque]
pub open spec fn s_tray(enabled: bool, saved: Result<(), String>, created: Result<(), String>) -> (Seq<char>, bool) {
    tray_pref_status_view(enabled, result_view(saved), result_view(created))
}

#[verifier::opaque]
pub open spec fn s_hide(ready: bool, created: Result<(), String>) -> (Seq<char>, bool) {
    hide_to_tray_status_view(ready, result_view(created))
}

#[verifier::opaque]
pub open spec fn s_accept(saved: Result<(), String>, accepted_at: String) -> (Seq<char>, bool) {
    acceptance_status_view(result_view(saved), accepted_at@)
}

#[verifier::opaque]
pub open spec fn s_logs(ss: Seq<LogStatus>) -> Seq<char> {
    log_status_report_view(ss)
}

#[verifier::opaque]
pub open spec fn s_temps(ss: Seq<TempStatus>) -> Seq<char> {
    temp_status_report_view(ss)
}

#[verifier::opaque]
pub open spec fn s_links(a: Seq<bool>) -> Seq<char> {
    links_report_view(a)
}

#[verifier::opaque]
pub open spec fn s_verify_one(st: SettingState) -> Seq<char> {
    verify_one_status_view(st)
}

#[verifier::opaque]
pub open spec fn s_opened(opened: Result<String, String>, summary: String) -> (Seq<char>, bool) {
    open_status_view(text_result_view(opened), summary@)
}

#[verifier::opaque]
pub open spec fn s_link(r: Result<String, String>) -> (Seq<char>, bool) {
    link_status_view(text_result_view(r))
}

#[verifier::opaque]
pub open spec fn s_tray_cmd(cmd: TrayCommand) -> (Option<Pending>, Option<Seq<char>>, bool) {
    tray_command_view(cmd)
}

/// The state after one message.
pub open spec fn update_view(v: DashboardView, m: Message) -> DashboardView {
    match m {
        Message::Verify => queue(v, Pending::Verify),
        Message::TurnAllOff => ask(v, p_turn_all(false)),
        Message::TurnAllOn => ask(v, p_turn_all(true)),
        Message::TurnAllNow(active) => queue(v, Pending::All { active }),
        Message::RestartFailed(e) => with_status(v, (e@, false)),
        Message::ShowSettings(cfg) => DashboardView { show_settings: true, schedule: cfg, ..v },
        Message::CloseSettings => DashboardView { show_settings: false, ..v },
        Message::SetStartup(b) => queue(v, Pending::SetStartup(b)),
        Message::SetPostUpdate(b) => queue(v, Pending::SetPostUpdate(b)),
        Message::SetTrayEnabled { enabled, saved, created } => with_status(v, s_tray(enabled, saved, created)),
        Message::EditSchedule(e) => DashboardView {
            schedule: edit_view(v.schedule, e),
            pending: Some(Pending::ApplyCleanupSchedule(edit_view(v.schedule, e))),
            ..v
        },
        Message::HideToTray { ready, created } => with_status(v, s_hide(ready, created)),
        Message::Quit => ask(v, p_quit()),
        Message::ShowDisclaimer => DashboardView { show_disclaimer: true, ..v },
        Message::AcceptDisclaimer { saved, accepted_at } => DashboardView {
            show_disclaimer: false,
            ..with_status(v, s_accept(saved, accepted_at))
        },
        Message::CloseDisclaimer => DashboardView { show_disclaimer: false, ..v },
        Message::RefreshLogStatus(ss) => DashboardView {
            hide_log_details: false,
            ..with_status(v, (s_logs(ss@), true))
        },
        Message::RefreshTempStatus(ss) => DashboardView {
            hide_temp_details: false,
            ..with_status(v, (s_temps(ss@), true))
        },
        Message::RefreshLinks(a) => with_status(v, (s_links(a@), true)),
        Message::ToggleSetting { id, active } => ask(v, p_toggle(id, active)),
        Message::VerifyOne(st) => DashboardView {
            hide_verify: false,
            ..with_status(v, (s_verify_one(st), true))
        },
        Message::ToggleExpand(i) => DashboardView {
            expanded: toggle_expand_view(v.expanded, i as int),
            ..v
        },
        Message::HideVerify(b) => DashboardView { hide_verify: b, ..v },
        Message::HideLogDetails(b) => DashboardView { hide_log_details: b, ..v },
        Message::HideTempDetails(b) => DashboardView { hide_temp_details: b, ..v },
        Message::Opened { opened, summary } => with_status(v, s_opened(opened, summary)),
        Message::RequestClearLog { index, current } => ask(v, p_clear_log(index, current)),
        Message::RequestClearAllSafe { total_bytes } => ask(v, p_all_safe(total_bytes)),
        Message::RequestClearAllLogs { total_bytes } => ask(v, p_all_logs(total_bytes)),
        Message::RequestClearTemp { index, current } => ask(v, p_clear_temp(index, current)),
        Message::RequestClearTempAll { total_bytes } => ask(v, p_temp_all(total_bytes)),
        Message::OpenedLink(r) => with_status(v, s_link(r)),
        Message::ConfirmAccept => match v.confirm {
            Some(p) => DashboardView { confirm: None, pending: Some(p.4), ..v },
            None => v,
        },
        Message::ConfirmCancel => DashboardView { confirm: None, ..v },
        Message::Tray(cmd) => {
            let (p, m, _) = s_tray_cmd(cmd);
            let v1 = match p {
                Some(p) => queue(v, p),
                None => v,
            };
            match m {
                Some(m) => with_status(v1, (m, true)),
                None => v1,
            }
        },
    }
}

#[verifier::spinoff_prover]
#[verifier::rlimit(100)]
fn update_part1(s: DashboardState, m: Message) -> (r: DashboardState)
    requires
        message_ok(state_view(s), m),
        m is Verify || m is TurnAllOff || m is TurnAllOn || m is RestartFailed || m is ShowSettings || m is CloseSettings || m is SetStartup || m is SetPostUpdate || m is SetTrayEnabled || m is EditSchedule || m is HideToTray || m is Quit || m is ShowDisclaimer || m is AcceptDisclaimer,
    ensures
        state_view(r) == update_view(state_view(s), m),
{
    let mut s = s;
    match m {
        Message::Verify => s.pending = Some(Pending::Verify),
        Message::TurnAllOff => {
            proof {
                reveal(p_turn_all);
            }
            s.confirm = Some(turn_all_prompt(false));
        },
        Message::TurnAllOn => {
            proof {
                reveal(p_turn_all);
            }
            s.confirm = Some(turn_all_prompt(true));
        },
        Message::RestartFailed(e) => {
            s.status = e;
            s.status_ok = false;
        },
        Message::ShowSettings(cfg) => {
            s.show_settings = true;
            s.schedule = cfg;
        },
        Message::CloseSettings => s.show_settings = false,
        Message::SetStartup(b) => s.pending = Some(Pending::SetStartup(b)),
        Message::SetPostUpdate(b) => s.pending = Some(Pending::SetPostUpdate(b)),
        Message::SetTrayEnabled { enabled, saved, created } => {
            proof {
                reveal(s_tray);
            }
            let (t, ok) = tray_pref_status(enabled, saved, created);
            s.status = t;
            s.status_ok = ok;
        },
        Message::EditSchedule(e) => {
            let cfg = edit_schedule(s.schedule, e);
            s.schedule = cfg;
            s.pending = Some(Pending::ApplyCleanupSchedule(cfg));
        },
        Message::HideToTray { ready, created } => {
            proof {
                reveal(s_hide);
            }
            let (t, ok) = hide_to_tray_status(ready, created);
            s.status = t;
            s.status_ok = ok;
        },
        Message::Quit => {
            proof {
                reveal(p_quit);
            }
            s.confirm = Some(quit_prompt());
        },
        Message::ShowDisclaimer => s.show_disclaimer = true,
        Message::AcceptDisclaimer { saved, accepted_at } => {
            proof {
                reveal(s_accept);
            }
            let (t, ok) = acceptance_status(saved, accepted_at.as_str());
            s.status = t;
            s.status_ok = ok;
            s.show_disclaimer = false;
        },
        _ => {},
    }
    s
}

#[verifier::spinoff_prover]
#[verifier::rlimit(100)]
fn update_part2(s: DashboardState, m: Message) -> (r: DashboardState)
    requires
        message_ok(state_view(s), m),
        m is CloseDisclaimer || m is RefreshLogStatus || m is RefreshTempStatus || m is RefreshLinks || m is ToggleSetting || m is VerifyOne || m is ToggleExpand || m is HideVerify || m is HideLogDetails || m is HideTempDetails || m is Opened || m is RequestClearLog,
    ensures
        state_view(r) == update_view(state_view(s), m),
{
    let mut s = s;
    match m {
        Message::CloseDisclaimer => s.show_disclaimer = false,
        Message::RefreshLogStatus(ss) => {
            proof {
                reveal(s_logs);
            }
            s.status = log_status_report(ss.as_slice());
            s.status_ok = true;
            s.hide_log_details = false;
        },
        Message::RefreshTempStatus(ss) => {
            proof {
                reveal(s_temps);
            }
            s.status = temp_status_report(ss.as_slice());
            s.status_ok = true;
            s.hide_temp_details = false;
        },
        Message::RefreshLinks(a) => {
            proof {
                reveal(s_links);
            }
            s.status = links_report(a.as_slice());
            s.status_ok = true;
        },
        Message::ToggleSetting { id, active } => {
            proof {
                reveal(p_toggle);
            }
            s.confirm = Some(toggle_setting_prompt(id, active));
        },
        Message::VerifyOne(st) => {
            proof {
                reveal(s_verify_one);
            }
            s.status = verify_one_status(&st);
            s.status_ok = true;
            s.hide_verify = false;
        },
        Message::ToggleExpand(i) => {
            let e = toggle_expand(s.expanded.as_slice(), i);
            s.expanded = e;
        },
        Message::HideVerify(b) => s.hide_verify = b,
        Message::HideLogDetails(b) => s.hide_log_details = b,
        Message::HideTempDetails(b) => s.hide_temp_details = b,
        Message::Opened { opened, summary } => {
            proof {
                reveal(s_opened);
            }
            let (t, ok) = open_status(opened, summary.as_str());
            s.status = t;
            s.status_ok = ok;
        },
        Message::RequestClearLog { index, current } => {
            proof {
                reveal(p_clear_log);
            }
            let table = crate::log_cleanup::all();
            s.confirm = Some(clear_log_prompt(&table[index], &current));
        },
        _ => {},
    }
    s
}

#[verifier::spinoff_prover]
#[verifier::rlimit(100)]
fn update_part3(s: DashboardState, m: Message) -> (r: DashboardState)
    requires
        message_ok(state_view(s), m),
        m is RequestClearAllSafe || m is RequestClearAllLogs || m is RequestClearTemp || m is RequestClearTempAll || m is OpenedLink || m is ConfirmAccept || m is ConfirmCancel || m is Tray || m is TurnAllNow,
    ensures
        state_view(r) == update_view(state_view(s), m),
{
    let mut s = s;
    match m {
        Message::RequestClearAllSafe { total_bytes } => {
            proof {
                reveal(p_all_safe);
            }
            s.confirm = Some(clear_all_safe_prompt(total_bytes));
        },
        Message::RequestClearAllLogs { total_bytes } => {
            proof {
                reveal(p_all_logs);
            }
            s.confirm = Some(clear_all_logs_prompt(total_bytes));
        },
        Message::RequestClearTemp { index, current } => {
            proof {
                reveal(p_clear_temp);
            }
            let table = crate::temp_cleanup::all();
            s.confirm = Some(clear_temp_prompt(&table[index], &current));
        },
        Message::RequestClearTempAll { total_bytes } => {
            proof {
                reveal(p_temp_all);
            }
            s.confirm = Some(clear_temp_all_prompt(total_bytes));
        },
        Message::OpenedLink(r) => {
            proof {
                reveal(s_link);
            }
            let (t, ok) = link_status(r);
            s.status = t;
            s.status_ok = ok;
        },
        Message::ConfirmAccept => {
            let c = s.confirm.take();
            match c {
                Some(p) => s.pending = Some(p.pending),
                None => {},
            }
        },
        Message::ConfirmCancel => s.confirm = None,
        Message::Tray(cmd) => {
            proof {
                reveal(s_tray_cmd);
            }
            let (p, msg, _) = tray_command_effect(cmd);
            match p {
                Some(p) => s.pending = Some(p),
                None => {},
            }
            match msg {
                Some(t) => {
                    s.status = t;
                    s.status_ok = true;
                },
                None => {},
            }
        },
        Message::TurnAllNow(active) => s.pending = Some(Pending::All { active }),
        _ => {},
    }
    s
}

/// The window after one message (see [`update_view`]). A `Quit` from the
/// tray exits, which the caller does.
pub fn update(s: DashboardState, m: Message) -> (r: DashboardState)
    requires
        message_ok(state_view(s), m),
    ensures
        state_view(r) == update_view(state_view(s), m),
{
    let part: u8 = match &m {
        Message::Verify { .. }
        | Message::TurnAllOff { .. }
        | Message::TurnAllOn { .. }
        | Message::RestartFailed { .. }
        | Message::ShowSettings { .. }
        | Message::CloseSettings { .. }
        | Message::SetStartup { .. }
        | Message::SetPostUpdate { .. }
        | Message::SetTrayEnabled { .. }
        | Message::EditSchedule { .. }
        | Message::HideToTray { .. }
        | Message::Quit { .. }
        | Message::ShowDisclaimer { .. }
        | Message::AcceptDisclaimer { .. } => 1,
        Message::CloseDisclaimer { .. }
        | Message::RefreshLogStatus { .. }
        | Message::RefreshTempStatus { .. }
        | Message::RefreshLinks { .. }
        | Message::ToggleSetting { .. }
        | Message::VerifyOne { .. }
        | Message::ToggleExpand { .. }
        | Message::HideVerify { .. }
        | Message::HideLogDetails { .. }
        | Message::HideTempDetails { .. }
        | Message::Opened { .. }
        | Message::RequestClearLog { .. } => 2,
        _ => 3,
    };
    if part == 1 {
        update_part1(s, m)
    } else if part == 2 {
        update_part2(s, m)
    } else {
        update_part3(s, m)
    }
}

/// Starting the queued action: it leaves the queue; when [`refusal_view`]
/// refuses it (`task_registered` whether the cleanup task exists,
/// `admin_temp` whether an available temp target needs administrator
/// rights), the refusal is the status and nothing runs; otherwise it is handed
/// out to be performed.
pub open spec fn start_pending_view(v: DashboardView, task_registered: bool, admin_temp: bool) -> (
    DashboardView,
    Option<Pending>,
) {
    match v.pending {
        None => (v, None),
        Some(p) => match refusal_view(p, v.elevated, task_registered, admin_temp) {
            Some(m) => (DashboardView { pending: None, status: m, status_ok: false, ..v }, None),
            None => (DashboardView { pending: None, ..v }, Some(p)),
        },
    }
}

pub fn start_pending(s: DashboardState, task_registered: bool, admin_temp: bool) -> (r: (
    DashboardState,
    Option<Pending>,
))
    ensures
        (state_view(r.0), r.1) == start_pending_view(state_view(s), task_registered, admin_temp),
{
    let mut s = s;
    let p = s.pending.take();
    match p {
        None => (s, None),
        Some(p) => match refusal(&p, s.elevated, task_registered, admin_temp) {
            Some(m) => {
                s.status = m;
                s.status_ok = false;
                (s, None)
            },
            None => (s, Some(p)),
        },
    }
}

/// How a performed action went, as [`finish_pending`] reports it.
pub enum PendingOutcome {
    /// The settings were read again: the time stamp and how many are off and on.
    Verified { stamp: String, off: u64, on: u64 },
    Startup(Result<String, String>),
    PostUpdate(Result<String, String>),
    Schedule(Result<String, String>),
    OneSetting { id: SettingId, active: bool, result: Result<String, String> },
    AllSettings { active: bool, results: Vec<(SettingId, Result<String, String>)> },
    /// One log clear (`None`: the id is unknown).
    LogCleared { id: String, result: Option<Result<ClearResult, String>> },
    TempCleared { id: String, result: Result<TempClearResult, String> },
    /// A bulk clear, with its per-target outcomes (see [`bulk_log_list`],
    /// [`bulk_temp_list`]).
    Bulk { kind: BulkClear, outcomes: Vec<(String, Result<(u64, u64), String>)> },
}

pub open spec fn outcome_ok(o: PendingOutcome) -> bool {
    match o {
        PendingOutcome::Bulk { outcomes, .. } => bulk_fits(bulk_view(outcomes@)),
        _ => true,
    }
}

pub open spec fn opt_report(r: Option<Seq<char>>, prev: Seq<char>) -> Seq<char> {
    match r {
        Some(t) => t,
        None => prev,
    }
}

#[verifier::opaque]
pub open spec fn f_verified(stamp: String, off: u64, on: u64) -> Seq<char> {
    verify_status_view(stamp@, off as nat, on as nat)
}

#[verifier::opaque]
pub open spec fn f_message(prefix: Seq<char>, r: Result<String, String>) -> (Seq<char>, bool) {
    message_status_view(prefix, text_result_view(r))
}

#[verifier::opaque]
pub open spec fn f_one(id: SettingId, active: bool, result: Result<String, String>) -> (Seq<char>, bool) {
    one_setting_status_view(id, active, text_result_view(result))
}

#[verifier::opaque]
pub open spec fn f_all(active: bool, results: Seq<(SettingId, Result<String, String>)>) -> (Seq<char>, bool) {
    all_settings_status_view(active, results)
}

#[verifier::opaque]
pub open spec fn f_log(id: String, result: Option<Result<ClearResult, String>>) -> (Seq<char>, bool, Option<Seq<char>>) {
    log_clear_status_view(id@, log_result_view(result))
}

#[verifier::opaque]
pub open spec fn f_temp(id: String, result: Result<TempClearResult, String>) -> (Seq<char>, bool, Option<Seq<char>>) {
    temp_clear_status_view(id@, temp_result_view(result))
}

#[verifier::opaque]
pub open spec fn f_bulk(kind: BulkClear, outcomes: Seq<(String, Result<(u64, u64), String>)>) -> (Seq<char>, bool) {
    bulk_status_view(kind, bulk_view(outcomes))
}

/// The state after an action ran: its status, and for a clear the longer
/// report (a successful single clear keeps its report; a bulk clear's status
/// is its report).
pub open spec fn finish_pending_view(v: DashboardView, o: PendingOutcome) -> DashboardView {
    match o {
        PendingOutcome::Verified { stamp, off, on } => DashboardView {
            hide_verify: false,
            ..with_status(v, (f_verified(stamp, off, on), true))
        },
        PendingOutcome::Startup(r) => with_status(v, f_message("Startup option failed: "@, r)),
        PendingOutcome::PostUpdate(r) => with_status(v, f_message("Post-update task failed: "@, r)),
        PendingOutcome::Schedule(r) => with_status(v, f_message("Cleanup schedule failed: "@, r)),
        PendingOutcome::OneSetting { id, active, result } => with_status(v, f_one(id, active, result)),
        PendingOutcome::AllSettings { active, results } => with_status(v, f_all(active, results@)),
        PendingOutcome::LogCleared { id, result } => {
            let t = f_log(id, result);
            DashboardView {
                last_clear_report: opt_report(t.2, v.last_clear_report),
                ..with_status(v, (t.0, t.1))
            }
        },
        PendingOutcome::TempCleared { id, result } => {
            let t = f_temp(id, result);
            DashboardView {
                last_temp_report: opt_report(t.2, v.last_temp_report),
                ..with_status(v, (t.0, t.1))
            }
        },
        PendingOutcome::Bulk { kind, outcomes } => {
            let t = f_bulk(kind, outcomes@);
            let v1 = with_status(v, t);
            match kind {
                BulkClear::Temp => DashboardView { last_temp_report: t.0, ..v1 },
                _ => DashboardView { last_clear_report: t.0, ..v1 },
            }
        },
    }
}

#[verifier::spinoff_prover]
#[verifier::rlimit(100)]
pub fn finish_pending(s: DashboardState, o: PendingOutcome) -> (r: DashboardState)
    requires
        outcome_ok(o),
    ensures
        state_view(r) == finish_pending_view(state_view(s), o),
{
    let mut s = s;
    match o {
        PendingOutcome::Verified { stamp, off, on } => {
            proof {
                reveal(f_verified);
            }
            s.status = verify_status(stamp.as_str(), off, on);
            s.status_ok = true;
            s.hide_verify = false;
        },
        PendingOutcome::Startup(r) => {
            proof {
                reveal(f_message);
            }
            let (t, ok) = startup_status(r);
            s.status = t;
            s.status_ok = ok;
        },
        PendingOutcome::PostUpdate(r) => {
            proof {
                reveal(f_message);
            }
            let (t, ok) = post_update_status(r);
            s.status = t;
            s.status_ok = ok;
        },
        PendingOutcome::Schedule(r) => {
            proof {
                reveal(f_message);
            }
            let (t, ok) = schedule_status(r);
            s.status = t;
            s.status_ok = ok;
        },
        PendingOutcome::OneSetting { id, active, result } => {
            proof {
                reveal(f_one);
            }
            let (t, ok) = one_setting_status(id, active, result);
            s.status = t;
            s.status_ok = ok;
        },
        PendingOutcome::AllSettings { active, results } => {
            proof {
                reveal(f_all);
            }
            let (t, ok) = all_settings_status(active, results.as_slice());
            s.status = t;
            s.status_ok = ok;
        },
        PendingOutcome::LogCleared { id, result } => {
            proof {
                reveal(f_log);
            }
            let (t, ok, report) = log_clear_status(id.as_str(), result);
            s.status = t;
            s.status_ok = ok;
            match report {
                Some(x) => s.last_clear_report = x,
                None => {},
            }
        },
        PendingOutcome::TempCleared { id, result } => {
            proof {
                reveal(f_temp);
            }
            let (t, ok, report) = temp_clear_status(id.as_str(), result);
            s.status = t;
            s.status_ok = ok;
            match report {
                Some(x) => s.last_temp_report = x,
                None => {},
            }
        },
        PendingOutcome::Bulk { kind, outcomes } => {
            proof {
                reveal(f_bulk);
            }
            let (t, ok) = bulk_status(kind, &outcomes);
            let report = string_of(t.as_str());
            s.status = t;
            s.status_ok = ok;
            match kind {
                BulkClear::Temp => s.last_temp_report = report,
                _ => s.last_clear_report = report,
            }
        },
    }
    s
}

/// A risky request never queues anything by itself: it only puts its
/// confirmation on screen. Accepting that confirmation queues exactly the
/// action it asked about and closes it; cancelling closes it and queues
/// nothing.
pub proof fn lemma_confirm_then_accept_or_cancel(v: DashboardView, m: Message)
    requires
        m is TurnAllOff || m is TurnAllOn || m is Quit || m is ToggleSetting || m is RequestClearLog
            || m is RequestClearAllSafe || m is RequestClearAllLogs || m is RequestClearTemp
            || m is RequestClearTempAll,
    ensures
        update_view(v, m).pending == v.pending,
        update_view(v, m).confirm is Some,
        update_view(update_view(v, m), Message::ConfirmAccept).pending == Some(
            update_view(v, m).confirm.unwrap().4,
        ),
        update_view(update_view(v, m), Message::ConfirmAccept).confirm is None,
        update_view(update_view(v, m), Message::ConfirmCancel).pending == v.pending,
        update_view(update_view(v, m), Message::ConfirmCancel).confirm is None,
{
}

/// What each risky request asks about is the action it names.
pub proof fn lemma_confirmation_names_its_action(v: DashboardView, id: SettingId, active: bool)
    ensures
        update_view(v, Message::TurnAllOff).confirm.unwrap().4 == (Pending::All { active: false }),
        update_view(v, Message::Quit).confirm.unwrap().4 == Pending::Quit,
        update_view(v, (Message::ToggleSetting { id, active })).confirm.unwrap().4 == (Pending::One {
            id,
            active,
        }),
        update_view(v, (Message::RequestClearAllLogs { total_bytes: 0 })).confirm.unwrap().4
            == Pending::ClearAllLogs,
{
    reveal(p_turn_all);
    reveal(p_quit);
    reveal(p_toggle);
    reveal(p_all_logs);
}

/// Accepting "Clear all safe logs" queues the safe bulk clear, the same as
/// the tray's "Clear safe logs", and never what accepting "Clear ALL logs"
/// queues. Accepting the clear of one temp location queues a clear of that
/// location alone: it is found as the target asked about, and it is refused
/// without administrator rights exactly when that target needs them.
pub proof fn lemma_confirmed_clears_run_what_they_name(
    v: DashboardView,
    total_bytes: u64,
    index: usize,
    current: TempStatus,
    elevated: bool,
    task_registered: bool,
    admin_temp: bool,
)
    requires
        index < 6,
    ensures
        update_view(update_view(v, (Message::RequestClearAllSafe { total_bytes })), Message::ConfirmAccept).pending
            == Some(Pending::ClearAllSafe),
        update_view(update_view(v, (Message::RequestClearAllSafe { total_bytes })), Message::ConfirmAccept).pending
            == tray_command_view(TrayCommand::ClearSafeLogs).0,
        update_view(update_view(v, (Message::RequestClearAllSafe { total_bytes })), Message::ConfirmAccept).pending
            != update_view(update_view(v, (Message::RequestClearAllLogs { total_bytes })), Message::ConfirmAccept).pending,
        update_view(update_view(v, (Message::RequestClearTemp { index, current })), Message::ConfirmAccept).pending
            matches Some(Pending::ClearTemp(id)) && find_target(id@) == Some(target_table()[index as int]),
        update_view(update_view(v, (Message::RequestClearTemp { index, current })), Message::ConfirmAccept).pending
            != update_view(update_view(v, (Message::RequestClearTempAll { total_bytes })), Message::ConfirmAccept).pending,
        (refusal_view(
            update_view(update_view(v, (Message::RequestClearTemp { index, current })), Message::ConfirmAccept).pending.unwrap(),
            elevated,
            task_registered,
            admin_temp,
        ) is Some) <==> (target_table()[index as int].needs_admin && !elevated),
{
    reveal(p_all_safe);
    reveal(p_all_logs);
    reveal(p_clear_temp);
    reveal(p_temp_all);
    lemma_safe_clear_prompt_runs_the_safe_clear(total_bytes, total_bytes);
    lemma_temp_prompt_runs_that_target(index, current, total_bytes);
    lemma_find_own_id(index as int);
}

/// At most one setting card is open after any message, if at most one was
/// before.
#[verifier::spinoff_prover]
#[verifier::rlimit(100)]
pub proof fn lemma_one_card_open(v: DashboardView, m: Message)
    requires
        message_ok(v, m),
        forall|j: int, k: int| 0 <= j < k < v.expanded.len() ==> !(v.expanded[j] && v.expanded[k]),
    ensures
        forall|j: int, k: int|
            0 <= j < k < update_view(v, m).expanded.len() ==> !(update_view(v, m).expanded[j]
                && update_view(v, m).expanded[k]),
{
}

/// A refused action runs nothing and reports the refusal; without
/// administrator rights no setting is switched and no log is cleared.
pub proof fn lemma_refused_actions_do_not_run(
    v: DashboardView,
    task_registered: bool,
    admin_temp: bool,
)
    requires
        v.pending is Some,
        !v.elevated,
        v.pending.unwrap() is One || v.pending.unwrap() is All || v.pending.unwrap() is ClearLog
            || v.pending.unwrap() is ClearAllSafe || v.pending.unwrap() is ClearAllLogs
            || v.pending.unwrap() is SetPostUpdate,
    ensures
        start_pending_view(v, task_registered, admin_temp).1 is None,
        !start_pending_view(v, task_registered, admin_temp).0.status_ok,
        start_pending_view(v, task_registered, admin_temp).0.pending is None,
{
}

} // verus!
