use windows_diagnostics::cleanup_schedule::{CleanupInterval, CleanupScheduleConfig};
use windows_diagnostics::controls::ScheduleEdit;
use windows_diagnostics::dashboard::{BulkClear, Pending};
use windows_diagnostics::dashboard_state::{
    finish_pending, start_pending, update, DashboardState, Message, PendingOutcome,
};
use windows_diagnostics::log_cleanup::LogStatus;
use windows_diagnostics::telemetry::SettingId;
use windows_diagnostics::tray::TrayCommand;

fn state(elevated: bool) -> DashboardState {
    DashboardState {
        expanded: vec![false; 7],
        confirm: None,
        pending: None,
        status: String::new(),
        status_ok: true,
        elevated,
        show_settings: false,
        show_disclaimer: false,
        hide_verify: true,
        hide_log_details: true,
        hide_temp_details: true,
        schedule: CleanupScheduleConfig {
            clear_safe_logs: false,
            clear_all_logs: false,
            clear_temp: false,
            on_logon: false,
            on_session_end: false,
            interval: CleanupInterval::Off,
        },
        last_clear_report: String::new(),
        last_temp_report: String::new(),
    }
}

#[test]
fn risky_requests_ask_then_accept_or_cancel() {
    let s = update(state(true), Message::TurnAllOff);
    assert!(s.pending.is_none());
    assert_eq!(s.confirm.as_ref().unwrap().title, "Turn all telemetry OFF?");
    let accepted = update(s, Message::ConfirmAccept);
    assert!(accepted.confirm.is_none());
    assert!(matches!(accepted.pending, Some(Pending::All { active: false })));

    let s = update(state(true), Message::RequestClearAllSafe { total_bytes: 2048 });
    assert!(s.confirm.as_ref().unwrap().body.contains("Current total ~2.0 KB."));
    let cancelled = update(s, Message::ConfirmCancel);
    assert!(cancelled.confirm.is_none() && cancelled.pending.is_none());

    let s = update(state(true), Message::ToggleSetting { id: SettingId::DiagTrack, active: true });
    let s = update(s, Message::ConfirmAccept);
    assert!(matches!(s.pending, Some(Pending::One { id: SettingId::DiagTrack, active: true })));

    let s = update(state(true), Message::ConfirmAccept);
    assert!(s.pending.is_none());
}

#[test]
fn refusal_comes_first() {
    let s = update(state(false), Message::TurnAllOn);
    let s = update(s, Message::ConfirmAccept);
    let (s, run) = start_pending(s, false, false);
    assert!(run.is_none() && s.pending.is_none());
    assert_eq!((s.status.as_str(), s.status_ok), ("Administrator required to change settings.", false));

    let s = update(state(true), Message::Verify);
    let (s, run) = start_pending(s, false, false);
    assert!(matches!(run, Some(Pending::Verify)));
    let s = finish_pending(s, PendingOutcome::Verified { stamp: "12:00".into(), off: 6, on: 1 });
    assert!(s.status.starts_with("Verified at 12:00 — re-read 6 OFF + 1 ON"));
    assert!(!s.hide_verify);

    let (s, run) = start_pending(state(false), false, false);
    assert!(run.is_none() && s.status.is_empty());
}

#[test]
fn switches_queue_their_action() {
    let s = update(state(false), Message::EditSchedule(ScheduleEdit::ClearAllLogs(true)));
    assert!(s.schedule.clear_all_logs && s.schedule.clear_safe_logs);
    match s.pending {
        Some(Pending::ApplyCleanupSchedule(c)) => assert_eq!(c, s.schedule),
        _ => panic!("schedule not queued"),
    }
    let s = update(state(false), Message::SetStartup(true));
    assert!(matches!(s.pending, Some(Pending::SetStartup(true))));
    let s = update(state(false), Message::Tray(TrayCommand::ClearSafeLogs));
    assert!(matches!(s.pending, Some(Pending::ClearAllSafe)));
    assert_eq!(s.status, "Clearing safe logs (from tray)…");
}

#[test]
fn cards_and_panels() {
    let s = update(state(true), Message::ToggleExpand(2));
    let s = update(s, Message::ToggleExpand(4));
    assert_eq!(s.expanded, vec![false, false, false, false, true, false, false]);
    let s = update(s, Message::ToggleExpand(4));
    assert!(s.expanded.iter().all(|e| !e));
    let s = update(s, Message::ShowDisclaimer);
    assert!(s.show_disclaimer);
    let s = update(s, Message::AcceptDisclaimer { saved: Ok(()), accepted_at: "T".into() });
    assert!(!s.show_disclaimer && s.status_ok);
    assert_eq!(s.status, "Disclaimer accepted at T (HKCU registry + APPDATA backup). Use at your own risk.");
}

#[test]
fn reports_after_work() {
    let logs = vec![
        LogStatus { files: 1, bytes: 10, location: "a".into(), note: String::new() },
        LogStatus { files: 2, bytes: 20, location: "b".into(), note: String::new() },
    ];
    let s = update(state(true), Message::RefreshLogStatus(logs));
    assert_eq!(s.status, "Logging status: 2 target(s), 3 item(s)/records, 30 B");
    assert!(!s.hide_log_details);
    let s = finish_pending(
        s,
        PendingOutcome::Bulk {
            kind: BulkClear::Temp,
            outcomes: vec![("user-temp".into(), Ok((2, 10))), ("prefetch".into(), Err("denied".into()))],
        },
    );
    assert!(!s.status_ok);
    assert_eq!(s.last_temp_report, s.status);
    assert_eq!(s.status, "Cleared 1 temp target(s): 2 item(s), 10 B; failures: prefetch: denied");
    let s = finish_pending(s, PendingOutcome::Startup(Err("x".into())));
    assert_eq!(s.status, "Startup option failed: x");
}

#[test]
fn immediate_turn_all_queues_without_asking() {
    let s = update(state(true), Message::TurnAllNow(false));
    assert!(s.confirm.is_none());
    assert!(matches!(s.pending, Some(Pending::All { active: false })));
}
