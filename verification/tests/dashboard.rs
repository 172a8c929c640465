use windows_diagnostics::cleanup_schedule::{CleanupInterval, CleanupScheduleConfig};
use windows_diagnostics::dashboard::{
    all_settings_status, any_admin_temp_available, bulk_log_list, bulk_status, bulk_temp_list,
    count_states, log_clear_status, one_setting_status, post_update_status, refusal,
    schedule_status, startup_status, telemetry_summary, temp_clear_status, tray_command_effect,
    tray_pref_status, verify_status, freed_lifetime_line, freed_today_line, BulkClear, Pending,
};
use windows_diagnostics::cleanup_history::DayTotals;
use windows_diagnostics::log_cleanup::{ClearResult, LogStatus};
use windows_diagnostics::telemetry::{SettingId, SettingState};
use windows_diagnostics::temp_cleanup::{TempClearResult, TempStatus};
use windows_diagnostics::tray::TrayCommand;

fn schedule(safe: bool, logon: bool, interval: CleanupInterval) -> CleanupScheduleConfig {
    CleanupScheduleConfig {
        clear_safe_logs: safe,
        clear_all_logs: false,
        clear_temp: false,
        on_logon: logon,
        on_session_end: false,
        interval,
    }
}

fn log_result(files: u64, bytes: u64) -> ClearResult {
    ClearResult {
        removed_files: files,
        freed_bytes: bytes,
        skipped: 0,
        before: LogStatus { files: 9, bytes: 2048, location: "C:\\x".to_string(), note: String::new() },
        message: "WER cleared".to_string(),
    }
}

fn temp_result(files: u64, bytes: u64) -> TempClearResult {
    TempClearResult {
        removed_files: files,
        freed_bytes: bytes,
        skipped: 2,
        before: TempStatus { files: 5, bytes: 10, location: "C:\\t".to_string() },
        message: "User temp cleared".to_string(),
    }
}

#[test]
fn admin_temp_targets() {
    assert!(!any_admin_temp_available(&[true, true, true, false, false, true]));
    assert!(any_admin_temp_available(&[false, false, false, true, false, false]));
    assert!(any_admin_temp_available(&[false, false, false, false, true, false]));
    assert!(!any_admin_temp_available(&[false; 6]));
}

#[test]
fn refusals_without_rights() {
    let admin = "Administrator required to change settings.";
    assert_eq!(refusal(&Pending::All { active: false }, false, false, false).as_deref(), Some(admin));
    assert_eq!(
        refusal(&Pending::One { id: SettingId::DiagTrack, active: true }, false, false, false).as_deref(),
        Some(admin)
    );
    assert_eq!(refusal(&Pending::All { active: false }, true, false, false), None);
    assert_eq!(refusal(&Pending::Verify, false, false, false), None);
    assert_eq!(refusal(&Pending::SetStartup(true), false, false, false), None);
    assert_eq!(refusal(&Pending::Quit, false, true, true), None);
    assert_eq!(
        refusal(&Pending::SetPostUpdate(false), false, false, false).as_deref(),
        Some("Administrator required to create the post-update scheduled task.")
    );
    assert_eq!(
        refusal(&Pending::ClearAllLogs, false, false, false).as_deref(),
        Some("Administrator required to clear system logs.")
    );
    assert_eq!(refusal(&Pending::ClearLog("wer"), true, false, false), None);
}

#[test]
fn schedule_refused_only_when_a_task_changes() {
    let inactive = schedule(true, false, CleanupInterval::Off);
    let active = schedule(true, true, CleanupInterval::Off);
    let msg = "Administrator required to create or update the cleanup scheduled task.";
    assert_eq!(refusal(&Pending::ApplyCleanupSchedule(inactive), false, false, false), None);
    assert_eq!(refusal(&Pending::ApplyCleanupSchedule(inactive), false, true, false).as_deref(), Some(msg));
    assert_eq!(refusal(&Pending::ApplyCleanupSchedule(active), false, false, false).as_deref(), Some(msg));
    assert_eq!(refusal(&Pending::ApplyCleanupSchedule(active), true, true, false), None);
}

#[test]
fn temp_refusals() {
    assert_eq!(
        refusal(&Pending::ClearTemp("windows-temp"), false, false, false).as_deref(),
        Some("Administrator required for this temp target.")
    );
    assert_eq!(refusal(&Pending::ClearTemp("user-temp"), false, false, false), None);
    assert_eq!(
        refusal(&Pending::ClearTemp("nope"), true, false, false).as_deref(),
        Some("Unknown temp target: nope")
    );
    assert_eq!(
        refusal(&Pending::ClearTempAll, false, false, true).as_deref(),
        Some("Administrator required to clear all temp targets (includes Windows\\Temp).")
    );
    assert_eq!(refusal(&Pending::ClearTempAll, false, false, false), None);
}

#[test]
fn verification_line() {
    assert_eq!(
        verify_status("12:00:01", 5, 2),
        "Verified at 12:00:01 — re-read 5 OFF + 2 ON from Windows (registry / services / tasks). \
         Nothing was changed — see highlighted switches and Verified values."
    );
}

#[test]
fn message_statuses() {
    assert_eq!(startup_status(Ok("Run at startup enabled.".into())), ("Run at startup enabled.".to_string(), true));
    assert_eq!(startup_status(Err("denied".into())), ("Startup option failed: denied".to_string(), false));
    assert_eq!(post_update_status(Err("x".into())), ("Post-update task failed: x".to_string(), false));
    assert_eq!(schedule_status(Err("y".into())), ("Cleanup schedule failed: y".to_string(), false));
    assert_eq!(schedule_status(Ok("done".into())), ("done".to_string(), true));
}

#[test]
fn single_clear_statuses() {
    let (s, ok, report) = log_clear_status("wer", Some(Ok(log_result(4, 100))));
    assert!(ok);
    assert_eq!(s, "WER cleared — cleared 4 item(s), freed 100 B, skipped 0");
    assert_eq!(
        report.as_deref(),
        Some("WER cleared — cleared 4 item(s), freed 100 B, skipped 0 — was: C:\\x — 9 file(s), 2.0 KB")
    );
    assert_eq!(
        log_clear_status("zz", None),
        ("Unknown clear target: zz".to_string(), false, None)
    );
    assert_eq!(
        log_clear_status("wer", Some(Err("busy".into()))),
        ("Clear failed (wer): busy".to_string(), false, None)
    );
    let (s, ok, report) = temp_clear_status("user-temp", Ok(temp_result(3, 2048)));
    assert!(ok);
    assert_eq!(s, "User temp cleared — cleared 3 file(s)/item(s), freed 2.0 KB, skipped 2");
    assert_eq!(report.unwrap(), format!("{s} — was: C:\\t — 5 file(s), 10 B"));
    assert_eq!(
        temp_clear_status("user-temp", Err("gone".into())),
        ("Temp clear failed (user-temp): gone".to_string(), false, None)
    );
}

#[test]
fn bulk_reports() {
    let logs = bulk_log_list(&[
        ("wer".to_string(), Ok(log_result(4, 1024))),
        ("cbs".to_string(), Err("locked".to_string())),
        ("dism".to_string(), Ok(log_result(1, 1024))),
    ]);
    assert_eq!(logs.len(), 3);
    assert_eq!(logs[1], ("cbs".to_string(), Err("locked".to_string())));
    assert_eq!(
        bulk_status(BulkClear::SafeLogs, &logs),
        ("Cleared 2 target(s): 5 item(s), 2.0 KB; failures: cbs: locked".to_string(), false)
    );
    assert_eq!(
        bulk_status(BulkClear::AllLogs, &vec![("wer".to_string(), Ok((0, 0)))]),
        ("Cleared ALL 1 log target(s): 0 item(s), 0 B".to_string(), true)
    );
    let temps = bulk_temp_list(&[
        ("user-temp".to_string(), Ok(temp_result(2, 10))),
        ("windows-temp".to_string(), Err("denied".to_string())),
        ("inet".to_string(), Err("busy".to_string())),
    ]);
    assert_eq!(
        bulk_status(BulkClear::Temp, &temps),
        ("Cleared 1 temp target(s): 2 item(s), 10 B; failures: windows-temp: denied; inet: busy".to_string(), false)
    );
    assert_eq!(bulk_status(BulkClear::Temp, &Vec::new()), ("Cleared 0 temp target(s): 0 item(s), 0 B".to_string(), true));
}

#[test]
fn setting_statuses() {
    assert_eq!(
        one_setting_status(SettingId::DiagTrack, false, Ok("stopped".into())).1,
        true
    );
    let (s, ok) = one_setting_status(SettingId::DiagTrack, false, Ok("stopped".into()));
    assert!(ok);
    assert!(s.ends_with(" — stopped  (CLI: tluw set diagtrack off)"));
    let (s, ok) = one_setting_status(SettingId::AdvertisingId, true, Err("denied".into()));
    assert!(!ok);
    assert!(s.starts_with("Failed (") && s.ends_with("): denied"));
    assert_eq!(
        all_settings_status(false, &[(SettingId::DiagTrack, Ok("x".into()))]),
        ("All OFF — same as `tluw disable`. Dashboard refreshed. Reboot recommended.".to_string(), true)
    );
    assert_eq!(
        all_settings_status(true, &[]),
        ("All ON — same as `tluw enable`. Dashboard refreshed.".to_string(), true)
    );
    let (s, ok) = all_settings_status(
        true,
        &[(SettingId::DiagTrack, Err("a".into())), (SettingId::CeipTasks, Ok("b".into())), (SettingId::AppInventory, Err("c".into()))],
    );
    assert!(!ok);
    assert!(s.starts_with("Some changes failed: ") && s.contains(": a; ") && s.ends_with(": c"));
}

#[test]
fn tray_commands_and_preference() {
    let (p, m, quit) = tray_command_effect(TrayCommand::DisableTelemetry);
    assert!(matches!(p, Some(Pending::All { active: false })));
    assert_eq!(m.as_deref(), Some("Disabling telemetry (from tray)…"));
    assert!(!quit);
    let (p, m, quit) = tray_command_effect(TrayCommand::Quit);
    assert!(p.is_none() && m.is_none() && quit);
    let (p, m, _) = tray_command_effect(TrayCommand::ClearSafeLogs);
    assert!(matches!(p, Some(Pending::ClearAllSafe)));
    assert_eq!(m.as_deref(), Some("Clearing safe logs (from tray)…"));
    assert_eq!(tray_command_effect(TrayCommand::Show).1.as_deref(), Some("Opened from system tray."));

    assert_eq!(
        tray_pref_status(true, Err("disk".into()), Ok(())),
        ("Could not save tray preference: disk".to_string(), false)
    );
    assert_eq!(tray_pref_status(false, Ok(()), Err("n/a".into())), ("System tray disabled.".to_string(), true));
    assert_eq!(
        tray_pref_status(true, Ok(()), Err("no shell".into())),
        ("System tray unavailable: no shell".to_string(), false)
    );
    assert!(tray_pref_status(true, Ok(()), Ok(())).1);
}

#[test]
fn telemetry_counts_and_summary() {
    let st = |active| SettingState { id: SettingId::DiagTrack, active, note: String::new() };
    assert_eq!(count_states(&[st(false), st(true), st(false)]), (2, 1));
    assert_eq!(count_states(&[]), (0, 0));
    assert_eq!(telemetry_summary(7, 0), "7/7 blocked — all quiet");
    assert_eq!(telemetry_summary(0, 3), "3/3 collecting — fully open");
    assert_eq!(telemetry_summary(5, 2), "5/7 blocked · 2 still collecting");
    assert_eq!(telemetry_summary(0, 0), "0/1 blocked — all quiet");
}

#[test]
fn freed_lines() {
    let today = DayTotals { date: "2025-03-04".to_string(), logs_bytes: 1536, temp_bytes: 512 };
    assert_eq!(freed_today_line(&today), "today  logs 1.5 KB · temp 512 B · total 2.0 KB");
    assert_eq!(freed_lifetime_line(0, 1_073_741_824), "lifetime  logs 0 B · temp 1.000 GB · total 1.000 GB");
    assert_eq!(
        freed_lifetime_line(u64::MAX, 1),
        format!("lifetime  logs {0} · temp 1 B · total {0}", windows_diagnostics::cleanup_history::format_size(u64::MAX))
    );
}
