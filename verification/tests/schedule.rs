use windows_diagnostics::calendar::LocalTime;
use windows_diagnostics::cleanup_schedule::{
    apply, describe_next_interval, disable, disabled_config, estimate_next_interval_run,
    interval_cadence, load_config, read_state, run_now, run_plan, save_config,
    scheduler_next_run, CleanupInterval, CleanupPrefs, CleanupScheduleConfig,
};
use windows_diagnostics::log_cleanup::{ClearResult, LogStatus};
use windows_diagnostics::temp_cleanup::{TempClearResult, TempStatus};

fn t(year: u16, month: u16, day: u16, dow: u16, hour: u16, minute: u16, second: u16) -> LocalTime {
    LocalTime { year, month, day_of_week: dow, day, hour, minute, second }
}

fn cfg(safe: bool, all: bool, temp: bool, logon: bool, end: bool, i: CleanupInterval) -> CleanupScheduleConfig {
    CleanupScheduleConfig {
        clear_safe_logs: safe,
        clear_all_logs: all,
        clear_temp: temp,
        on_logon: logon,
        on_session_end: end,
        interval: i,
    }
}

fn no_prefs() -> CleanupPrefs {
    CleanupPrefs {
        clear_safe_logs: None,
        clear_all_logs: None,
        clear_temp: None,
        on_logon: None,
        on_session_end: None,
        interval: None,
    }
}

#[test]
fn interval_names_and_aliases() {
    for i in CleanupInterval::ALL {
        assert_eq!(CleanupInterval::from_str(i.as_str()), i);
    }
    assert_eq!(CleanupInterval::Every6Hours.as_str(), "6h");
    assert_eq!(CleanupInterval::Every6Hours.label(), "Every 6h");
    assert_eq!(CleanupInterval::from_str("  HOUR "), CleanupInterval::Hourly);
    assert_eq!(CleanupInterval::from_str("1h"), CleanupInterval::Hourly);
    assert_eq!(CleanupInterval::from_str("Every-6-Hours"), CleanupInterval::Every6Hours);
    assert_eq!(CleanupInterval::from_str("day"), CleanupInterval::Daily);
    assert_eq!(CleanupInterval::from_str("week"), CleanupInterval::Weekly);
    assert_eq!(CleanupInterval::from_str("monthly"), CleanupInterval::Off);
}

#[test]
fn config_flags_and_summary() {
    let d = CleanupScheduleConfig::default();
    assert_eq!(d, cfg(true, false, true, false, false, CleanupInterval::Off));
    assert!(!d.has_any_trigger());
    assert!(d.has_any_target());
    assert!(!d.is_active());
    assert_eq!(d.summary_line(), "Cleanup schedule: OFF");
    let c = cfg(true, true, true, true, true, CleanupInterval::Daily);
    assert_eq!(c.summary_line(), "Cleanup schedule: all logs + temp · Daily, logon, session-end");
    let c = cfg(true, false, false, true, false, CleanupInterval::Off);
    assert_eq!(c.summary_line(), "Cleanup schedule: safe logs · logon");
    let c = cfg(false, false, false, true, false, CleanupInterval::Hourly);
    assert!(!c.is_active());
}

#[test]
fn prefs_round_trip() {
    let c = cfg(false, true, false, true, false, CleanupInterval::Weekly);
    let p = save_config(&c);
    assert_eq!(p.interval.as_deref(), Some("weekly"));
    assert_eq!(load_config(&p), c);
    assert_eq!(load_config(&no_prefs()), CleanupScheduleConfig::default());
    let mut p = no_prefs();
    p.interval = Some(" Daily ".to_string());
    p.clear_temp = Some(false);
    assert_eq!(load_config(&p), cfg(true, false, false, false, false, CleanupInterval::Daily));
}

#[test]
fn next_runs() {
    let now = t(2025, 3, 4, 2, 9, 7, 5);
    assert_eq!(estimate_next_interval_run(CleanupInterval::Off, now), None);
    assert_eq!(estimate_next_interval_run(CleanupInterval::Hourly, now).as_deref(), Some("2025-03-04 10:05"));
    assert_eq!(estimate_next_interval_run(CleanupInterval::Every6Hours, now).as_deref(), Some("2025-03-04 15:00"));
    assert_eq!(estimate_next_interval_run(CleanupInterval::Daily, now).as_deref(), Some("2025-03-05 03:30"));
    assert_eq!(estimate_next_interval_run(CleanupInterval::Weekly, now).as_deref(), Some("2025-03-09 03:30"));
    // Before :05 in the hour, and month / year roll-over.
    assert_eq!(estimate_next_interval_run(CleanupInterval::Hourly, t(2025, 3, 4, 2, 9, 4, 59)).as_deref(), Some("2025-03-04 09:05"));
    assert_eq!(estimate_next_interval_run(CleanupInterval::Hourly, t(2024, 12, 31, 2, 23, 30, 0)).as_deref(), Some("2025-01-01 00:05"));
    assert_eq!(estimate_next_interval_run(CleanupInterval::Every6Hours, t(2024, 2, 28, 3, 22, 0, 0)).as_deref(), Some("2024-02-29 03:00"));
    assert_eq!(estimate_next_interval_run(CleanupInterval::Daily, t(2025, 3, 4, 2, 3, 29, 59)).as_deref(), Some("2025-03-04 03:30"));
    // Sunday before and after 03:30.
    assert_eq!(estimate_next_interval_run(CleanupInterval::Weekly, t(2025, 3, 9, 0, 1, 0, 0)).as_deref(), Some("2025-03-09 03:30"));
    assert_eq!(estimate_next_interval_run(CleanupInterval::Weekly, t(2025, 3, 9, 0, 3, 30, 0)).as_deref(), Some("2025-03-16 03:30"));
}

#[test]
fn next_interval_description() {
    let now = t(2025, 3, 4, 2, 9, 7, 5);
    assert_eq!(interval_cadence(CleanupInterval::Daily), Some("every day at 03:30"));
    assert_eq!(
        describe_next_interval(CleanupInterval::Daily, now).as_deref(),
        Some("Next run: 2025-03-05 03:30 (every day at 03:30)")
    );
    assert_eq!(describe_next_interval(CleanupInterval::Off, now), None);
}

#[test]
fn scheduler_listing() {
    let listing = "Folder: \\\r\nHostName:  PC\r\nTaskName:  \\TelemetryLoggingUtilityCleanup\r\nNext Run Time:                        3/5/2025 3:30:00 AM\r\nStatus:  Ready\r\n";
    assert_eq!(scheduler_next_run(listing).as_deref(), Some("3/5/2025 3:30:00 AM"));
    assert_eq!(scheduler_next_run("Next Run Time: N/A\n"), None);
    assert_eq!(scheduler_next_run("Next Run Time:   \n"), None);
    assert_eq!(scheduler_next_run("  Task Next Run Time:: 1/1/2026 \n"), Some("1/1/2026".to_string()));
    assert_eq!(scheduler_next_run("nothing here"), None);
}

#[test]
fn state_from_prefs_and_listing() {
    let now = t(2025, 3, 4, 2, 9, 7, 5);
    let mut p = no_prefs();
    p.interval = Some("daily".to_string());
    let s = read_state(&p, true, Some("Next Run Time: 3/5/2025 3:30:00 AM\n"), now);
    assert_eq!(s.config.interval, CleanupInterval::Daily);
    assert!(s.task_registered);
    assert_eq!(s.next_interval.as_deref(), Some("Next run: 2025-03-05 03:30 (every day at 03:30)"));
    assert_eq!(s.scheduler_next.as_deref(), Some("3/5/2025 3:30:00 AM"));
    let s = read_state(&p, false, Some("Next Run Time: 3/5/2025\n"), now);
    assert_eq!(s.scheduler_next, None);
}

#[test]
fn apply_and_disable_messages() {
    let now = t(2025, 3, 4, 2, 9, 7, 5);
    let inactive = CleanupScheduleConfig::default();
    assert_eq!(apply(&inactive, Ok(()), Ok(()), now), Ok("Cleanup schedule disabled (task removed)".to_string()));
    assert_eq!(apply(&inactive, Err("denied".to_string()), Ok(()), now), Err("denied".to_string()));
    let active = cfg(true, false, true, true, false, CleanupInterval::Daily);
    assert_eq!(
        apply(&active, Ok(()), Ok(()), now),
        Ok("Cleanup schedule applied — task 'TelemetryLoggingUtilityCleanup' (Cleanup schedule: safe logs + temp · Daily, logon) · Next run: 2025-03-05 03:30 (every day at 03:30)".to_string())
    );
    let logon_only = cfg(true, false, false, true, false, CleanupInterval::Off);
    assert_eq!(
        apply(&logon_only, Ok(()), Ok(()), now),
        Ok("Cleanup schedule applied — task 'TelemetryLoggingUtilityCleanup' (Cleanup schedule: safe logs · logon)".to_string())
    );
    assert_eq!(apply(&active, Ok(()), Err("xml".to_string()), now), Err("xml".to_string()));
    let d = disabled_config(&active);
    assert_eq!(d, cfg(true, false, true, false, false, CleanupInterval::Off));
    let mut p = save_config(&active);
    p.on_logon = Some(true);
    assert_eq!(disable(&p, Ok(()), now), Ok("Cleanup schedule disabled (task removed)".to_string()));
    assert_eq!(disable(&p, Err("no".to_string()), now), Err("no".to_string()));
}

fn log_ok(files: u64, bytes: u64) -> Result<ClearResult, String> {
    Ok(ClearResult {
        removed_files: files,
        freed_bytes: bytes,
        skipped: 0,
        before: LogStatus { files: 0, bytes: 0, location: String::new(), note: String::new() },
        message: String::new(),
    })
}

fn temp_ok(files: u64, bytes: u64) -> Result<TempClearResult, String> {
    Ok(TempClearResult {
        removed_files: files,
        freed_bytes: bytes,
        skipped: 0,
        before: TempStatus { files: 0, bytes: 0, location: String::new() },
        message: String::new(),
    })
}

#[test]
fn run_now_reports() {
    let nothing = cfg(false, false, false, true, false, CleanupInterval::Off);
    assert_eq!(run_plan(&nothing), (None, false));
    assert_eq!(run_now(&nothing, &[], &[]), Ok("Scheduled cleanup: nothing selected to clear (check prefs)".to_string()));
    let both = cfg(true, false, true, false, false, CleanupInterval::Daily);
    assert_eq!(run_plan(&both), (Some(false), true));
    let logs = vec![log_ok(3, 2048), Err("denied".to_string()), log_ok(1, 1024)];
    let temp = vec![temp_ok(10, 500)];
    assert_eq!(
        run_now(&both, &logs, &temp),
        Ok("Scheduled cleanup — logs: 2 target(s), 4 item(s), 3.0 KB, 1 failed; temp: 1 target(s), 10 item(s), 500 B".to_string())
    );
    let only_temp = cfg(false, false, true, false, false, CleanupInterval::Daily);
    assert_eq!(run_plan(&only_temp), (None, true));
    assert_eq!(
        run_now(&only_temp, &logs, &[]),
        Ok("Scheduled cleanup — temp: 0 target(s), 0 item(s), 0 B".to_string())
    );
    let all_logs = cfg(true, true, false, false, false, CleanupInterval::Daily);
    assert_eq!(run_plan(&all_logs), (Some(true), false));
}
