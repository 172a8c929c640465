use windows_diagnostics::cleanup_schedule::{CleanupInterval, CleanupScheduleConfig};
use windows_diagnostics::controls::{
    acceptance_status, armed_status, clear_all_logs_prompt, clear_all_safe_prompt, clear_button,
    clear_log_prompt, clear_temp_all_prompt, clear_temp_prompt, click_armed, create_tray_on_start,
    edit_schedule, hide_to_tray_plan, hide_to_tray_status, initial_status, link_status,
    links_report, log_status_report, log_totals, open_status, quit_prompt, temp_status_report,
    temp_totals, toggle_expand, toggle_setting_prompt, tray_report_title, turn_all_prompt,
    verify_one_status, Armed, ScheduleEdit,
};
use windows_diagnostics::dashboard::Pending;
use windows_diagnostics::identity::PRODUCT_NAME_SHORT;
use windows_diagnostics::log_cleanup::{ClearAction, LogStatus};
use windows_diagnostics::telemetry::{SettingId, SettingState};
use windows_diagnostics::temp_cleanup::{TempStatus, TempTarget};

fn log_status(files: u64, bytes: u64) -> LogStatus {
    LogStatus { files, bytes, location: "C:\\logs".to_string(), note: String::new() }
}

fn temp_status(files: u64, bytes: u64) -> TempStatus {
    TempStatus { files, bytes, location: "C:\\tmp".to_string() }
}

fn cfg() -> CleanupScheduleConfig {
    CleanupScheduleConfig {
        clear_safe_logs: false,
        clear_all_logs: false,
        clear_temp: true,
        on_logon: true,
        on_session_end: true,
        interval: CleanupInterval::Daily,
    }
}

#[test]
fn bulk_setting_prompts() {
    let p = turn_all_prompt(false);
    assert_eq!(p.title, "Turn all telemetry OFF?");
    assert_eq!(
        p.body,
        "Block every telemetry / diagnostic setting this app controls.\n\nEach switch will be set to OFF (not collecting)."
    );
    assert_eq!(p.action_label, "Turn all OFF");
    assert!(p.danger);
    assert!(matches!(p.pending, Pending::All { active: false }));
    let p = turn_all_prompt(true);
    assert_eq!(p.action_label, "Turn all ON");
    assert!(!p.danger);
    assert!(matches!(p.pending, Pending::All { active: true }));

    let q = quit_prompt();
    assert_eq!(q.title, format!("Quit {}?", PRODUCT_NAME_SHORT));
    assert_eq!(q.body, "Exit the application completely?\n\nThe window and system tray icon will both close.");
    assert!(q.danger && matches!(q.pending, Pending::Quit));
}

#[test]
fn one_setting_prompts() {
    let p = toggle_setting_prompt(SettingId::AdvertisingId, false);
    assert_eq!(p.title, "Turn OFF — Advertising ID?");
    assert_eq!(
        p.body,
        "Block this telemetry / diagnostic setting?\n\nSetting: Advertising ID\nCLI: tluw set advertising-id off\n\nOFF = not collecting / blocked."
    );
    assert_eq!((p.action_label.as_str(), p.danger), ("Turn OFF", true));
    assert!(matches!(p.pending, Pending::One { id: SettingId::AdvertisingId, active: false }));
    let p = toggle_setting_prompt(SettingId::AdvertisingId, true);
    assert_eq!(p.title, "Turn ON — Advertising ID?");
    assert!(p.body.ends_with("CLI: tluw set advertising-id on\n\nON = collecting / allowed."));
    assert!(!p.danger);
}

#[test]
fn clear_prompts() {
    let wer = ClearAction::find("wer").unwrap();
    let p = clear_log_prompt(&wer, &log_status(3, 2048));
    assert_eq!(p.title, format!("Clear {}?", wer.title));
    assert_eq!(
        p.body,
        format!(
            "Permanently clear this log target.\n\nTarget: {} (wer)\nCurrent: C:\\logs — 3 file(s), 2.0 KB\n\nLocked files are skipped. This cannot be undone.",
            wer.title
        )
    );
    assert!(matches!(p.pending, Pending::ClearLog("wer")));

    let p = clear_all_safe_prompt(1536);
    assert_eq!(p.title, "Clear all safe logs?");
    assert_eq!(
        p.body,
        "Clear every available non-dangerous log target.\n\nDiagnosis wipe / Security logs are NOT included.\nCurrent total ~1.5 KB.\n\nLocked files are skipped. This cannot be undone."
    );
    assert_eq!(p.action_label, "Clear safe logs");
    let p = clear_all_logs_prompt(0);
    assert_eq!(
        p.body,
        "Clear every available log target, including dangerous ones (Diagnosis wipe / Security).\n\nCurrent total ~0 B.\n\nLocked files are skipped. This cannot be undone."
    );
    assert!(matches!(p.pending, Pending::ClearAllLogs));

    let t = TempTarget::find("windows-temp").unwrap();
    let p = clear_temp_prompt(&t, &temp_status(2, 10));
    assert_eq!(p.title, "Clear Windows\\Temp?");
    assert_eq!(
        p.body,
        "Permanently clear this temporary files location.\n\nTarget: Windows\\Temp (windows-temp)\nCurrent: C:\\tmp — 2 file(s), 10 B\n\nThis cannot be undone."
    );
    let p = clear_temp_all_prompt(3 * 1024 * 1024);
    assert_eq!(
        p.body,
        "Clear every available temp target (TEMP, Windows\\Temp, Prefetch, …).\n\nCurrent total ~3.00 MB.\n\nThis cannot be undone."
    );
    assert_eq!(p.action_label, "Clear all temp");
}

#[test]
fn schedule_switches() {
    let c = edit_schedule(cfg(), ScheduleEdit::ClearAllLogs(true));
    assert!(c.clear_all_logs && c.clear_safe_logs);
    let c = edit_schedule(c, ScheduleEdit::ClearAllLogs(false));
    assert!(!c.clear_all_logs && c.clear_safe_logs);
    let off = edit_schedule(cfg(), ScheduleEdit::TurnOff);
    assert_eq!(off, CleanupScheduleConfig { on_logon: false, on_session_end: false, interval: CleanupInterval::Off, ..cfg() });
    assert!(!off.is_active());
    assert_eq!(edit_schedule(cfg(), ScheduleEdit::Interval(CleanupInterval::Hourly)).interval, CleanupInterval::Hourly);
    assert_eq!(edit_schedule(cfg(), ScheduleEdit::OnLogon(false)), CleanupScheduleConfig { on_logon: false, ..cfg() });
    assert_eq!(edit_schedule(cfg(), ScheduleEdit::ClearTemp(false)), CleanupScheduleConfig { clear_temp: false, ..cfg() });
}

#[test]
fn one_card_open_at_a_time() {
    assert_eq!(toggle_expand(&[false, true, false], 0), vec![true, false, false]);
    assert_eq!(toggle_expand(&[false, true, false], 1), vec![false, false, false]);
    assert_eq!(toggle_expand(&[false; 7], 6), vec![false, false, false, false, false, false, true]);
}

#[test]
fn status_lines() {
    assert_eq!(initial_status(true), "Ready. Verify status re-reads live ON/OFF from Windows (does not change anything).");
    assert_eq!(initial_status(false), "Not elevated — Verify status is read-only; changes need Administrator.");
    let st = SettingState { id: SettingId::DiagTrack, active: false, note: "Disabled".to_string() };
    assert_eq!(verify_one_status(&st), "Verified diagtrack → OFF: Disabled  (live re-read; nothing changed)");
    let logs = [log_status(3, 1024), log_status(4, 1024)];
    assert_eq!(log_totals(&logs), (7, 2048));
    assert_eq!(log_status_report(&logs), "Logging status: 2 target(s), 7 item(s)/records, 2.0 KB");
    let temps = [temp_status(1, 10), temp_status(0, 0), temp_status(2, 5)];
    assert_eq!(temp_totals(&temps), (3, 15));
    assert_eq!(temp_status_report(&temps), "Temp status: 3 location(s), 3 file(s), 15 B");
    let mut available = [true; 12];
    available[0] = false;
    available[5] = false;
    assert_eq!(links_report(&available), "Log tools: 10/12 available on this system.");
    assert_eq!(open_status(Ok("Opened C:\\x".into()), "C:\\x — 1 file(s), 1 B"), ("Opened C:\\x | C:\\x — 1 file(s), 1 B".to_string(), true));
    assert_eq!(open_status(Err("gone".into()), "s"), ("Open failed (gone). Status: s".to_string(), false));
    assert_eq!(link_status(Ok("Opened Event Viewer".into())), ("Opened Event Viewer".to_string(), true));
    assert_eq!(link_status(Err("no".into())), ("Open failed: no".to_string(), false));
    assert_eq!(
        acceptance_status(Ok(()), "2024-05-01 10:00:00"),
        ("Disclaimer accepted at 2024-05-01 10:00:00 (HKCU registry + APPDATA backup). Use at your own risk.".to_string(), true)
    );
    assert_eq!(
        acceptance_status(Err("denied".into()), "x"),
        ("Accepted (could not save marker: denied). Use at your own risk.".to_string(), false)
    );
}

#[test]
fn tray_hiding() {
    assert_eq!(hide_to_tray_plan(0, false), None);
    assert_eq!(hide_to_tray_plan(42, false), Some(true));
    assert_eq!(hide_to_tray_plan(42, true), Some(false));
    assert_eq!(hide_to_tray_status(false, Ok(())), ("Window handle not ready yet — try again in a moment.".to_string(), false));
    assert_eq!(
        hide_to_tray_status(true, Err("shell".into())),
        ("Could not keep running in the tray (shell). Use Quit to exit, or enable tray in Settings.".to_string(), false)
    );
    assert!(hide_to_tray_status(true, Ok(())).1);
    assert!(create_tray_on_start(7, true, false));
    assert!(!create_tray_on_start(0, true, false));
    assert!(!create_tray_on_start(7, true, true));
    assert!(!create_tray_on_start(7, false, false));
    assert_eq!(tray_report_title(true), format!("{} — done", PRODUCT_NAME_SHORT));
    assert_eq!(tray_report_title(false), format!("{} — finished with errors", PRODUCT_NAME_SHORT));
}

#[test]
fn two_click_clears() {
    let (armed, run) = click_armed(None, Armed::Log(2));
    assert_eq!(armed, Some(Armed::Log(2)));
    assert!(run.is_none());
    let (armed2, run) = click_armed(armed, Armed::AllSafeLogs);
    assert_eq!(armed2, Some(Armed::AllSafeLogs));
    assert!(run.is_none());
    let (armed3, run) = click_armed(armed2, Armed::AllSafeLogs);
    assert_eq!(armed3, None);
    assert!(matches!(run, Some(Pending::ClearAllSafe)));
    let (_, run) = click_armed(Some(Armed::Temp(3)), Armed::Temp(3));
    assert!(matches!(run, Some(Pending::ClearTemp("windows-temp"))));
    let (_, run) = click_armed(Some(Armed::Log(0)), Armed::Log(0));
    assert!(matches!(run, Some(Pending::ClearLog("diagnosis"))));

    assert_eq!(
        armed_status(Armed::Log(0), "C:\\d — 2 file(s), 5 B", 0),
        "Armed 'diagnosis'. C:\\d — 2 file(s), 5 B — click again to confirm clear."
    );
    assert_eq!(armed_status(Armed::AllLogs, "", 2048), "Armed CLEAR ALL LOGS (incl. dangerous). Current ~2.0 KB. Click again to confirm.");
    assert_eq!(armed_status(Armed::AllTemp, "", 1), "Armed clear-all temp. Current ~1 B. Click again to confirm.");
    assert_eq!(armed_status(Armed::AllSafeLogs, "", 0), "Armed clear-all (safe). Current ~0 B. Click again to confirm.");
}

#[test]
fn two_click_buttons() {
    let (label, enabled, tip) = clear_button(Armed::Log(0), false, true, false, true, None);
    assert_eq!(label, "Microsoft Diagnosis folder");
    assert!(enabled);
    assert_eq!(tip, "Arm clear (confirm on second click) — %ProgramData%\\Microsoft\\Diagnosis — telemetry ETL store. (diagnosis)");
    let (label, _, tip) = clear_button(Armed::Log(0), true, true, false, true, Some("C:\\d — empty / unavailable"));
    assert_eq!(label, "Confirm: Microsoft Diagnosis folder");
    assert_eq!(tip, "Click again to confirm clear — C:\\d — empty / unavailable");
    let (_, enabled, tip) = clear_button(Armed::Log(0), false, false, false, true, None);
    assert!(!enabled);
    assert!(tip.starts_with("Not available — "));
    let (_, enabled, tip) = clear_button(Armed::Log(0), false, true, false, false, None);
    assert!(!enabled);
    assert!(tip.starts_with("Needs Administrator — "));

    let (_, enabled, tip) = clear_button(Armed::Temp(3), false, true, true, false, None);
    assert!(!enabled);
    assert_eq!(tip, "Needs Administrator — %SystemRoot%\\Temp — system temporary files.");
    let (label, enabled, tip) = clear_button(Armed::Temp(0), true, true, false, false, None);
    assert!(enabled);
    assert_eq!(label, "Confirm: User TEMP folder");
    assert_eq!(tip, "Click again to confirm — %TEMP% — current user temporary files.");

    assert_eq!(
        clear_button(Armed::AllSafeLogs, false, true, false, false, None),
        (
            "Clear all safe logs".to_string(),
            false,
            "Clears available non-dangerous targets (not Diagnosis wipe / Security). CLI: clear-all --confirm".to_string()
        )
    );
    assert_eq!(clear_button(Armed::AllLogs, true, true, false, true, None).0, "Confirm: clear ALL logs");
    let (label, enabled, _) = clear_button(Armed::AllTemp, false, true, true, false, None);
    assert_eq!(label, "Clear all temporary files");
    assert!(!enabled);
    assert!(clear_button(Armed::AllTemp, true, true, false, false, None).1);
}
