use windows_diagnostics::app_icon::{fit_to_size, load_rgba, tray_rgba, window_rgba};
use windows_diagnostics::identity::{
    leftover_files, legacy_markers, looks_like_our_legacy_key, run_key_migration, CLEANUP_TASK_NAME,
    PRODUCT_NAME_SHORT,
};
use windows_diagnostics::maintenance::{
    post_update_fallback_args, post_update_xml, read_integration, run_value, set_post_update_task,
    set_run_at_startup, TASK_NAME,
};
use windows_diagnostics::report::{
    admin_check, apply_all_done, apply_all_intro, apply_all_outcome, apply_result_line,
    explain_lines, integration_lines, list_header, list_row, rule, set_line, status_header,
    status_row,
};
use windows_diagnostics::single_instance::{activate_existing, retry_again, should_show};
use windows_diagnostics::telemetry::{SettingId, SettingState};
use windows_diagnostics::tray::{
    click_command, confirmation, menu_action, menu_label, TrayAction, TrayCommand, TrayMenuItem,
};

fn png(w: u32, h: u32) -> Vec<u8> {
    let img = image::RgbaImage::from_pixel(w, h, image::Rgba([10, 20, 30, 255]));
    let mut out = std::io::Cursor::new(Vec::new());
    img.write_to(&mut out, image::ImageFormat::Png).unwrap();
    out.into_inner()
}

#[test]
fn icons() {
    let (rgba, w, h) = tray_rgba(&png(64, 64)).unwrap();
    assert_eq!((w, h, rgba.len()), (32, 32, 32 * 32 * 4));
    assert_eq!(&rgba[0..4], &[10, 20, 30, 255]);
    let (rgba, w, h) = load_rgba(&png(32, 32), 32).unwrap();
    assert_eq!((w, h, rgba.len()), (32, 32, 4096));
    let (_, w, h) = window_rgba(&png(16, 8)).unwrap();
    assert_eq!((w, h), (256, 256));
    assert!(tray_rgba(b"not an image").is_none());
}

#[test]
fn fitting_decoded_pixels() {
    let same: Vec<u8> = (0..16u8).collect();
    assert_eq!(fit_to_size(same.clone(), 2, 2, 2), Some((same, 2, 2)));
    let (rgba, w, h) = fit_to_size(vec![200; 4 * 4 * 4], 4, 4, 2).unwrap();
    assert_eq!((w, h, rgba.len()), (2, 2, 16));
    assert!(rgba.iter().all(|&b| b == 200));
    assert_eq!(fit_to_size(vec![0; 3], 4, 4, 2), None);
}

#[test]
fn tray_menu() {
    assert_eq!(menu_label(TrayMenuItem::DisableTelemetry), "Disable telemetry…");
    assert_eq!(confirmation(TrayMenuItem::OpenDashboard), None);
    let (title, body) = confirmation(TrayMenuItem::Quit).unwrap();
    assert_eq!(title, format!("Quit {}?", PRODUCT_NAME_SHORT));
    assert_eq!(body, "Exit the application completely?\n\nThe system tray icon will be removed.");
    assert_eq!(menu_action(TrayMenuItem::OpenDashboard, false), TrayAction::Command(TrayCommand::Show));
    assert_eq!(menu_action(TrayMenuItem::ClearSafeLogs, true), TrayAction::Command(TrayCommand::ClearSafeLogs));
    assert_eq!(menu_action(TrayMenuItem::DisableTelemetry, false), TrayAction::Nothing);
    assert_eq!(menu_action(TrayMenuItem::Quit, true), TrayAction::Exit);
    assert_eq!(click_command(true), Some(TrayCommand::Show));
    assert_eq!(click_command(false), None);
}

#[test]
fn single_instance_decisions() {
    assert!(activate_existing(Some(42)));
    assert!(!activate_existing(None));
    assert!(!should_show(0));
    assert!(retry_again(25));
    assert!(!retry_again(26));
}

#[test]
fn integration() {
    assert_eq!(run_value("C:\\P\\tluw-gui.exe"), "\"C:\\P\\tluw-gui.exe\"");
    assert_eq!(
        set_run_at_startup(true, Ok(()), Ok("C:\\g.exe".to_string()), Ok(())),
        Ok("Run at startup enabled → \"C:\\g.exe\"".to_string())
    );
    assert_eq!(set_run_at_startup(false, Ok(()), Err("x".to_string()), Err("y".to_string())), Ok("Run at startup disabled".to_string()));
    assert_eq!(set_run_at_startup(true, Err("key".to_string()), Ok(String::new()), Ok(())), Err("key".to_string()));
    assert_eq!(set_run_at_startup(true, Ok(()), Ok("p".to_string()), Err("w".to_string())), Err("w".to_string()));
    let xml = post_update_xml("C:\\A&B\\w.exe");
    assert!(xml.starts_with("<?xml version=\"1.0\" encoding=\"UTF-16\"?>\n<Task version=\"1.4\""));
    assert!(xml.contains("(EventID=19)]]&lt;/Select&gt;"));
    assert!(xml.contains("      <Command>C:\\A&amp;B\\w.exe</Command>\n      <Arguments>disable --no-elevate</Arguments>\n"));
    assert!(xml.ends_with("</Task>\n"));
    assert_eq!(post_update_fallback_args("C:\\w.exe")[4], "\"C:\\w.exe\" disable --no-elevate");
    assert_eq!(post_update_fallback_args("C:\\w.exe")[2], TASK_NAME);
    assert_eq!(set_post_update_task(false, false, "", "", Err("x".to_string())), Ok("Post-update task removed".to_string()));
    assert_eq!(
        set_post_update_task(true, true, "", "", Err("x".to_string())),
        Ok("Post-update task 'WindowsDiagnosticsPostUpdate' created (WU Event 19 + logon backup)".to_string())
    );
    assert_eq!(
        set_post_update_task(true, false, "", "", Ok(())),
        Ok("Post-update fallback task created (ONLOGON) — event XML unavailable on this PC".to_string())
    );
    assert_eq!(
        set_post_update_task(true, false, " e ", " o ", Err("f".to_string())),
        Err("event-based task failed (eo); fallback also failed: f".to_string())
    );
    let s = read_integration(true, false);
    assert_eq!(integration_lines(s), vec!["run-at-startup: ON".to_string(), "post-update:    OFF  (task: WindowsDiagnosticsPostUpdate)".to_string()]);
}

#[test]
fn legacy_identity() {
    assert_eq!(CLEANUP_TASK_NAME, "TelemetryLoggingUtilityCleanup");
    assert_eq!(legacy_markers().len(), 8);
    assert!(looks_like_our_legacy_key(&["PREFS".to_string()], &[false; 8], true));
    assert!(looks_like_our_legacy_key(&["Other".to_string()], &[false, false, false, false, false, true, false, false], true));
    assert!(!looks_like_our_legacy_key(&["Other".to_string()], &[false; 8], false));
    assert!(looks_like_our_legacy_key(&[], &[false; 8], false));
    assert!(!looks_like_our_legacy_key(&[], &[false; 8], true));
    let m = run_key_migration(Some("\"C:\\old.exe\""), false);
    assert_eq!((m.set_current.as_deref(), m.delete_legacy), (Some("\"C:\\old.exe\""), true));
    let m = run_key_migration(Some("x"), true);
    assert_eq!((m.set_current, m.delete_legacy), (None, true));
    let m = run_key_migration(None, true);
    assert_eq!((m.set_current, m.delete_legacy), (None, false));
    assert_eq!(leftover_files(), vec!["disclaimer_accepted", "disclaimer_acceptance.log", "cleanup_history.log"]);
}

#[test]
fn cli_reports() {
    assert_eq!(status_header(), format!("{:<22} {:<6} {}", "SETTING", "STATE", "DETAIL"));
    assert_eq!(rule(), "-".repeat(72));
    let st = SettingState { id: SettingId::AdvertisingId, active: false, note: "Enabled = 0".to_string() };
    assert_eq!(status_row(&st), format!("{:<22} {:<6} {}", "advertising-id", "OFF", "Enabled = 0"));
    let long = SettingState { id: SettingId::TailoredExperiences, active: true, note: "n".to_string() };
    assert_eq!(status_row(&long), format!("{:<22} {:<6} {}", "tailored-experiences", "ON", "n"));
    assert_eq!(list_header(), format!("{:<22} {}", "ID", "TITLE"));
    assert_eq!(list_row(SettingId::CeipTasks), format!("{:<22} {}", "ceip-tasks", "CEIP / feedback scheduled tasks"));
    let lines = explain_lines(&st);
    assert_eq!(lines[0], "== Advertising ID (advertising-id) — currently OFF");
    assert_eq!(lines[2], format!("Where: {}", SettingId::AdvertisingId.detail()));
    assert_eq!(lines[3], "Now:   Enabled = 0");
    assert_eq!(lines[4], "");
    assert_eq!(set_line(SettingId::DiagTrack, "done"), "diagtrack: done");
    assert_eq!(apply_all_intro(false), "Applying all settings → OFF...\n");
    assert_eq!(apply_result_line(SettingId::DiagTrack, &Ok("m".to_string())), format!("  OK  {:<22} m", "diagtrack"));
    assert_eq!(apply_result_line(SettingId::DiagTrack, &Err("e".to_string())), format!("  FAIL {:<22} e", "diagtrack"));
    assert_eq!(apply_all_done(false), "Done. A reboot is recommended so all settings stick.");
    assert_eq!(apply_all_outcome(&[(SettingId::DiagTrack, Ok("m".to_string()))]), Ok(()));
    assert_eq!(
        apply_all_outcome(&[(SettingId::DiagTrack, Ok("m".to_string())), (SettingId::CeipTasks, Err("e".to_string()))]),
        Err("one or more settings failed".to_string())
    );
    assert_eq!(admin_check(true, true), Some(Ok(())));
    assert_eq!(admin_check(false, false), None);
    assert_eq!(
        admin_check(false, true),
        Some(Err("administrator rights required (re-run from an elevated prompt, or omit --no-elevate)".to_string()))
    );
}
