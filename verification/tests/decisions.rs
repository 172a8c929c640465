use windows_diagnostics::app_icon::fit_to_size;
use windows_diagnostics::cleanup_schedule::{
    describe_next_interval, disabled_config, next_interval_run, task_action, CleanupInterval, CleanupScheduleConfig, TaskAction,
};
use windows_diagnostics::calendar::LocalTime;
use windows_diagnostics::telemetry::SettingId;
use windows_diagnostics::log_cleanup::{
    clear_all, clear_plan, first_present_path, present_indices, ClearAction, ClearWork,
};
use windows_diagnostics::system_links::{find, launch_target};
use windows_diagnostics::temp_cleanup::clear_runs;

fn cfg(logon: bool) -> CleanupScheduleConfig {
    CleanupScheduleConfig {
        clear_safe_logs: true,
        clear_all_logs: false,
        clear_temp: false,
        on_logon: logon,
        on_session_end: false,
        interval: CleanupInterval::Off,
    }
}

#[test]
fn schedule_task_operation() {
    assert_eq!(task_action(&cfg(true), &Ok(())), TaskAction::Create);
    assert_eq!(task_action(&cfg(false), &Ok(())), TaskAction::Delete);
    assert_eq!(task_action(&cfg(true), &Err("denied".into())), TaskAction::Keep);
    assert_eq!(task_action(&disabled_config(&cfg(true)), &Ok(())), TaskAction::Delete);
    assert_eq!(task_action(&disabled_config(&cfg(true)), &Err("x".into())), TaskAction::Keep);
}

#[test]
fn first_present_folder_is_opened() {
    let paths = vec!["C:\\a".to_string(), "C:\\b".to_string(), "C:\\c".to_string()];
    assert_eq!(first_present_path(&paths, &[false, true, true]), Some("C:\\b".to_string()));
    assert_eq!(first_present_path(&paths, &[true, true, false]), Some("C:\\a".to_string()));
    assert_eq!(first_present_path(&paths, &[false, false, false]), None);
    assert_eq!(present_indices(&[false, true, false, true]), vec![1, 3]);
    assert!(present_indices(&[false, false]).is_empty());
}

#[test]
fn what_a_clear_does() {
    let diag = ClearAction::find("diagnosis").unwrap();
    assert!(matches!(clear_plan(&diag, false), (false, ClearWork::Nothing)));
    assert!(matches!(clear_plan(&diag, true), (true, ClearWork::FirstFolder(true))));
    let wer = ClearAction::find("wer").unwrap();
    assert!(matches!(clear_plan(&wer, true), (false, ClearWork::EachPresentFolder)));
    let cbs = ClearAction::find("cbs").unwrap();
    assert!(matches!(clear_plan(&cbs, true), (false, ClearWork::FirstFolder(false))));
    assert!(matches!(clear_plan(&cbs, false), (false, ClearWork::Nothing)));
    let events: Vec<ClearAction> =
        windows_diagnostics::log_cleanup::all().into_iter().filter(|a| matches!(a.kind, windows_diagnostics::log_cleanup::ClearKind::EventLog(_))).collect();
    for a in events {
        match (a.kind, clear_plan(&a, true).1) {
            (windows_diagnostics::log_cleanup::ClearKind::EventLog(n), ClearWork::EventLog(m)) => assert_eq!(n, m),
            _ => panic!("event log plan"),
        }
    }
    assert!(clear_runs(true, true));
    assert!(!clear_runs(false, true));
    assert!(!clear_runs(true, false));
}

#[test]
fn links_start_only_when_available() {
    let l = find("reliability").unwrap();
    assert_eq!(launch_target(&l, Some("C:\\p.exe"), false), Some("C:\\p.exe /rel".to_string()));
    assert_eq!(launch_target(&l, None, true), None);
}

#[test]
fn icon_buffers_hold_four_bytes_a_pixel() {
    let (rgba, w, h) = fit_to_size(vec![9; 8 * 4 * 4], 8, 4, 3).unwrap();
    assert_eq!((w, h, rgba.len()), (3, 3, 3 * 3 * 4));
}

#[test]
fn setting_names_read_loosely() {
    for id in SettingId::ALL {
        let padded = format!(" \t{}  ", id.cli_name().to_ascii_uppercase());
        assert_eq!(SettingId::parse_cli(&padded), Ok(id));
    }
    assert_eq!(
        SettingId::parse_cli("bogus"),
        Err("unknown setting 'bogus'. Try: diagnostic-data, diagtrack, ceip-tasks, advertising-id, tailored-experiences, ceip-policy, app-inventory".to_string())
    );
}

#[test]
fn safe_clear_is_the_full_clear_without_dangerous_targets() {
    let mut available = [true; 14];
    available[1] = false;
    available[6] = false;
    let full: Vec<&str> = clear_all(true, &available).iter().map(|a| a.id).collect();
    let safe: Vec<&str> = clear_all(false, &available).iter().map(|a| a.id).collect();
    let expected: Vec<&str> =
        clear_all(true, &available).iter().filter(|a| !a.dangerous).map(|a| a.id).collect();
    assert_eq!(safe, expected);
    assert!(full.len() > safe.len());
    assert!(!safe.contains(&"diagnosis") && !safe.contains(&"event-security"));
}

#[test]
fn next_run_in_the_last_year_saturates() {
    let now = LocalTime { year: 65535, month: 12, day_of_week: 3, day: 31, hour: 23, minute: 59, second: 0 };
    let t = next_interval_run(CleanupInterval::Daily, now).unwrap();
    assert_eq!((t.year, t.month, t.day, t.hour, t.minute), (65535, 1, 1, 3, 30));
    assert_eq!(
        describe_next_interval(CleanupInterval::Daily, now).unwrap(),
        "Next run: 65535-01-01 03:30 (every day at 03:30)"
    );
}

#[test]
fn fitting_refuses_short_and_oversized_buffers() {
    assert_eq!(fit_to_size(vec![1; 10], 4, 4, 2), None);
    assert_eq!(fit_to_size(vec![1; 16], 2, 2, 2), Some((vec![1; 16], 2, 2)));
    assert_eq!(fit_to_size(vec![1; 16], 2, 2, u32::MAX), None);
}
