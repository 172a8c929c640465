use windows_diagnostics::log_cleanup::Cleared;
use windows_diagnostics::system_links::{
    self, env_refs, expand_env_path, find, open, open_id, unknown_link_error, windows_10_or_later,
    LinkKind,
};
use windows_diagnostics::temp_cleanup::{
    self as temp, clear, inspect, inspect_all, open_location, TempClearResult, TempStatus,
    TempTarget,
};

#[test]
fn temp_targets() {
    assert_eq!(temp::all().len(), 6);
    let t = TempTarget::find(" Local-Temp").unwrap();
    assert_eq!(t.title, "LocalAppData\\Temp");
    assert_eq!(t.location(), ("LOCALAPPDATA", Some("Temp")));
    assert_eq!(TempTarget::find("recent").unwrap().location(), ("APPDATA", Some("Microsoft\\Windows\\Recent")));
    assert_eq!(TempTarget::find("user-tmp").unwrap().location(), ("TMP", None));
    assert_eq!(TempTarget::find("prefetch").unwrap().location(), ("SystemRoot", Some("Prefetch")));
    assert!(TempTarget::find("appdata").is_none());
    assert!(t.hidden_if_same_as_temp());
    assert!(!TempTarget::find("user-temp").unwrap().hidden_if_same_as_temp());
    assert!(!t.is_available(true, true, true));
    assert!(t.is_available(true, false, true));
    assert!(!t.is_available(false, false, true));
    assert!(TempTarget::find("user-temp").unwrap().is_available(true, true, true));
}

#[test]
fn temp_reports() {
    let s = TempStatus { files: 2, bytes: 2048, location: "C:\\T".to_string() };
    assert_eq!(s.summary_line(), "C:\\T — 2 file(s), 2.0 KB");
    let r = TempClearResult { removed_files: 1, freed_bytes: 5, skipped: 0, before: s.clone(), message: "User TEMP folder cleared".to_string() };
    assert_eq!(r.summary_line(), "User TEMP folder cleared — cleared 1 file(s)/item(s), freed 5 B, skipped 0");
    let t = TempTarget::find("user-temp").unwrap();
    let i = inspect(&t, Some("C:\\T"), 3, 4);
    assert_eq!((i.files, i.bytes, i.location.as_str()), (3, 4, "C:\\T"));
    let i = inspect(&t, None, 3, 4);
    assert_eq!((i.files, i.bytes, i.location.as_str()), (0, 0, "user-temp"));
    assert_eq!(open_location(&t, None, Ok(true)), Err("temp location not found".to_string()));
    assert_eq!(open_location(&t, Some("C:\\T"), Ok(true)), Ok("Opened C:\\T".to_string()));
    let c = Cleared { removed: 2, bytes: 9, skipped: 1 };
    let r = clear(&t, true, s.clone(), true, Ok(c)).unwrap();
    assert_eq!((r.removed_files, r.freed_bytes, r.skipped, r.message.as_str()), (2, 9, 1, "User TEMP folder cleared"));
    assert_eq!(clear(&t, false, s.clone(), true, Ok(c)).unwrap_err(), "'User TEMP folder' is not available");
    assert_eq!(clear(&t, true, s.clone(), false, Ok(c)).unwrap_err(), "path missing");
    assert_eq!(clear(&t, true, s, true, Err("cannot list C:\\T: x".to_string())).unwrap_err(), "cannot list C:\\T: x");
    let av = [true, false, false, true, false, true];
    let ids: Vec<&str> = inspect_all(&av).iter().map(|t| t.id).collect();
    assert_eq!(ids, vec!["user-temp", "windows-temp", "recent"]);
    assert_eq!(temp::clear_all(&av).len(), 3);
    assert_eq!(temp::availability_map(&av)[1], ("user-tmp", false));
}

#[test]
fn env_expansion() {
    assert_eq!(env_refs("%SystemRoot%\\System32\\winevt\\Logs"), vec!["SystemRoot".to_string()]);
    assert_eq!(env_refs("%A%x%B%"), vec!["A".to_string(), "B".to_string()]);
    assert_eq!(env_refs("50% off"), Vec::<String>::new());
    assert_eq!(
        expand_env_path("%SystemRoot%\\System32\\winevt\\Logs", &[Some("C:\\Windows".to_string())]).as_deref(),
        Some("C:\\Windows\\System32\\winevt\\Logs")
    );
    assert_eq!(expand_env_path("%A%-%B%", &[Some("1".to_string()), Some("2".to_string())]).as_deref(), Some("1-2"));
    assert_eq!(expand_env_path("%A%-%B%", &[Some("1".to_string()), None]), None);
    assert_eq!(expand_env_path("100% sure", &[]).as_deref(), Some("100% sure"));
    assert_eq!(expand_env_path("%%x", &[Some("v".to_string())]).as_deref(), Some("vx"));
}

#[test]
fn settings_app_check() {
    assert!(windows_10_or_later(false, Some(6), None));
    assert!(windows_10_or_later(true, Some(10), None));
    assert!(!windows_10_or_later(true, Some(6), Some("99999")));
    assert!(!windows_10_or_later(true, None, Some("9600")));
    assert!(windows_10_or_later(true, None, Some("22631")));
    assert!(windows_10_or_later(true, None, Some("abc")));
    assert!(windows_10_or_later(true, None, None));
}

#[test]
fn links() {
    assert_eq!(system_links::all().len(), 12);
    let l = find("RELIABILITY").unwrap();
    assert!(matches!(l.kind, LinkKind::Exe { name: "perfmon.exe", args: "/rel" }));
    assert_eq!(l.start_target(None), "perfmon.exe /rel");
    assert_eq!(l.start_target(Some("C:\\W\\System32\\perfmon.exe")), "C:\\W\\System32\\perfmon.exe /rel");
    assert!(!l.is_available(None, true));
    assert!(l.is_available(Some("p"), false));
    let s = find("privacy-feedback").unwrap();
    assert_eq!(s.start_target(Some("ignored")), "ms-settings:privacy-feedback");
    assert!(s.is_available(None, true));
    let f = find("evt-logs-folder").unwrap();
    assert_eq!(f.start_target(None), "%SystemRoot%\\System32\\winevt\\Logs");
    assert!(!f.is_available(Some("C:\\x"), false));
    assert_eq!(open(&l, Some("C:\\p.exe"), true, Ok(true)), Ok("Opened: Reliability Monitor".to_string()));
    assert_eq!(open(&l, None, true, Ok(true)), Err("'Reliability Monitor' is not available on this system".to_string()));
    assert_eq!(open(&l, Some("C:\\p.exe"), true, Ok(false)), Err("failed to open 'C:\\p.exe /rel'".to_string()));
    let expected = "unknown log link 'x'. Try: event-viewer, event-viewer-wu, reliability, perfmon, task-scheduler, services, privacy-feedback, privacy-general, wu-history, evt-logs-folder, diagnosis-folder, diagtrack-log";
    assert_eq!(unknown_link_error("x"), expected);
    assert_eq!(open_id("x", None, true, Ok(true)), Err(expected.to_string()));
    assert_eq!(open_id(" Services ", Some("C:\\s.msc"), false, Ok(true)), Ok("Opened: Services".to_string()));
    assert_eq!(system_links::availability_map(&[true; 12])[11], ("diagtrack-log", true));
}
