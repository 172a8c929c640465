use windows_diagnostics::folder_clear::{clear_contents, folder_stats, removes_entry, EntryOutcome, EntryStats};
use windows_diagnostics::log_cleanup::{
    accumulate_cleared, all, availability_map, clear, clear_all, clear_event_log, format_bytes,
    inspect, inspect_all, inspect_event_log, missing_path_error, open_location, open_target,
    parse_wevtutil_u64, BaseDir, ClearAction, ClearKind, ClearResult, Cleared, FolderStats,
    LogStatus,
};

fn reference_bytes(bytes: u64) -> String {
    const KB: f64 = 1024.0;
    const MB: f64 = KB * 1024.0;
    const GB: f64 = MB * 1024.0;
    let b = bytes as f64;
    if b >= GB {
        format!("{:.2} GB", b / GB)
    } else if b >= MB {
        format!("{:.2} MB", b / MB)
    } else if b >= KB {
        format!("{:.1} KB", b / KB)
    } else {
        format!("{bytes} B")
    }
}

fn status(files: u64, bytes: u64, location: &str, note: &str) -> LogStatus {
    LogStatus { files, bytes, location: location.to_string(), note: note.to_string() }
}

#[test]
fn format_bytes_matches_float_formatting() {
    for b in [0u64, 999, 1024, 1075, 1_048_576, 1_572_864, 1_073_741_824, 3_221_225_472, 987_654_321_987, u64::MAX] {
        assert_eq!(format_bytes(b), reference_bytes(b), "bytes = {b}");
    }
    assert_eq!(format_bytes(1_572_864), "1.50 MB");
}

#[test]
fn find_by_id() {
    let a = ClearAction::find("  WER ").unwrap();
    assert_eq!(a.title, "Windows Error Reporting");
    assert!(ClearAction::find("nope").is_none());
    for a in all() {
        assert_eq!(ClearAction::find(a.id).unwrap().id, a.id);
    }
    assert_eq!(all().len(), 14);
}

#[test]
fn summaries() {
    assert_eq!(status(0, 0, "C:\\x", "").summary_line(), "C:\\x — empty / unavailable");
    assert_eq!(status(3, 2048, "C:\\x", "2 folders").summary_line(), "C:\\x — 3 file(s), 2.0 KB (2 folders)");
    let r = ClearResult {
        removed_files: 4,
        freed_bytes: 100,
        skipped: 1,
        before: status(0, 0, "", ""),
        message: "CBS logs cleared".to_string(),
    };
    assert_eq!(r.summary_line(), "CBS logs cleared — cleared 4 item(s), freed 100 B, skipped 1");
}

#[test]
fn wevtutil_values() {
    let text = "name: Application\r\nlogFileName: x\r\nnumberOfLogRecords: 1234\r\nfileSize: 69632\r\n";
    assert_eq!(parse_wevtutil_u64(text, "numberOfLogRecords"), Some(1234));
    assert_eq!(parse_wevtutil_u64(text, "fileSize"), Some(69632));
    assert_eq!(parse_wevtutil_u64(text, "attributes"), None);
    assert_eq!(parse_wevtutil_u64("NUMBEROFLOGRECORDS = 7", "numberOfLogRecords"), Some(7));
    assert_eq!(parse_wevtutil_u64("fileSize: 99999999999999999999999", "fileSize"), None);
    let s = inspect_event_log("System", text);
    assert_eq!((s.files, s.bytes, s.location.as_str(), s.note.as_str()), (1234, 69632, "Event log: System", "records"));
    let s = inspect_event_log("System", "numberOfLogRecords: 5\nfileSize: 10\n");
    assert_eq!((s.files, s.bytes), (5, 10));
}

#[test]
fn inspect_folders_and_channels() {
    let wer = ClearAction::find("wer").unwrap();
    assert_eq!(wer.paths().len(), 6);
    assert_eq!(wer.paths()[3].base, BaseDir::LocalAppData);
    let folders = vec![
        FolderStats { path: "C:\\ProgramData\\WER\\ReportQueue".to_string(), files: 2, bytes: 10 },
        FolderStats { path: "C:\\ProgramData\\WER\\Temp".to_string(), files: 1, bytes: 5 },
    ];
    let s = inspect(&wer, &folders, "");
    assert_eq!(s.summary_line(), "C:\\ProgramData\\WER\\ReportQueue — 3 file(s), 15 B (2 folders)");
    let s = inspect(&ClearAction::find("dism").unwrap(), &[], "");
    assert_eq!(s.location, "dism");
    let ev = ClearAction::find("event-system").unwrap();
    let s = inspect(&ev, &folders, "numberOfLogRecords: 9\n");
    assert_eq!((s.files, s.location.as_str()), (9, "Event log: System"));
    assert!(ClearAction::find("cbs").unwrap().clears_recursively() == false);
    assert!(ClearAction::find("dism").unwrap().clears_recursively());
    assert!(ClearAction::find("diagnosis").unwrap().stops_diagtrack_first());
    assert!(!wer.stops_diagtrack_first());
    assert!(wer.is_available(false, false));
    assert!(ev.is_available(false, true));
    assert!(!ev.is_available(true, false));
    assert!(!ClearAction::find("cbs").unwrap().is_available(false, true));
}

#[test]
fn open_targets() {
    let perf = ClearAction::find("event-diag-perf").unwrap();
    assert_eq!(
        open_target(&perf, None).as_deref(),
        Some("eventvwr.exe /c:Microsoft-Windows-Diagnostics-Performance/Operational")
    );
    let app = ClearAction::find("event-application").unwrap();
    assert_eq!(open_target(&app, None).as_deref(), Some("eventvwr.msc"));
    assert_eq!(
        open_location(&app, None, Ok(true)),
        Ok("Opened Event Viewer for Application".to_string())
    );
    let dism = ClearAction::find("dism").unwrap();
    assert_eq!(open_location(&dism, None, Ok(true)), Err("log location not found".to_string()));
    assert_eq!(open_location(&dism, Some("C:\\W\\Logs\\DISM"), Ok(true)), Ok("Opened C:\\W\\Logs\\DISM".to_string()));
    assert_eq!(
        open_location(&dism, Some("C:\\W"), Ok(false)),
        Err("failed to open 'C:\\W'".to_string())
    );
    assert_eq!(open_location(&dism, Some("C:\\W"), Err("spawn".to_string())), Err("spawn".to_string()));
}

#[test]
fn clearing() {
    let cbs = ClearAction::find("cbs").unwrap();
    assert_eq!(missing_path_error(&cbs), "SystemRoot not set");
    assert_eq!(missing_path_error(&ClearAction::find("dism").unwrap()), "path missing");
    let before = status(10, 100, "C:\\W\\Logs\\CBS", "");
    let c = Cleared { removed: 3, bytes: 30, skipped: 1 };
    let r = clear(&cbs, true, before.clone(), Ok(c)).unwrap();
    assert_eq!((r.removed_files, r.freed_bytes, r.skipped, r.message.as_str()), (3, 30, 1, "CBS logs cleared"));
    assert_eq!(
        clear(&cbs, false, before.clone(), Ok(c)).unwrap_err(),
        "'CBS component logs' is not available on this system"
    );
    assert_eq!(clear(&cbs, true, before.clone(), Err("cannot list x: denied".to_string())).unwrap_err(), "cannot list x: denied");
    let diag = ClearAction::find("diagnosis").unwrap();
    assert_eq!(clear(&diag, true, before.clone(), Ok(c)).unwrap().message, "Microsoft Diagnosis folder wiped");
    let ev = ClearAction::find("event-security").unwrap();
    let r = clear(&ev, true, before.clone(), Ok(Cleared { removed: 0, bytes: 0, skipped: 0 })).unwrap();
    assert_eq!((r.removed_files, r.freed_bytes, r.skipped, r.message.as_str()), (10, 100, 0, "Event log cleared: Security"));
    assert_eq!(clear(&ClearAction::find("wer").unwrap(), true, before.clone(), Ok(c)).unwrap().message, "WER queues cleared");
    assert_eq!(clear(&ClearAction::find("dism").unwrap(), true, before, Ok(c)).unwrap().message, "DISM logs cleared");
}

#[test]
fn event_log_clear_outcome() {
    assert_eq!(clear_event_log("System", true, "", ""), Ok(()));
    assert_eq!(clear_event_log("System", false, " Access denied. ", ""), Err("Access denied.".to_string()));
    assert_eq!(clear_event_log("System", false, "", " "), Err("wevtutil failed for System".to_string()));
}

#[test]
fn accumulate_over_folders() {
    let a = Cleared { removed: 1, bytes: 10, skipped: 0 };
    let b = Cleared { removed: 2, bytes: 5, skipped: 3 };
    assert_eq!(accumulate_cleared(&[Ok(a), Ok(b)]), Ok(Cleared { removed: 3, bytes: 15, skipped: 3 }));
    assert_eq!(accumulate_cleared(&[Ok(a), Err("x".to_string()), Ok(b)]), Err("x".to_string()));
    assert_eq!(accumulate_cleared(&[]), Ok(Cleared { removed: 0, bytes: 0, skipped: 0 }));
}

#[test]
fn bulk_selection() {
    let mut available = vec![true; 14];
    available[5] = false;
    let safe: Vec<&str> = clear_all(false, &available).iter().map(|a| a.id).collect();
    assert!(!safe.contains(&"diagnosis"));
    assert!(!safe.contains(&"event-security"));
    assert!(!safe.contains(&"event-setup"));
    assert_eq!(safe.len(), 10);
    let every: Vec<&str> = clear_all(true, &available).iter().map(|a| a.id).collect();
    assert_eq!(every.len(), 13);
    assert_eq!(every[0], "diagnosis");
    assert_eq!(inspect_all(&available).len(), 13);
    let map = availability_map(&available);
    assert_eq!(map[5], ("event-setup", false));
    assert_eq!(map[0], ("diagnosis", true));
    assert!(matches!(ClearAction::find("event-setup").unwrap().kind, ClearKind::EventLog("Setup")));
}

#[test]
fn folder_measure_and_clear() {
    let es = [
        EntryStats { is_dir: false, readable: true, files: 0, bytes: 7 },
        EntryStats { is_dir: false, readable: false, files: 0, bytes: 99 },
        EntryStats { is_dir: true, readable: true, files: 3, bytes: 30 },
    ];
    assert_eq!(folder_stats(&es, true), (4, 37));
    assert_eq!(folder_stats(&es, false), (1, 7));
    assert!(removes_entry(false, false));
    assert!(!removes_entry(true, false));
    let outs = vec![
        EntryOutcome { is_dir: false, size: 7, removed: true },
        EntryOutcome { is_dir: false, size: 8, removed: false },
        EntryOutcome { is_dir: true, size: 30, removed: true },
    ];
    assert_eq!(clear_contents("C:\\x", true, Ok(outs.clone()), true), Ok(Cleared { removed: 2, bytes: 37, skipped: 1 }));
    assert_eq!(clear_contents("C:\\x", true, Ok(outs.clone()), false), Ok(Cleared { removed: 1, bytes: 7, skipped: 2 }));
    assert_eq!(clear_contents("C:\\x", false, Ok(outs), true), Ok(Cleared { removed: 0, bytes: 0, skipped: 0 }));
    assert_eq!(
        clear_contents("C:\\x", true, Err("Access is denied.".to_string()), true),
        Err("cannot list C:\\x: Access is denied.".to_string())
    );
}
