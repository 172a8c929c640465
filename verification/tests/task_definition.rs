use windows_diagnostics::cleanup_schedule::{CleanupInterval, CleanupScheduleConfig};
use windows_diagnostics::schedule_task::{
    command_error, create_outcome, fallback_args, run_outcome, task_file_bytes, task_xml,
    xml_create_args,
};

fn cfg(logon: bool, end: bool, i: CleanupInterval) -> CleanupScheduleConfig {
    CleanupScheduleConfig {
        clear_safe_logs: true,
        clear_all_logs: false,
        clear_temp: true,
        on_logon: logon,
        on_session_end: end,
        interval: i,
    }
}

#[test]
fn xml_holds_triggers_in_order_and_escaped_command() {
    let xml = task_xml(&cfg(true, true, CleanupInterval::Hourly), "C:\\A&B\\tluw.exe");
    assert!(xml.starts_with("<?xml version=\"1.0\" encoding=\"UTF-16\"?>\n<Task version=\"1.4\""));
    let time = xml.find("<Interval>PT1H</Interval>").unwrap();
    let logon = xml.find("<LogonTrigger>").unwrap();
    let session = xml.find("<StateChange>ConsoleDisconnect</StateChange>").unwrap();
    assert!(time < logon && logon < session);
    assert!(xml.contains("      <Command>C:\\A&amp;B\\tluw.exe</Command>\n"));
    assert!(xml.contains("<Arguments>scheduled-cleanup --no-elevate</Arguments>"));
    assert!(xml.ends_with("    </Exec>\n  </Actions>\n</Task>\n"));
    let weekly = task_xml(&cfg(false, false, CleanupInterval::Weekly), "x");
    assert!(weekly.contains("<StartBoundary>2020-01-05T03:30:00</StartBoundary>"));
    assert!(weekly.contains("<Sunday />"));
    assert!(!weekly.contains("<LogonTrigger>"));
    let six = task_xml(&cfg(false, false, CleanupInterval::Every6Hours), "x");
    assert!(six.contains("<Interval>PT6H</Interval>"));
    let daily = task_xml(&cfg(false, false, CleanupInterval::Daily), "x");
    assert!(daily.contains("<DaysInterval>1</DaysInterval>"));
}

#[test]
fn task_file_is_utf16le_with_bom() {
    assert_eq!(task_file_bytes(""), vec![0xFF, 0xFE]);
    assert_eq!(task_file_bytes("A\n"), vec![0xFF, 0xFE, 0x41, 0x00, 0x0A, 0x00]);
    assert_eq!(task_file_bytes("—"), vec![0xFF, 0xFE, 0x14, 0x20]);
    let text = "a😀é";
    let mut expected = vec![0xFF, 0xFE];
    for u in text.encode_utf16() {
        expected.extend_from_slice(&u.to_le_bytes());
    }
    assert_eq!(task_file_bytes(text), expected);
    let xml = task_xml(&cfg(true, false, CleanupInterval::Daily), "C:\\tluw.exe");
    let mut expected = vec![0xFF, 0xFE];
    for u in xml.encode_utf16() {
        expected.extend_from_slice(&u.to_le_bytes());
    }
    assert_eq!(task_file_bytes(&xml), expected);
}

#[test]
fn schtasks_arguments() {
    assert_eq!(
        xml_create_args("C:\\t\\x.xml"),
        vec!["/Create", "/TN", "TelemetryLoggingUtilityCleanup", "/XML", "C:\\t\\x.xml", "/F"]
    );
    assert_eq!(
        fallback_args(&cfg(true, false, CleanupInterval::Off), "C:\\tluw.exe"),
        vec![
            "/Create",
            "/TN",
            "TelemetryLoggingUtilityCleanup",
            "/TR",
            "\"C:\\tluw.exe\" scheduled-cleanup --no-elevate",
            "/SC",
            "ONLOGON",
            "/RL",
            "HIGHEST",
            "/F"
        ]
    );
    let six = fallback_args(&cfg(true, false, CleanupInterval::Every6Hours), "c");
    assert_eq!(six[6], "HOURLY");
    assert_eq!(&six[10..], &["/MO".to_string(), "6".to_string()]);
    assert_eq!(fallback_args(&cfg(false, false, CleanupInterval::Weekly), "c")[6], "WEEKLY");
    assert_eq!(fallback_args(&cfg(false, false, CleanupInterval::Daily), "c")[6], "DAILY");
    assert_eq!(fallback_args(&cfg(false, true, CleanupInterval::Off), "c")[6], "ONLOGON");
}

#[test]
fn outcomes() {
    assert_eq!(command_error("  err \n", " out "), "errout");
    assert_eq!(run_outcome(true, "x", "y"), Ok(()));
    assert_eq!(run_outcome(false, " bad ", ""), Err("bad".to_string()));
    assert_eq!(create_outcome(true, "", "", Err("ignored".to_string())), Ok(()));
    assert_eq!(create_outcome(false, "schema", "", Ok(())), Ok(()));
    assert_eq!(
        create_outcome(false, " schema ", "rejected", Err("denied".to_string())),
        Err("cleanup schedule XML failed (schemarejected); fallback also failed: denied".to_string())
    );
}
