use windows_diagnostics::disclaimer::{
    accept, acceptance_log_line, backup_text, full_text_bytes, is_accepted, parse_file_record,
    read_record, registry_record, AcceptanceRecord, FULL, SHORT,
};

fn rec() -> AcceptanceRecord {
    AcceptanceRecord {
        accepted_at: "2025-03-04 09:07:05".to_string(),
        user: "alice".to_string(),
        computer: "PC1".to_string(),
        version: "0.1.0".to_string(),
        source: "cli".to_string(),
        disclaimer_bytes: 2986,
    }
}

fn fields(r: &AcceptanceRecord) -> (String, String, String, String, String, usize) {
    (r.accepted_at.clone(), r.user.clone(), r.computer.clone(), r.version.clone(), r.source.clone(), r.disclaimer_bytes)
}

#[test]
fn full_text_size() {
    assert_eq!(full_text_bytes(), FULL.len());
    assert_eq!(FULL.len(), 2986);
    assert!(FULL.starts_with("DISCLAIMER — NO WARRANTY"));
    assert!(SHORT.contains("NO LIABILITY"));
}

#[test]
fn backup_reads_back() {
    let r = rec();
    let text = backup_text(&r);
    assert!(text.starts_with("accepted=yes\naccepted_at=2025-03-04 09:07:05\nuser=alice\n"));
    assert!(text.ends_with("storage=HKCU\\\\Software\\\\TelemetryLoggingUtility\\\\Disclaimer + APPDATA backup\n"));
    assert_eq!(fields(&parse_file_record(&text)), fields(&r));
}

#[test]
fn parse_old_and_odd_records() {
    let r = parse_file_record("accepted\n");
    assert_eq!(r.accepted_at, "(unknown — accepted before timestamped records)");
    let r = parse_file_record("something\n");
    assert_eq!(r.accepted_at, "(unknown — accepted before timestamped records)");
    let r = parse_file_record("  \n");
    assert_eq!(r.accepted_at, "");
    let r = parse_file_record(" user = bob \ndisclaimer_bytes= 12x\ncomputer=a=b\n");
    assert_eq!((r.user.as_str(), r.disclaimer_bytes, r.computer.as_str()), ("bob", 0, "a=b"));
    assert_eq!(r.accepted_at, "(unknown — accepted before timestamped records)");
    let r = parse_file_record("accepted_at=T\ndisclaimer_bytes=+42\n");
    assert_eq!((r.accepted_at.as_str(), r.disclaimer_bytes), ("T", 42));
}

#[test]
fn records_from_storage() {
    assert!(registry_record(None, None, None, None, None, None, None).is_none());
    assert!(registry_record(Some(0), None, None, None, None, None, None).is_none());
    let r = registry_record(Some(1), Some("T".to_string()), None, None, None, Some("gui".to_string()), Some(7)).unwrap();
    assert_eq!(fields(&r), ("T".to_string(), String::new(), String::new(), String::new(), "gui".to_string(), 7));
    let from_reg = read_record(Some(rec()), &[Some("accepted_at=other\n".to_string())]).unwrap();
    assert_eq!(from_reg.accepted_at, "2025-03-04 09:07:05");
    let from_file = read_record(None, &[None, Some("  ".to_string()), Some("accepted_at=X\n".to_string())]).unwrap();
    assert_eq!(from_file.accepted_at, "X");
    assert!(read_record(None, &[None, Some("".to_string())]).is_none());
    assert!(is_accepted(None, &[Some("accepted\n".to_string())]));
    assert!(!is_accepted(None, &[]));
}

#[test]
fn new_acceptance() {
    let r = accept("gui", "2025-03-04 09:07:05", None, Some("PC".to_string()), "0.1.0");
    assert_eq!(
        fields(&r),
        ("2025-03-04 09:07:05".to_string(), "(unknown)".to_string(), "PC".to_string(), "0.1.0".to_string(), "gui".to_string(), FULL.len())
    );
    assert_eq!(
        acceptance_log_line(&rec()),
        "2025-03-04 09:07:05 | user=alice | computer=PC1 | version=0.1.0 | source=cli | bytes=2986\n"
    );
}

#[test]
fn backed_up_acceptance_is_read_without_registry() {
    let text = backup_text(&rec());
    let found = read_record(None, &[Some(text), Some("accepted_at=older\n".to_string())]).unwrap();
    assert_eq!(fields(&found), fields(&rec()));
    assert!(is_accepted(None, &[Some(backup_text(&rec()))]));
}
