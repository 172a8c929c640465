use windows_diagnostics::lockdown::{
    diagtrack_step, elevation_failure, finish, policy_paths, policy_step, privacy_step,
    tasks_step, ReportLine,
};
use windows_diagnostics::telemetry::ceip_tasks;

fn view(lines: &[ReportLine]) -> Vec<(bool, &str)> {
    lines.iter().map(|l| (l.error, l.text.as_str())).collect()
}

#[test]
fn failed_elevation_message() {
    assert_eq!(elevation_failure(Ok(true)), None);
    assert_eq!(
        elevation_failure(Ok(false)).as_deref(),
        Some("Failed to elevate: UAC elevation was cancelled or failed")
    );
    assert_eq!(elevation_failure(Err("no powershell".into())).as_deref(), Some("Failed to elevate: no powershell"));
}

#[test]
fn policy_keys() {
    let paths = policy_paths();
    assert_eq!(paths.len(), 2);
    let (lines, ok) = policy_step(0, &[Ok(Ok(())), Ok(Ok(()))]);
    assert!(ok);
    assert_eq!(
        view(&lines),
        vec![
            (false, "[1/4] Setting AllowTelemetry = 0 (policy)..."),
            (false, "  OK  SOFTWARE\\Policies\\Microsoft\\Windows\\DataCollection\\AllowTelemetry = 0"),
            (
                false,
                "  OK  SOFTWARE\\Microsoft\\Windows\\CurrentVersion\\Policies\\DataCollection\\AllowTelemetry = 0"
            ),
        ]
    );
    let (lines, ok) = policy_step(0, &[Err("denied".into()), Ok(Err("locked".into()))]);
    assert!(!ok);
    assert_eq!(lines[1].text, format!("  FAIL create {}: denied", paths[0]));
    assert_eq!(lines[2].text, format!("  FAIL {}\\AllowTelemetry: locked", paths[1]));
    assert!(lines[1].error && lines[2].error);
}

#[test]
fn diagtrack() {
    let (lines, ok) = diagtrack_step(Ok((true, String::new(), String::new())));
    assert!(ok);
    assert_eq!(lines[1].text, "  OK  DiagTrack set to disabled");
    let (lines, ok) = diagtrack_step(Ok((false, " Access is denied.\r\n".into(), "[SC] OpenService FAILED 5:\r\n".into())));
    assert!(!ok);
    assert_eq!(
        view(&lines)[1],
        (true, "  FAIL sc config DiagTrack: Access is denied.[SC] OpenService FAILED 5:")
    );
    let (lines, ok) = diagtrack_step(Err("not found".into()));
    assert!(!ok);
    assert_eq!(lines[1].text, "  FAIL sc.exe: not found");
    assert_eq!(lines[0].text, "[2/4] Stopping and disabling Connected User Experiences (DiagTrack)...");
}

#[test]
fn tasks_never_fail() {
    let tasks = ceip_tasks();
    let mut runs: Vec<Result<bool, String>> = vec![Ok(true); 13];
    runs[1] = Ok(false);
    runs[2] = Err("spawn".into());
    let (lines, ok) = tasks_step(&runs);
    assert!(ok);
    assert_eq!(lines.len(), 14);
    assert_eq!(lines[0].text, "[3/4] Disabling Customer Experience / feedback scheduled tasks...");
    assert_eq!(lines[1].text, format!("  OK  disabled {}", tasks[0]));
    assert_eq!(lines[2].text, format!("  --  skip (not found) {}", tasks[1]));
    assert_eq!(view(&lines)[3], (true, "  FAIL schtasks: spawn"));
    assert_eq!(lines[13].text, "  OK  disabled \\Microsoft\\Windows\\Windows Error Reporting\\QueueReporting");
}

#[test]
fn privacy_keys() {
    let (lines, ok) = privacy_step(Ok(true), Ok(true), Ok(true), Ok(()));
    assert!(ok);
    assert_eq!(
        view(&lines),
        vec![
            (false, "[4/4] Extra privacy policy keys..."),
            (false, "  OK  AdvertisingInfo\\Enabled = 0"),
            (false, "  OK  TailoredExperiencesWithDiagnosticDataEnabled = 0"),
            (false, "  OK  SQMClient\\Windows\\CEIPEnable = 0"),
            (false, "  OK  AppCompat AITEnable=0, DisableInventory=1"),
        ]
    );
    let (lines, ok) = privacy_step(Ok(false), Err("x".into()), Ok(true), Err("y".into()));
    assert!(!ok);
    assert_eq!(
        view(&lines),
        vec![
            (false, "[4/4] Extra privacy policy keys..."),
            (true, "  FAIL Privacy: x"),
            (false, "  OK  SQMClient\\Windows\\CEIPEnable = 0"),
            (true, "  FAIL AppCompat: y"),
        ]
    );
    assert!(privacy_step(Ok(false), Ok(false), Ok(false), Ok(())).1);
}

#[test]
fn closing() {
    let (lines, code, wait) = finish(true);
    assert_eq!(
        view(&lines),
        vec![
            (false, ""),
            (false, "Done. Diagnostic data policy is Security-only (0)."),
            (false, "A reboot is recommended so all settings stick."),
        ]
    );
    assert_eq!((code, wait), (0, true));
    let (lines, code, wait) = finish(false);
    assert_eq!(lines[1].text, "Finished with some errors — see messages above.");
    assert_eq!((code, wait), (1, false));
}
