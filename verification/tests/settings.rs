use windows_diagnostics::telemetry::{
    app_inventory_state, ceip_apply_outcome, ceip_tasks, ceip_tasks_state, create_key_error,
    diagnostic_data_state, diagtrack_apply_outcome, diagtrack_config_args, diagtrack_state,
    dword_setting_state, elevation_args, elevation_command, ensure_elevated,
    registry_apply_outcome, registry_writes, relaunch_outcome, set_value_error, task_change_args,
    task_enabled, Hive, SettingId,
};

#[test]
fn cli_names_round_trip() {
    for id in SettingId::ALL {
        assert_eq!(SettingId::parse_cli(id.cli_name()), Ok(id));
        assert!(!id.title().is_empty());
        assert!(!id.explanation().is_empty());
        assert!(!id.detail().is_empty());
    }
    assert_eq!(SettingId::parse_cli(" Telemetry "), Ok(SettingId::DiagnosticData));
    assert_eq!(SettingId::parse_cli("AD-ID"), Ok(SettingId::AdvertisingId));
    assert_eq!(SettingId::parse_cli("sqm"), Ok(SettingId::CeipPolicy));
    assert_eq!(SettingId::parse_cli("appcompat"), Ok(SettingId::AppInventory));
    assert_eq!(
        SettingId::parse_cli(" bogus "),
        Err("unknown setting ' bogus '. Try: diagnostic-data, diagtrack, ceip-tasks, advertising-id, tailored-experiences, ceip-policy, app-inventory".to_string())
    );
    assert_eq!(SettingId::AdvertisingId.explanation(), "A per-user ID apps can use for advertising. Off sets AdvertisingInfo\\Enabled to 0 so apps should not use it.");
}

#[test]
fn reading_states() {
    let s = diagnostic_data_state(Some(0), Some(3));
    assert_eq!((s.active, s.note.as_str()), (false, "AllowTelemetry = 0 (0 = Security-only / off)"));
    let s = diagnostic_data_state(None, Some(3));
    assert_eq!((s.active, s.note.as_str()), (true, "AllowTelemetry = 3 (0 = Security-only / off)"));
    assert_eq!(diagnostic_data_state(None, None).note, "AllowTelemetry = 1 (0 = Security-only / off)");
    let s = diagtrack_state("START_TYPE : 4 DISABLED", Some("STATE : 4 RUNNING"));
    assert_eq!((s.active, s.note.as_str()), (false, "Startup: Disabled"));
    let s = diagtrack_state("START_TYPE : 2 AUTO_START", Some("STATE : 4 RUNNING"));
    assert_eq!((s.active, s.note.as_str()), (true, "Startup: enabled, currently Running"));
    let s = diagtrack_state("", None);
    assert_eq!((s.active, s.note.as_str()), (true, "Startup: not Disabled (service may start later)"));
    let s = dword_setting_state(SettingId::AdvertisingId, Some(0));
    assert_eq!((s.id, s.active, s.note.as_str()), (SettingId::AdvertisingId, false, "Enabled = 0"));
    let s = dword_setting_state(SettingId::TailoredExperiences, None);
    assert_eq!((s.active, s.note.as_str()), (true, "TailoredExperiencesWithDiagnosticDataEnabled = 1"));
    assert_eq!(dword_setting_state(SettingId::CeipPolicy, Some(2)).note, "CEIPEnable = 2");
    let s = app_inventory_state(Some(0), Some(1));
    assert_eq!((s.active, s.note.as_str()), (false, "AITEnable = 0, DisableInventory = 1"));
    assert!(app_inventory_state(None, None).active);
    assert!(app_inventory_state(Some(0), None).active);
    assert!(app_inventory_state(None, Some(1)).active);
    assert!(app_inventory_state(Some(1), Some(1)).active);
    assert_eq!(app_inventory_state(None, Some(1)).note, "AITEnable = unset, DisableInventory = 1");
}

#[test]
fn task_states() {
    assert_eq!(task_enabled(None), None);
    assert_eq!(task_enabled(Some("Folder: \\x\r\nStatus:   Disabled\r\n")), Some(false));
    assert_eq!(task_enabled(Some("Status: Ready\nComment: disabled by admin\n")), Some(true));
    assert_eq!(task_enabled(Some("Estado: Deshabilitado (disabled)\n")), Some(false));
    assert_eq!(task_enabled(Some("Estado: Listo\n")), Some(true));
    let s = ceip_tasks_state(&[Some(true), None, Some(false), Some(true)]);
    assert_eq!((s.active, s.note.as_str()), (true, "2 enabled / 3 found on this PC"));
    let s = ceip_tasks_state(&[None, Some(false)]);
    assert_eq!((s.active, s.note.as_str()), (false, "0 enabled / 1 found on this PC"));
    assert_eq!(ceip_tasks().len(), 13);
}

#[test]
fn switching_settings() {
    let w = registry_writes(SettingId::DiagnosticData, false);
    assert_eq!(w.len(), 4);
    assert_eq!((w[0].hive, w[0].name, w[0].value, w[0].required), (Hive::LocalMachine, "AllowTelemetry", 0, true));
    assert!(!w[1].required);
    let inv = registry_writes(SettingId::AppInventory, true);
    assert_eq!((inv[0].name, inv[0].value, inv[1].name, inv[1].value), ("AITEnable", 1, "DisableInventory", 0));
    assert!(registry_writes(SettingId::DiagTrack, true).is_empty());
    assert_eq!(registry_writes(SettingId::AdvertisingId, true)[0].hive, Hive::CurrentUser);
    assert_eq!(
        registry_apply_outcome(SettingId::DiagnosticData, false, &[Ok(()), Err("x".to_string()), Ok(()), Ok(())]),
        Ok("AllowTelemetry set to 0".to_string())
    );
    assert_eq!(
        registry_apply_outcome(SettingId::DiagnosticData, true, &[Ok(()), Ok(()), Err("denied".to_string())]),
        Err("denied".to_string())
    );
    assert_eq!(registry_apply_outcome(SettingId::AdvertisingId, true, &[Ok(())]), Ok("AdvertisingInfo\\Enabled = 1".to_string()));
    assert_eq!(registry_apply_outcome(SettingId::TailoredExperiences, false, &[Ok(())]), Ok("TailoredExperiences = 0".to_string()));
    assert_eq!(registry_apply_outcome(SettingId::CeipPolicy, false, &[Ok(())]), Ok("CEIPEnable = 0".to_string()));
    assert_eq!(registry_apply_outcome(SettingId::AppInventory, false, &[Ok(()), Ok(())]), Ok("App inventory / AIT disabled".to_string()));
    assert_eq!(registry_apply_outcome(SettingId::AppInventory, true, &[Ok(()), Ok(())]), Ok("App inventory telemetry re-enabled".to_string()));
    assert_eq!(create_key_error("SOFTWARE\\X", "denied"), "create SOFTWARE\\X: denied");
    assert_eq!(set_value_error("SOFTWARE\\X", "V", "denied"), "set SOFTWARE\\X\\V: denied");
    assert_eq!(diagtrack_config_args(false), vec!["config", "DiagTrack", "start=", "disabled"]);
    assert_eq!(diagtrack_apply_outcome(true, Ok(true), "", ""), Ok("DiagTrack set to Automatic and start requested".to_string()));
    assert_eq!(diagtrack_apply_outcome(false, Ok(true), "", ""), Ok("DiagTrack stopped and Disabled".to_string()));
    assert_eq!(diagtrack_apply_outcome(false, Ok(false), " [SC] OpenService FAILED 5: ", "Access is denied."), Err("[SC] OpenService FAILED 5:Access is denied.".to_string()));
    assert_eq!(diagtrack_apply_outcome(false, Err("spawn".to_string()), "", ""), Err("spawn".to_string()));
    assert_eq!(task_change_args("\\T", true), vec!["/Change", "/TN", "\\T", "/Enable"]);
    assert_eq!(ceip_apply_outcome(false, &[Ok(true), Ok(false), Ok(true)]), Ok("Disabled 2 tasks (1 not present)".to_string()));
    assert_eq!(ceip_apply_outcome(true, &[Ok(true), Err("spawn".to_string())]), Err("spawn".to_string()));
}

#[test]
fn elevation() {
    assert_eq!(elevation_command("C:\\a b\\tluw.exe", &[], false), "Start-Process -FilePath 'C:\\a b\\tluw.exe' -Verb RunAs");
    assert_eq!(
        elevation_command("C:\\it's\\tluw.exe", &["set".to_string(), "ad-id".to_string(), "o'n".to_string()], true),
        "Start-Process -FilePath 'C:\\it''s\\tluw.exe' -Verb RunAs -Wait -ArgumentList 'set','ad-id','o''n'"
    );
    let a = elevation_args("x", &[], true);
    assert_eq!(a, vec!["-NoProfile", "-WindowStyle", "Hidden", "-Command", "Start-Process -FilePath 'x' -Verb RunAs -Wait"]);
    assert_eq!(relaunch_outcome(Ok(true)), Ok(()));
    assert_eq!(relaunch_outcome(Ok(false)), Err("UAC elevation was cancelled or failed".to_string()));
    assert_eq!(ensure_elevated(true, Err("x".to_string())), Ok(true));
    assert_eq!(ensure_elevated(false, Ok(())), Ok(false));
    assert_eq!(ensure_elevated(false, Err("x".to_string())), Err("x".to_string()));
}

#[test]
fn switching_on_reverses_switching_off() {
    for id in SettingId::ALL {
        let off = registry_writes(id, false);
        let on = registry_writes(id, true);
        assert_eq!(off.len(), on.len());
        for (a, b) in off.iter().zip(on.iter()) {
            assert_eq!((a.hive, a.path, a.name, a.required), (b.hive, b.path, b.name, b.required));
            assert_eq!(a.value + b.value, 1);
        }
    }
    assert_eq!(diagtrack_config_args(true)[..3], diagtrack_config_args(false)[..3]);
    assert_eq!(task_change_args("\\T", true)[..3], task_change_args("\\T", false)[..3]);
}

#[test]
fn missing_tasks_never_fail_the_switch() {
    let runs: Vec<Result<bool, String>> = (0..13).map(|i| Ok(i % 3 != 0)).collect();
    assert_eq!(ceip_apply_outcome(false, &runs), Ok("Disabled 8 tasks (5 not present)".to_string()));
    assert_eq!(ceip_apply_outcome(true, &[Ok(false), Ok(false)]), Ok("Enabled 0 tasks (2 not present)".to_string()));
}
