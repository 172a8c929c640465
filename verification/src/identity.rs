//! Product identity: names, registry paths, folder names, task names.

use vstd::prelude::*;

use crate::text::{ascii_lower, chars_eq, chars_of, lower_chars, string_of};

verus! {

/// Full product name (UI, MSI, PE metadata).
pub const PRODUCT_NAME: &'static str = "Telemetry and Logging Utility for Windows";

/// Shorter label for tight UI (tray tooltip, quit dialogs).
pub const PRODUCT_NAME_SHORT: &'static str = "Telemetry Logging Utility";

/// Publisher / copyright holder (company).
pub const COMPANY: &'static str = "Chillcoders LLC";

/// Primary author.
pub const AUTHOR: &'static str = "James Guan";

/// CLI binary / command name.
pub const CLI_BIN: &'static str = "tluw";

/// GUI binary name (without `.exe`).
pub const GUI_BIN: &'static str = "tluw-gui";

/// HKCU / HKLM software key (no `Software\` prefix).
pub const REG_KEY: &'static str = "TelemetryLoggingUtility";

pub const REG_ROOT: &'static str = "Software\\TelemetryLoggingUtility";

pub const REG_DISCLAIMER: &'static str = "Software\\TelemetryLoggingUtility\\Disclaimer";

pub const REG_PREFS: &'static str = "Software\\TelemetryLoggingUtility\\Prefs";

/// `%APPDATA%` / `%LOCALAPPDATA%` folder name.
pub const APPDATA_DIR: &'static str = "TelemetryLoggingUtility";

/// HKCU Run value name.
pub const RUN_VALUE: &'static str = "TelemetryLoggingUtility";

/// Scheduled task name for post-update lockdown.
pub const TASK_NAME: &'static str = "TelemetryLoggingUtilityPostUpdate";

/// Scheduled task name for the cleanup schedule.
pub const CLEANUP_TASK_NAME: &'static str = "TelemetryLoggingUtilityCleanup";

/// Former scheduled task name (before the product was renamed).
pub const LEGACY_TASK_NAME: &'static str = "WindowsDiagnosticsPostUpdate";

/// Former software key name.
pub const LEGACY_REG_KEY: &'static str = "WindowsDiagnostics";

/// Former software key path.
pub const LEGACY_REG_ROOT: &'static str = "Software\\WindowsDiagnostics";

/// Former `%APPDATA%` folder name.
pub const LEGACY_APPDATA_DIR: &'static str = "WindowsDiagnostics";

/// Former HKCU Run value name.
pub const LEGACY_RUN_VALUE: &'static str = "WindowsDiagnostics";


/// The root-level value names that mark a legacy key as this product's.
pub open spec fn legacy_marker_table() -> Seq<&'static str> {
    seq![
        "Disclaimer",
        "Prefs",
        "StartMenuShortcut",
        "DesktopShortcut",
        "StartupShortcut",
        "Installed",
        "PostUpdateEnabled",
        "TrayEnabled",
    ]
}

/// The root-level value names that mark a legacy key as this product's.
pub fn legacy_markers() -> (r: Vec<&'static str>)
    ensures
        r@ == legacy_marker_table(),
{
    let r = vec![
        "Disclaimer",
        "Prefs",
        "StartMenuShortcut",
        "DesktopShortcut",
        "StartupShortcut",
        "Installed",
        "PostUpdateEnabled",
        "TrayEnabled",
    ];
    assert(r@ =~= legacy_marker_table());
    r
}

/// A subkey name that marks a legacy key as ours (`Disclaimer` or `Prefs`, any case).
pub open spec fn is_our_subkey(name: Seq<char>) -> bool {
    ascii_lower(name) == "disclaimer"@ || ascii_lower(name) == "prefs"@
}

/// Whether a legacy `Software\WindowsDiagnostics` key looks like this
/// product's (so that it may be migrated and removed): it has our subkeys, or
/// one of our marker values, or is empty.
pub open spec fn looks_like_ours_view(subkeys: Seq<Seq<char>>, markers_present: Seq<bool>, has_values: bool) -> bool {
    ||| exists|i: int| 0 <= i < subkeys.len() && is_our_subkey(#[trigger] subkeys[i])
    ||| exists|i: int| 0 <= i < markers_present.len() && #[trigger] markers_present[i]
    ||| (subkeys.len() == 0 && !has_values)
}

pub open spec fn names_view(v: Seq<String>) -> Seq<Seq<char>> {
    v.map_values(|s: String| s@)
}

/// Whether a legacy key looks like ours: `subkeys` are its subkey names,
/// `markers_present[i]` whether marker `i` of [`legacy_markers`] is stored as
/// a number or text, `has_values` whether it holds any value.
pub fn looks_like_our_legacy_key(subkeys: &[String], markers_present: &[bool], has_values: bool) -> (r:
    bool)
    ensures
        r == looks_like_ours_view(names_view(subkeys@), markers_present@, has_values),
{
    let ghost names = names_view(subkeys@);
    proof {
        reveal_strlit("disclaimer");
        reveal_strlit("prefs");
    }
    let mut i: usize = 0;
    while i < subkeys.len()
        invariant
            0 <= i <= subkeys@.len(),
            names == names_view(subkeys@),
            forall|k: int| 0 <= k < i ==> !is_our_subkey(#[trigger] names[k]),
        decreases subkeys@.len() - i,
    {
        let low = lower_chars(&chars_of(subkeys[i].as_str()));
        assert(names[i as int] == subkeys@[i as int]@);
        if chars_eq(&low, "disclaimer") || chars_eq(&low, "prefs") {
            return true;
        }
        i = i + 1;
    }
    let mut j: usize = 0;
    while j < markers_present.len()
        invariant
            0 <= j <= markers_present@.len(),
            forall|k: int| 0 <= k < j ==> !#[trigger] markers_present@[k],
        decreases markers_present@.len() - j,
    {
        if markers_present[j] {
            return true;
        }
        j = j + 1;
    }
    subkeys.len() == 0 && !has_values
}

/// What migrating the Run value does.
#[derive(Debug, Clone)]
pub struct RunKeyMigration {
    /// The value to store under the current name, if any.
    pub set_current: Option<String>,
    /// Whether to delete the legacy value.
    pub delete_legacy: bool,
}

/// Migrating the Run value: a legacy value alone moves to the current name;
/// with both present the legacy one is dropped; otherwise nothing changes.
pub fn run_key_migration(legacy: Option<&str>, current_present: bool) -> (r: RunKeyMigration)
    ensures
        match legacy {
            Some(v) => r.delete_legacy && if current_present {
                r.set_current is None
            } else {
                r.set_current matches Some(s) && s@ == v@
            },
            None => !r.delete_legacy && r.set_current is None,
        },
{
    match legacy {
        Some(v) => if current_present {
            RunKeyMigration { set_current: None, delete_legacy: true }
        } else {
            RunKeyMigration { set_current: Some(string_of(v)), delete_legacy: true }
        },
        None => RunKeyMigration { set_current: None, delete_legacy: false },
    }
}

/// Files of this product removed from a legacy folder that could not be moved whole.
pub open spec fn leftover_file_table() -> Seq<&'static str> {
    seq!["disclaimer_accepted", "disclaimer_acceptance.log", "cleanup_history.log"]
}

pub fn leftover_files() -> (r: Vec<&'static str>)
    ensures
        r@ == leftover_file_table(),
{
    let r = vec!["disclaimer_accepted", "disclaimer_acceptance.log", "cleanup_history.log"];
    assert(r@ =~= leftover_file_table());
    r
}

} // verus!
