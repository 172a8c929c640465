//! Destructive log / diagnostic cleanup actions.
//!
//! Workflow intended for UI:
//! 1. inspect — count files / bytes (or event-log records)
//! 2. open the folder or Event Viewer so the user can look
//! 3. clear — wipe and report how many items / bytes were freed
//!
//! This module decides which targets exist, where they live, how the
//! measurements and outcomes of the file-system and `wevtutil` work are
//! reported; the caller performs that work and hands the outcomes back.

use vstd::prelude::*;

use crate::launch::{result_view, start_detached, start_result_view, text_result_view};
use crate::text::{
    chars_eq, chars_of, dec, f64_round, f64_round_u64, first_digit_run, first_digit_run_chars,
    fixed_point, has_prefix, lines, normalize_id, normalize_id_chars, parse_u64_chars,
    parse_u64_digits, push_dec, push_fixed_point, push_str, split_lines, starts_with_chars,
    ascii_lower, lower_chars, trim, trim_chars,
};

verus! {

#[derive(Debug, Clone, Copy)]
pub enum ClearKind {
    DiagnosisFolder,
    DiagnosisEtl,
    Wer,
    EventLog(&'static str),
    CbsLogs,
    DismLogs,
    WindowsUpdateLogs,
    DeliveryOptimization,
}

#[derive(Debug, Clone, Copy)]
pub struct ClearAction {
    pub id: &'static str,
    pub title: &'static str,
    pub description: &'static str,
    pub dangerous: bool,
    pub kind: ClearKind,
}

/// Every cleanup target, in display order.
pub open spec fn action_table() -> Seq<ClearAction> {
    seq![
    ClearAction {
        id: "diagnosis",
        title: "Microsoft Diagnosis folder",
        description: "%ProgramData%\\Microsoft\\Diagnosis — telemetry ETL store.",
        dangerous: true,
        kind: ClearKind::DiagnosisFolder,
    },
    ClearAction {
        id: "diagnosis-etl",
        title: "Diagnosis ETLLogs",
        description: "%ProgramData%\\Microsoft\\Diagnosis\\ETLLogs only.",
        dangerous: true,
        kind: ClearKind::DiagnosisEtl,
    },
    ClearAction {
        id: "wer",
        title: "Windows Error Reporting",
        description: "WER ReportQueue / Archive / Temp folders.",
        dangerous: false,
        kind: ClearKind::Wer,
    },
    ClearAction {
        id: "event-application",
        title: "Application event log",
        description: "wevtutil channel Application.",
        dangerous: false,
        kind: ClearKind::EventLog("Application"),
    },
    ClearAction {
        id: "event-system",
        title: "System event log",
        description: "wevtutil channel System.",
        dangerous: false,
        kind: ClearKind::EventLog("System"),
    },
    ClearAction {
        id: "event-setup",
        title: "Setup event log",
        description: "wevtutil channel Setup.",
        dangerous: false,
        kind: ClearKind::EventLog("Setup"),
    },
    ClearAction {
        id: "event-security",
        title: "Security event log",
        description: "wevtutil channel Security — erases audit trail.",
        dangerous: true,
        kind: ClearKind::EventLog("Security"),
    },
    ClearAction {
        id: "event-forwarded",
        title: "Forwarded Events log",
        description: "wevtutil channel ForwardedEvents.",
        dangerous: false,
        kind: ClearKind::EventLog("ForwardedEvents"),
    },
    ClearAction {
        id: "event-diag-perf",
        title: "Diagnostics-Performance log",
        description: "Microsoft-Windows-Diagnostics-Performance/Operational.",
        dangerous: false,
        kind: ClearKind::EventLog("Microsoft-Windows-Diagnostics-Performance/Operational"),
    },
    ClearAction {
        id: "event-diagtrack",
        title: "DiagTrack / UTC event log",
        description: "Microsoft-Windows-UniversalTelemetryClient/Operational.",
        dangerous: false,
        kind: ClearKind::EventLog("Microsoft-Windows-UniversalTelemetryClient/Operational"),
    },
    ClearAction {
        id: "cbs",
        title: "CBS component logs",
        description: "%SystemRoot%\\Logs\\CBS.",
        dangerous: false,
        kind: ClearKind::CbsLogs,
    },
    ClearAction {
        id: "dism",
        title: "DISM logs",
        description: "%SystemRoot%\\Logs\\DISM.",
        dangerous: false,
        kind: ClearKind::DismLogs,
    },
    ClearAction {
        id: "windowsupdate",
        title: "Windows Update log folder",
        description: "%SystemRoot%\\Logs\\WindowsUpdate.",
        dangerous: false,
        kind: ClearKind::WindowsUpdateLogs,
    },
    ClearAction {
        id: "delivery-optimization",
        title: "Delivery Optimization logs",
        description: "%ProgramData%\\Microsoft\\Windows\\DeliveryOptimization\\Logs.",
        dangerous: false,
        kind: ClearKind::DeliveryOptimization,
    },
]
}

/// Every cleanup target, in display order.
pub fn all() -> (r: Vec<ClearAction>)
    ensures
        r@ == action_table(),
{
    let r = vec![
    ClearAction {
        id: "diagnosis",
        title: "Microsoft Diagnosis folder",
        description: "%ProgramData%\\Microsoft\\Diagnosis — telemetry ETL store.",
        dangerous: true,
        kind: ClearKind::DiagnosisFolder,
    },
    ClearAction {
        id: "diagnosis-etl",
        title: "Diagnosis ETLLogs",
        description: "%ProgramData%\\Microsoft\\Diagnosis\\ETLLogs only.",
        dangerous: true,
        kind: ClearKind::DiagnosisEtl,
    },
    ClearAction {
        id: "wer",
        title: "Windows Error Reporting",
        description: "WER ReportQueue / Archive / Temp folders.",
        dangerous: false,
        kind: ClearKind::Wer,
    },
    ClearAction {
        id: "event-application",
        title: "Application event log",
        description: "wevtutil channel Application.",
        dangerous: false,
        kind: ClearKind::EventLog("Application"),
    },
    ClearAction {
        id: "event-system",
        title: "System event log",
        description: "wevtutil channel System.",
        dangerous: false,
        kind: ClearKind::EventLog("System"),
    },
    ClearAction {
        id: "event-setup",
        title: "Setup event log",
        description: "wevtutil channel Setup.",
        dangerous: false,
        kind: ClearKind::EventLog("Setup"),
    },
    ClearAction {
        id: "event-security",
        title: "Security event log",
        description: "wevtutil channel Security — erases audit trail.",
        dangerous: true,
        kind: ClearKind::EventLog("Security"),
    },
    ClearAction {
        id: "event-forwarded",
        title: "Forwarded Events log",
        description: "wevtutil channel ForwardedEvents.",
        dangerous: false,
        kind: ClearKind::EventLog("ForwardedEvents"),
    },
    ClearAction {
        id: "event-diag-perf",
        title: "Diagnostics-Performance log",
        description: "Microsoft-Windows-Diagnostics-Performance/Operational.",
        dangerous: false,
        kind: ClearKind::EventLog("Microsoft-Windows-Diagnostics-Performance/Operational"),
    },
    ClearAction {
        id: "event-diagtrack",
        title: "DiagTrack / UTC event log",
        description: "Microsoft-Windows-UniversalTelemetryClient/Operational.",
        dangerous: false,
        kind: ClearKind::EventLog("Microsoft-Windows-UniversalTelemetryClient/Operational"),
    },
    ClearAction {
        id: "cbs",
        title: "CBS component logs",
        description: "%SystemRoot%\\Logs\\CBS.",
        dangerous: false,
        kind: ClearKind::CbsLogs,
    },
    ClearAction {
        id: "dism",
        title: "DISM logs",
        description: "%SystemRoot%\\Logs\\DISM.",
        dangerous: false,
        kind: ClearKind::DismLogs,
    },
    ClearAction {
        id: "windowsupdate",
        title: "Windows Update log folder",
        description: "%SystemRoot%\\Logs\\WindowsUpdate.",
        dangerous: false,
        kind: ClearKind::WindowsUpdateLogs,
    },
    ClearAction {
        id: "delivery-optimization",
        title: "Delivery Optimization logs",
        description: "%ProgramData%\\Microsoft\\Windows\\DeliveryOptimization\\Logs.",
        dangerous: false,
        kind: ClearKind::DeliveryOptimization,
    },
];
    assert(r@ =~= action_table());
    r
}

/// The first action of `table` whose id is `n`.
pub open spec fn find_in(table: Seq<ClearAction>, n: Seq<char>) -> Option<ClearAction>
    decreases table.len(),
{
    if table.len() == 0 {
        None
    } else if table[0].id@ == n {
        Some(table[0])
    } else {
        find_in(table.drop_first(), n)
    }
}

/// Looking an action up by a typed id (case and surrounding white space ignored).
pub open spec fn find_action(id: Seq<char>) -> Option<ClearAction> {
    find_in(action_table(), normalize_id(id))
}

impl ClearAction {
    pub fn find(id: &str) -> (r: Option<ClearAction>)
        ensures
            r == find_action(id@),
    {
        let n = normalize_id_chars(id);
        let all = all();
        let mut i: usize = 0;
        assert(all@.skip(0) =~= all@);
        while i < 14
            invariant
                0 <= i <= 14,
                all@ == action_table(),
                n@ == normalize_id(id@),
                find_in(all@, n@) == find_in(all@.skip(i as int), n@),
            decreases 14 - i,
        {
            assert(all@.skip(i as int).drop_first() =~= all@.skip(i + 1));
            if chars_eq(&n, all[i].id) {
                return Some(all[i]);
            }
            i = i + 1;
        }
        None
    }
}

/// Size with a unit: bytes below 1 KiB, one decimal in KB, two in MB and GB
/// (GB from the nearest double, as `bytes as f64` gives it).
pub open spec fn format_bytes_view(bytes: nat) -> Seq<char> {
    if bytes >= 1073741824 {
        fixed_point(f64_round(bytes), 1073741824, 2) + " GB"@
    } else if bytes >= 1048576 {
        fixed_point(bytes, 1048576, 2) + " MB"@
    } else if bytes >= 1024 {
        fixed_point(bytes, 1024, 1) + " KB"@
    } else {
        dec(bytes) + " B"@
    }
}

pub fn push_format_bytes(s: &mut String, bytes: u64)
    ensures
        final(s)@ == old(s)@ + format_bytes_view(bytes as nat),
{
    if bytes >= 1073741824 {
        let b = f64_round_u64(bytes);
        push_fixed_point(s, b, 1073741824, 2);
        push_str(s, " GB");
    } else if bytes >= 1048576 {
        push_fixed_point(s, bytes as u128, 1048576, 2);
        push_str(s, " MB");
    } else if bytes >= 1024 {
        push_fixed_point(s, bytes as u128, 1024, 1);
        push_str(s, " KB");
    } else {
        push_dec(s, bytes);
        push_str(s, " B");
    }
    assert(final(s)@ =~= old(s)@ + format_bytes_view(bytes as nat));
}

pub fn format_bytes(bytes: u64) -> (r: String)
    ensures
        r@ == format_bytes_view(bytes as nat),
{
    let mut s = String::new();
    push_format_bytes(&mut s, bytes);
    assert(s@ =~= format_bytes_view(bytes as nat));
    s
}

/// Every target is found by its own id.
pub proof fn lemma_find_own_id(i: int)
    requires
        0 <= i < 14,
    ensures
        find_action(action_table()[i].id@) == Some(action_table()[i]),
{
    reveal_strlit("diagnosis");
    reveal_strlit("diagnosis-etl");
    reveal_strlit("wer");
    reveal_strlit("event-application");
    reveal_strlit("event-system");
    reveal_strlit("event-setup");
    reveal_strlit("event-security");
    reveal_strlit("event-forwarded");
    reveal_strlit("event-diag-perf");
    reveal_strlit("event-diagtrack");
    reveal_strlit("cbs");
    reveal_strlit("dism");
    reveal_strlit("windowsupdate");
    reveal_strlit("delivery-optimization");
    let t = action_table();
    let id = t[i].id@;
    assert(crate::text::trim_start(id) == id);
    assert(crate::text::trim_end(id) == id);
    assert(ascii_lower(id) =~= id);
    reveal_with_fuel(find_in, 15);
}

/// Snapshot of how much log data exists before a clear.
#[derive(Debug, Clone)]
pub struct LogStatus {
    pub files: u64,
    pub bytes: u64,
    /// Human path or event channel name.
    pub location: String,
    pub note: String,
}

pub open spec fn log_status_line(s: LogStatus) -> Seq<char> {
    if s.files == 0 && s.bytes == 0 && s.note@.len() == 0 {
        s.location@ + " — empty / unavailable"@
    } else {
        s.location@ + " — "@ + dec(s.files as nat) + " file(s), "@ + format_bytes_view(
            s.bytes as nat,
        ) + (if s.note@.len() == 0 {
            Seq::empty()
        } else {
            " ("@ + s.note@ + ")"@
        })
    }
}

impl LogStatus {
    pub fn summary_line(&self) -> (r: String)
        ensures
            r@ == log_status_line(*self),
    {
        let mut s = String::new();
        push_str(&mut s, self.location.as_str());
        if self.files == 0 && self.bytes == 0 && self.note.as_str().is_empty() {
            push_str(&mut s, " — empty / unavailable");
            assert(s@ =~= log_status_line(*self));
            return s;
        }
        push_str(&mut s, " — ");
        push_dec(&mut s, self.files);
        push_str(&mut s, " file(s), ");
        push_format_bytes(&mut s, self.bytes);
        if !self.note.as_str().is_empty() {
            push_str(&mut s, " (");
            push_str(&mut s, self.note.as_str());
            push_str(&mut s, ")");
        }
        assert(s@ =~= log_status_line(*self));
        s
    }
}

/// Result of a clear operation.
#[derive(Debug, Clone)]
pub struct ClearResult {
    pub removed_files: u64,
    pub freed_bytes: u64,
    pub skipped: u64,
    pub before: LogStatus,
    pub message: String,
}

pub open spec fn clear_result_line(r: ClearResult) -> Seq<char> {
    r.message@ + " — cleared "@ + dec(r.removed_files as nat) + " item(s), freed "@
        + format_bytes_view(r.freed_bytes as nat) + ", skipped "@ + dec(r.skipped as nat)
}

impl ClearResult {
    pub fn summary_line(&self) -> (r: String)
        ensures
            r@ == clear_result_line(*self),
    {
        let mut s = String::new();
        push_str(&mut s, self.message.as_str());
        push_str(&mut s, " — cleared ");
        push_dec(&mut s, self.removed_files);
        push_str(&mut s, " item(s), freed ");
        push_format_bytes(&mut s, self.freed_bytes);
        push_str(&mut s, ", skipped ");
        push_dec(&mut s, self.skipped);
        assert(s@ =~= clear_result_line(*self));
        s
    }
}

/// One `wevtutil gli` output line read for `key`: `None` when the line says
/// nothing about it, else the number it gives (`None` inside when too large).
pub open spec fn wevtutil_line(raw: Seq<char>, key: Seq<char>) -> Option<Option<u64>> {
    let line = trim(raw);
    let after_key = first_digit_run(line.skip(key.len() as int));
    let whole = first_digit_run(line);
    if has_prefix(line, key) && after_key.len() > 0 {
        Some(parse_u64_digits(after_key))
    } else if has_prefix(ascii_lower(line), ascii_lower(key)) && whole.len() > 0 {
        Some(parse_u64_digits(whole))
    } else {
        None
    }
}

/// The first line that speaks of `key` decides.
pub open spec fn wevtutil_lines(ls: Seq<Seq<char>>, key: Seq<char>) -> Option<u64>
    decreases ls.len(),
{
    if ls.len() == 0 {
        None
    } else {
        match wevtutil_line(ls[0], key) {
            Some(r) => r,
            None => wevtutil_lines(ls.drop_first(), key),
        }
    }
}

/// The number `wevtutil gli` output gives for `key` (e.g. `numberOfLogRecords: 1234`).
pub open spec fn wevtutil_value(text: Seq<char>, key: Seq<char>) -> Option<u64> {
    wevtutil_lines(lines(text), key)
}

fn wevtutil_line_decision(raw: &[char], key: &[char], key_lower: &[char]) -> (r: Option<
    Option<u64>,
>)
    requires
        key_lower@ == ascii_lower(key@),
    ensures
        r == wevtutil_line(raw@, key@),
{
    let line = trim_chars(raw);
    if starts_with_chars(&line, key) {
        let rest = crate::text::slice_chars(&line, key.len(), line.len());
        assert(rest@ =~= line@.skip(key@.len() as int));
        let digits = first_digit_run_chars(&rest);
        if digits.len() > 0 {
            return Some(parse_u64_chars(&digits));
        }
    }
    let lower = lower_chars(&line);
    if starts_with_chars(&lower, key_lower) {
        let digits = first_digit_run_chars(&line);
        if digits.len() > 0 {
            return Some(parse_u64_chars(&digits));
        }
    }
    None
}

/// Parse `key: 1234` style values out of `wevtutil gli` output.
pub fn parse_wevtutil_u64(text: &str, key: &str) -> (r: Option<u64>)
    ensures
        r == wevtutil_value(text@, key@),
{
    let tv = chars_of(text);
    let kv = chars_of(key);
    let kl = lower_chars(&kv);
    let ls = split_lines(&tv);
    let ghost all = ls.deep_view();
    let mut i: usize = 0;
    assert(all.skip(0) =~= all);
    while i < ls.len()
        invariant
            0 <= i <= ls@.len(),
            all == ls.deep_view(),
            all == lines(text@),
            kv@ == key@,
            kl@ == ascii_lower(key@),
            wevtutil_value(text@, key@) == wevtutil_lines(all.skip(i as int), key@),
        decreases ls@.len() - i,
    {
        assert(all.skip(i as int).drop_first() =~= all.skip(i + 1));
        assert(ls@[i as int]@ =~= all[i as int]);
        match wevtutil_line_decision(&ls[i], &kv, &kl) {
            Some(r) => {
                return r;
            },
            None => {},
        }
        i = i + 1;
    }
    None
}

/// Status of an event channel from its `wevtutil gli` output.
pub open spec fn event_log_status(name: Seq<char>, gli: Seq<char>) -> (u64, u64, Seq<char>, Seq<char>) {
    (
        match wevtutil_value(gli, "numberOfLogRecords"@) {
            Some(v) => v,
            None => 0,
        },
        match wevtutil_value(gli, "fileSize"@) {
            Some(v) => v,
            None => 0,
        },
        "Event log: "@ + name,
        "records"@,
    )
}

pub open spec fn status_view(s: LogStatus) -> (u64, u64, Seq<char>, Seq<char>) {
    (s.files, s.bytes, s.location@, s.note@)
}

/// Record count and file size of an event channel, from `wevtutil gli <name>` output.
pub fn inspect_event_log(name: &str, gli_output: &str) -> (r: LogStatus)
    ensures
        status_view(r) == event_log_status(name@, gli_output@),
{
    let records = match parse_wevtutil_u64(gli_output, "numberOfLogRecords") {
        Some(v) => v,
        None => 0,
    };
    let file_size = match parse_wevtutil_u64(gli_output, "fileSize") {
        Some(v) => v,
        None => 0,
    };
    let mut location = String::new();
    push_str(&mut location, "Event log: ");
    push_str(&mut location, name);
    let mut note = String::new();
    push_str(&mut note, "records");
    let r = LogStatus { files: records, bytes: file_size, location, note };
    assert(status_view(r) =~= event_log_status(name@, gli_output@));
    r
}

/// Environment folder a log location hangs off.
#[derive(Debug, Clone, Copy, PartialEq, Eq, Structural)]
pub enum BaseDir {
    /// `%ProgramData%`
    ProgramData,
    /// `%SystemRoot%`
    SystemRoot,
    /// `%LOCALAPPDATA%`
    LocalAppData,
}

/// A folder given as a base folder and a path relative to it.
#[derive(Debug, Clone, Copy)]
pub struct PathRecipe {
    pub base: BaseDir,
    pub relative: &'static str,
}

pub open spec fn recipe(base: BaseDir, relative: &'static str) -> PathRecipe {
    PathRecipe { base, relative }
}

/// The folders a target clears (none for event channels); a folder whose base
/// variable is unset is left out by whoever resolves them.
pub open spec fn paths_view(kind: ClearKind) -> Seq<PathRecipe> {
    match kind {
        ClearKind::DiagnosisFolder => seq![recipe(BaseDir::ProgramData, "Microsoft\\Diagnosis")],
        ClearKind::DiagnosisEtl => seq![
            recipe(BaseDir::ProgramData, "Microsoft\\Diagnosis\\ETLLogs"),
        ],
        ClearKind::Wer => seq![
            recipe(BaseDir::ProgramData, "Microsoft\\Windows\\WER\\ReportQueue"),
            recipe(BaseDir::ProgramData, "Microsoft\\Windows\\WER\\ReportArchive"),
            recipe(BaseDir::ProgramData, "Microsoft\\Windows\\WER\\Temp"),
            recipe(BaseDir::LocalAppData, "Microsoft\\Windows\\WER\\ReportQueue"),
            recipe(BaseDir::LocalAppData, "Microsoft\\Windows\\WER\\ReportArchive"),
            recipe(BaseDir::LocalAppData, "Microsoft\\Windows\\WER\\Temp"),
        ],
        ClearKind::EventLog(_) => Seq::empty(),
        ClearKind::CbsLogs => seq![recipe(BaseDir::SystemRoot, "Logs\\CBS")],
        ClearKind::DismLogs => seq![recipe(BaseDir::SystemRoot, "Logs\\DISM")],
        ClearKind::WindowsUpdateLogs => seq![recipe(BaseDir::SystemRoot, "Logs\\WindowsUpdate")],
        ClearKind::DeliveryOptimization => seq![
            recipe(BaseDir::ProgramData, "Microsoft\\Windows\\DeliveryOptimization\\Logs"),
        ],
    }
}

/// Whether a target is usable, given whether its folder exists (for folder
/// targets) and whether its channel exists (for event logs). WER queues count
/// as always available.
pub open spec fn is_available_view(kind: ClearKind, folder_present: bool, channel_exists: bool) -> bool {
    match kind {
        ClearKind::Wer => true,
        ClearKind::EventLog(_) => channel_exists,
        _ => folder_present,
    }
}

impl ClearAction {
    /// The folders this target clears, in order.
    pub fn paths(self) -> (r: Vec<PathRecipe>)
        ensures
            r@ == paths_view(self.kind),
    {
        let r = match self.kind {
            ClearKind::DiagnosisFolder => vec![
                PathRecipe { base: BaseDir::ProgramData, relative: "Microsoft\\Diagnosis" },
            ],
            ClearKind::DiagnosisEtl => vec![
                PathRecipe { base: BaseDir::ProgramData, relative: "Microsoft\\Diagnosis\\ETLLogs" },
            ],
            ClearKind::Wer => vec![
                PathRecipe {
                    base: BaseDir::ProgramData,
                    relative: "Microsoft\\Windows\\WER\\ReportQueue",
                },
                PathRecipe {
                    base: BaseDir::ProgramData,
                    relative: "Microsoft\\Windows\\WER\\ReportArchive",
                },
                PathRecipe { base: BaseDir::ProgramData, relative: "Microsoft\\Windows\\WER\\Temp" },
                PathRecipe {
                    base: BaseDir::LocalAppData,
                    relative: "Microsoft\\Windows\\WER\\ReportQueue",
                },
                PathRecipe {
                    base: BaseDir::LocalAppData,
                    relative: "Microsoft\\Windows\\WER\\ReportArchive",
                },
                PathRecipe {
                    base: BaseDir::LocalAppData,
                    relative: "Microsoft\\Windows\\WER\\Temp",
                },
            ],
            ClearKind::EventLog(_) => Vec::new(),
            ClearKind::CbsLogs => vec![PathRecipe { base: BaseDir::SystemRoot, relative: "Logs\\CBS" }],
            ClearKind::DismLogs => vec![
                PathRecipe { base: BaseDir::SystemRoot, relative: "Logs\\DISM" },
            ],
            ClearKind::WindowsUpdateLogs => vec![
                PathRecipe { base: BaseDir::SystemRoot, relative: "Logs\\WindowsUpdate" },
            ],
            ClearKind::DeliveryOptimization => vec![
                PathRecipe {
                    base: BaseDir::ProgramData,
                    relative: "Microsoft\\Windows\\DeliveryOptimization\\Logs",
                },
            ],
        };
        assert(r@ =~= paths_view(self.kind));
        r
    }

    /// Whether emptying this target's folders goes into subfolders (the CBS
    /// folder is emptied of its top-level files only).
    pub fn clears_recursively(self) -> (r: bool)
        ensures
            r == !(self.kind is CbsLogs),
    {
        match self.kind {
            ClearKind::CbsLogs => false,
            _ => true,
        }
    }

    /// Whether the DiagTrack service is stopped (best-effort) before clearing:
    /// for the Diagnosis store, which it holds open.
    pub fn stops_diagtrack_first(self) -> (r: bool)
        ensures
            r == (self.kind is DiagnosisFolder || self.kind is DiagnosisEtl),
    {
        match self.kind {
            ClearKind::DiagnosisFolder | ClearKind::DiagnosisEtl => true,
            _ => false,
        }
    }

    /// Whether this target looks present: `folder_present` says whether its
    /// folder resolves and exists, `channel_exists` whether its event channel
    /// exists (`wevtutil gl` succeeds).
    pub fn is_available(self, folder_present: bool, channel_exists: bool) -> (r: bool)
        ensures
            r == is_available_view(self.kind, folder_present, channel_exists),
    {
        match self.kind {
            ClearKind::Wer => true,
            ClearKind::EventLog(_) => channel_exists,
            _ => folder_present,
        }
    }
}

/// File count and size measured under one resolved folder.
#[derive(Debug, Clone)]
pub struct FolderStats {
    pub path: String,
    pub files: u64,
    pub bytes: u64,
}

pub open spec fn sum_files(fs: Seq<FolderStats>) -> nat
    decreases fs.len(),
{
    if fs.len() == 0 {
        0
    } else {
        sum_files(fs.drop_last()) + fs.last().files as nat
    }
}

pub open spec fn sum_bytes(fs: Seq<FolderStats>) -> nat
    decreases fs.len(),
{
    if fs.len() == 0 {
        0
    } else {
        sum_bytes(fs.drop_last()) + fs.last().bytes as nat
    }
}

/// Status of a folder target: totals over its folders, named after the first
/// folder (or the target id when none resolved), noting how many folders when
/// more than one.
pub open spec fn folder_status(id: Seq<char>, fs: Seq<FolderStats>) -> (u64, u64, Seq<char>, Seq<char>) {
    (
        sum_files(fs) as u64,
        sum_bytes(fs) as u64,
        if fs.len() > 0 {
            fs[0].path@
        } else {
            id
        },
        if fs.len() > 1 {
            dec(fs.len()) + " folders"@
        } else {
            Seq::empty()
        },
    )
}

/// Count files / bytes (or event records) for a target: `folders` are the
/// measurements of its resolved folders, `gli_output` the `wevtutil gli`
/// output of its channel (event-log targets only).
pub fn inspect(action: &ClearAction, folders: &[FolderStats], gli_output: &str) -> (r: LogStatus)
    requires
        sum_files(folders@) <= u64::MAX,
        sum_bytes(folders@) <= u64::MAX,
    ensures
        status_view(r) == match action.kind {
            ClearKind::EventLog(name) => event_log_status(name@, gli_output@),
            _ => folder_status(action.id@, folders@),
        },
{
    match action.kind {
        ClearKind::EventLog(name) => inspect_event_log(name, gli_output),
        _ => {
            let mut files: u64 = 0;
            let mut bytes: u64 = 0;
            let mut i: usize = 0;
            while i < folders.len()
                invariant
                    0 <= i <= folders@.len(),
                    sum_files(folders@) <= u64::MAX,
                    sum_bytes(folders@) <= u64::MAX,
                    files == sum_files(folders@.take(i as int)),
                    bytes == sum_bytes(folders@.take(i as int)),
                decreases folders@.len() - i,
            {
                proof {
                    assert(folders@.take(i + 1).drop_last() =~= folders@.take(i as int));
                    lemma_sums_prefix_mono(folders@, i + 1);
                }
                files = files + folders[i].files;
                bytes = bytes + folders[i].bytes;
                i = i + 1;
            }
            assert(folders@.take(folders@.len() as int) =~= folders@);
            let location = if folders.len() > 0 {
                folders[0].path.clone()
            } else {
                crate::text::string_of(action.id)
            };
            let mut note = String::new();
            if folders.len() > 1 {
                push_dec(&mut note, folders.len() as u64);
                push_str(&mut note, " folders");
            }
            let r = LogStatus { files, bytes, location, note };
            assert(status_view(r) =~= folder_status(action.id@, folders@));
            r
        },
    }
}

proof fn lemma_sums_prefix_mono(fs: Seq<FolderStats>, k: int)
    requires
        0 <= k <= fs.len(),
    ensures
        sum_files(fs.take(k)) <= sum_files(fs),
        sum_bytes(fs.take(k)) <= sum_bytes(fs),
    decreases fs.len() - k,
{
    if k < fs.len() {
        lemma_sums_prefix_mono(fs, k + 1);
        assert(fs.take(k + 1).drop_last() =~= fs.take(k));
    } else {
        assert(fs.take(k) =~= fs);
    }
}

/// What to launch to show a target: Event Viewer for a channel (focused on it
/// when the channel name has a `/`), else the first present folder.
pub open spec fn open_target_view(kind: ClearKind, present_path: Option<Seq<char>>) -> Option<
    Seq<char>,
> {
    match kind {
        ClearKind::EventLog(name) => Some(
            if name@.contains('/') {
                "eventvwr.exe /c:"@ + name@
            } else {
                "eventvwr.msc"@
            },
        ),
        _ => present_path,
    }
}

pub open spec fn option_view(o: Option<&str>) -> Option<Seq<char>> {
    match o {
        Some(s) => Some(s@),
        None => None,
    }
}

fn contains_char(s: &str, c: char) -> (r: bool)
    ensures
        r == s@.contains(c),
{
    let v = chars_of(s);
    let mut i: usize = 0;
    while i < v.len()
        invariant
            0 <= i <= v@.len(),
            v@ == s@,
            forall|k: int| 0 <= k < i ==> v@[k] != c,
        decreases v@.len() - i,
    {
        if v[i] == c {
            return true;
        }
        i = i + 1;
    }
    false
}

/// What to launch so the user can look at `action` (`present_path`: its first
/// folder that exists, if any).
pub fn open_target(action: &ClearAction, present_path: Option<&str>) -> (r: Option<String>)
    ensures
        match open_target_view(action.kind, option_view(present_path)) {
            None => r is None,
            Some(t) => r is Some && r.unwrap()@ == t,
        },
{
    match action.kind {
        ClearKind::EventLog(name) => {
            let mut t = String::new();
            if contains_char(name, '/') {
                push_str(&mut t, "eventvwr.exe /c:");
                push_str(&mut t, name);
            } else {
                push_str(&mut t, "eventvwr.msc");
            }
            assert(t@ =~= open_target_view(action.kind, option_view(present_path)).unwrap());
            Some(t)
        },
        _ => match present_path {
            Some(p) => Some(crate::text::string_of(p)),
            None => None,
        },
    }
}

pub open spec fn open_location_view(
    kind: ClearKind,
    present_path: Option<Seq<char>>,
    launched: Result<bool, Seq<char>>,
) -> Result<Seq<char>, Seq<char>> {
    match open_target_view(kind, present_path) {
        None => Err("log location not found"@),
        Some(t) => match start_result_view(t, launched) {
            Err(e) => Err(e),
            Ok(_) => Ok(
                match kind {
                    ClearKind::EventLog(name) => "Opened Event Viewer for "@ + name@,
                    _ => "Opened "@ + t,
                },
            ),
        },
    }
}

/// Open Explorer / Event Viewer for this target so the user can see the logs:
/// judges the launch of [`open_target`] (`launched` is how it went; it is not
/// looked at when there was nothing to launch).
pub fn open_location(
    action: &ClearAction,
    present_path: Option<&str>,
    launched: Result<bool, String>,
) -> (r: Result<String, String>)
    ensures
        text_result_view(r) == open_location_view(
            action.kind,
            option_view(present_path),
            result_view(launched),
        ),
{
    let target = match open_target(action, present_path) {
        None => {
            return Err(crate::text::string_of("log location not found"));
        },
        Some(t) => t,
    };
    match start_detached(target.as_str(), launched) {
        Err(e) => Err(e),
        Ok(()) => {
            let mut m = String::new();
            match action.kind {
                ClearKind::EventLog(name) => {
                    push_str(&mut m, "Opened Event Viewer for ");
                    push_str(&mut m, name);
                },
                _ => {
                    push_str(&mut m, "Opened ");
                    push_str(&mut m, target.as_str());
                },
            }
            assert(text_result_view(Ok::<String, String>(m)) =~= open_location_view(
                action.kind,
                option_view(present_path),
                result_view(launched),
            ));
            Ok(m)
        },
    }
}

/// What clearing one folder achieved.
#[derive(Debug, Clone, Copy, PartialEq, Eq, Structural)]
pub struct Cleared {
    pub removed: u64,
    pub bytes: u64,
    pub skipped: u64,
}

/// The results before the first failure.
pub open spec fn cleared_prefix(rs: Seq<Result<Cleared, String>>) -> Seq<Cleared>
    decreases rs.len(),
{
    if rs.len() == 0 {
        Seq::empty()
    } else {
        match rs[0] {
            Ok(c) => seq![c] + cleared_prefix(rs.drop_first()),
            Err(_) => Seq::empty(),
        }
    }
}

pub open spec fn total_removed(cs: Seq<Cleared>) -> nat
    decreases cs.len(),
{
    if cs.len() == 0 {
        0
    } else {
        total_removed(cs.drop_last()) + cs.last().removed as nat
    }
}

pub open spec fn total_bytes(cs: Seq<Cleared>) -> nat
    decreases cs.len(),
{
    if cs.len() == 0 {
        0
    } else {
        total_bytes(cs.drop_last()) + cs.last().bytes as nat
    }
}

pub open spec fn total_skipped(cs: Seq<Cleared>) -> nat
    decreases cs.len(),
{
    if cs.len() == 0 {
        0
    } else {
        total_skipped(cs.drop_last()) + cs.last().skipped as nat
    }
}

/// Clearing folders one after another stops at the first failure; else the
/// counts add up.
pub open spec fn accumulate_view(rs: Seq<Result<Cleared, String>>) -> Result<
    (nat, nat, nat),
    Seq<char>,
> {
    let ok = cleared_prefix(rs);
    if ok.len() < rs.len() {
        Err(rs[ok.len() as int]->Err_0@)
    } else {
        Ok((total_removed(ok), total_bytes(ok), total_skipped(ok)))
    }
}

proof fn lemma_cleared_prefix_len(rs: Seq<Result<Cleared, String>>)
    ensures
        cleared_prefix(rs).len() <= rs.len(),
        cleared_prefix(rs).len() < rs.len() ==> rs[cleared_prefix(rs).len() as int] is Err,
        forall|k: int|
            0 <= k < cleared_prefix(rs).len() ==> rs[k] == Ok::<Cleared, String>(
                #[trigger] cleared_prefix(rs)[k],
            ),
    decreases rs.len(),
{
    if rs.len() > 0 {
        lemma_cleared_prefix_len(rs.drop_first());
        if rs[0] is Ok {
            let p = cleared_prefix(rs);
            let q = cleared_prefix(rs.drop_first());
            assert forall|k: int| 0 <= k < p.len() implies rs[k] == Ok::<Cleared, String>(
                #[trigger] p[k],
            ) by {
                if k > 0 {
                    assert(p[k] == q[k - 1]);
                    assert(rs.drop_first()[k - 1] == rs[k]);
                }
            }
        }
    }
}

proof fn lemma_totals_push(cs: Seq<Cleared>, c: Cleared)
    ensures
        total_removed(cs.push(c)) == total_removed(cs) + c.removed,
        total_bytes(cs.push(c)) == total_bytes(cs) + c.bytes,
        total_skipped(cs.push(c)) == total_skipped(cs) + c.skipped,
{
    assert(cs.push(c).drop_last() =~= cs);
}

proof fn lemma_totals_prefix_mono(cs: Seq<Cleared>, k: int)
    requires
        0 <= k <= cs.len(),
    ensures
        total_removed(cs.take(k)) <= total_removed(cs),
        total_bytes(cs.take(k)) <= total_bytes(cs),
        total_skipped(cs.take(k)) <= total_skipped(cs),
    decreases cs.len() - k,
{
    if k < cs.len() {
        lemma_totals_prefix_mono(cs, k + 1);
        assert(cs.take(k + 1) =~= cs.take(k).push(cs[k]));
        lemma_totals_push(cs.take(k), cs[k]);
    } else {
        assert(cs.take(k) =~= cs);
    }
}

/// Adds up the results of clearing several folders in turn (the clearing
/// stopped at the first failure, which is then the outcome).
pub fn accumulate_cleared(results: &[Result<Cleared, String>]) -> (r: Result<Cleared, String>)
    requires
        total_removed(cleared_prefix(results@)) <= u64::MAX,
        total_bytes(cleared_prefix(results@)) <= u64::MAX,
        total_skipped(cleared_prefix(results@)) <= u64::MAX,
    ensures
        match accumulate_view(results@) {
            Err(e) => r is Err && r->Err_0@ == e,
            Ok((a, b, c)) => r == Ok::<Cleared, String>(
                Cleared { removed: a as u64, bytes: b as u64, skipped: c as u64 },
            ),
        },
{
    let ghost ok = cleared_prefix(results@);
    proof {
        lemma_cleared_prefix_len(results@);
    }
    let mut removed: u64 = 0;
    let mut bytes: u64 = 0;
    let mut skipped: u64 = 0;
    let mut i: usize = 0;
    assert(ok.take(0) =~= Seq::<Cleared>::empty());
    while i < results.len()
        invariant
            0 <= i <= results@.len(),
            ok == cleared_prefix(results@),
            i <= ok.len(),
            ok.len() <= results@.len(),
            ok.len() < results@.len() ==> results@[ok.len() as int] is Err,
            forall|k: int| 0 <= k < ok.len() ==> results@[k] == Ok::<Cleared, String>(#[trigger] ok[k]),
            total_removed(ok) <= u64::MAX,
            total_bytes(ok) <= u64::MAX,
            total_skipped(ok) <= u64::MAX,
            removed == total_removed(ok.take(i as int)),
            bytes == total_bytes(ok.take(i as int)),
            skipped == total_skipped(ok.take(i as int)),
        decreases results@.len() - i,
    {
        match &results[i] {
            Err(e) => {
                proof {
                    if i < ok.len() {
                        assert(results@[i as int] == Ok::<Cleared, String>(ok[i as int]));
                    }
                }
                return Err(e.clone());
            },
            Ok(c) => {
                proof {
                    if i == ok.len() {
                        assert(false);
                    }
                    assert(results@[i as int] == Ok::<Cleared, String>(ok[i as int]));
                    assert(ok.take(i + 1) =~= ok.take(i as int).push(ok[i as int]));
                    lemma_totals_push(ok.take(i as int), ok[i as int]);
                    lemma_totals_prefix_mono(ok, i + 1);
                }
                removed = removed + c.removed;
                bytes = bytes + c.bytes;
                skipped = skipped + c.skipped;
            },
        }
        i = i + 1;
    }
    assert(ok.take(ok.len() as int) =~= ok);
    Ok(Cleared { removed, bytes, skipped })
}

/// Why a single-folder target cannot be cleared when its folder does not resolve.
pub open spec fn missing_path_view(kind: ClearKind) -> Seq<char> {
    match kind {
        ClearKind::CbsLogs => "SystemRoot not set"@,
        _ => "path missing"@,
    }
}

pub fn missing_path_error(action: &ClearAction) -> (r: String)
    ensures
        r@ == missing_path_view(action.kind),
{
    match action.kind {
        ClearKind::CbsLogs => crate::text::string_of("SystemRoot not set"),
        _ => crate::text::string_of("path missing"),
    }
}

/// The message a successful clear reports.
pub open spec fn clear_message(a: ClearAction) -> Seq<char> {
    match a.kind {
        ClearKind::DiagnosisFolder | ClearKind::DiagnosisEtl => a.title@ + " wiped"@,
        ClearKind::Wer => "WER queues cleared"@,
        ClearKind::EventLog(name) => "Event log cleared: "@ + name@,
        ClearKind::CbsLogs => "CBS logs cleared"@,
        _ => a.title@ + " cleared"@,
    }
}

/// Wipe the target and report how much was cleared: `available` says whether
/// the target is present, `before` is its inspection, `outcome` is what the
/// wiping did (for an event channel only its success counts; the counts then
/// come from `before`).
pub fn clear(action: &ClearAction, available: bool, before: LogStatus, outcome: Result<
    Cleared,
    String,
>) -> (r: Result<ClearResult, String>)
    ensures
        !available ==> r is Err && r->Err_0@ == "'"@ + action.title@
            + "' is not available on this system"@,
        available && outcome is Err ==> r is Err && r->Err_0@ == outcome->Err_0@,
        available && outcome is Ok ==> r is Ok && {
            let res = r->Ok_0;
            let c = outcome->Ok_0;
            &&& status_view(res.before) == status_view(before)
            &&& res.message@ == clear_message(*action)
            &&& match action.kind {
                ClearKind::EventLog(_) => res.removed_files == before.files && res.freed_bytes
                    == before.bytes && res.skipped == 0,
                _ => res.removed_files == c.removed && res.freed_bytes == c.bytes && res.skipped
                    == c.skipped,
            }
        },
{
    if !available {
        let mut e = String::new();
        push_str(&mut e, "'");
        push_str(&mut e, action.title);
        push_str(&mut e, "' is not available on this system");
        assert(e@ =~= "'"@ + action.title@ + "' is not available on this system"@);
        return Err(e);
    }
    let c = match outcome {
        Err(e) => {
            return Err(e);
        },
        Ok(c) => c,
    };
    let mut message = String::new();
    match action.kind {
        ClearKind::DiagnosisFolder | ClearKind::DiagnosisEtl => {
            push_str(&mut message, action.title);
            push_str(&mut message, " wiped");
        },
        ClearKind::Wer => {
            push_str(&mut message, "WER queues cleared");
        },
        ClearKind::EventLog(name) => {
            push_str(&mut message, "Event log cleared: ");
            push_str(&mut message, name);
        },
        ClearKind::CbsLogs => {
            push_str(&mut message, "CBS logs cleared");
        },
        _ => {
            push_str(&mut message, action.title);
            push_str(&mut message, " cleared");
        },
    }
    assert(message@ =~= clear_message(*action));
    let (removed_files, freed_bytes, skipped) = match action.kind {
        ClearKind::EventLog(_) => (before.files, before.bytes, 0),
        _ => (c.removed, c.bytes, c.skipped),
    };
    Ok(ClearResult { removed_files, freed_bytes, skipped, before, message })
}

/// Text of a failed `wevtutil cl`: its trimmed stderr then stdout, or a
/// generic line when both are blank.
pub open spec fn event_log_error_view(name: Seq<char>, stderr: Seq<char>, stdout: Seq<char>) -> Seq<
    char,
> {
    let msg = trim(stderr) + trim(stdout);
    if msg.len() == 0 {
        "wevtutil failed for "@ + name
    } else {
        msg
    }
}

/// Judges `wevtutil cl <name>` from its exit status and output.
pub fn clear_event_log(name: &str, success: bool, stderr: &str, stdout: &str) -> (r: Result<
    (),
    String,
>)
    ensures
        success ==> r is Ok,
        !success ==> r is Err && r->Err_0@ == event_log_error_view(name@, stderr@, stdout@),
{
    if success {
        return Ok(());
    }
    let a = trim_chars(&chars_of(stderr));
    let b = trim_chars(&chars_of(stdout));
    if a.len() == 0 && b.len() == 0 {
        let mut e = String::new();
        push_str(&mut e, "wevtutil failed for ");
        push_str(&mut e, name);
        assert(e@ =~= event_log_error_view(name@, stderr@, stdout@));
        Err(e)
    } else {
        let mut e = crate::text::string_from_chars(&a);
        let tail = crate::text::string_from_chars(&b);
        push_str(&mut e, tail.as_str());
        assert(e@ =~= event_log_error_view(name@, stderr@, stdout@));
        Err(e)
    }
}

/// The targets `table` keeps among the first `k`, those for which `keep` holds.
pub open spec fn select_upto(
    table: Seq<ClearAction>,
    keep: spec_fn(int, ClearAction) -> bool,
    k: int,
) -> Seq<ClearAction>
    decreases k,
{
    if k <= 0 {
        Seq::empty()
    } else {
        select_upto(table, keep, k - 1) + if keep(k - 1, table[k - 1]) {
            seq![table[k - 1]]
        } else {
            Seq::empty()
        }
    }
}

/// Which table entries a selection keeps.
pub open spec fn keep_for(available: Seq<bool>, include_dangerous: bool, any_danger: bool) -> spec_fn(
    int,
    ClearAction,
) -> bool {
    |i: int, a: ClearAction| available[i] && (!any_danger || include_dangerous || !a.dangerous)
}

/// Targets a bulk clear touches: available ones, dangerous ones only when asked.
pub open spec fn clear_all_view(include_dangerous: bool, available: Seq<bool>) -> Seq<ClearAction> {
    select_upto(action_table(), keep_for(available, include_dangerous, true), 14)
}

/// Targets the status panel shows: the available ones.
pub open spec fn inspect_all_view(available: Seq<bool>) -> Seq<ClearAction> {
    select_upto(action_table(), |i: int, a: ClearAction| available[i], 14)
}

fn select_actions(available: &[bool], include_dangerous: bool, any_danger: bool) -> (r: Vec<
    ClearAction,
>)
    requires
        available@.len() == 14,
    ensures
        r@ == select_upto(action_table(), keep_for(available@, include_dangerous, any_danger), 14),
{
    let ghost keep = keep_for(available@, include_dangerous, any_danger);
    let table = all();
    let mut r: Vec<ClearAction> = Vec::new();
    let mut i: usize = 0;
    while i < 14
        invariant
            0 <= i <= 14,
            available@.len() == 14,
            table@ == action_table(),
            keep == keep_for(available@, include_dangerous, any_danger),
            r@ == select_upto(action_table(), keep, i as int),
        decreases 14 - i,
    {
        let a = table[i];
        assert(keep(i as int, action_table()[i as int]) == (available@[i as int] && (!any_danger
            || include_dangerous || !a.dangerous)));
        if available[i] && (!any_danger || include_dangerous || !a.dangerous) {
            r.push(a);
        }
        i = i + 1;
        assert(r@ =~= select_upto(action_table(), keep, i as int));
    }
    r
}

/// Targets a bulk clear touches, in table order (`available[i]`: whether
/// table entry `i` is available).
pub fn clear_all(include_dangerous: bool, available: &[bool]) -> (r: Vec<ClearAction>)
    requires
        available@.len() == 14,
    ensures
        r@ == clear_all_view(include_dangerous, available@),
{
    select_actions(available, include_dangerous, true)
}

/// Targets to inspect for the status panel: every available one.
pub fn inspect_all(available: &[bool]) -> (r: Vec<ClearAction>)
    requires
        available@.len() == 14,
    ensures
        r@ == inspect_all_view(available@),
{
    let r = select_actions(available, true, false);
    assert(keep_for(available@, true, false) =~= (|i: int, a: ClearAction| available@[i]));
    assert(r@ =~= inspect_all_view(available@));
    r
}

/// Snapshot of availability per target id.
pub fn availability_map(available: &[bool]) -> (r: Vec<(&'static str, bool)>)
    requires
        available@.len() == 14,
    ensures
        r@.len() == 14,
        forall|i: int|
            0 <= i < 14 ==> (#[trigger] r@[i]).0@ == action_table()[i].id@ && r@[i].1
                == available@[i],
{
    let table = all();
    let mut r: Vec<(&'static str, bool)> = Vec::new();
    let mut i: usize = 0;
    while i < 14
        invariant
            0 <= i <= 14,
            available@.len() == 14,
            table@ == action_table(),
            r@.len() == i,
            forall|k: int|
                0 <= k < i ==> (#[trigger] r@[k]).0@ == action_table()[k].id@ && r@[k].1
                    == available@[k],
        decreases 14 - i,
    {
        r.push((table[i].id, available[i]));
        i = i + 1;
    }
    r
}


proof fn lemma_select_upto_all(
    table: Seq<ClearAction>,
    keep: spec_fn(int, ClearAction) -> bool,
    k: int,
    q: spec_fn(ClearAction) -> bool,
)
    requires
        0 <= k <= table.len(),
        forall|i: int| 0 <= i < k && keep(i, table[i]) ==> #[trigger] q(table[i]),
    ensures
        forall|j: int| 0 <= j < select_upto(table, keep, k).len() ==> q(
            #[trigger] select_upto(table, keep, k)[j],
        ),
    decreases k,
{
    if k > 0 {
        lemma_select_upto_all(table, keep, k - 1, q);
        let prev = select_upto(table, keep, k - 1);
        let cur = select_upto(table, keep, k);
        assert forall|j: int| 0 <= j < cur.len() implies q(#[trigger] cur[j]) by {
            if j < prev.len() {
                assert(cur[j] == prev[j]);
            } else {
                assert(cur[j] == table[k - 1]);
                assert(keep(k - 1, table[k - 1]));
            }
        }
    }
}

/// A bulk clear of the safe targets never touches a dangerous one (the
/// Diagnosis store and the Security log are only cleared when asked for).
pub proof fn lemma_safe_clear_excludes_dangerous(available: Seq<bool>)
    requires
        available.len() == 14,
    ensures
        forall|j: int|
            0 <= j < clear_all_view(false, available).len() ==> !(#[trigger] clear_all_view(
                false,
                available,
            )[j]).dangerous,
{
    let keep = keep_for(available, false, true);
    let q = |a: ClearAction| !a.dangerous;
    assert forall|i: int| 0 <= i < 14 && keep(i, action_table()[i]) implies #[trigger] q(
        action_table()[i],
    ) by {
    }
    lemma_select_upto_all(action_table(), keep, 14, q);
}

proof fn lemma_select_filter(table: Seq<ClearAction>, available: Seq<bool>, k: int)
    requires
        0 <= k <= table.len(),
    ensures
        select_upto(table, keep_for(available, false, true), k) == select_upto(
            table,
            keep_for(available, true, true),
            k,
        ).filter(|a: ClearAction| !a.dangerous),
    decreases k,
{
    let q = |a: ClearAction| !a.dangerous;
    if k > 0 {
        lemma_select_filter(table, available, k - 1);
        let all_prev = select_upto(table, keep_for(available, true, true), k - 1);
        let x = table[k - 1];
        all_prev.lemma_filter_push(x, q);
        if available[k - 1] {
            assert(select_upto(table, keep_for(available, true, true), k) =~= all_prev.push(x));
        } else {
            assert(select_upto(table, keep_for(available, true, true), k) =~= all_prev);
        }
        assert(select_upto(table, keep_for(available, false, true), k) =~= select_upto(
            table,
            keep_for(available, true, true),
            k,
        ).filter(q));
    }
}

/// The safe bulk clear touches exactly the targets of the full one that are
/// not dangerous, in the same order: it is the full selection with the
/// dangerous targets taken out.
pub proof fn lemma_safe_clear_is_full_clear_without_dangerous(available: Seq<bool>)
    requires
        available.len() == 14,
    ensures
        clear_all_view(false, available) == clear_all_view(true, available).filter(
            |a: ClearAction| !a.dangerous,
        ),
{
    lemma_select_filter(action_table(), available, 14);
}

/// The first index at which `present` holds, if any.
pub open spec fn is_first_present(present: Seq<bool>, i: int) -> bool {
    &&& 0 <= i < present.len()
    &&& present[i]
    &&& forall|j: int| 0 <= j < i ==> !present[j]
}

/// The folder to open: the first of `paths` that is present
/// (`present[i]` for `paths[i]`); `None` when none is.
pub fn first_present_path(paths: &[String], present: &[bool]) -> (r: Option<String>)
    requires
        paths@.len() == present@.len(),
    ensures
        match r {
            None => forall|j: int| 0 <= j < present@.len() ==> !present@[j],
            Some(p) => exists|i: int| is_first_present(present@, i) && p@ == paths@[i]@,
        },
{
    let mut i: usize = 0;
    while i < present.len()
        invariant
            0 <= i <= present@.len(),
            paths@.len() == present@.len(),
            forall|j: int| 0 <= j < i ==> !present@[j],
        decreases present@.len() - i,
    {
        if present[i] {
            let p = crate::text::string_of(paths[i].as_str());
            assert(is_first_present(present@, i as int));
            return Some(p);
        }
        i = i + 1;
    }
    None
}

/// The indices of the present folders, in order (a WER clear empties each).
pub fn present_indices(present: &[bool]) -> (r: Vec<usize>)
    ensures
        r@.map_values(|i: usize| i as int) == Seq::new(present@.len(), |j: int| j).filter(
            |j: int| present@[j],
        ),
{
    let ghost all = Seq::new(present@.len(), |j: int| j);
    let mut r: Vec<usize> = Vec::new();
    let mut i: usize = 0;
    while i < present.len()
        invariant
            0 <= i <= present@.len(),
            all == Seq::new(present@.len(), |j: int| j),
            r@.map_values(|k: usize| k as int) == all.take(i as int).filter(|j: int| present@[j]),
        decreases present@.len() - i,
    {
        proof {
            assert(all.take(i + 1) =~= all.take(i as int).push(i as int));
            all.take(i as int).lemma_filter_push(i as int, |j: int| present@[j]);
        }
        if present[i] {
            r.push(i);
        }
        proof {
            assert(r@.map_values(|k: usize| k as int) =~= all.take(i + 1).filter(|j: int| present@[j]));
        }
        i = i + 1;
    }
    assert(all.take(present@.len() as int) =~= all);
    r
}

/// The work of one clear.
#[derive(Debug, Clone, Copy)]
pub enum ClearWork {
    /// Nothing is deleted (the target is not available).
    Nothing,
    /// `wevtutil cl` on the channel.
    EventLog(&'static str),
    /// Empty each present folder of the target in turn, stopping at the first
    /// that fails (see [`present_indices`], [`accumulate_cleared`]).
    EachPresentFolder,
    /// Empty the first folder of the target, its subfolders too when `true`.
    FirstFolder(bool),
}

/// What a clear does before [`clear`] judges it: whether DiagTrack is stopped
/// first, and the work itself.
pub open spec fn clear_plan_view(a: ClearAction, available: bool) -> (bool, ClearWork) {
    if !available {
        (false, ClearWork::Nothing)
    } else {
        (
            a.kind is DiagnosisFolder || a.kind is DiagnosisEtl,
            match a.kind {
                ClearKind::EventLog(name) => ClearWork::EventLog(name),
                ClearKind::Wer => ClearWork::EachPresentFolder,
                _ => ClearWork::FirstFolder(!(a.kind is CbsLogs)),
            },
        )
    }
}

/// What clearing `a` does (see [`clear_plan_view`]); nothing at all for an
/// unavailable target.
pub fn clear_plan(a: &ClearAction, available: bool) -> (r: (bool, ClearWork))
    ensures
        r == clear_plan_view(*a, available),
{
    if !available {
        return (false, ClearWork::Nothing);
    }
    let work = match a.kind {
        ClearKind::EventLog(name) => ClearWork::EventLog(name),
        ClearKind::Wer => ClearWork::EachPresentFolder,
        _ => ClearWork::FirstFolder(a.clears_recursively()),
    };
    (a.stops_diagtrack_first(), work)
}

} // verus!
