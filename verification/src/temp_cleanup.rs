//! Clear Windows temporary folders.
//!
//! This module knows the targets, where each one lives (which environment
//! variable and which path under it), when a target counts as available,
//! and how inspections, clears and launches are reported; the caller reads
//! the environment and the file system and hands the results back.

use vstd::prelude::*;

use crate::launch::{result_view, start_detached, start_result_view, text_result_view};
use crate::log_cleanup::{format_bytes_view, push_format_bytes, Cleared};
use crate::text::{chars_eq, dec, normalize_id, normalize_id_chars, push_dec, push_str, string_of};

verus! {

/// Where a temporary folder lives.
#[derive(Debug, Clone, Copy)]
pub enum TempKind {
    /// The folder an environment variable names.
    EnvVar(&'static str),
    /// A folder under `%SystemRoot%`.
    SystemRelative(&'static str),
    /// A folder under `%LOCALAPPDATA%`.
    LocalAppDataRelative(&'static str),
    /// `%APPDATA%\Microsoft\Windows\Recent`.
    Recent,
}

#[derive(Debug, Clone, Copy)]
pub struct TempTarget {
    pub id: &'static str,
    pub title: &'static str,
    pub description: &'static str,
    /// Needs Administrator (e.g. Windows\Temp, Prefetch).
    pub needs_admin: bool,
    pub kind: TempKind,
}

/// Every temporary-folder target, in display order. The whole of
/// `%LOCALAPPDATA%` or `%APPDATA%` is never one: the disclaimer acceptance
/// lives under `%APPDATA%` and must survive clears.
pub open spec fn target_table() -> Seq<TempTarget> {
    seq![
        TempTarget {
            id: "user-temp",
            title: "User TEMP folder",
            description: "%TEMP% — current user temporary files.",
            needs_admin: false,
            kind: TempKind::EnvVar("TEMP"),
        },
        TempTarget {
            id: "user-tmp",
            title: "User TMP folder",
            description: "%TMP% (hidden if same as TEMP).",
            needs_admin: false,
            kind: TempKind::EnvVar("TMP"),
        },
        TempTarget {
            id: "local-temp",
            title: "LocalAppData\\Temp",
            description: "%LOCALAPPDATA%\\Temp (hidden if same as TEMP).",
            needs_admin: false,
            kind: TempKind::LocalAppDataRelative("Temp"),
        },
        TempTarget {
            id: "windows-temp",
            title: "Windows\\Temp",
            description: "%SystemRoot%\\Temp — system temporary files.",
            needs_admin: true,
            kind: TempKind::SystemRelative("Temp"),
        },
        TempTarget {
            id: "prefetch",
            title: "Prefetch",
            description: "%SystemRoot%\\Prefetch — app launch traces (rebuilds after clear).",
            needs_admin: true,
            kind: TempKind::SystemRelative("Prefetch"),
        },
        TempTarget {
            id: "recent",
            title: "Recent items",
            description: "%APPDATA%\\Microsoft\\Windows\\Recent shortcuts.",
            needs_admin: false,
            kind: TempKind::Recent,
        },
    ]
}

/// Every temporary-folder target, in display order.
pub fn all() -> (r: Vec<TempTarget>)
    ensures
        r@ == target_table(),
{
    let r = vec![
        TempTarget {
            id: "user-temp",
            title: "User TEMP folder",
            description: "%TEMP% — current user temporary files.",
            needs_admin: false,
            kind: TempKind::EnvVar("TEMP"),
        },
        TempTarget {
            id: "user-tmp",
            title: "User TMP folder",
            description: "%TMP% (hidden if same as TEMP).",
            needs_admin: false,
            kind: TempKind::EnvVar("TMP"),
        },
        TempTarget {
            id: "local-temp",
            title: "LocalAppData\\Temp",
            description: "%LOCALAPPDATA%\\Temp (hidden if same as TEMP).",
            needs_admin: false,
            kind: TempKind::LocalAppDataRelative("Temp"),
        },
        TempTarget {
            id: "windows-temp",
            title: "Windows\\Temp",
            description: "%SystemRoot%\\Temp — system temporary files.",
            needs_admin: true,
            kind: TempKind::SystemRelative("Temp"),
        },
        TempTarget {
            id: "prefetch",
            title: "Prefetch",
            description: "%SystemRoot%\\Prefetch — app launch traces (rebuilds after clear).",
            needs_admin: true,
            kind: TempKind::SystemRelative("Prefetch"),
        },
        TempTarget {
            id: "recent",
            title: "Recent items",
            description: "%APPDATA%\\Microsoft\\Windows\\Recent shortcuts.",
            needs_admin: false,
            kind: TempKind::Recent,
        },
    ];
    assert(r@ =~= target_table());
    r
}

/// The first target of `table` whose id is `n`.
pub open spec fn find_in(table: Seq<TempTarget>, n: Seq<char>) -> Option<TempTarget>
    decreases table.len(),
{
    if table.len() == 0 {
        None
    } else if table[0].id@ == n {
        Some(table[0])
    } else {
        find_in(table.drop_first(), n)
    }
}

/// Looking a target up by a typed id (case and surrounding white space ignored).
pub open spec fn find_target(id: Seq<char>) -> Option<TempTarget> {
    find_in(target_table(), normalize_id(id))
}

/// Where a target's folder is: an environment variable and, unless the
/// variable names the folder itself, a path to join under it.
pub open spec fn location_view(kind: TempKind) -> (Seq<char>, Option<Seq<char>>) {
    match kind {
        TempKind::Recent => ("APPDATA"@, Some("Microsoft\\Windows\\Recent"@)),
        TempKind::EnvVar(name) => (name@, None),
        TempKind::SystemRelative(rel) => ("SystemRoot"@, Some(rel@)),
        TempKind::LocalAppDataRelative(rel) => ("LOCALAPPDATA"@, Some(rel@)),
    }
}

/// Targets hidden when they are the same folder as `%TEMP%`.
pub open spec fn hidden_if_same_as_temp(id: Seq<char>) -> bool {
    id == "user-tmp"@ || id == "local-temp"@
}

/// A target is available when its folder resolves, is not a second name for
/// `%TEMP%` (for the targets that say so), and is present (an existence check
/// that fails counts as present).
pub open spec fn is_available_view(t: TempTarget, resolved: bool, same_as_temp: bool, present: bool) -> bool {
    resolved && !(hidden_if_same_as_temp(t.id@) && same_as_temp) && present
}

impl TempTarget {
    pub fn find(id: &str) -> (r: Option<TempTarget>)
        ensures
            r == find_target(id@),
    {
        let n = normalize_id_chars(id);
        let all = all();
        let mut i: usize = 0;
        assert(all@.skip(0) =~= all@);
        while i < 6
            invariant
                0 <= i <= 6,
                all@ == target_table(),
                n@ == normalize_id(id@),
                find_in(all@, n@) == find_in(all@.skip(i as int), n@),
            decreases 6 - i,
        {
            assert(all@.skip(i as int).drop_first() =~= all@.skip(i + 1));
            if chars_eq(&n, all[i].id) {
                return Some(all[i]);
            }
            i = i + 1;
        }
        None
    }

    /// The environment variable the folder hangs off, and the path under it.
    pub fn location(self) -> (r: (&'static str, Option<&'static str>))
        ensures
            r.0@ == location_view(self.kind).0,
            match location_view(self.kind).1 {
                None => r.1 is None,
                Some(p) => r.1 is Some && r.1.unwrap()@ == p,
            },
    {
        match self.kind {
            TempKind::Recent => ("APPDATA", Some("Microsoft\\Windows\\Recent")),
            TempKind::EnvVar(name) => (name, None),
            TempKind::SystemRelative(rel) => ("SystemRoot", Some(rel)),
            TempKind::LocalAppDataRelative(rel) => ("LOCALAPPDATA", Some(rel)),
        }
    }

    /// Whether this target is hidden when its folder is `%TEMP%` itself.
    pub fn hidden_if_same_as_temp(self) -> (r: bool)
        ensures
            r == hidden_if_same_as_temp(self.id@),
    {
        chars_eq(&crate::text::chars_of(self.id), "user-tmp") || chars_eq(
            &crate::text::chars_of(self.id),
            "local-temp",
        )
    }

    /// Whether the target is shown: `resolved` whether its variable is set,
    /// `same_as_temp` whether its folder is the same as `%TEMP%` (only read
    /// for the targets hidden in that case), `present` whether it exists.
    pub fn is_available(self, resolved: bool, same_as_temp: bool, present: bool) -> (r: bool)
        ensures
            r == is_available_view(self, resolved, same_as_temp, present),
    {
        if !resolved {
            return false;
        }
        if self.hidden_if_same_as_temp() && same_as_temp {
            return false;
        }
        present
    }
}

#[derive(Debug, Clone)]
pub struct TempStatus {
    pub files: u64,
    pub bytes: u64,
    pub location: String,
}

pub open spec fn temp_status_line(s: TempStatus) -> Seq<char> {
    s.location@ + " — "@ + dec(s.files as nat) + " file(s), "@ + format_bytes_view(s.bytes as nat)
}

impl TempStatus {
    pub fn summary_line(&self) -> (r: String)
        ensures
            r@ == temp_status_line(*self),
    {
        let mut s = string_of(self.location.as_str());
        push_str(&mut s, " — ");
        push_dec(&mut s, self.files);
        push_str(&mut s, " file(s), ");
        push_format_bytes(&mut s, self.bytes);
        assert(s@ =~= temp_status_line(*self));
        s
    }
}

#[derive(Debug, Clone)]
pub struct TempClearResult {
    pub removed_files: u64,
    pub freed_bytes: u64,
    pub skipped: u64,
    pub before: TempStatus,
    pub message: String,
}

pub open spec fn temp_clear_line(r: TempClearResult) -> Seq<char> {
    r.message@ + " — cleared "@ + dec(r.removed_files as nat) + " file(s)/item(s), freed "@
        + format_bytes_view(r.freed_bytes as nat) + ", skipped "@ + dec(r.skipped as nat)
}

impl TempClearResult {
    pub fn summary_line(&self) -> (r: String)
        ensures
            r@ == temp_clear_line(*self),
    {
        let mut s = string_of(self.message.as_str());
        push_str(&mut s, " — cleared ");
        push_dec(&mut s, self.removed_files);
        push_str(&mut s, " file(s)/item(s), freed ");
        push_format_bytes(&mut s, self.freed_bytes);
        push_str(&mut s, ", skipped ");
        push_dec(&mut s, self.skipped);
        assert(s@ =~= temp_clear_line(*self));
        s
    }
}

pub open spec fn temp_status_view(s: TempStatus) -> (u64, u64, Seq<char>) {
    (s.files, s.bytes, s.location@)
}

/// The status of a target: at its resolved folder with that folder's
/// measurement, else named by its id and empty.
pub open spec fn inspect_view(t: TempTarget, path: Option<Seq<char>>, files: u64, bytes: u64) -> (
    u64,
    u64,
    Seq<char>,
) {
    match path {
        Some(p) => (files, bytes, p),
        None => (0, 0, t.id@),
    }
}

pub open spec fn opt_str_view(o: Option<&str>) -> Option<Seq<char>> {
    match o {
        Some(s) => Some(s@),
        None => None,
    }
}

/// Count files / bytes for a target: `path` is its resolved folder (as text),
/// `files` and `bytes` what was measured there (read only when it resolved).
pub fn inspect(target: &TempTarget, path: Option<&str>, files: u64, bytes: u64) -> (r: TempStatus)
    ensures
        temp_status_view(r) == inspect_view(*target, opt_str_view(path), files, bytes),
{
    match path {
        Some(p) => TempStatus { files, bytes, location: string_of(p) },
        None => TempStatus { files: 0, bytes: 0, location: string_of(target.id) },
    }
}

/// Showing a target's folder: it must resolve and be present, then the
/// detached launch decides.
pub open spec fn open_location_view(present_path: Option<Seq<char>>, launched: Result<
    bool,
    Seq<char>,
>) -> Result<Seq<char>, Seq<char>> {
    match present_path {
        None => Err("temp location not found"@),
        Some(p) => match start_result_view(p, launched) {
            Err(e) => Err(e),
            Ok(_) => Ok("Opened "@ + p),
        },
    }
}

/// Open Explorer on a target's folder: `present_path` is the folder when it
/// resolves and is present, `launched` how the launch went (not read when
/// there was nothing to open).
pub fn open_location(target: &TempTarget, present_path: Option<&str>, launched: Result<bool, String>) -> (r:
    Result<String, String>)
    ensures
        text_result_view(r) == open_location_view(opt_str_view(present_path), result_view(launched)),
{
    let p = match present_path {
        None => {
            return Err(string_of("temp location not found"));
        },
        Some(p) => p,
    };
    match start_detached(p, launched) {
        Err(e) => Err(e),
        Ok(()) => {
            let mut m = string_of("Opened ");
            push_str(&mut m, p);
            Ok(m)
        },
    }
}

/// Empty a target and report it: `available` whether it is available,
/// `before` its inspection, `resolved` whether its folder resolved, and
/// `outcome` what emptying the folder (recursively) did.
pub fn clear(
    target: &TempTarget,
    available: bool,
    before: TempStatus,
    resolved: bool,
    outcome: Result<Cleared, String>,
) -> (r: Result<TempClearResult, String>)
    ensures
        !available ==> r is Err && r->Err_0@ == "'"@ + target.title@ + "' is not available"@,
        available && !resolved ==> r is Err && r->Err_0@ == "path missing"@,
        available && resolved && outcome is Err ==> r is Err && r->Err_0@ == outcome->Err_0@,
        available && resolved && outcome is Ok ==> r is Ok && {
            let res = r->Ok_0;
            let c = outcome->Ok_0;
            &&& res.removed_files == c.removed
            &&& res.freed_bytes == c.bytes
            &&& res.skipped == c.skipped
            &&& temp_status_view(res.before) == temp_status_view(before)
            &&& res.message@ == target.title@ + " cleared"@
        },
{
    if !available {
        let mut e = string_of("'");
        push_str(&mut e, target.title);
        push_str(&mut e, "' is not available");
        return Err(e);
    }
    if !resolved {
        return Err(string_of("path missing"));
    }
    let c = match outcome {
        Err(e) => {
            return Err(e);
        },
        Ok(c) => c,
    };
    let mut message = string_of(target.title);
    push_str(&mut message, " cleared");
    Ok(TempClearResult {
        removed_files: c.removed,
        freed_bytes: c.bytes,
        skipped: c.skipped,
        before,
        message,
    })
}

/// The entries of `table` before `k` that `available` marks.
pub open spec fn available_upto(table: Seq<TempTarget>, available: Seq<bool>, k: int) -> Seq<
    TempTarget,
>
    decreases k,
{
    if k <= 0 {
        Seq::empty()
    } else {
        available_upto(table, available, k - 1) + if available[k - 1] {
            seq![table[k - 1]]
        } else {
            Seq::empty()
        }
    }
}

/// The available targets, in table order (`available[i]`: whether table
/// entry `i` is available). A bulk clear and the status panel both use them.
pub fn clear_all(available: &[bool]) -> (r: Vec<TempTarget>)
    requires
        available@.len() == 6,
    ensures
        r@ == available_upto(target_table(), available@, 6),
{
    let table = all();
    let mut r: Vec<TempTarget> = Vec::new();
    let mut i: usize = 0;
    while i < 6
        invariant
            0 <= i <= 6,
            available@.len() == 6,
            table@ == target_table(),
            r@ == available_upto(target_table(), available@, i as int),
        decreases 6 - i,
    {
        if available[i] {
            r.push(table[i]);
        }
        i = i + 1;
        assert(r@ =~= available_upto(target_table(), available@, i as int));
    }
    r
}

/// The targets to inspect: every available one, in table order.
pub fn inspect_all(available: &[bool]) -> (r: Vec<TempTarget>)
    requires
        available@.len() == 6,
    ensures
        r@ == available_upto(target_table(), available@, 6),
{
    clear_all(available)
}

/// Snapshot of availability per target id.
pub fn availability_map(available: &[bool]) -> (r: Vec<(&'static str, bool)>)
    requires
        available@.len() == 6,
    ensures
        r@.len() == 6,
        forall|i: int|
            0 <= i < 6 ==> (#[trigger] r@[i]).0@ == target_table()[i].id@ && r@[i].1
                == available@[i],
{
    let table = all();
    let mut r: Vec<(&'static str, bool)> = Vec::new();
    let mut i: usize = 0;
    while i < 6
        invariant
            0 <= i <= 6,
            available@.len() == 6,
            table@ == target_table(),
            r@.len() == i,
            forall|k: int|
                0 <= k < i ==> (#[trigger] r@[k]).0@ == target_table()[k].id@ && r@[k].1
                    == available@[k],
        decreases 6 - i,
    {
        r.push((table[i].id, available[i]));
        i = i + 1;
    }
    r
}

/// Every target is found by its own id.
pub proof fn lemma_find_own_id(i: int)
    requires
        0 <= i < 6,
    ensures
        find_target(target_table()[i].id@) == Some(target_table()[i]),
{
    reveal_strlit("user-temp");
    reveal_strlit("user-tmp");
    reveal_strlit("local-temp");
    reveal_strlit("windows-temp");
    reveal_strlit("prefetch");
    reveal_strlit("recent");
    let t = target_table();
    let id = t[i].id@;
    assert(crate::text::trim_start(id) == id);
    assert(crate::text::trim_end(id) == id);
    assert(crate::text::ascii_lower(id) =~= id);
    reveal_with_fuel(find_in, 7);
}


/// No temp target is the whole of `%APPDATA%` or `%LOCALAPPDATA%`: the
/// disclaimer acceptance kept there survives every temp clear.
pub proof fn lemma_no_target_is_a_whole_profile_folder(i: int)
    requires
        0 <= i < 6,
    ensures
        location_view(target_table()[i].kind) != ("APPDATA"@, None::<Seq<char>>),
        location_view(target_table()[i].kind) != ("LOCALAPPDATA"@, None::<Seq<char>>),
{
    reveal_strlit("APPDATA");
    reveal_strlit("LOCALAPPDATA");
    reveal_strlit("TEMP");
    reveal_strlit("TMP");
    assert("TEMP"@.len() != "APPDATA"@.len());
    assert("TMP"@.len() != "APPDATA"@.len());
    assert("TEMP"@.len() != "LOCALAPPDATA"@.len());
    assert("TMP"@.len() != "LOCALAPPDATA"@.len());
}

/// Whether clearing a temp target deletes anything: only when it is
/// available and its folder resolved.
pub fn clear_runs(available: bool, resolved: bool) -> (r: bool)
    ensures
        r == (available && resolved),
{
    available && resolved
}

} // verus!
