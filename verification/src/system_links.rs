//! Open Windows logging / diagnostics tools.
//!
//! This module knows the links, how each one is probed and launched, expands
//! `%VAR%` folder patterns from the variable values it is given, and reports
//! launches; the caller looks files, folders and variables up.

use vstd::prelude::*;

use crate::cleanup_history::{parse_u64_text, parse_u64_text_chars};
use crate::launch::{result_view, start_detached, start_result_view, text_result_view};
use crate::temp_cleanup::opt_str_view;
use crate::text::{
    chars_eq, chars_of, first_index_of, index_of_chars, join, normalize_id, normalize_id_chars,
    push_char, push_str, slice_chars, string_from_chars, string_of,
};

verus! {

/// How a link is reached.
#[derive(Debug, Clone, Copy)]
pub enum LinkKind {
    /// Snap-in under System32 (e.g. eventvwr.msc).
    Msc(&'static str),
    /// Executable in System32 or on PATH, with optional arguments (e.g. perfmon.exe /rel).
    Exe { name: &'static str, args: &'static str },
    /// `ms-settings:` URI (Windows 10+ Settings).
    SettingsUri(&'static str),
    /// Folder path that may contain `%ENV%` variables.
    Folder(&'static str),
}

/// A built-in link to a Windows logging or diagnostics surface.
#[derive(Debug, Clone, Copy)]
pub struct SystemLink {
    pub id: &'static str,
    pub title: &'static str,
    pub description: &'static str,
    pub kind: LinkKind,
}

/// Every link, in display order.
pub open spec fn link_table() -> Seq<SystemLink> {
    seq![
        SystemLink {
            id: "event-viewer",
            title: "Event Viewer",
            description: "System, Application, and Security event logs (eventvwr.msc).",
            kind: LinkKind::Msc("eventvwr.msc"),
        },
        SystemLink {
            id: "event-viewer-wu",
            title: "Windows Update events",
            description: "Event Viewer channel: Microsoft-Windows-WindowsUpdateClient/Operational.",
            kind: LinkKind::Exe {
                name: "eventvwr.exe",
                args: "/c:Microsoft-Windows-WindowsUpdateClient/Operational",
            },
        },
        SystemLink {
            id: "reliability",
            title: "Reliability Monitor",
            description: "Crash / failure timeline (perfmon /rel).",
            kind: LinkKind::Exe { name: "perfmon.exe", args: "/rel" },
        },
        SystemLink {
            id: "perfmon",
            title: "Performance Monitor",
            description: "perfmon.msc — counters and trace sessions.",
            kind: LinkKind::Msc("perfmon.msc"),
        },
        SystemLink {
            id: "task-scheduler",
            title: "Task Scheduler",
            description: "Scheduled tasks including CEIP / post-update automation.",
            kind: LinkKind::Msc("taskschd.msc"),
        },
        SystemLink {
            id: "services",
            title: "Services",
            description: "services.msc — includes DiagTrack and related services.",
            kind: LinkKind::Msc("services.msc"),
        },
        SystemLink {
            id: "privacy-feedback",
            title: "Settings: Diagnostics & feedback",
            description: "ms-settings:privacy-feedback — diagnostic data UI.",
            kind: LinkKind::SettingsUri("ms-settings:privacy-feedback"),
        },
        SystemLink {
            id: "privacy-general",
            title: "Settings: Privacy general",
            description: "ms-settings:privacy-general — advertising ID and related toggles.",
            kind: LinkKind::SettingsUri("ms-settings:privacy-general"),
        },
        SystemLink {
            id: "wu-history",
            title: "Settings: Windows Update history",
            description: "ms-settings:windowsupdate-history.",
            kind: LinkKind::SettingsUri("ms-settings:windowsupdate-history"),
        },
        SystemLink {
            id: "evt-logs-folder",
            title: "Event log files folder",
            description: "Explorer → %SystemRoot%\\System32\\winevt\\Logs (.evtx files).",
            kind: LinkKind::Folder("%SystemRoot%\\System32\\winevt\\Logs"),
        },
        SystemLink {
            id: "diagnosis-folder",
            title: "Diagnosis data folder",
            description: "Explorer → %ProgramData%\\Microsoft\\Diagnosis (ETL / telemetry store).",
            kind: LinkKind::Folder("%ProgramData%\\Microsoft\\Diagnosis"),
        },
        SystemLink {
            id: "diagtrack-log",
            title: "DiagTrack ETL folder",
            description: "Explorer → %ProgramData%\\Microsoft\\Diagnosis\\ETLLogs.",
            kind: LinkKind::Folder("%ProgramData%\\Microsoft\\Diagnosis\\ETLLogs"),
        },
    ]
}

/// Every link, in display order.
pub fn all() -> (r: Vec<SystemLink>)
    ensures
        r@ == link_table(),
{
    let r = vec![
        SystemLink {
            id: "event-viewer",
            title: "Event Viewer",
            description: "System, Application, and Security event logs (eventvwr.msc).",
            kind: LinkKind::Msc("eventvwr.msc"),
        },
        SystemLink {
            id: "event-viewer-wu",
            title: "Windows Update events",
            description: "Event Viewer channel: Microsoft-Windows-WindowsUpdateClient/Operational.",
            kind: LinkKind::Exe {
                name: "eventvwr.exe",
                args: "/c:Microsoft-Windows-WindowsUpdateClient/Operational",
            },
        },
        SystemLink {
            id: "reliability",
            title: "Reliability Monitor",
            description: "Crash / failure timeline (perfmon /rel).",
            kind: LinkKind::Exe { name: "perfmon.exe", args: "/rel" },
        },
        SystemLink {
            id: "perfmon",
            title: "Performance Monitor",
            description: "perfmon.msc — counters and trace sessions.",
            kind: LinkKind::Msc("perfmon.msc"),
        },
        SystemLink {
            id: "task-scheduler",
            title: "Task Scheduler",
            description: "Scheduled tasks including CEIP / post-update automation.",
            kind: LinkKind::Msc("taskschd.msc"),
        },
        SystemLink {
            id: "services",
            title: "Services",
            description: "services.msc — includes DiagTrack and related services.",
            kind: LinkKind::Msc("services.msc"),
        },
        SystemLink {
            id: "privacy-feedback",
            title: "Settings: Diagnostics & feedback",
            description: "ms-settings:privacy-feedback — diagnostic data UI.",
            kind: LinkKind::SettingsUri("ms-settings:privacy-feedback"),
        },
        SystemLink {
            id: "privacy-general",
            title: "Settings: Privacy general",
            description: "ms-settings:privacy-general — advertising ID and related toggles.",
            kind: LinkKind::SettingsUri("ms-settings:privacy-general"),
        },
        SystemLink {
            id: "wu-history",
            title: "Settings: Windows Update history",
            description: "ms-settings:windowsupdate-history.",
            kind: LinkKind::SettingsUri("ms-settings:windowsupdate-history"),
        },
        SystemLink {
            id: "evt-logs-folder",
            title: "Event log files folder",
            description: "Explorer → %SystemRoot%\\System32\\winevt\\Logs (.evtx files).",
            kind: LinkKind::Folder("%SystemRoot%\\System32\\winevt\\Logs"),
        },
        SystemLink {
            id: "diagnosis-folder",
            title: "Diagnosis data folder",
            description: "Explorer → %ProgramData%\\Microsoft\\Diagnosis (ETL / telemetry store).",
            kind: LinkKind::Folder("%ProgramData%\\Microsoft\\Diagnosis"),
        },
        SystemLink {
            id: "diagtrack-log",
            title: "DiagTrack ETL folder",
            description: "Explorer → %ProgramData%\\Microsoft\\Diagnosis\\ETLLogs.",
            kind: LinkKind::Folder("%ProgramData%\\Microsoft\\Diagnosis\\ETLLogs"),
        },
    ];
    assert(r@ =~= link_table());
    r
}

/// The first link of `table` whose id is `n`.
pub open spec fn find_in(table: Seq<SystemLink>, n: Seq<char>) -> Option<SystemLink>
    decreases table.len(),
{
    if table.len() == 0 {
        None
    } else if table[0].id@ == n {
        Some(table[0])
    } else {
        find_in(table.drop_first(), n)
    }
}

/// Looking a link up by a typed id (case and surrounding white space ignored).
pub open spec fn find_link(id: Seq<char>) -> Option<SystemLink> {
    find_in(link_table(), normalize_id(id))
}

pub fn find(id: &str) -> (r: Option<SystemLink>)
    ensures
        r == find_link(id@),
{
    let n = normalize_id_chars(id);
    let all = all();
    let mut i: usize = 0;
    assert(all@.skip(0) =~= all@);
    while i < 12
        invariant
            0 <= i <= 12,
            all@ == link_table(),
            n@ == normalize_id(id@),
            find_in(all@, n@) == find_in(all@.skip(i as int), n@),
        decreases 12 - i,
    {
        assert(all@.skip(i as int).drop_first() =~= all@.skip(i + 1));
        if chars_eq(&n, all[i].id) {
            return Some(all[i]);
        }
        i = i + 1;
    }
    None
}

/// Every link is found by its own id.
pub proof fn lemma_find_own_id(i: int)
    requires
        0 <= i < 12,
    ensures
        find_link(link_table()[i].id@) == Some(link_table()[i]),
{
    reveal_strlit("event-viewer");
    reveal_strlit("event-viewer-wu");
    reveal_strlit("reliability");
    reveal_strlit("perfmon");
    reveal_strlit("task-scheduler");
    reveal_strlit("services");
    reveal_strlit("privacy-feedback");
    reveal_strlit("privacy-general");
    reveal_strlit("wu-history");
    reveal_strlit("evt-logs-folder");
    reveal_strlit("diagnosis-folder");
    reveal_strlit("diagtrack-log");
    let t = link_table();
    let id = t[i].id@;
    assert(crate::text::trim_start(id) == id);
    assert(crate::text::trim_end(id) == id);
    assert(crate::text::ascii_lower(id) =~= id);
    reveal_with_fuel(find_in, 13);
}

/// Where the next `%` after position `i` is, counted from `i + 1`.
pub open spec fn closing_percent(s: Seq<char>, i: int) -> Option<int> {
    first_index_of(s.skip(i + 1), seq!['%'], 0)
}

/// The names of the `%VAR%` references of a pattern, in order: a `%` with
/// another `%` after it opens a reference up to that `%`; any other
/// character is literal.
pub open spec fn env_refs_from(s: Seq<char>, i: int) -> Seq<Seq<char>>
    decreases s.len() - i,
{
    if i < 0 || i >= s.len() {
        Seq::empty()
    } else if s[i] == '%' && closing_percent(s, i) is Some {
        let end = closing_percent(s, i).unwrap();
        proof {
            lemma_closing_percent(s, i);
        }
        seq![s.subrange(i + 1, i + 1 + end)] + env_refs_from(s, i + end + 2)
    } else {
        env_refs_from(s, i + 1)
    }
}

pub open spec fn env_refs_view(pattern: Seq<char>) -> Seq<Seq<char>> {
    env_refs_from(pattern, 0)
}

/// The pattern from position `i` with its references replaced by `values`
/// (from value `k` on), in order; `None` when a referenced variable is unset.
pub open spec fn expand_from(
    s: Seq<char>,
    i: int,
    values: Seq<Option<Seq<char>>>,
    k: int,
) -> Option<Seq<char>>
    decreases s.len() - i,
{
    if i < 0 || i >= s.len() {
        Some(Seq::empty())
    } else if s[i] == '%' && closing_percent(s, i) is Some {
        let end = closing_percent(s, i).unwrap();
        proof {
            lemma_closing_percent(s, i);
        }
        match values[k] {
            None => None,
            Some(v) => match expand_from(s, i + end + 2, values, k + 1) {
                None => None,
                Some(rest) => Some(v + rest),
            },
        }
    } else {
        match expand_from(s, i + 1, values, k) {
            None => None,
            Some(rest) => Some(seq![s[i]] + rest),
        }
    }
}

/// `%VAR%` expansion of a folder pattern given the values of its references.
pub open spec fn expand_view(pattern: Seq<char>, values: Seq<Option<Seq<char>>>) -> Option<Seq<char>> {
    expand_from(pattern, 0, values, 0)
}

pub proof fn lemma_closing_percent(s: Seq<char>, i: int)
    requires
        0 <= i < s.len(),
    ensures
        closing_percent(s, i) matches Some(end) ==> 0 <= end && i + 1 + end < s.len() && s[i + 1
            + end] == '%',
{
    lemma_first_index_of_range(s.skip(i + 1), seq!['%'], 0);
    if let Some(end) = closing_percent(s, i) {
        assert(s.skip(i + 1).subrange(end, end + 1) =~= seq!['%']);
        assert(s.skip(i + 1).subrange(end, end + 1)[0] == '%');
        assert(s.skip(i + 1)[end] == '%');
    }
}

pub proof fn lemma_first_index_of_range(s: Seq<char>, pat: Seq<char>, from: int)
    ensures
        first_index_of(s, pat, from) matches Some(i) ==> from <= i && i + pat.len() <= s.len()
            && s.subrange(i, i + pat.len()) == pat,
    decreases s.len() - from,
{
    if !(from < 0 || from >= s.len() || from + pat.len() > s.len()) {
        if s.subrange(from, from + pat.len()) != pat {
            lemma_first_index_of_range(s, pat, from + 1);
        }
    }
}

/// Position of the closing `%` of a reference opened at `i`, counted from `i + 1`.
fn find_closing(s: &[char], i: usize) -> (r: Option<usize>)
    requires
        i < s@.len(),
    ensures
        match closing_percent(s@, i as int) {
            None => r is None,
            Some(e) => r is Some && r.unwrap() == e,
        },
{
    let n = s.len();
    let rest = slice_chars(s, i + 1, n);
    assert(rest@ =~= s@.skip(i + 1));
    let pct: Vec<char> = vec!['%'];
    assert(pct@ =~= seq!['%']);
    index_of_chars(&rest, &pct)
}

/// The variables a folder pattern references, in order.
pub fn env_refs(pattern: &str) -> (r: Vec<String>)
    ensures
        r.deep_view() == env_refs_view(pattern@),
{
    let s = chars_of(pattern);
    let n = s.len();
    let mut out: Vec<String> = Vec::new();
    let mut i: usize = 0;
    while i < n
        invariant
            0 <= i <= n,
            n == s@.len(),
            s@ == pattern@,
            out.deep_view() + env_refs_from(s@, i as int) == env_refs_view(pattern@),
        decreases n - i,
    {
        if s[i] == '%' {
            proof {
                lemma_closing_percent(s@, i as int);
            }
            match find_closing(&s, i) {
                Some(end) => {
                    let name = slice_chars(&s, i + 1, i + 1 + end);
                    let ghost before = out.deep_view();
                    out.push(string_from_chars(&name));
                    assert(out.deep_view() =~= before.push(name@));
                    assert(out.deep_view() + env_refs_from(s@, i + end + 2) =~= before
                        + env_refs_from(s@, i as int));
                    i = i + end + 2;
                    continue;
                },
                None => {},
            }
        }
        i = i + 1;
    }
    assert(out.deep_view() =~= env_refs_view(pattern@));
    out
}

pub open spec fn values_view(vs: Seq<Option<String>>) -> Seq<Option<Seq<char>>> {
    vs.map_values(
        |o: Option<String>|
            match o {
                Some(s) => Some(s@),
                None => None,
            },
    )
}

/// Expand `%VAR%` references in a folder pattern: `values` holds the value
/// of each variable [`env_refs`] lists (in that order), `None` when unset.
pub fn expand_env_path(pattern: &str, values: &[Option<String>]) -> (r: Option<String>)
    requires
        values@.len() == env_refs_view(pattern@).len(),
    ensures
        match expand_view(pattern@, values_view(values@)) {
            None => r is None,
            Some(p) => r is Some && r.unwrap()@ == p,
        },
{
    let ghost vals = values_view(values@);
    let s = chars_of(pattern);
    let n = s.len();
    let mut out = String::new();
    let mut i: usize = 0;
    let mut k: usize = 0;
    while i < n
        invariant
            0 <= i <= n,
            n == s@.len(),
            s@ == pattern@,
            vals == values_view(values@),
            vals.len() == values@.len(),
            k + env_refs_from(s@, i as int).len() == env_refs_view(pattern@).len(),
            values@.len() == env_refs_view(pattern@).len(),
            expand_view(pattern@, vals) == match expand_from(s@, i as int, vals, k as int) {
                None => None,
                Some(rest) => Some(out@ + rest),
            },
        decreases n - i,
    {
        if s[i] == '%' {
            proof {
                lemma_closing_percent(s@, i as int);
            }
            match find_closing(&s, i) {
                Some(end) => {
                    assert(k < values@.len());
                    match &values[k] {
                        None => {
                            return None;
                        },
                        Some(v) => {
                            let ghost before = out@;
                            push_str(&mut out, v.as_str());
                            proof {
                                assert(vals[k as int] == Some(v@));
                                match expand_from(s@, i + end + 2, vals, k + 1) {
                                    None => {},
                                    Some(rest) => {
                                        assert(before + (v@ + rest) =~= out@ + rest);
                                    },
                                }
                            }
                            i = i + end + 2;
                            k = k + 1;
                            continue;
                        },
                    }
                },
                None => {},
            }
        }
        let ghost before = out@;
        push_char(&mut out, s[i]);
        proof {
            match expand_from(s@, i + 1, vals, k as int) {
                None => {},
                Some(rest) => {
                    assert(before + (seq![s@[i as int]] + rest) =~= out@ + rest);
                },
            }
        }
        i = i + 1;
    }
    assert(out@ + Seq::<char>::empty() =~= out@);
    Some(out)
}

/// Whether the Settings app handles `ms-settings:` (Windows 10 or later):
/// from the `CurrentVersion` key, when it opened, its major version number,
/// else its build number (`CurrentBuild` as text); modern Windows is assumed
/// when nothing says otherwise.
pub open spec fn windows_10_or_later_view(
    key_opened: bool,
    major: Option<u32>,
    build: Option<Seq<char>>,
) -> bool {
    if !key_opened {
        true
    } else {
        match major {
            Some(m) => m >= 10,
            None => match build {
                Some(b) => match parse_u64_text(b) {
                    Some(n) => n > u32::MAX || n >= 10240,
                    None => true,
                },
                None => true,
            },
        }
    }
}

/// Whether the Settings app handles `ms-settings:` (see [`windows_10_or_later_view`]).
pub fn windows_10_or_later(key_opened: bool, major: Option<u32>, build: Option<&str>) -> (r: bool)
    ensures
        r == windows_10_or_later_view(key_opened, major, opt_str_view(build)),
{
    if !key_opened {
        return true;
    }
    if let Some(m) = major {
        return m >= 10;
    }
    match build {
        Some(b) => match parse_u64_text_chars(&chars_of(b)) {
            Some(n) => n > 0xFFFF_FFFF || n >= 10240,
            None => true,
        },
        None => true,
    }
}

/// Whether a link is usable: a snap-in or program when it resolved to a file
/// (`resolved`), a Settings page when the Settings app is usable (`usable`),
/// a folder when its pattern expanded (`resolved`) and the folder is present
/// (`usable`; an existence check that fails counts as present).
pub open spec fn is_available_view(kind: LinkKind, resolved: Option<Seq<char>>, usable: bool) -> bool {
    match kind {
        LinkKind::Msc(_) => resolved is Some,
        LinkKind::Exe { .. } => resolved is Some,
        LinkKind::SettingsUri(_) => usable,
        LinkKind::Folder(_) => resolved is Some && usable,
    }
}

/// What `start` is given for a link: the resolved file or folder (the bare
/// name or pattern when it did not resolve), a program's arguments after a
/// space, a Settings URI as is.
pub open spec fn start_target_view(kind: LinkKind, resolved: Option<Seq<char>>) -> Seq<char> {
    match kind {
        LinkKind::Msc(name) => match resolved {
            Some(p) => p,
            None => name@,
        },
        LinkKind::Exe { name, args } => {
            let exe = match resolved {
                Some(p) => p,
                None => name@,
            };
            if args@.len() == 0 {
                exe
            } else {
                exe + " "@ + args@
            }
        },
        LinkKind::SettingsUri(uri) => uri@,
        LinkKind::Folder(pattern) => match resolved {
            Some(p) => p,
            None => pattern@,
        },
    }
}

impl SystemLink {
    /// Whether this tool/path looks present (see [`is_available_view`]).
    pub fn is_available(self, resolved: Option<&str>, usable: bool) -> (r: bool)
        ensures
            r == is_available_view(self.kind, opt_str_view(resolved), usable),
    {
        match self.kind {
            LinkKind::Msc(_) => resolved.is_some(),
            LinkKind::Exe { .. } => resolved.is_some(),
            LinkKind::SettingsUri(_) => usable,
            LinkKind::Folder(_) => resolved.is_some() && usable,
        }
    }

    /// What to launch for this link (see [`start_target_view`]).
    pub fn start_target(self, resolved: Option<&str>) -> (r: String)
        ensures
            r@ == start_target_view(self.kind, opt_str_view(resolved)),
    {
        match self.kind {
            LinkKind::Msc(name) => match resolved {
                Some(p) => string_of(p),
                None => string_of(name),
            },
            LinkKind::Exe { name, args } => {
                let mut exe = match resolved {
                    Some(p) => string_of(p),
                    None => string_of(name),
                };
                if !args.is_empty() {
                    push_str(&mut exe, " ");
                    push_str(&mut exe, args);
                }
                exe
            },
            LinkKind::SettingsUri(uri) => string_of(uri),
            LinkKind::Folder(pattern) => match resolved {
                Some(p) => string_of(p),
                None => string_of(pattern),
            },
        }
    }
}

/// Snapshot of availability per link id (`available[i]`: whether table entry
/// `i` is available).
pub fn availability_map(available: &[bool]) -> (r: Vec<(&'static str, bool)>)
    requires
        available@.len() == 12,
    ensures
        r@.len() == 12,
        forall|i: int|
            0 <= i < 12 ==> (#[trigger] r@[i]).0@ == link_table()[i].id@ && r@[i].1
                == available@[i],
{
    let table = all();
    let mut r: Vec<(&'static str, bool)> = Vec::new();
    let mut i: usize = 0;
    while i < 12
        invariant
            0 <= i <= 12,
            available@.len() == 12,
            table@ == link_table(),
            r@.len() == i,
            forall|k: int|
                0 <= k < i ==> (#[trigger] r@[k]).0@ == link_table()[k].id@ && r@[k].1
                    == available@[k],
        decreases 12 - i,
    {
        r.push((table[i].id, available[i]));
        i = i + 1;
    }
    r
}

/// Opening a link: refused when unavailable, else the detached launch of its
/// target decides.
pub open spec fn open_view(
    link: SystemLink,
    resolved: Option<Seq<char>>,
    usable: bool,
    launched: Result<bool, Seq<char>>,
) -> Result<Seq<char>, Seq<char>> {
    if !is_available_view(link.kind, resolved, usable) {
        Err("'"@ + link.title@ + "' is not available on this system"@)
    } else {
        match start_result_view(start_target_view(link.kind, resolved), launched) {
            Err(e) => Err(e),
            Ok(_) => Ok("Opened: "@ + link.title@),
        }
    }
}

/// Open a link: `resolved` and `usable` are its probe results (see
/// [`is_available_view`]), `launched` how launching [`SystemLink::start_target`]
/// went (not read when the link is unavailable).
pub fn open(link: &SystemLink, resolved: Option<&str>, usable: bool, launched: Result<bool, String>) -> (r:
    Result<String, String>)
    ensures
        text_result_view(r) == open_view(*link, opt_str_view(resolved), usable, result_view(launched)),
{
    if !link.is_available(resolved, usable) {
        let mut e = string_of("'");
        push_str(&mut e, link.title);
        push_str(&mut e, "' is not available on this system");
        return Err(e);
    }
    let target = link.start_target(resolved);
    match start_detached(target.as_str(), launched) {
        Err(e) => Err(e),
        Ok(()) => {
            let mut m = string_of("Opened: ");
            push_str(&mut m, link.title);
            Ok(m)
        },
    }
}

pub open spec fn link_ids() -> Seq<Seq<char>> {
    link_table().map_values(|l: SystemLink| l.id@)
}

/// The answer to an unknown link id: it, and every id there is.
pub open spec fn unknown_link_view(id: Seq<char>) -> Seq<char> {
    "unknown log link '"@ + id + "'. Try: "@ + join(link_ids(), ", "@)
}

pub fn unknown_link_error(id: &str) -> (r: String)
    ensures
        r@ == unknown_link_view(id@),
{
    let table = all();
    let mut ids: Vec<&str> = Vec::new();
    let mut i: usize = 0;
    while i < 12
        invariant
            0 <= i <= 12,
            table@ == link_table(),
            crate::text::str_views(ids@) == link_ids().take(i as int),
        decreases 12 - i,
    {
        let ghost before = ids@;
        ids.push(table[i].id);
        proof {
            assert(table@[i as int] == link_table()[i as int]);
            assert(ids@ =~= before.push(table@[i as int].id));
            assert(link_ids()[i as int] == link_table()[i as int].id@);
            assert(crate::text::str_views(ids@) =~= crate::text::str_views(before).push(
                table@[i as int].id@,
            ));
            assert(link_ids().take(i + 1) =~= link_ids().take(i as int).push(link_ids()[i as int]));
        }
        i = i + 1;
        assert(crate::text::str_views(ids@) =~= link_ids().take(i as int));
    }
    assert(link_ids().take(12) =~= link_ids());
    let mut m = string_of("unknown log link '");
    push_str(&mut m, id);
    push_str(&mut m, "'. Try: ");
    crate::text::push_joined(&mut m, &ids, ", ");
    m
}

/// Open a link by id (see [`open`]); an unknown id is answered with the
/// list of known ones.
pub fn open_id(id: &str, resolved: Option<&str>, usable: bool, launched: Result<bool, String>) -> (r:
    Result<String, String>)
    ensures
        text_result_view(r) == match find_link(id@) {
            None => Err(unknown_link_view(id@)),
            Some(link) => open_view(link, opt_str_view(resolved), usable, result_view(launched)),
        },
{
    match find(id) {
        None => Err(unknown_link_error(id)),
        Some(link) => open(&link, resolved, usable, launched),
    }
}

/// What to start for `link`, if anything: its start target when it is
/// available, else nothing (no process is started).
pub fn launch_target(link: &SystemLink, resolved: Option<&str>, usable: bool) -> (r: Option<String>)
    ensures
        match r {
            None => !is_available_view(link.kind, opt_str_view(resolved), usable),
            Some(t) => is_available_view(link.kind, opt_str_view(resolved), usable) && t@
                == start_target_view(link.kind, opt_str_view(resolved)),
        },
{
    if link.is_available(resolved, usable) {
        Some(link.start_target(resolved))
    } else {
        None
    }
}

} // verus!
