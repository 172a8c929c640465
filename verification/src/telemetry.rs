//! Read and write Windows diagnostic / telemetry settings.
//!
//! This module names the settings, parses their CLI names, judges each
//! setting's state from the registry values and command output read for it,
//! plans the registry writes and commands that switch it, and reports how
//! they went; the caller touches the registry and runs the commands.

use vstd::prelude::*;

use crate::launch::{result_view, text_result_view};
use crate::schedule_task::{command_error, command_error_view};
use crate::text::{
    ascii_lower, chars_eq, chars_of, dec, first_index_of, has_prefix, index_of_chars, join, lines,
    lower_chars, normalize_id, normalize_id_chars, push_dec, push_joined, push_str, split_lines,
    starts_with_chars, str_views, string_of, trim, trim_chars,
};

verus! {

/// Stable id for each controllable setting.
#[derive(Debug, Clone, Copy, PartialEq, Eq, Hash, Structural)]
pub enum SettingId {
    DiagnosticData,
    DiagTrack,
    CeipTasks,
    AdvertisingId,
    TailoredExperiences,
    CeipPolicy,
    AppInventory,
}

/// The stable CLI name of a setting.
pub open spec fn cli_name_view(id: SettingId) -> Seq<char> {
    match id {
        SettingId::DiagnosticData => "diagnostic-data"@,
        SettingId::DiagTrack => "diagtrack"@,
        SettingId::CeipTasks => "ceip-tasks"@,
        SettingId::AdvertisingId => "advertising-id"@,
        SettingId::TailoredExperiences => "tailored-experiences"@,
        SettingId::CeipPolicy => "ceip-policy"@,
        SettingId::AppInventory => "app-inventory"@,
    }
}

/// Every setting, in display order.
pub open spec fn all_settings() -> Seq<SettingId> {
    seq![
        SettingId::DiagnosticData,
        SettingId::DiagTrack,
        SettingId::CeipTasks,
        SettingId::AdvertisingId,
        SettingId::TailoredExperiences,
        SettingId::CeipPolicy,
        SettingId::AppInventory,
    ]
}

/// Reading a typed setting name (case and surrounding white space ignored,
/// aliases accepted).
pub open spec fn parse_setting(name: Seq<char>) -> Option<SettingId> {
    let n = normalize_id(name);
    if n == "diagnostic-data"@ || n == "diagnostics"@ || n == "telemetry"@ || n
        == "allow-telemetry"@ {
        Some(SettingId::DiagnosticData)
    } else if n == "diagtrack"@ || n == "diag-track"@ || n == "connected-user-experiences"@ {
        Some(SettingId::DiagTrack)
    } else if n == "ceip-tasks"@ || n == "tasks"@ || n == "scheduled-tasks"@ {
        Some(SettingId::CeipTasks)
    } else if n == "advertising-id"@ || n == "ad-id"@ || n == "advertising"@ {
        Some(SettingId::AdvertisingId)
    } else if n == "tailored-experiences"@ || n == "tailored"@ {
        Some(SettingId::TailoredExperiences)
    } else if n == "ceip-policy"@ || n == "ceip"@ || n == "sqm"@ {
        Some(SettingId::CeipPolicy)
    } else if n == "app-inventory"@ || n == "inventory"@ || n == "ait"@ || n == "appcompat"@ {
        Some(SettingId::AppInventory)
    } else {
        None
    }
}

/// The answer to an unknown setting name: it, and every CLI name there is.
pub open spec fn unknown_setting_view(name: Seq<char>) -> Seq<char> {
    "unknown setting '"@ + name + "'. Try: "@ + join(
        all_settings().map_values(|s: SettingId| cli_name_view(s)),
        ", "@,
    )
}

impl SettingId {
    pub const ALL: [SettingId; 7] = [
        SettingId::DiagnosticData,
        SettingId::DiagTrack,
        SettingId::CeipTasks,
        SettingId::AdvertisingId,
        SettingId::TailoredExperiences,
        SettingId::CeipPolicy,
        SettingId::AppInventory,
    ];

    pub open spec fn title_view(self) -> Seq<char> {
        match self {
            SettingId::DiagnosticData => "Diagnostic data (AllowTelemetry)"@,
            SettingId::DiagTrack => "Connected User Experiences (DiagTrack)"@,
            SettingId::CeipTasks => "CEIP / feedback scheduled tasks"@,
            SettingId::AdvertisingId => "Advertising ID"@,
            SettingId::TailoredExperiences => "Tailored experiences"@,
            SettingId::CeipPolicy => "Customer Experience Improvement (CEIP)"@,
            SettingId::AppInventory => "App inventory & compatibility telemetry"@,
        }
    }

    pub fn title(self) -> (r: &'static str)
        ensures
            r@ == self.title_view(),
    {
        match self {
            SettingId::DiagnosticData => "Diagnostic data (AllowTelemetry)",
            SettingId::DiagTrack => "Connected User Experiences (DiagTrack)",
            SettingId::CeipTasks => "CEIP / feedback scheduled tasks",
            SettingId::AdvertisingId => "Advertising ID",
            SettingId::TailoredExperiences => "Tailored experiences",
            SettingId::CeipPolicy => "Customer Experience Improvement (CEIP)",
            SettingId::AppInventory => "App inventory & compatibility telemetry",
        }
    }

    pub open spec fn explanation_view(self) -> Seq<char> {
        match self {
            SettingId::DiagnosticData => "Controls how much diagnostic data Windows may send to Microsoft. Off sets policy to Security-only (0) — the strongest lock on Pro. On sets Required/Basic (1). Optional/Full (3) is not restored by this app."@,
            SettingId::DiagTrack => "The DiagTrack service hosts Connected User Experiences and Telemetry. When running, it collects and uploads diagnostic payloads. Off stops the service and sets startup to Disabled."@,
            SettingId::CeipTasks => "Scheduled tasks under Customer Experience Improvement Program, Application Experience, Feedback, Maps, Family Safety, and QueueReporting. Off disables them; On re-enables any that exist on this PC."@,
            SettingId::AdvertisingId => "A per-user ID apps can use for advertising. Off sets AdvertisingInfo\\Enabled to 0 so apps should not use it."@,
            SettingId::TailoredExperiences => "Lets Microsoft use diagnostic data for personalized tips and ads. Off clears TailoredExperiencesWithDiagnosticDataEnabled."@,
            SettingId::CeipPolicy => "Legacy SQM / CEIP policy that enrolls the PC in Microsoft’s customer experience improvement program. Off sets CEIPEnable to 0."@,
            SettingId::AppInventory => "Application Impact Telemetry and inventory used for compatibility assessment. Off sets AITEnable=0 and DisableInventory=1."@,
        }
    }

    pub fn explanation(self) -> (r: &'static str)
        ensures
            r@ == self.explanation_view(),
    {
        match self {
            SettingId::DiagnosticData => "Controls how much diagnostic data Windows may send to Microsoft. Off sets policy to Security-only (0) — the strongest lock on Pro. On sets Required/Basic (1). Optional/Full (3) is not restored by this app.",
            SettingId::DiagTrack => "The DiagTrack service hosts Connected User Experiences and Telemetry. When running, it collects and uploads diagnostic payloads. Off stops the service and sets startup to Disabled.",
            SettingId::CeipTasks => "Scheduled tasks under Customer Experience Improvement Program, Application Experience, Feedback, Maps, Family Safety, and QueueReporting. Off disables them; On re-enables any that exist on this PC.",
            SettingId::AdvertisingId => "A per-user ID apps can use for advertising. Off sets AdvertisingInfo\\Enabled to 0 so apps should not use it.",
            SettingId::TailoredExperiences => "Lets Microsoft use diagnostic data for personalized tips and ads. Off clears TailoredExperiencesWithDiagnosticDataEnabled.",
            SettingId::CeipPolicy => "Legacy SQM / CEIP policy that enrolls the PC in Microsoft’s customer experience improvement program. Off sets CEIPEnable to 0.",
            SettingId::AppInventory => "Application Impact Telemetry and inventory used for compatibility assessment. Off sets AITEnable=0 and DisableInventory=1.",
        }
    }

    pub open spec fn detail_view(self) -> Seq<char> {
        match self {
            SettingId::DiagnosticData => "HKLM\\SOFTWARE\\Policies\\Microsoft\\Windows\\DataCollection\\AllowTelemetry"@,
            SettingId::DiagTrack => "Service: DiagTrack (Connected User Experiences and Telemetry)"@,
            SettingId::CeipTasks => "schtasks: CEIP, Compatibility Appraiser, Feedback, Maps, …"@,
            SettingId::AdvertisingId => "HKCU\\SOFTWARE\\Microsoft\\Windows\\CurrentVersion\\AdvertisingInfo\\Enabled"@,
            SettingId::TailoredExperiences => "HKCU\\…\\Privacy\\TailoredExperiencesWithDiagnosticDataEnabled"@,
            SettingId::CeipPolicy => "HKLM\\SOFTWARE\\Policies\\Microsoft\\SQMClient\\Windows\\CEIPEnable"@,
            SettingId::AppInventory => "HKLM\\SOFTWARE\\Policies\\Microsoft\\Windows\\AppCompat (AITEnable, DisableInventory)"@,
        }
    }

    pub fn detail(self) -> (r: &'static str)
        ensures
            r@ == self.detail_view(),
    {
        match self {
            SettingId::DiagnosticData => "HKLM\\SOFTWARE\\Policies\\Microsoft\\Windows\\DataCollection\\AllowTelemetry",
            SettingId::DiagTrack => "Service: DiagTrack (Connected User Experiences and Telemetry)",
            SettingId::CeipTasks => "schtasks: CEIP, Compatibility Appraiser, Feedback, Maps, …",
            SettingId::AdvertisingId => "HKCU\\SOFTWARE\\Microsoft\\Windows\\CurrentVersion\\AdvertisingInfo\\Enabled",
            SettingId::TailoredExperiences => "HKCU\\…\\Privacy\\TailoredExperiencesWithDiagnosticDataEnabled",
            SettingId::CeipPolicy => "HKLM\\SOFTWARE\\Policies\\Microsoft\\SQMClient\\Windows\\CEIPEnable",
            SettingId::AppInventory => "HKLM\\SOFTWARE\\Policies\\Microsoft\\Windows\\AppCompat (AITEnable, DisableInventory)",
        }
    }

    /// Stable CLI id, e.g. `diagnostic-data`.
    pub fn cli_name(self) -> (r: &'static str)
        ensures
            r@ == cli_name_view(self),
    {
        match self {
            SettingId::DiagnosticData => "diagnostic-data",
            SettingId::DiagTrack => "diagtrack",
            SettingId::CeipTasks => "ceip-tasks",
            SettingId::AdvertisingId => "advertising-id",
            SettingId::TailoredExperiences => "tailored-experiences",
            SettingId::CeipPolicy => "ceip-policy",
            SettingId::AppInventory => "app-inventory",
        }
    }

    /// Parse a CLI setting name (accepts aliases).
    pub fn parse_cli(name: &str) -> (r: Result<SettingId, String>)
        ensures
            match parse_setting(name@) {
                Some(id) => r == Ok::<SettingId, String>(id),
                None => r is Err && r->Err_0@ == unknown_setting_view(name@),
            },
    {
        let n = normalize_id_chars(name);
        if chars_eq(&n, "diagnostic-data") || chars_eq(&n, "diagnostics") || chars_eq(
            &n,
            "telemetry",
        ) || chars_eq(&n, "allow-telemetry") {
            Ok(SettingId::DiagnosticData)
        } else if chars_eq(&n, "diagtrack") || chars_eq(&n, "diag-track") || chars_eq(
            &n,
            "connected-user-experiences",
        ) {
            Ok(SettingId::DiagTrack)
        } else if chars_eq(&n, "ceip-tasks") || chars_eq(&n, "tasks") || chars_eq(
            &n,
            "scheduled-tasks",
        ) {
            Ok(SettingId::CeipTasks)
        } else if chars_eq(&n, "advertising-id") || chars_eq(&n, "ad-id") || chars_eq(
            &n,
            "advertising",
        ) {
            Ok(SettingId::AdvertisingId)
        } else if chars_eq(&n, "tailored-experiences") || chars_eq(&n, "tailored") {
            Ok(SettingId::TailoredExperiences)
        } else if chars_eq(&n, "ceip-policy") || chars_eq(&n, "ceip") || chars_eq(&n, "sqm") {
            Ok(SettingId::CeipPolicy)
        } else if chars_eq(&n, "app-inventory") || chars_eq(&n, "inventory") || chars_eq(&n, "ait")
            || chars_eq(&n, "appcompat") {
            Ok(SettingId::AppInventory)
        } else {
            let all = SettingId::ALL;
            let mut names: Vec<&str> = Vec::new();
            let mut i: usize = 0;
            assert(all@ =~= all_settings());
            while i < 7
                invariant
                    0 <= i <= 7,
                    all@ == all_settings(),
                    str_views(names@) == all_settings().map_values(
                        |s: SettingId| cli_name_view(s),
                    ).take(i as int),
                decreases 7 - i,
            {
                let ghost before = names@;
                names.push(all[i].cli_name());
                proof {
                    assert(str_views(names@) =~= str_views(before).push(cli_name_view(all@[i as int])));
                }
                i = i + 1;
                assert(str_views(names@) =~= all_settings().map_values(
                    |s: SettingId| cli_name_view(s),
                ).take(i as int));
            }
            assert(all_settings().map_values(|s: SettingId| cli_name_view(s)).take(7)
                =~= all_settings().map_values(|s: SettingId| cli_name_view(s)));
            let mut e = string_of("unknown setting '");
            push_str(&mut e, name);
            push_str(&mut e, "'. Try: ");
            push_joined(&mut e, &names, ", ");
            Err(e)
        }
    }
}

proof fn lemma_trim_start_pad(w: Seq<char>, u: Seq<char>)
    requires
        forall|i: int| 0 <= i < w.len() ==> crate::text::is_white_space(#[trigger] w[i]),
        u.len() > 0,
        !crate::text::is_white_space(u[0]),
    ensures
        crate::text::trim_start(w + u) == u,
    decreases w.len(),
{
    if w.len() == 0 {
        assert(w + u =~= u);
    } else {
        assert((w + u).drop_first() =~= w.drop_first() + u);
        assert((w + u)[0] == w[0]);
        lemma_trim_start_pad(w.drop_first(), u);
    }
}

proof fn lemma_trim_end_pad(u: Seq<char>, w: Seq<char>)
    requires
        forall|i: int| 0 <= i < w.len() ==> crate::text::is_white_space(#[trigger] w[i]),
        u.len() > 0,
        !crate::text::is_white_space(u.last()),
    ensures
        crate::text::trim_end(u + w) == u,
    decreases w.len(),
{
    if w.len() == 0 {
        assert(u + w =~= u);
    } else {
        assert((u + w).drop_last() =~= u + w.drop_last());
        assert((u + w).last() == w.last());
        lemma_trim_end_pad(u, w.drop_last());
    }
}

/// A character whose ASCII lower case is a lower-case letter or `-` is no
/// white space.
proof fn lemma_not_space(c: char)
    requires
        ('a' <= crate::text::ascii_lower_char(c) <= 'z') || crate::text::ascii_lower_char(c) == '-',
    ensures
        !crate::text::is_white_space(c),
{
}

/// Reading a setting name ignores case and surrounding white space: a CLI
/// name in any mix of upper and lower case, with white space around it, reads
/// as its setting.
pub proof fn lemma_cli_name_read_loosely(id: SettingId, before: Seq<char>, name: Seq<char>, after: Seq<char>)
    requires
        forall|i: int| 0 <= i < before.len() ==> crate::text::is_white_space(#[trigger] before[i]),
        forall|i: int| 0 <= i < after.len() ==> crate::text::is_white_space(#[trigger] after[i]),
        ascii_lower(name) == cli_name_view(id),
    ensures
        parse_setting(before + name + after) == Some(id),
{
    reveal_strlit("diagnostic-data");
    reveal_strlit("diagtrack");
    reveal_strlit("ceip-tasks");
    reveal_strlit("advertising-id");
    reveal_strlit("tailored-experiences");
    reveal_strlit("ceip-policy");
    reveal_strlit("app-inventory");
    let c = cli_name_view(id);
    assert(name.len() == c.len());
    assert(c.len() > 0);
    assert(ascii_lower(name)[0] == crate::text::ascii_lower_char(name[0]));
    assert(ascii_lower(name)[name.len() - 1] == crate::text::ascii_lower_char(name.last()));
    lemma_not_space(name[0]);
    lemma_not_space(name.last());
    assert((name + after)[0] == name[0]);
    assert(before + name + after =~= before + (name + after));
    lemma_trim_start_pad(before, name + after);
    lemma_trim_end_pad(name, after);
    assert(crate::text::trim(before + name + after) == name);
    lemma_cli_name_round_trip(id);
    assert(normalize_id(cli_name_view(id)) == cli_name_view(id)) by {
        crate::text::lemma_trim_noop(cli_name_view(id));
    }
}

/// An unknown setting name is answered with every CLI name there is, in
/// display order.
pub proof fn lemma_unknown_setting_text(name: Seq<char>)
    ensures
        unknown_setting_view(name) == "unknown setting '"@ + name
            + "'. Try: diagnostic-data, diagtrack, ceip-tasks, advertising-id, tailored-experiences, ceip-policy, app-inventory"@,
{
    reveal_strlit("diagnostic-data");
    reveal_strlit("diagtrack");
    reveal_strlit("ceip-tasks");
    reveal_strlit("advertising-id");
    reveal_strlit("tailored-experiences");
    reveal_strlit("ceip-policy");
    reveal_strlit("app-inventory");
    reveal_strlit(", ");
    reveal_strlit("'. Try: ");
    reveal_strlit("diagnostic-data, diagtrack, ceip-tasks, advertising-id, tailored-experiences, ceip-policy, app-inventory");
    reveal_strlit("'. Try: diagnostic-data, diagtrack, ceip-tasks, advertising-id, tailored-experiences, ceip-policy, app-inventory");
    let names = all_settings().map_values(|s: SettingId| cli_name_view(s));
    assert(names =~= seq![
        "diagnostic-data"@,
        "diagtrack"@,
        "ceip-tasks"@,
        "advertising-id"@,
        "tailored-experiences"@,
        "ceip-policy"@,
        "app-inventory"@,
    ]);
    assert(names.take(1) =~= seq![names[0]]);
    assert(join(names.take(1), ", "@) == names[0]);
    assert(names.take(2).drop_last() =~= names.take(1));
    assert(join(names.take(2), ", "@) == join(names.take(1), ", "@) + ", "@ + names[1]);
    assert(names.take(3).drop_last() =~= names.take(2));
    assert(join(names.take(3), ", "@) == join(names.take(2), ", "@) + ", "@ + names[2]);
    assert(names.take(4).drop_last() =~= names.take(3));
    assert(join(names.take(4), ", "@) == join(names.take(3), ", "@) + ", "@ + names[3]);
    assert(names.take(5).drop_last() =~= names.take(4));
    assert(join(names.take(5), ", "@) == join(names.take(4), ", "@) + ", "@ + names[4]);
    assert(names.take(6).drop_last() =~= names.take(5));
    assert(join(names.take(6), ", "@) == join(names.take(5), ", "@) + ", "@ + names[5]);
    assert(names.take(7).drop_last() =~= names.take(6));
    assert(join(names.take(7), ", "@) == join(names.take(6), ", "@) + ", "@ + names[6]);
    assert(names.take(7) =~= names);
    assert(join(names, ", "@) =~= "diagnostic-data, diagtrack, ceip-tasks, advertising-id, tailored-experiences, ceip-policy, app-inventory"@);
    assert("'. Try: diagnostic-data, diagtrack, ceip-tasks, advertising-id, tailored-experiences, ceip-policy, app-inventory"@
        =~= "'. Try: "@ + join(names, ", "@));
}

/// A setting's CLI name reads back as that setting.
pub proof fn lemma_cli_name_round_trip(id: SettingId)
    ensures
        parse_setting(cli_name_view(id)) == Some(id),
{
    reveal_strlit("diagnostic-data");
    reveal_strlit("diagnostics");
    reveal_strlit("telemetry");
    reveal_strlit("allow-telemetry");
    reveal_strlit("diagtrack");
    reveal_strlit("diag-track");
    reveal_strlit("connected-user-experiences");
    reveal_strlit("ceip-tasks");
    reveal_strlit("tasks");
    reveal_strlit("scheduled-tasks");
    reveal_strlit("advertising-id");
    reveal_strlit("ad-id");
    reveal_strlit("advertising");
    reveal_strlit("tailored-experiences");
    reveal_strlit("tailored");
    reveal_strlit("ceip-policy");
    reveal_strlit("ceip");
    reveal_strlit("sqm");
    reveal_strlit("app-inventory");
    reveal_strlit("inventory");
    reveal_strlit("ait");
    reveal_strlit("appcompat");
    let s = cli_name_view(id);
    assert(crate::text::trim_start(s) == s);
    assert(crate::text::trim_end(s) == s);
    assert(ascii_lower(s) =~= s);
}

/// Snapshot of one setting. `active == true` means telemetry/feature is ON (collecting).
#[derive(Debug, Clone)]
pub struct SettingState {
    pub id: SettingId,
    pub active: bool,
    pub note: String,
}

pub open spec fn state_view(s: SettingState) -> (SettingId, bool, Seq<char>) {
    (s.id, s.active, s.note@)
}

/// The diagnostic-data level: the policy value, else the current-version
/// policy value, else Required (1).
pub open spec fn telemetry_level(policy: Option<u32>, current: Option<u32>) -> u32 {
    match policy {
        Some(v) => v,
        None => match current {
            Some(v) => v,
            None => 1,
        },
    }
}

pub open spec fn diagnostic_data_view(policy: Option<u32>, current: Option<u32>) -> (
    SettingId,
    bool,
    Seq<char>,
) {
    let level = telemetry_level(policy, current);
    (
        SettingId::DiagnosticData,
        level > 0,
        "AllowTelemetry = "@ + dec(level as nat) + " (0 = Security-only / off)"@,
    )
}

/// Diagnostic data from the two `AllowTelemetry` values (`None` where unset).
pub fn diagnostic_data_state(policy: Option<u32>, current: Option<u32>) -> (r: SettingState)
    ensures
        state_view(r) == diagnostic_data_view(policy, current),
        policy matches Some(p) ==> (r.active <==> p != 0),
        policy is None ==> (current matches Some(c) ==> (r.active <==> c != 0)),
        policy is None && current is None ==> r.active,
{
    let level: u32 = match policy {
        Some(v) => v,
        None => match current {
            Some(v) => v,
            None => 1,
        },
    };
    let mut note = string_of("AllowTelemetry = ");
    push_dec(&mut note, level as u64);
    push_str(&mut note, " (0 = Security-only / off)");
    SettingState { id: SettingId::DiagnosticData, active: level > 0, note }
}

/// Diagnostic data counts as collecting at every level but Security-only
/// (0): the policy value decides when it is set, else the current-version
/// value, and with neither the Windows default (Required) is collecting.
pub proof fn lemma_diagnostic_data_off_only_at_zero(policy: Option<u32>, current: Option<u32>)
    ensures
        policy matches Some(p) ==> (diagnostic_data_view(policy, current).1 <==> p != 0),
        policy is None ==> (current matches Some(c) ==> (diagnostic_data_view(policy, current).1
            <==> c != 0)),
        policy is None && current is None ==> diagnostic_data_view(policy, current).1,
        forall|c: Option<u32>| #![auto]
            diagnostic_data_view(Some(0), c).1 == false && diagnostic_data_view(Some(1), c).1,
{
}

/// Whether `pat` occurs in `s`.
pub open spec fn contains_text(s: Seq<char>, pat: Seq<char>) -> bool {
    first_index_of(s, pat, 0) is Some
}

fn contains_chars(s: &[char], pat: &str) -> (r: bool)
    requires
        pat@.len() > 0,
    ensures
        r == contains_text(s@, pat@),
{
    let p = chars_of(pat);
    index_of_chars(s, &p).is_some()
}

/// DiagTrack from `sc qc DiagTrack` output (empty when it could not run) and
/// `sc query DiagTrack` output (`None` when it could not run).
pub open spec fn diagtrack_view(qc: Seq<char>, query: Option<Seq<char>>) -> (SettingId, bool, Seq<char>) {
    let disabled = contains_text(ascii_lower(qc), "disabled"@);
    let running = match query {
        Some(q) => contains_text(ascii_lower(q), "running"@),
        None => false,
    };
    (
        SettingId::DiagTrack,
        !disabled,
        if disabled {
            "Startup: Disabled"@
        } else if running {
            "Startup: enabled, currently Running"@
        } else {
            "Startup: not Disabled (service may start later)"@
        },
    )
}

pub fn diagtrack_state(qc: &str, query: Option<&str>) -> (r: SettingState)
    ensures
        state_view(r) == diagtrack_view(qc@, crate::temp_cleanup::opt_str_view(query)),
{
    proof {
        reveal_strlit("disabled");
        reveal_strlit("running");
    }
    let disabled = contains_chars(&lower_chars(&chars_of(qc)), "disabled");
    let running = match query {
        Some(q) => contains_chars(&lower_chars(&chars_of(q)), "running"),
        None => false,
    };
    let note = if disabled {
        string_of("Startup: Disabled")
    } else if running {
        string_of("Startup: enabled, currently Running")
    } else {
        string_of("Startup: not Disabled (service may start later)")
    };
    SettingState { id: SettingId::DiagTrack, active: !disabled, note }
}

/// The first line that, trimmed, starts with `status:`; trimmed.
pub open spec fn status_line(ls: Seq<Seq<char>>) -> Option<Seq<char>>
    decreases ls.len(),
{
    if ls.len() == 0 {
        None
    } else if has_prefix(trim(ls[0]), "status:"@) {
        Some(trim(ls[0]))
    } else {
        status_line(ls.drop_first())
    }
}

/// Whether a scheduled task is enabled, from its `schtasks /Query /FO LIST`
/// output (`None`: the query failed, so the task is not on this PC): the
/// `Status:` line says, else the whole listing does.
pub open spec fn task_enabled_view(listing: Option<Seq<char>>) -> Option<bool> {
    match listing {
        None => None,
        Some(t) => {
            let low = ascii_lower(t);
            match status_line(lines(low)) {
                Some(l) => Some(!contains_text(l, "disabled"@)),
                None => Some(!contains_text(low, "disabled"@)),
            }
        },
    }
}

pub fn task_enabled(listing: Option<&str>) -> (r: Option<bool>)
    ensures
        r == task_enabled_view(crate::temp_cleanup::opt_str_view(listing)),
{
    let t = match listing {
        None => {
            return None;
        },
        Some(t) => t,
    };
    proof {
        reveal_strlit("disabled");
        reveal_strlit("status:");
    }
    let low = lower_chars(&chars_of(t));
    let ls = split_lines(&low);
    let ghost all = ls.deep_view();
    let prefix = chars_of("status:");
    let mut i: usize = 0;
    assert(all.skip(0) =~= all);
    while i < ls.len()
        invariant
            0 <= i <= ls@.len(),
            all == ls.deep_view(),
            all == lines(low@),
            low@ == ascii_lower(t@),
            listing == Some(t),
            prefix@ == "status:"@,
            status_line(all) == status_line(all.skip(i as int)),
        decreases ls@.len() - i,
    {
        let line = trim_chars(&ls[i]);
        proof {
            reveal_strlit("disabled");
            assert(ls@[i as int]@ =~= all[i as int]);
            assert(all.skip(i as int)[0] == all[i as int]);
            assert(all.skip(i as int).drop_first() =~= all.skip(i + 1));
        }
        if starts_with_chars(&line, &prefix) {
            return Some(!contains_chars(&line, "disabled"));
        }
        i = i + 1;
    }
    assert(all.skip(i as int) =~= Seq::<Seq<char>>::empty());
    Some(!contains_chars(&low, "disabled"))
}

/// (found, enabled) over the task probes.
pub open spec fn task_counts(flags: Seq<Option<bool>>) -> (nat, nat)
    decreases flags.len(),
{
    if flags.len() == 0 {
        (0, 0)
    } else {
        let (f, e) = task_counts(flags.drop_last());
        match flags.last() {
            None => (f, e),
            Some(on) => (f + 1, if on {
                e + 1
            } else {
                e
            }),
        }
    }
}

proof fn lemma_task_counts_bound(flags: Seq<Option<bool>>)
    ensures
        task_counts(flags).1 <= task_counts(flags).0 <= flags.len(),
    decreases flags.len(),
{
    if flags.len() > 0 {
        lemma_task_counts_bound(flags.drop_last());
    }
}

pub open spec fn ceip_tasks_view(flags: Seq<Option<bool>>) -> (SettingId, bool, Seq<char>) {
    let (found, enabled) = task_counts(flags);
    (
        SettingId::CeipTasks,
        enabled > 0,
        dec(enabled) + " enabled / "@ + dec(found) + " found on this PC"@,
    )
}

/// CEIP tasks from [`task_enabled`] of each task of [`ceip_tasks`].
pub fn ceip_tasks_state(flags: &[Option<bool>]) -> (r: SettingState)
    ensures
        state_view(r) == ceip_tasks_view(flags@),
{
    let mut found: u64 = 0;
    let mut enabled: u64 = 0;
    let mut i: usize = 0;
    while i < flags.len()
        invariant
            0 <= i <= flags@.len(),
            found == task_counts(flags@.take(i as int)).0,
            enabled == task_counts(flags@.take(i as int)).1,
        decreases flags@.len() - i,
    {
        proof {
            assert(flags@.take(i + 1).drop_last() =~= flags@.take(i as int));
            lemma_task_counts_bound(flags@.take(i as int));
        }
        match flags[i] {
            None => {},
            Some(on) => {
                found = found + 1;
                if on {
                    enabled = enabled + 1;
                }
            },
        }
        i = i + 1;
    }
    assert(flags@.take(flags@.len() as int) =~= flags@);
    let mut note = String::new();
    push_dec(&mut note, enabled);
    push_str(&mut note, " enabled / ");
    push_dec(&mut note, found);
    push_str(&mut note, " found on this PC");
    SettingState { id: SettingId::CeipTasks, active: enabled > 0, note }
}

/// The name a single-value setting's note shows.
pub open spec fn dword_note_name(id: SettingId) -> Seq<char> {
    match id {
        SettingId::AdvertisingId => "Enabled"@,
        SettingId::TailoredExperiences => "TailoredExperiencesWithDiagnosticDataEnabled"@,
        _ => "CEIPEnable"@,
    }
}

/// Advertising ID, tailored experiences and the CEIP policy are one value
/// each: on unless it is 0 (unset counts as 1).
pub open spec fn dword_setting_view(id: SettingId, value: Option<u32>) -> (SettingId, bool, Seq<char>) {
    let v: u32 = match value {
        Some(v) => v,
        None => 1,
    };
    (id, v != 0, dword_note_name(id) + " = "@ + dec(v as nat))
}

/// State of a single-value setting (advertising ID, tailored experiences or
/// the CEIP policy) from its value (`None` where unset).
pub fn dword_setting_state(id: SettingId, value: Option<u32>) -> (r: SettingState)
    requires
        id == SettingId::AdvertisingId || id == SettingId::TailoredExperiences || id
            == SettingId::CeipPolicy,
    ensures
        state_view(r) == dword_setting_view(id, value),
{
    let v: u32 = match value {
        Some(v) => v,
        None => 1,
    };
    let mut note = match id {
        SettingId::AdvertisingId => string_of("Enabled"),
        SettingId::TailoredExperiences => string_of("TailoredExperiencesWithDiagnosticDataEnabled"),
        _ => string_of("CEIPEnable"),
    };
    push_str(&mut note, " = ");
    push_dec(&mut note, v as u64);
    SettingState { id, active: v != 0, note }
}

/// A value in a note: the number, or `unset`.
pub open spec fn value_text(v: Option<u32>) -> Seq<char> {
    match v {
        Some(x) => dec(x as nat),
        None => "unset"@,
    }
}

/// App inventory is off only when `AITEnable` is 0 and `DisableInventory` is
/// 1 (each unset value counts as on).
pub open spec fn app_inventory_view(ait: Option<u32>, inv: Option<u32>) -> (SettingId, bool, Seq<char>) {
    let active = match (ait, inv) {
        (Some(a), Some(i)) => !(a == 0 && i == 1),
        (None, None) => true,
        _ => {
            let a: u32 = match ait {
                Some(a) => a,
                None => 1,
            };
            let i: u32 = match inv {
                Some(i) => i,
                None => 0,
            };
            a != 0 || i != 1
        },
    };
    (
        SettingId::AppInventory,
        active,
        "AITEnable = "@ + value_text(ait) + ", DisableInventory = "@ + value_text(inv),
    )
}

fn push_value_text(s: &mut String, v: Option<u32>)
    ensures
        final(s)@ == old(s)@ + value_text(v),
{
    match v {
        Some(x) => push_dec(s, x as u64),
        None => push_str(s, "unset"),
    }
}

/// App inventory from `AITEnable` and `DisableInventory` (`None` where unset).
pub fn app_inventory_state(ait: Option<u32>, inv: Option<u32>) -> (r: SettingState)
    ensures
        state_view(r) == app_inventory_view(ait, inv),
{
    let active = match (ait, inv) {
        (Some(0), Some(1)) => false,
        (None, None) => true,
        (a, i) => {
            let a: u32 = match a {
                Some(a) => a,
                None => 1,
            };
            let i: u32 = match i {
                Some(i) => i,
                None => 0,
            };
            a != 0 || i != 1
        },
    };
    let mut note = string_of("AITEnable = ");
    push_value_text(&mut note, ait);
    push_str(&mut note, ", DisableInventory = ");
    push_value_text(&mut note, inv);
    SettingState { id: SettingId::AppInventory, active, note }
}

/// A registry hive.
#[derive(Debug, Clone, Copy, PartialEq, Eq, Structural)]
pub enum Hive {
    LocalMachine,
    CurrentUser,
}

/// One DWORD to write; a write that is not `required` is best-effort.
#[derive(Debug, Clone, Copy)]
pub struct DwordWrite {
    pub hive: Hive,
    pub path: &'static str,
    pub name: &'static str,
    pub value: u32,
    pub required: bool,
}

pub open spec fn dword_write(hive: Hive, path: &'static str, name: &'static str, value: u32, required: bool) -> DwordWrite {
    DwordWrite { hive, path, name, value, required }
}

pub open spec fn flag_value(active: bool) -> u32 {
    if active {
        1
    } else {
        0
    }
}

/// The registry writes that switch a registry-backed setting on or off, in
/// order (none for the service and the tasks).
pub open spec fn registry_writes_view(id: SettingId, active: bool) -> Seq<DwordWrite> {
    let v = flag_value(active);
    match id {
        SettingId::DiagnosticData => seq![
            dword_write(Hive::LocalMachine, "SOFTWARE\\Policies\\Microsoft\\Windows\\DataCollection", "AllowTelemetry", v, true),
            dword_write(Hive::LocalMachine, "SOFTWARE\\Policies\\Microsoft\\Windows\\DataCollection", "MaxTelemetryAllowed", v, false),
            dword_write(Hive::LocalMachine, "SOFTWARE\\Microsoft\\Windows\\CurrentVersion\\Policies\\DataCollection", "AllowTelemetry", v, true),
            dword_write(Hive::LocalMachine, "SOFTWARE\\Microsoft\\Windows\\CurrentVersion\\Policies\\DataCollection", "MaxTelemetryAllowed", v, false),
        ],
        SettingId::AdvertisingId => seq![
            dword_write(Hive::CurrentUser, "SOFTWARE\\Microsoft\\Windows\\CurrentVersion\\AdvertisingInfo", "Enabled", v, true),
        ],
        SettingId::TailoredExperiences => seq![
            dword_write(Hive::CurrentUser, "SOFTWARE\\Microsoft\\Windows\\CurrentVersion\\Privacy", "TailoredExperiencesWithDiagnosticDataEnabled", v, true),
        ],
        SettingId::CeipPolicy => seq![
            dword_write(Hive::LocalMachine, "SOFTWARE\\Policies\\Microsoft\\SQMClient\\Windows", "CEIPEnable", v, true),
        ],
        SettingId::AppInventory => seq![
            dword_write(Hive::LocalMachine, "SOFTWARE\\Policies\\Microsoft\\Windows\\AppCompat", "AITEnable", v, true),
            dword_write(Hive::LocalMachine, "SOFTWARE\\Policies\\Microsoft\\Windows\\AppCompat", "DisableInventory", flag_value(!active), true),
        ],
        _ => Seq::empty(),
    }
}

/// The registry writes that switch a setting (see [`registry_writes_view`]).
pub fn registry_writes(id: SettingId, active: bool) -> (r: Vec<DwordWrite>)
    ensures
        r@ == registry_writes_view(id, active),
{
    let v: u32 = if active {
        1
    } else {
        0
    };
    let inv: u32 = if active {
        0
    } else {
        1
    };
    let r = match id {
        SettingId::DiagnosticData => vec![
            DwordWrite { hive: Hive::LocalMachine, path: "SOFTWARE\\Policies\\Microsoft\\Windows\\DataCollection", name: "AllowTelemetry", value: v, required: true },
            DwordWrite { hive: Hive::LocalMachine, path: "SOFTWARE\\Policies\\Microsoft\\Windows\\DataCollection", name: "MaxTelemetryAllowed", value: v, required: false },
            DwordWrite { hive: Hive::LocalMachine, path: "SOFTWARE\\Microsoft\\Windows\\CurrentVersion\\Policies\\DataCollection", name: "AllowTelemetry", value: v, required: true },
            DwordWrite { hive: Hive::LocalMachine, path: "SOFTWARE\\Microsoft\\Windows\\CurrentVersion\\Policies\\DataCollection", name: "MaxTelemetryAllowed", value: v, required: false },
        ],
        SettingId::AdvertisingId => vec![
            DwordWrite { hive: Hive::CurrentUser, path: "SOFTWARE\\Microsoft\\Windows\\CurrentVersion\\AdvertisingInfo", name: "Enabled", value: v, required: true },
        ],
        SettingId::TailoredExperiences => vec![
            DwordWrite { hive: Hive::CurrentUser, path: "SOFTWARE\\Microsoft\\Windows\\CurrentVersion\\Privacy", name: "TailoredExperiencesWithDiagnosticDataEnabled", value: v, required: true },
        ],
        SettingId::CeipPolicy => vec![
            DwordWrite { hive: Hive::LocalMachine, path: "SOFTWARE\\Policies\\Microsoft\\SQMClient\\Windows", name: "CEIPEnable", value: v, required: true },
        ],
        SettingId::AppInventory => vec![
            DwordWrite { hive: Hive::LocalMachine, path: "SOFTWARE\\Policies\\Microsoft\\Windows\\AppCompat", name: "AITEnable", value: v, required: true },
            DwordWrite { hive: Hive::LocalMachine, path: "SOFTWARE\\Policies\\Microsoft\\Windows\\AppCompat", name: "DisableInventory", value: inv, required: true },
        ],
        _ => Vec::new(),
    };
    assert(r@ =~= registry_writes_view(id, active));
    r
}

/// The error of a key that could not be created.
pub open spec fn create_key_error_view(path: Seq<char>, e: Seq<char>) -> Seq<char> {
    "create "@ + path + ": "@ + e
}

pub fn create_key_error(path: &str, e: &str) -> (r: String)
    ensures
        r@ == create_key_error_view(path@, e@),
{
    let mut m = string_of("create ");
    push_str(&mut m, path);
    push_str(&mut m, ": ");
    push_str(&mut m, e);
    m
}

/// The error of a value that could not be set.
pub open spec fn set_value_error_view(path: Seq<char>, name: Seq<char>, e: Seq<char>) -> Seq<char> {
    "set "@ + path + seq!['\\'] + name + ": "@ + e
}

pub fn set_value_error(path: &str, name: &str, e: &str) -> (r: String)
    ensures
        r@ == set_value_error_view(path@, name@, e@),
{
    let mut m = string_of("set ");
    push_str(&mut m, path);
    crate::text::push_char(&mut m, '\\');
    push_str(&mut m, name);
    push_str(&mut m, ": ");
    push_str(&mut m, e);
    m
}

/// What switching a registry-backed setting reports once its writes succeeded.
pub open spec fn registry_message(id: SettingId, active: bool) -> Seq<char> {
    let v = flag_value(active);
    match id {
        SettingId::DiagnosticData => "AllowTelemetry set to "@ + dec(v as nat),
        SettingId::AdvertisingId => "AdvertisingInfo\\Enabled = "@ + dec(v as nat),
        SettingId::TailoredExperiences => "TailoredExperiences = "@ + dec(v as nat),
        SettingId::CeipPolicy => "CEIPEnable = "@ + dec(v as nat),
        _ => if active {
            "App inventory telemetry re-enabled"@
        } else {
            "App inventory / AIT disabled"@
        },
    }
}

/// The first failure among the outcomes of the required writes, if any.
pub open spec fn first_required_failure(
    plan: Seq<DwordWrite>,
    outcomes: Seq<Result<(), String>>,
    i: int,
) -> Option<Seq<char>>
    decreases outcomes.len() - i,
{
    if i < 0 || i >= outcomes.len() || i >= plan.len() {
        None
    } else if plan[i].required && outcomes[i] is Err {
        Some(outcomes[i]->Err_0@)
    } else {
        first_required_failure(plan, outcomes, i + 1)
    }
}

/// Switching a registry-backed setting: its writes are made in plan order and
/// stop at the first required one that fails, which is then the outcome.
pub open spec fn registry_apply_view(id: SettingId, active: bool, outcomes: Seq<Result<(), String>>) -> Result<
    Seq<char>,
    Seq<char>,
> {
    match first_required_failure(registry_writes_view(id, active), outcomes, 0) {
        Some(e) => Err(e),
        None => Ok(registry_message(id, active)),
    }
}

/// Outcome of switching a registry-backed setting: `outcomes` are those of
/// its [`registry_writes`], in order, up to the first failed required one.
pub fn registry_apply_outcome(id: SettingId, active: bool, outcomes: &[Result<(), String>]) -> (r:
    Result<String, String>)
    ensures
        text_result_view(r) == registry_apply_view(id, active, outcomes@),
{
    let plan = registry_writes(id, active);
    let mut i: usize = 0;
    assert(first_required_failure(plan@, outcomes@, 0) == first_required_failure(
        plan@,
        outcomes@,
        0,
    ));
    while i < outcomes.len() && i < plan.len()
        invariant
            0 <= i,
            plan@ == registry_writes_view(id, active),
            first_required_failure(plan@, outcomes@, 0) == first_required_failure(
                plan@,
                outcomes@,
                i as int,
            ),
        decreases outcomes@.len() - i,
    {
        if plan[i].required {
            if let Err(e) = &outcomes[i] {
                return Err(e.clone());
            }
        }
        i = i + 1;
    }
    let v: u32 = if active {
        1
    } else {
        0
    };
    let m = match id {
        SettingId::DiagnosticData => {
            let mut m = string_of("AllowTelemetry set to ");
            push_dec(&mut m, v as u64);
            m
        },
        SettingId::AdvertisingId => {
            let mut m = string_of("AdvertisingInfo\\Enabled = ");
            push_dec(&mut m, v as u64);
            m
        },
        SettingId::TailoredExperiences => {
            let mut m = string_of("TailoredExperiences = ");
            push_dec(&mut m, v as u64);
            m
        },
        SettingId::CeipPolicy => {
            let mut m = string_of("CEIPEnable = ");
            push_dec(&mut m, v as u64);
            m
        },
        _ => if active {
            string_of("App inventory telemetry re-enabled")
        } else {
            string_of("App inventory / AIT disabled")
        },
    };
    Ok(m)
}

/// The `sc.exe` arguments that set DiagTrack's startup type.
pub open spec fn diagtrack_config_args_view(active: bool) -> Seq<Seq<char>> {
    seq!["config"@, "DiagTrack"@, "start="@, if active {
        "auto"@
    } else {
        "disabled"@
    }]
}

pub fn diagtrack_config_args(active: bool) -> (r: Vec<String>)
    ensures
        r.deep_view() == diagtrack_config_args_view(active),
{
    let mut r: Vec<String> = Vec::new();
    r.push(string_of("config"));
    r.push(string_of("DiagTrack"));
    r.push(string_of("start="));
    r.push(
        if active {
            string_of("auto")
        } else {
            string_of("disabled")
        },
    );
    assert(r.deep_view() =~= diagtrack_config_args_view(active));
    r
}

/// Switching DiagTrack (stopped first when switching off, start requested
/// after when switching on; both best-effort): the startup-type change decides.
pub open spec fn diagtrack_apply_view(
    active: bool,
    config: Result<bool, Seq<char>>,
    stderr: Seq<char>,
    stdout: Seq<char>,
) -> Result<Seq<char>, Seq<char>> {
    match config {
        Err(e) => Err(e),
        Ok(false) => Err(command_error_view(stderr, stdout)),
        Ok(true) => Ok(
            if active {
                "DiagTrack set to Automatic and start requested"@
            } else {
                "DiagTrack stopped and Disabled"@
            },
        ),
    }
}

/// Outcome of switching DiagTrack: `config` is how `sc config` ran (its exit
/// status, or the error of a process that could not start), with its output.
pub fn diagtrack_apply_outcome(
    active: bool,
    config: Result<bool, String>,
    stderr: &str,
    stdout: &str,
) -> (r: Result<String, String>)
    ensures
        text_result_view(r) == diagtrack_apply_view(active, result_view(config), stderr@, stdout@),
{
    match config {
        Err(e) => Err(e),
        Ok(false) => Err(command_error(stderr, stdout)),
        Ok(true) => Ok(
            if active {
                string_of("DiagTrack set to Automatic and start requested")
            } else {
                string_of("DiagTrack stopped and Disabled")
            },
        ),
    }
}

/// The CEIP / feedback scheduled tasks, by path.
pub open spec fn ceip_task_table() -> Seq<&'static str> {
    seq![
        "\\Microsoft\\Windows\\Customer Experience Improvement Program\\Consolidator",
        "\\Microsoft\\Windows\\Customer Experience Improvement Program\\UsbCeip",
        "\\Microsoft\\Windows\\Application Experience\\Microsoft Compatibility Appraiser",
        "\\Microsoft\\Windows\\Application Experience\\ProgramDataUpdater",
        "\\Microsoft\\Windows\\Application Experience\\PcaPatchDbTask",
        "\\Microsoft\\Windows\\Application Experience\\StartupAppTask",
        "\\Microsoft\\Windows\\Feedback\\Siuf\\DmClient",
        "\\Microsoft\\Windows\\Feedback\\Siuf\\DmClientOnScenarioDownload",
        "\\Microsoft\\Windows\\Maps\\MapsToastTask",
        "\\Microsoft\\Windows\\Maps\\MapsUpdateTask",
        "\\Microsoft\\Windows\\Shell\\FamilySafetyMonitor",
        "\\Microsoft\\Windows\\Shell\\FamilySafetyRefreshTask",
        "\\Microsoft\\Windows\\Windows Error Reporting\\QueueReporting",
    ]
}

/// The CEIP / feedback scheduled tasks, by path.
pub fn ceip_tasks() -> (r: Vec<&'static str>)
    ensures
        r@ == ceip_task_table(),
{
    let r = vec![
        "\\Microsoft\\Windows\\Customer Experience Improvement Program\\Consolidator",
        "\\Microsoft\\Windows\\Customer Experience Improvement Program\\UsbCeip",
        "\\Microsoft\\Windows\\Application Experience\\Microsoft Compatibility Appraiser",
        "\\Microsoft\\Windows\\Application Experience\\ProgramDataUpdater",
        "\\Microsoft\\Windows\\Application Experience\\PcaPatchDbTask",
        "\\Microsoft\\Windows\\Application Experience\\StartupAppTask",
        "\\Microsoft\\Windows\\Feedback\\Siuf\\DmClient",
        "\\Microsoft\\Windows\\Feedback\\Siuf\\DmClientOnScenarioDownload",
        "\\Microsoft\\Windows\\Maps\\MapsToastTask",
        "\\Microsoft\\Windows\\Maps\\MapsUpdateTask",
        "\\Microsoft\\Windows\\Shell\\FamilySafetyMonitor",
        "\\Microsoft\\Windows\\Shell\\FamilySafetyRefreshTask",
        "\\Microsoft\\Windows\\Windows Error Reporting\\QueueReporting",
    ];
    assert(r@ =~= ceip_task_table());
    r
}

/// The `schtasks` arguments that enable or disable one task.
pub open spec fn task_change_args_view(task: Seq<char>, active: bool) -> Seq<Seq<char>> {
    seq!["/Change"@, "/TN"@, task, if active {
        "/Enable"@
    } else {
        "/Disable"@
    }]
}

pub fn task_change_args(task: &str, active: bool) -> (r: Vec<String>)
    ensures
        r.deep_view() == task_change_args_view(task@, active),
{
    let mut r: Vec<String> = Vec::new();
    r.push(string_of("/Change"));
    r.push(string_of("/TN"));
    r.push(string_of(task));
    r.push(
        if active {
            string_of("/Enable")
        } else {
            string_of("/Disable")
        },
    );
    assert(r.deep_view() =~= task_change_args_view(task@, active));
    r
}

/// The results before the first process that could not start.
pub open spec fn runs_before_failure(rs: Seq<Result<bool, String>>) -> int
    decreases rs.len(),
{
    if rs.len() == 0 {
        0
    } else if rs[0] is Err {
        0
    } else {
        1 + runs_before_failure(rs.drop_first())
    }
}

/// (changed, missing) over task changes that ran.
pub open spec fn change_counts(rs: Seq<Result<bool, String>>) -> (nat, nat)
    decreases rs.len(),
{
    if rs.len() == 0 {
        (0, 0)
    } else {
        let (c, m) = change_counts(rs.drop_last());
        if rs.last() == Ok::<bool, String>(true) {
            (c + 1, m)
        } else {
            (c, m + 1)
        }
    }
}

/// Switching the CEIP tasks: each task is changed in turn; a change whose
/// process could not start stops the run with its error; else the report
/// counts the tasks changed and those not present (changes that failed).
pub open spec fn ceip_apply_view(active: bool, rs: Seq<Result<bool, String>>) -> Result<
    Seq<char>,
    Seq<char>,
> {
    let k = runs_before_failure(rs);
    if k < rs.len() {
        Err(rs[k]->Err_0@)
    } else {
        let (c, m) = change_counts(rs);
        Ok(
            (if active {
                "Enabled "@
            } else {
                "Disabled "@
            }) + dec(c) + " tasks ("@ + dec(m) + " not present)"@,
        )
    }
}

proof fn lemma_runs_before_failure(rs: Seq<Result<bool, String>>)
    ensures
        0 <= runs_before_failure(rs) <= rs.len(),
        runs_before_failure(rs) < rs.len() ==> rs[runs_before_failure(rs)] is Err,
        forall|j: int| 0 <= j < runs_before_failure(rs) ==> rs[j] is Ok,
    decreases rs.len(),
{
    if rs.len() > 0 && rs[0] is Ok {
        lemma_runs_before_failure(rs.drop_first());
        assert forall|j: int| 0 <= j < runs_before_failure(rs) implies rs[j] is Ok by {
            if j > 0 {
                assert(rs.drop_first()[j - 1] == rs[j]);
            }
        }
    }
}

proof fn lemma_change_counts_len(rs: Seq<Result<bool, String>>)
    ensures
        change_counts(rs).0 + change_counts(rs).1 == rs.len(),
    decreases rs.len(),
{
    if rs.len() > 0 {
        lemma_change_counts_len(rs.drop_last());
    }
}

/// Outcome of switching the CEIP tasks: `runs` are the [`task_change_args`]
/// runs of [`ceip_tasks`] in order (exit status, or the error of a process
/// that could not start, after which no more run).
pub fn ceip_apply_outcome(active: bool, runs: &[Result<bool, String>]) -> (r: Result<String, String>)
    ensures
        text_result_view(r) == ceip_apply_view(active, runs@),
{
    proof {
        lemma_runs_before_failure(runs@);
    }
    let mut changed: u64 = 0;
    let mut missing: u64 = 0;
    let mut i: usize = 0;
    while i < runs.len()
        invariant
            0 <= i <= runs@.len(),
            0 <= runs_before_failure(runs@) <= runs@.len(),
            runs_before_failure(runs@) < runs@.len() ==> runs@[runs_before_failure(runs@)] is Err,
            forall|j: int| 0 <= j < runs_before_failure(runs@) ==> runs@[j] is Ok,
            i <= runs_before_failure(runs@),
            changed == change_counts(runs@.take(i as int)).0,
            missing == change_counts(runs@.take(i as int)).1,
        decreases runs@.len() - i,
    {
        proof {
            assert(runs@.take(i + 1).drop_last() =~= runs@.take(i as int));
            lemma_change_counts_len(runs@.take(i as int));
        }
        match &runs[i] {
            Err(e) => {
                proof {
                    if i < runs_before_failure(runs@) {
                        assert(runs@[i as int] is Ok);
                    }
                }
                return Err(e.clone());
            },
            Ok(ok) => {
                proof {
                    if i == runs_before_failure(runs@) {
                        assert(runs@[i as int] is Err);
                    }
                }
                if *ok {
                    changed = changed + 1;
                } else {
                    missing = missing + 1;
                }
            },
        }
        i = i + 1;
    }
    assert(runs@.take(runs@.len() as int) =~= runs@);
    let mut m = if active {
        string_of("Enabled ")
    } else {
        string_of("Disabled ")
    };
    push_dec(&mut m, changed);
    push_str(&mut m, " tasks (");
    push_dec(&mut m, missing);
    push_str(&mut m, " not present)");
    Ok(m)
}

/// A task missing from this build never fails the switch: when every change
/// process started, switching the tasks succeeds, and each task is counted
/// either as changed or as not present.
pub proof fn lemma_missing_tasks_are_skipped(active: bool, rs: Seq<Result<bool, String>>)
    requires
        forall|j: int| 0 <= j < rs.len() ==> #[trigger] rs[j] is Ok,
    ensures
        ceip_apply_view(active, rs) is Ok,
        change_counts(rs).0 + change_counts(rs).1 == rs.len(),
{
    lemma_runs_before_failure(rs);
    lemma_change_counts_len(rs);
}

/// Switching a setting on writes the same values in the same places as
/// switching it off, each with the opposite value (0 and 1); off writes
/// `AllowTelemetry` as 0. The service and the tasks change the same way:
/// only the start type and the enable flag differ.
pub proof fn lemma_on_reverses_off(id: SettingId, task: Seq<char>)
    ensures
        registry_writes_view(id, true).len() == registry_writes_view(id, false).len(),
        forall|i: int|
            0 <= i < registry_writes_view(id, false).len() ==> {
                let on = #[trigger] registry_writes_view(id, true)[i];
                let off = registry_writes_view(id, false)[i];
                &&& on.hive == off.hive
                &&& on.path == off.path
                &&& on.name == off.name
                &&& on.required == off.required
                &&& on.value + off.value == 1
            },
        id == SettingId::DiagnosticData ==> registry_writes_view(id, false)[0].value == 0
            && registry_writes_view(id, false)[0].name == "AllowTelemetry",
        diagtrack_config_args_view(true).take(3) == diagtrack_config_args_view(false).take(3),
        diagtrack_config_args_view(false)[3] == "disabled"@,
        task_change_args_view(task, true).take(3) == task_change_args_view(task, false).take(3),
        task_change_args_view(task, false)[3] == "/Disable"@,
{
    assert(diagtrack_config_args_view(true).take(3) =~= diagtrack_config_args_view(false).take(3));
    assert(task_change_args_view(task, true).take(3) =~= task_change_args_view(task, false).take(3));
}


/// `s` with each `'` doubled (quoting inside a PowerShell single-quoted string).
pub open spec fn ps_escape(s: Seq<char>) -> Seq<char>
    decreases s.len(),
{
    if s.len() == 0 {
        Seq::empty()
    } else {
        ps_escape(s.drop_last()) + if s.last() == '\'' {
            seq!['\'', '\'']
        } else {
            seq![s.last()]
        }
    }
}

fn push_ps_escaped(s: &mut String, t: &str)
    ensures
        final(s)@ == old(s)@ + ps_escape(t@),
{
    let cs = chars_of(t);
    let ghost start = s@;
    let mut i: usize = 0;
    assert(cs@.take(0) =~= Seq::<char>::empty());
    while i < cs.len()
        invariant
            0 <= i <= cs@.len(),
            cs@ == t@,
            s@ == start + ps_escape(cs@.take(i as int)),
        decreases cs@.len() - i,
    {
        assert(cs@.take(i + 1).drop_last() =~= cs@.take(i as int));
        if cs[i] == '\'' {
            crate::text::push_char(s, '\'');
            crate::text::push_char(s, '\'');
        } else {
            crate::text::push_char(s, cs[i]);
        }
        i = i + 1;
        assert(s@ =~= start + ps_escape(cs@.take(i as int)));
    }
    assert(cs@.take(cs@.len() as int) =~= cs@);
}

/// The arguments forwarded to an elevated relaunch, each single-quoted.
pub open spec fn quoted_args(args: Seq<Seq<char>>) -> Seq<Seq<char>> {
    args.map_values(|a: Seq<char>| seq!['\''] + ps_escape(a) + seq!['\''])
}

/// The PowerShell command that relaunches `exe` elevated, forwarding `args`
/// and waiting for it when asked.
pub open spec fn elevation_command_view(exe: Seq<char>, args: Seq<Seq<char>>, wait: bool) -> Seq<char> {
    "Start-Process -FilePath '"@ + ps_escape(exe) + "' -Verb RunAs"@ + (if wait {
        " -Wait"@
    } else {
        Seq::empty()
    }) + if args.len() == 0 {
        Seq::empty()
    } else {
        " -ArgumentList "@ + join(quoted_args(args), seq![','])
    }
}

pub open spec fn strings_view(v: Seq<String>) -> Seq<Seq<char>> {
    v.map_values(|s: String| s@)
}

/// The PowerShell command that relaunches `exe` elevated (see [`elevation_command_view`]).
pub fn elevation_command(exe: &str, args: &[String], wait: bool) -> (r: String)
    ensures
        r@ == elevation_command_view(exe@, strings_view(args@), wait),
{
    let ghost av = strings_view(args@);
    let mut s = string_of("Start-Process -FilePath '");
    push_ps_escaped(&mut s, exe);
    push_str(&mut s, "' -Verb RunAs");
    if wait {
        push_str(&mut s, " -Wait");
    }
    let ghost head = s@;
    if args.len() > 0 {
        push_str(&mut s, " -ArgumentList ");
        let ghost start = s@;
        let ghost q = quoted_args(av);
        let mut i: usize = 0;
        assert(q.take(0) =~= Seq::<Seq<char>>::empty());
        while i < args.len()
            invariant
                0 <= i <= args@.len(),
                av == strings_view(args@),
                q == quoted_args(av),
                q.len() == args@.len(),
                s@ == start + join(q.take(i as int), seq![',']),
            decreases args@.len() - i,
        {
            let ghost before = s@;
            if i > 0 {
                crate::text::push_char(&mut s, ',');
            }
            crate::text::push_char(&mut s, '\'');
            push_ps_escaped(&mut s, args[i].as_str());
            crate::text::push_char(&mut s, '\'');
            proof {
                let next = q.take(i + 1);
                assert(next.drop_last() =~= q.take(i as int));
                assert(next.last() == seq!['\''] + ps_escape(args@[i as int]@) + seq!['\'']);
                if i == 0 {
                    assert(join(next, seq![',']) == next[0]);
                    assert(s@ =~= start + join(next, seq![',']));
                } else {
                    assert(s@ =~= start + join(next, seq![',']));
                }
            }
            i = i + 1;
        }
        assert(q.take(args@.len() as int) =~= q);
    }
    assert(s@ =~= elevation_command_view(exe@, av, wait));
    s
}

/// The `powershell` arguments of an elevated relaunch.
pub open spec fn elevation_args_view(exe: Seq<char>, args: Seq<Seq<char>>, wait: bool) -> Seq<Seq<char>> {
    seq!["-NoProfile"@, "-WindowStyle"@, "Hidden"@, "-Command"@, elevation_command_view(exe, args, wait)]
}

pub fn elevation_args(exe: &str, args: &[String], wait: bool) -> (r: Vec<String>)
    ensures
        r.deep_view() == elevation_args_view(exe@, strings_view(args@), wait),
{
    let mut r: Vec<String> = Vec::new();
    r.push(string_of("-NoProfile"));
    r.push(string_of("-WindowStyle"));
    r.push(string_of("Hidden"));
    r.push(string_of("-Command"));
    r.push(elevation_command(exe, args, wait));
    assert(r.deep_view() =~= elevation_args_view(exe@, strings_view(args@), wait));
    r
}

/// Outcome of an elevated relaunch from how PowerShell ran (exit status, or
/// the error of a process that could not start).
pub fn relaunch_outcome(ran: Result<bool, String>) -> (r: Result<(), String>)
    ensures
        match ran {
            Ok(true) => r is Ok,
            Ok(false) => r is Err && r->Err_0@ == "UAC elevation was cancelled or failed"@,
            Err(e) => r is Err && r->Err_0@ == e@,
        },
{
    match ran {
        Ok(true) => Ok(()),
        Ok(false) => Err(string_of("UAC elevation was cancelled or failed")),
        Err(e) => Err(e),
    }
}

/// Making sure of administrator rights: already elevated is `Ok(true)`; else
/// the relaunch decides: `Ok(false)` (the caller exits) or its error.
pub fn ensure_elevated(elevated: bool, relaunch: Result<(), String>) -> (r: Result<bool, String>)
    ensures
        elevated ==> r == Ok::<bool, String>(true),
        !elevated ==> match relaunch {
            Ok(_) => r == Ok::<bool, String>(false),
            Err(e) => r is Err && r->Err_0@ == e@,
        },
{
    if elevated {
        return Ok(true);
    }
    match relaunch {
        Ok(()) => Ok(false),
        Err(e) => Err(e),
    }
}

} // verus!
