//! The one-shot lockdown: diagnostic-data policy to Security-only, DiagTrack
//! stopped and disabled, the CEIP / feedback tasks disabled, and the extra
//! privacy keys turned off, each step reported line by line. The caller
//! writes the keys and runs the commands, and hands each outcome back.

use vstd::prelude::*;

use crate::schedule_task::{command_error, command_error_view};
use crate::telemetry::ceip_task_table;
use crate::text::{dec, push_dec, push_str, string_of};

verus! {

/// Printed first.
pub const BANNER: &'static str = "windows-diagnostics — Windows diagnostic lockdown";

/// Printed before asking for elevation.
pub const ELEVATION_NOTICE: &'static str = "Administrator rights required — requesting elevation...";

/// One line of the lockdown report; `error` lines go to the error stream.
#[derive(Debug, Clone)]
pub struct ReportLine {
    pub error: bool,
    pub text: String,
}

pub open spec fn lines_view(v: Seq<ReportLine>) -> Seq<(bool, Seq<char>)> {
    v.map_values(|l: ReportLine| (l.error, l.text@))
}

proof fn lemma_lines_push(v: Seq<ReportLine>, l: ReportLine)
    ensures
        lines_view(v.push(l)) == lines_view(v).push((l.error, l.text@)),
{
    assert(lines_view(v.push(l)) =~= lines_view(v).push((l.error, l.text@)));
}

fn out(text: String) -> (r: ReportLine)
    ensures
        r.error == false && r.text@ == text@,
{
    ReportLine { error: false, text }
}

fn err(text: String) -> (r: ReportLine)
    ensures
        r.error == true && r.text@ == text@,
{
    ReportLine { error: true, text }
}

/// The message when elevation could not be had: `ran` is how the elevated
/// relaunch went (its exit status, or the error of a process that could not
/// start); `None` when it succeeded.
pub open spec fn elevation_failure_view(ran: Result<bool, Seq<char>>) -> Option<Seq<char>> {
    match ran {
        Ok(true) => None,
        Ok(false) => Some("Failed to elevate: UAC elevation was cancelled or failed"@),
        Err(e) => Some("Failed to elevate: "@ + e),
    }
}

pub fn elevation_failure(ran: Result<bool, String>) -> (r: Option<String>)
    ensures
        match elevation_failure_view(crate::launch::result_view(ran)) {
            None => r is None,
            Some(m) => r is Some && r.unwrap()@ == m,
        },
{
    match ran {
        Ok(true) => None,
        Ok(false) => Some(string_of("Failed to elevate: UAC elevation was cancelled or failed")),
        Err(e) => {
            let mut m = string_of("Failed to elevate: ");
            push_str(&mut m, e.as_str());
            Some(m)
        },
    }
}

/// The two policy keys that hold `AllowTelemetry` (and `MaxTelemetryAllowed`,
/// set best-effort).
pub open spec fn policy_path_table() -> Seq<&'static str> {
    seq![
        "SOFTWARE\\Policies\\Microsoft\\Windows\\DataCollection",
        "SOFTWARE\\Microsoft\\Windows\\CurrentVersion\\Policies\\DataCollection",
    ]
}

pub fn policy_paths() -> (r: Vec<&'static str>)
    ensures
        r@ == policy_path_table(),
{
    let r = vec![
        "SOFTWARE\\Policies\\Microsoft\\Windows\\DataCollection",
        "SOFTWARE\\Microsoft\\Windows\\CurrentVersion\\Policies\\DataCollection",
    ];
    assert(r@ =~= policy_path_table());
    r
}

/// How one key went: `Err` when it could not be created, else how setting
/// its value went.
pub open spec fn key_outcome_view(o: Result<Result<(), String>, String>) -> Result<Result<(), Seq<char>>, Seq<char>> {
    match o {
        Err(e) => Err(e@),
        Ok(Err(e)) => Ok(Err(e@)),
        Ok(Ok(_)) => Ok(Ok(())),
    }
}

pub open spec fn policy_line(path: Seq<char>, level: u32, o: Result<Result<(), Seq<char>>, Seq<char>>) -> (
    bool,
    Seq<char>,
) {
    match o {
        Err(e) => (true, "  FAIL create "@ + path + ": "@ + e),
        Ok(Err(e)) => (true, "  FAIL "@ + path + "\\AllowTelemetry: "@ + e),
        Ok(Ok(_)) => (false, "  OK  "@ + path + "\\AllowTelemetry = "@ + dec(level as nat)),
    }
}

/// Step one: `outcomes[i]` for the `i`-th policy key. It succeeds when both
/// keys took the value.
pub open spec fn policy_step_view(level: u32, outcomes: Seq<Result<Result<(), Seq<char>>, Seq<char>>>) -> (
    Seq<(bool, Seq<char>)>,
    bool,
) {
    (
        seq![
            (false, "[1/4] Setting AllowTelemetry = "@ + dec(level as nat) + " (policy)..."@),
            policy_line(policy_path_table()[0]@, level, outcomes[0]),
            policy_line(policy_path_table()[1]@, level, outcomes[1]),
        ],
        outcomes[0] == Ok::<Result<(), Seq<char>>, Seq<char>>(Ok(())) && outcomes[1] == Ok::<
            Result<(), Seq<char>>,
            Seq<char>,
        >(Ok(())),
    )
}

fn policy_report_line(path: &str, level: u32, o: &Result<Result<(), String>, String>) -> (r: ReportLine)
    ensures
        (r.error, r.text@) == policy_line(path@, level, key_outcome_view(*o)),
{
    match o {
        Err(e) => {
            let mut t = string_of("  FAIL create ");
            push_str(&mut t, path);
            push_str(&mut t, ": ");
            push_str(&mut t, e.as_str());
            err(t)
        },
        Ok(Err(e)) => {
            let mut t = string_of("  FAIL ");
            push_str(&mut t, path);
            push_str(&mut t, "\\AllowTelemetry: ");
            push_str(&mut t, e.as_str());
            err(t)
        },
        Ok(Ok(())) => {
            let mut t = string_of("  OK  ");
            push_str(&mut t, path);
            push_str(&mut t, "\\AllowTelemetry = ");
            push_dec(&mut t, level as u64);
            out(t)
        },
    }
}

pub fn policy_step(level: u32, outcomes: &[Result<Result<(), String>, String>]) -> (r: (Vec<ReportLine>, bool))
    requires
        outcomes@.len() == 2,
    ensures
        (lines_view(r.0@), r.1) == policy_step_view(
            level,
            outcomes@.map_values(|o: Result<Result<(), String>, String>| key_outcome_view(o)),
        ),
        r.1 <==> (forall|i: int| 0 <= i < 2 ==> #[trigger] outcomes@[i] matches Ok(Ok(_))),
        r.1 <==> (forall|j: int| 0 <= j < r.0@.len() ==> !(#[trigger] r.0@[j]).error),
{
    let paths = policy_paths();
    let mut head = string_of("[1/4] Setting AllowTelemetry = ");
    push_dec(&mut head, level as u64);
    push_str(&mut head, " (policy)...");
    let mut lines: Vec<ReportLine> = Vec::new();
    lines.push(out(head));
    lines.push(policy_report_line(paths[0], level, &outcomes[0]));
    lines.push(policy_report_line(paths[1], level, &outcomes[1]));
    let ok0 = match &outcomes[0] {
        Ok(Ok(())) => true,
        _ => false,
    };
    let ok1 = match &outcomes[1] {
        Ok(Ok(())) => true,
        _ => false,
    };
    let ghost ov = outcomes@.map_values(|o: Result<Result<(), String>, String>| key_outcome_view(o));
    assert(ov[0] == key_outcome_view(outcomes@[0]));
    assert(ov[1] == key_outcome_view(outcomes@[1]));
    assert(lines_view(lines@) =~= policy_step_view(level, ov).0);
    proof {
        lemma_policy_step_needs_every_key(level, ov);
        assert(lines_view(lines@).len() == lines@.len());
        assert forall|j: int| 0 <= j < lines@.len() implies lines@[j].error == lines_view(lines@)[j].0 by {}
        if ok0 && ok1 {
            assert(forall|i: int| 0 <= i < 2 ==> #[trigger] outcomes@[i] matches Ok(Ok(_)));
        } else {
            assert(!(outcomes@[0] matches Ok(Ok(_))) || !(outcomes@[1] matches Ok(Ok(_))));
        }
    }
    (lines, ok0 && ok1)
}

proof fn lemma_unit_ok(o: Result<Result<(), Seq<char>>, Seq<char>>)
    ensures
        (o matches Ok(Ok(_))) <==> o == Ok::<Result<(), Seq<char>>, Seq<char>>(Ok(())),
{
    match o {
        Ok(Ok(u)) => {
            assert(u == ());
        },
        _ => {},
    }
}

/// The policy step succeeds exactly when both policy keys took the value: a
/// key that could not be created or written fails the step, and the step
/// fails exactly when one of its report lines is an error.
pub proof fn lemma_policy_step_needs_every_key(
    level: u32,
    outcomes: Seq<Result<Result<(), Seq<char>>, Seq<char>>>,
)
    requires
        outcomes.len() == 2,
    ensures
        policy_step_view(level, outcomes).1 <==> (forall|i: int| 0 <= i < 2 ==> #[trigger] outcomes[i]
            matches Ok(Ok(_))),
        policy_step_view(level, outcomes).1 <==> (forall|j: int|
            0 <= j < policy_step_view(level, outcomes).0.len() ==> !(#[trigger] policy_step_view(
                level,
                outcomes,
            ).0[j]).0),
{
    let ls = policy_step_view(level, outcomes).0;
    assert(ls.len() == 3);
    assert(ls[1].0 <==> !(outcomes[0] matches Ok(Ok(_))));
    assert(ls[2].0 <==> !(outcomes[1] matches Ok(Ok(_))));
    lemma_unit_ok(outcomes[0]);
    lemma_unit_ok(outcomes[1]);
    if !policy_step_view(level, outcomes).1 {
        if !(outcomes[0] matches Ok(Ok(_))) {
            assert(ls[1].0);
        } else {
            assert(ls[2].0);
        }
    }
}

/// Step two: `config` is how `sc config DiagTrack start= disabled` ran (its
/// exit status and output, or the error of a process that could not
/// start); the stop before it is best-effort.
pub open spec fn diagtrack_step_view(config: Result<(bool, Seq<char>, Seq<char>), Seq<char>>) -> (
    Seq<(bool, Seq<char>)>,
    bool,
) {
    let head = (false, "[2/4] Stopping and disabling Connected User Experiences (DiagTrack)..."@);
    match config {
        Ok((true, _, _)) => (seq![head, (false, "  OK  DiagTrack set to disabled"@)], true),
        Ok((false, stderr, stdout)) => (
            seq![head, (true, "  FAIL sc config DiagTrack: "@ + command_error_view(stderr, stdout))],
            false,
        ),
        Err(e) => (seq![head, (true, "  FAIL sc.exe: "@ + e)], false),
    }
}

pub open spec fn run_output_view(r: Result<(bool, String, String), String>) -> Result<
    (bool, Seq<char>, Seq<char>),
    Seq<char>,
> {
    match r {
        Ok((s, e, o)) => Ok((s, e@, o@)),
        Err(e) => Err(e@),
    }
}

pub fn diagtrack_step(config: Result<(bool, String, String), String>) -> (r: (Vec<ReportLine>, bool))
    ensures
        (lines_view(r.0@), r.1) == diagtrack_step_view(run_output_view(config)),
{
    let mut lines: Vec<ReportLine> = Vec::new();
    lines.push(out(string_of("[2/4] Stopping and disabling Connected User Experiences (DiagTrack)...")));
    let ok = match config {
        Ok((true, _, _)) => {
            lines.push(out(string_of("  OK  DiagTrack set to disabled")));
            true
        },
        Ok((false, stderr, stdout)) => {
            let mut t = string_of("  FAIL sc config DiagTrack: ");
            let msg = command_error(stderr.as_str(), stdout.as_str());
            push_str(&mut t, msg.as_str());
            lines.push(err(t));
            false
        },
        Err(e) => {
            let mut t = string_of("  FAIL sc.exe: ");
            push_str(&mut t, e.as_str());
            lines.push(err(t));
            false
        },
    };
    assert(lines_view(lines@) =~= diagtrack_step_view(run_output_view(config)).0);
    (lines, ok)
}

pub open spec fn task_line(task: Seq<char>, run: Result<bool, Seq<char>>) -> (bool, Seq<char>) {
    match run {
        Ok(true) => (false, "  OK  disabled "@ + task),
        Ok(false) => (false, "  --  skip (not found) "@ + task),
        Err(e) => (true, "  FAIL schtasks: "@ + e),
    }
}

/// Step three: `runs[i]` is how disabling the `i`-th task of
/// [`ceip_task_table`] ran (exit status, or the error of a process that
/// could not start). A task missing from this build is skipped; the step
/// always succeeds.
pub open spec fn tasks_step_view(runs: Seq<Result<bool, Seq<char>>>) -> (Seq<(bool, Seq<char>)>, bool) {
    (
        seq![(false, "[3/4] Disabling Customer Experience / feedback scheduled tasks..."@)] + Seq::new(
            13,
            |i: int| task_line(ceip_task_table()[i]@, runs[i]),
        ),
        true,
    )
}

pub open spec fn runs_view(runs: Seq<Result<bool, String>>) -> Seq<Result<bool, Seq<char>>> {
    runs.map_values(|r: Result<bool, String>| crate::launch::result_view(r))
}

pub fn tasks_step(runs: &[Result<bool, String>]) -> (r: (Vec<ReportLine>, bool))
    requires
        runs@.len() == 13,
    ensures
        (lines_view(r.0@), r.1) == tasks_step_view(runs_view(runs@)),
{
    let tasks = crate::telemetry::ceip_tasks();
    let ghost rv = runs_view(runs@);
    let ghost want = tasks_step_view(rv).0;
    let mut lines: Vec<ReportLine> = Vec::new();
    lines.push(out(string_of("[3/4] Disabling Customer Experience / feedback scheduled tasks...")));
    let mut i: usize = 0;
    while i < 13
        invariant
            0 <= i <= 13,
            runs@.len() == 13,
            tasks@ == ceip_task_table(),
            rv == runs_view(runs@),
            want == tasks_step_view(rv).0,
            lines_view(lines@) == want.take(i + 1),
        decreases 13 - i,
    {
        let line = match &runs[i] {
            Ok(true) => {
                let mut t = string_of("  OK  disabled ");
                push_str(&mut t, tasks[i]);
                out(t)
            },
            Ok(false) => {
                let mut t = string_of("  --  skip (not found) ");
                push_str(&mut t, tasks[i]);
                out(t)
            },
            Err(e) => {
                let mut t = string_of("  FAIL schtasks: ");
                push_str(&mut t, e.as_str());
                err(t)
            },
        };
        proof {
            assert(rv[i as int] == crate::launch::result_view(runs@[i as int]));
            assert(want[i + 1] == task_line(ceip_task_table()[i as int]@, rv[i as int]));
            assert((line.error, line.text@) == want[i + 1]);
            lemma_lines_push(lines@, line);
            assert(want.take(i + 2) =~= want.take(i + 1).push(want[i + 1]));
        }
        lines.push(line);
        i = i + 1;
    }
    assert(want.take(14) =~= want);
    (lines, true)
}

/// Step four: for the advertising ID, tailored experiences and CEIP policy
/// keys, `Err` when the key could not be created, else whether the value
/// was set (a value that could not be set is passed over in silence); for
/// the app-compatibility key, whether it could be created (its two values
/// are best-effort). The step succeeds when every key could be created.
pub open spec fn privacy_step_view(
    advertising: Result<bool, Seq<char>>,
    tailored: Result<bool, Seq<char>>,
    ceip: Result<bool, Seq<char>>,
    app_compat: Result<(), Seq<char>>,
) -> (Seq<(bool, Seq<char>)>, bool) {
    (
        seq![(false, "[4/4] Extra privacy policy keys..."@)] + key_lines(
            advertising,
            "  OK  AdvertisingInfo\\Enabled = 0"@,
            "  FAIL AdvertisingInfo: "@,
        ) + key_lines(tailored, "  OK  TailoredExperiencesWithDiagnosticDataEnabled = 0"@, "  FAIL Privacy: "@)
            + key_lines(ceip, "  OK  SQMClient\\Windows\\CEIPEnable = 0"@, "  FAIL SQMClient: "@)
            + match app_compat {
            Ok(_) => seq![(false, "  OK  AppCompat AITEnable=0, DisableInventory=1"@)],
            Err(e) => seq![(true, "  FAIL AppCompat: "@ + e)],
        },
        advertising is Ok && tailored is Ok && ceip is Ok && app_compat is Ok,
    )
}

pub open spec fn key_lines(o: Result<bool, Seq<char>>, ok_line: Seq<char>, fail_prefix: Seq<char>) -> Seq<
    (bool, Seq<char>),
> {
    match o {
        Ok(true) => seq![(false, ok_line)],
        Ok(false) => Seq::empty(),
        Err(e) => seq![(true, fail_prefix + e)],
    }
}

fn push_key_lines(lines: &mut Vec<ReportLine>, o: &Result<bool, String>, ok_line: &str, fail_prefix: &str)
    ensures
        lines_view(final(lines)@) == lines_view(old(lines)@) + key_lines(
            crate::launch::result_view(*o),
            ok_line@,
            fail_prefix@,
        ),
{
    match o {
        Ok(true) => {
            lines.push(out(string_of(ok_line)));
        },
        Ok(false) => {},
        Err(e) => {
            let mut t = string_of(fail_prefix);
            push_str(&mut t, e.as_str());
            lines.push(err(t));
        },
    }
    assert(lines_view(final(lines)@) =~= lines_view(old(lines)@) + key_lines(
        crate::launch::result_view(*o),
        ok_line@,
        fail_prefix@,
    ));
}

pub fn privacy_step(
    advertising: Result<bool, String>,
    tailored: Result<bool, String>,
    ceip: Result<bool, String>,
    app_compat: Result<(), String>,
) -> (r: (Vec<ReportLine>, bool))
    ensures
        (lines_view(r.0@), r.1) == privacy_step_view(
            crate::launch::result_view(advertising),
            crate::launch::result_view(tailored),
            crate::launch::result_view(ceip),
            crate::launch::result_view(app_compat),
        ),
{
    let mut lines: Vec<ReportLine> = Vec::new();
    lines.push(out(string_of("[4/4] Extra privacy policy keys...")));
    push_key_lines(&mut lines, &advertising, "  OK  AdvertisingInfo\\Enabled = 0", "  FAIL AdvertisingInfo: ");
    push_key_lines(
        &mut lines,
        &tailored,
        "  OK  TailoredExperiencesWithDiagnosticDataEnabled = 0",
        "  FAIL Privacy: ",
    );
    push_key_lines(&mut lines, &ceip, "  OK  SQMClient\\Windows\\CEIPEnable = 0", "  FAIL SQMClient: ");
    let last = match &app_compat {
        Ok(()) => out(string_of("  OK  AppCompat AITEnable=0, DisableInventory=1")),
        Err(e) => {
            let mut t = string_of("  FAIL AppCompat: ");
            push_str(&mut t, e.as_str());
            err(t)
        },
    };
    proof {
        lemma_lines_push(lines@, last);
    }
    lines.push(last);
    proof {
        let want = privacy_step_view(
            crate::launch::result_view(advertising),
            crate::launch::result_view(tailored),
            crate::launch::result_view(ceip),
            crate::launch::result_view(app_compat),
        ).0;
        assert(lines_view(lines@) =~= want);
    }
    (
        lines,
        advertising.is_ok() && tailored.is_ok() && ceip.is_ok() && app_compat.is_ok(),
    )
}

/// The closing lines after the four steps, and the exit code: on success a
/// reboot is recommended and the program waits for Enter before it exits
/// with 0; otherwise it exits with 1 at once.
pub open spec fn finish_view(ok: bool) -> (Seq<(bool, Seq<char>)>, i32, bool) {
    if ok {
        (
            seq![
                (false, Seq::empty()),
                (false, "Done. Diagnostic data policy is Security-only (0)."@),
                (false, "A reboot is recommended so all settings stick."@),
            ],
            0,
            true,
        )
    } else {
        (
            seq![(false, Seq::empty()), (false, "Finished with some errors — see messages above."@)],
            1,
            false,
        )
    }
}

/// The closing lines, the exit code, and whether to wait for Enter first.
pub fn finish(ok: bool) -> (r: (Vec<ReportLine>, i32, bool))
    ensures
        (lines_view(r.0@), r.1, r.2) == finish_view(ok),
{
    let mut lines: Vec<ReportLine> = Vec::new();
    lines.push(out(String::new()));
    if ok {
        lines.push(out(string_of("Done. Diagnostic data policy is Security-only (0).")));
        lines.push(out(string_of("A reboot is recommended so all settings stick.")));
        assert(lines_view(lines@) =~= finish_view(ok).0);
        (lines, 0, true)
    } else {
        lines.push(out(string_of("Finished with some errors — see messages above.")));
        assert(lines_view(lines@) =~= finish_view(ok).0);
        (lines, 1, false)
    }
}

/// A task missing from this build, or one whose process could not even
/// start, never fails the lockdown: the task step succeeds whatever the
/// runs were.
pub proof fn lemma_task_step_never_fails(runs: Seq<Result<bool, Seq<char>>>)
    ensures
        tasks_step_view(runs).1,
{
}

} // verus!
