//! The command-line reports: setting tables, explanations, bulk-apply
//! lines and integration status, as text lines.

use vstd::prelude::*;

use crate::maintenance::{IntegrationState, TASK_NAME};
use crate::telemetry::{cli_name_view, SettingId, SettingState};
use crate::text::{push_char, push_str, string_of};

verus! {

/// `s` left-aligned in a field of `width` characters (`{:<width}`).
pub open spec fn pad_right(s: Seq<char>, width: nat) -> Seq<char> {
    if s.len() >= width {
        s
    } else {
        s + Seq::new((width - s.len()) as nat, |i: int| ' ')
    }
}

fn push_padded(s: &mut String, t: &str, width: usize)
    ensures
        final(s)@ == old(s)@ + pad_right(t@, width as nat),
{
    push_str(s, t);
    let n = crate::text::chars_of(t).len();
    let ghost mid = s@;
    if n < width {
        let mut k: usize = n;
        while k < width
            invariant
                n <= k <= width,
                n == t@.len(),
                s@ == mid + Seq::new((k - n) as nat, |i: int| ' '),
            decreases width - k,
        {
            push_char(s, ' ');
            k = k + 1;
            assert(s@ =~= mid + Seq::new((k - n) as nat, |i: int| ' '));
        }
    }
    assert(final(s)@ =~= old(s)@ + pad_right(t@, width as nat));
}

pub open spec fn on_off(active: bool) -> Seq<char> {
    if active {
        "ON"@
    } else {
        "OFF"@
    }
}

fn on_off_str(active: bool) -> (r: &'static str)
    ensures
        r@ == on_off(active),
{
    if active {
        "ON"
    } else {
        "OFF"
    }
}

/// A rule of 72 dashes under a table header.
pub open spec fn rule_view() -> Seq<char> {
    Seq::new(72, |i: int| '-')
}

pub fn rule() -> (r: String)
    ensures
        r@ == rule_view(),
{
    let mut s = String::new();
    let mut k: usize = 0;
    while k < 72
        invariant
            0 <= k <= 72,
            s@ == Seq::new(k as nat, |i: int| '-'),
        decreases 72 - k,
    {
        push_char(&mut s, '-');
        k = k + 1;
        assert(s@ =~= Seq::new(k as nat, |i: int| '-'));
    }
    s
}

pub open spec fn status_header_view() -> Seq<char> {
    pad_right("SETTING"@, 22) + " "@ + pad_right("STATE"@, 6) + " "@ + "DETAIL"@
}

/// The header of the status table.
pub fn status_header() -> (r: String)
    ensures
        r@ == status_header_view(),
{
    let mut s = String::new();
    push_padded(&mut s, "SETTING", 22);
    push_str(&mut s, " ");
    push_padded(&mut s, "STATE", 6);
    push_str(&mut s, " ");
    push_str(&mut s, "DETAIL");
    assert(s@ =~= status_header_view());
    s
}

pub open spec fn status_row_view(id: SettingId, active: bool, note: Seq<char>) -> Seq<char> {
    pad_right(cli_name_view(id), 22) + " "@ + pad_right(on_off(active), 6) + " "@ + note
}

/// One row of the status table: id, ON/OFF and what was read.
pub fn status_row(state: &SettingState) -> (r: String)
    ensures
        r@ == status_row_view(state.id, state.active, state.note@),
{
    let mut s = String::new();
    push_padded(&mut s, state.id.cli_name(), 22);
    push_str(&mut s, " ");
    push_padded(&mut s, on_off_str(state.active), 6);
    push_str(&mut s, " ");
    push_str(&mut s, state.note.as_str());
    assert(s@ =~= status_row_view(state.id, state.active, state.note@));
    s
}

pub open spec fn list_header_view() -> Seq<char> {
    pad_right("ID"@, 22) + " "@ + "TITLE"@
}

/// The header of the setting list.
pub fn list_header() -> (r: String)
    ensures
        r@ == list_header_view(),
{
    let mut s = String::new();
    push_padded(&mut s, "ID", 22);
    push_str(&mut s, " ");
    push_str(&mut s, "TITLE");
    assert(s@ =~= list_header_view());
    s
}

pub open spec fn list_row_view(id: SettingId) -> Seq<char> {
    pad_right(cli_name_view(id), 22) + " "@ + id.title_view()
}

/// One row of the setting list: id and title.
pub fn list_row(id: SettingId) -> (r: String)
    ensures
        r@ == list_row_view(id),
{
    let mut s = String::new();
    push_padded(&mut s, id.cli_name(), 22);
    push_str(&mut s, " ");
    push_str(&mut s, id.title());
    assert(s@ =~= list_row_view(id));
    s
}

/// The explanation of a setting with its current state: a heading, the
/// explanation, where it lives, what was read, and a blank line.
pub open spec fn explain_view(id: SettingId, active: bool, note: Seq<char>) -> Seq<Seq<char>> {
    seq![
        "== "@ + id.title_view() + " ("@ + cli_name_view(id) + ") — currently "@ + on_off(active),
        id.explanation_view(),
        "Where: "@ + id.detail_view(),
        "Now:   "@ + note,
        Seq::empty(),
    ]
}

pub open spec fn lines_view(v: Seq<String>) -> Seq<Seq<char>> {
    v.map_values(|s: String| s@)
}

pub fn explain_lines(state: &SettingState) -> (r: Vec<String>)
    ensures
        lines_view(r@) == explain_view(state.id, state.active, state.note@),
{
    let id = state.id;
    let mut head = string_of("== ");
    push_str(&mut head, id.title());
    push_str(&mut head, " (");
    push_str(&mut head, id.cli_name());
    push_str(&mut head, ") — currently ");
    push_str(&mut head, on_off_str(state.active));
    let mut r: Vec<String> = Vec::new();
    r.push(head);
    r.push(string_of(id.explanation()));
    let mut w = string_of("Where: ");
    push_str(&mut w, id.detail());
    r.push(w);
    let mut n = string_of("Now:   ");
    push_str(&mut n, state.note.as_str());
    r.push(n);
    r.push(String::new());
    assert(lines_view(r@) =~= explain_view(state.id, state.active, state.note@));
    r
}

/// The line a successful `set` prints.
pub open spec fn set_line_view(id: SettingId, msg: Seq<char>) -> Seq<char> {
    cli_name_view(id) + ": "@ + msg
}

pub fn set_line(id: SettingId, msg: &str) -> (r: String)
    ensures
        r@ == set_line_view(id, msg@),
{
    let mut s = string_of(id.cli_name());
    push_str(&mut s, ": ");
    push_str(&mut s, msg);
    s
}

/// The line announcing a bulk apply.
pub open spec fn apply_all_intro_view(active: bool) -> Seq<char> {
    "Applying all settings → "@ + on_off(active) + "...\n"@
}

pub fn apply_all_intro(active: bool) -> (r: String)
    ensures
        r@ == apply_all_intro_view(active),
{
    let mut s = string_of("Applying all settings → ");
    push_str(&mut s, on_off_str(active));
    push_str(&mut s, "...\n");
    s
}

/// The line of one setting in a bulk apply.
pub open spec fn apply_result_line_view(id: SettingId, r: Result<Seq<char>, Seq<char>>) -> Seq<char> {
    match r {
        Ok(m) => "  OK  "@ + pad_right(cli_name_view(id), 22) + " "@ + m,
        Err(e) => "  FAIL "@ + pad_right(cli_name_view(id), 22) + " "@ + e,
    }
}

pub fn apply_result_line(id: SettingId, r: &Result<String, String>) -> (s: String)
    ensures
        s@ == apply_result_line_view(id, crate::launch::text_result_view(*r)),
{
    let mut s = String::new();
    match r {
        Ok(m) => {
            push_str(&mut s, "  OK  ");
            push_padded(&mut s, id.cli_name(), 22);
            push_str(&mut s, " ");
            push_str(&mut s, m.as_str());
        },
        Err(e) => {
            push_str(&mut s, "  FAIL ");
            push_padded(&mut s, id.cli_name(), 22);
            push_str(&mut s, " ");
            push_str(&mut s, e.as_str());
        },
    }
    assert(s@ =~= apply_result_line_view(id, crate::launch::text_result_view(*r)));
    s
}

/// The closing line of a bulk apply.
pub open spec fn apply_all_done_view(active: bool) -> Seq<char> {
    if active {
        "Done. Telemetry items re-enabled (Basic level where applicable)."@
    } else {
        "Done. A reboot is recommended so all settings stick."@
    }
}

pub fn apply_all_done(active: bool) -> (r: &'static str)
    ensures
        r@ == apply_all_done_view(active),
{
    if active {
        "Done. Telemetry items re-enabled (Basic level where applicable)."
    } else {
        "Done. A reboot is recommended so all settings stick."
    }
}

/// A bulk apply fails when any setting failed.
pub fn apply_all_outcome(results: &[(SettingId, Result<String, String>)]) -> (r: Result<(), String>)
    ensures
        (exists|i: int| 0 <= i < results@.len() && results@[i].1 is Err) ==> (r is Err && r->Err_0@
            == "one or more settings failed"@),
        !(exists|i: int| 0 <= i < results@.len() && results@[i].1 is Err) ==> r is Ok,
{
    let mut i: usize = 0;
    while i < results.len()
        invariant
            0 <= i <= results@.len(),
            forall|k: int| 0 <= k < i ==> results@[k].1 is Ok,
        decreases results@.len() - i,
    {
        if results[i].1.is_err() {
            return Err(string_of("one or more settings failed"));
        }
        i = i + 1;
    }
    Ok(())
}

/// The integration status lines.
pub open spec fn integration_view(s: IntegrationState) -> Seq<Seq<char>> {
    seq![
        "run-at-startup: "@ + on_off(s.run_at_startup),
        "post-update:    "@ + on_off(s.post_update) + "  (task: "@ + TASK_NAME@ + ")"@,
    ]
}

pub fn integration_lines(s: IntegrationState) -> (r: Vec<String>)
    ensures
        lines_view(r@) == integration_view(s),
{
    let mut a = string_of("run-at-startup: ");
    push_str(&mut a, on_off_str(s.run_at_startup));
    let mut b = string_of("post-update:    ");
    push_str(&mut b, on_off_str(s.post_update));
    push_str(&mut b, "  (task: ");
    push_str(&mut b, TASK_NAME);
    push_str(&mut b, ")");
    let mut r: Vec<String> = Vec::new();
    r.push(a);
    r.push(b);
    assert(lines_view(r@) =~= integration_view(s));
    r
}

/// Whether a command that needs administrator rights may go on: yes when
/// elevated; refused with `--no-elevate`; else the caller relaunches elevated.
pub open spec fn admin_check_view(elevated: bool, no_elevate: bool) -> Option<Result<(), Seq<char>>> {
    if elevated {
        Some(Ok(()))
    } else if no_elevate {
        Some(
            Err(
                "administrator rights required (re-run from an elevated prompt, or omit --no-elevate)"@,
            ),
        )
    } else {
        None
    }
}

/// See [`admin_check_view`]; `None` means: relaunch elevated.
pub fn admin_check(elevated: bool, no_elevate: bool) -> (r: Option<Result<(), String>>)
    ensures
        match admin_check_view(elevated, no_elevate) {
            None => r is None,
            Some(Ok(_)) => r matches Some(Ok(_)),
            Some(Err(e)) => r matches Some(Err(m)) && m@ == e,
        },
{
    if elevated {
        Some(Ok(()))
    } else if no_elevate {
        Some(
            Err(
                string_of(
                    "administrator rights required (re-run from an elevated prompt, or omit --no-elevate)",
                ),
            ),
        )
    } else {
        None
    }
}

} // verus!
