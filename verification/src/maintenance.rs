//! Optional OS integration: run at logon, re-apply after Windows Update.
//!
//! This module builds the Run value, the post-update task definition and its
//! `schtasks` fallback, and reports how the registry and `schtasks` work went;
//! the caller does that work.

use vstd::prelude::*;

use crate::launch::{result_view, text_result_view};
use crate::schedule_task::{command_error, command_error_view, escape_amp, push_escaped, XML_DECLARATION};
use crate::text::{push_char, push_str, string_of};

verus! {

/// The Run value name that launches the dashboard at logon.
pub const RUN_VALUE: &'static str = "WindowsDiagnostics";

/// The scheduled task that re-applies the lockdown after Windows Update.
pub const TASK_NAME: &'static str = "WindowsDiagnosticsPostUpdate";

/// The post-update task definition up to the command.
pub const POST_UPDATE_XML_HEAD: &'static str = "<Task version=\"1.4\" xmlns=\"http://schemas.microsoft.com/windows/2004/02/mit/task\">\n  <RegistrationInfo>\n    <Description>Re-apply Windows Diagnostics lockdown after Windows Update and at logon.</Description>\n  </RegistrationInfo>\n  <Triggers>\n    <EventTrigger>\n      <Enabled>true</Enabled>\n      <Subscription>&lt;QueryList&gt;&lt;Query Id=\"0\" Path=\"Microsoft-Windows-WindowsUpdateClient/Operational\"&gt;&lt;Select Path=\"Microsoft-Windows-WindowsUpdateClient/Operational\"&gt;*[System[Provider[@Name='Microsoft-Windows-WindowsUpdateClient'] and (EventID=19)]]&lt;/Select&gt;&lt;/Query&gt;&lt;/QueryList&gt;</Subscription>\n      <Delay>PT2M</Delay>\n    </EventTrigger>\n    <LogonTrigger>\n      <Enabled>true</Enabled>\n      <Delay>PT1M</Delay>\n    </LogonTrigger>\n  </Triggers>\n  <Principals>\n    <Principal id=\"Author\">\n      <LogonType>InteractiveToken</LogonType>\n      <RunLevel>HighestAvailable</RunLevel>\n    </Principal>\n  </Principals>\n  <Settings>\n    <MultipleInstancesPolicy>IgnoreNew</MultipleInstancesPolicy>\n    <DisallowStartIfOnBatteries>false</DisallowStartIfOnBatteries>\n    <StopIfGoingOnBatteries>false</StopIfGoingOnBatteries>\n    <AllowHardTerminate>true</AllowHardTerminate>\n    <StartWhenAvailable>true</StartWhenAvailable>\n    <RunOnlyIfNetworkAvailable>false</RunOnlyIfNetworkAvailable>\n    <AllowStartOnDemand>true</AllowStartOnDemand>\n    <Enabled>true</Enabled>\n    <Hidden>false</Hidden>\n    <ExecutionTimeLimit>PT10M</ExecutionTimeLimit>\n    <Priority>7</Priority>\n  </Settings>\n  <Actions Context=\"Author\">\n    <Exec>\n";

/// The post-update task definition after the arguments.
pub const POST_UPDATE_XML_TAIL: &'static str = "    </Exec>\n  </Actions>\n</Task>\n";

/// The Run value for the dashboard at `path`: the path in double quotes.
pub open spec fn run_value_view(path: Seq<char>) -> Seq<char> {
    seq!['"'] + path + seq!['"']
}

pub fn run_value(path: &str) -> (r: String)
    ensures
        r@ == run_value_view(path@),
{
    let mut s = String::new();
    push_char(&mut s, '"');
    push_str(&mut s, path);
    push_char(&mut s, '"');
    assert(s@ =~= run_value_view(path@));
    s
}

/// Switching run-at-startup: opening the Run key decides first; enabling
/// then needs the dashboard's path and the value written; disabling removes
/// the value whatever happens.
pub open spec fn run_at_startup_view(
    enabled: bool,
    key: Result<(), Seq<char>>,
    path: Result<Seq<char>, Seq<char>>,
    written: Result<(), Seq<char>>,
) -> Result<Seq<char>, Seq<char>> {
    match key {
        Err(e) => Err(e),
        Ok(_) => if !enabled {
            Ok("Run at startup disabled"@)
        } else {
            match path {
                Err(e) => Err(e),
                Ok(p) => match written {
                    Err(e) => Err(e),
                    Ok(_) => Ok("Run at startup enabled → "@ + run_value_view(p)),
                },
            }
        },
    }
}

/// Outcome of switching run-at-startup: `key` how opening the Run key went,
/// `path` the dashboard's path (read when enabling), `written` how writing
/// the [`run_value`] went (read when enabling with a path).
pub fn set_run_at_startup(
    enabled: bool,
    key: Result<(), String>,
    path: Result<String, String>,
    written: Result<(), String>,
) -> (r: Result<String, String>)
    ensures
        text_result_view(r) == run_at_startup_view(
            enabled,
            result_view(key),
            text_result_view(path),
            result_view(written),
        ),
{
    if let Err(e) = key {
        return Err(e);
    }
    if !enabled {
        return Ok(string_of("Run at startup disabled"));
    }
    let p = match path {
        Err(e) => {
            return Err(e);
        },
        Ok(p) => p,
    };
    if let Err(e) = written {
        return Err(e);
    }
    let mut m = string_of("Run at startup enabled → ");
    let v = run_value(p.as_str());
    push_str(&mut m, v.as_str());
    Ok(m)
}

/// The post-update task definition running the CLI at `cli` (path as text).
pub open spec fn post_update_xml_view(cli: Seq<char>) -> Seq<char> {
    XML_DECLARATION@ + seq!['\n'] + POST_UPDATE_XML_HEAD@ + "      <Command>"@ + escape_amp(cli)
        + "</Command>\n"@ + "      <Arguments>disable --no-elevate</Arguments>\n"@
        + POST_UPDATE_XML_TAIL@
}

/// The post-update task definition (see [`post_update_xml_view`]).
pub fn post_update_xml(cli: &str) -> (r: String)
    ensures
        r@ == post_update_xml_view(cli@),
{
    let mut xml = string_of(XML_DECLARATION);
    push_char(&mut xml, '\n');
    push_str(&mut xml, POST_UPDATE_XML_HEAD);
    push_str(&mut xml, "      <Command>");
    push_escaped(&mut xml, cli);
    push_str(&mut xml, "</Command>\n");
    push_str(&mut xml, "      <Arguments>disable --no-elevate</Arguments>\n");
    push_str(&mut xml, POST_UPDATE_XML_TAIL);
    assert(xml@ =~= post_update_xml_view(cli@));
    xml
}

/// The `schtasks` arguments of the fallback (at logon) post-update task.
pub open spec fn post_update_fallback_args_view(cli: Seq<char>) -> Seq<Seq<char>> {
    seq![
        "/Create"@,
        "/TN"@,
        TASK_NAME@,
        "/TR"@,
        seq!['"'] + cli + "\" disable --no-elevate"@,
        "/SC"@,
        "ONLOGON"@,
        "/RL"@,
        "HIGHEST"@,
        "/F"@,
    ]
}

pub fn post_update_fallback_args(cli: &str) -> (r: Vec<String>)
    ensures
        r.deep_view() == post_update_fallback_args_view(cli@),
{
    let mut tr = String::new();
    push_char(&mut tr, '"');
    push_str(&mut tr, cli);
    push_str(&mut tr, "\" disable --no-elevate");
    let mut r: Vec<String> = Vec::new();
    r.push(string_of("/Create"));
    r.push(string_of("/TN"));
    r.push(string_of(TASK_NAME));
    r.push(string_of("/TR"));
    r.push(tr);
    r.push(string_of("/SC"));
    r.push(string_of("ONLOGON"));
    r.push(string_of("/RL"));
    r.push(string_of("HIGHEST"));
    r.push(string_of("/F"));
    assert(r.deep_view() =~= post_update_fallback_args_view(cli@));
    r
}

/// Switching the post-update task: removing always reports success; creating
/// reports the XML registration, else the fallback's outcome.
pub open spec fn post_update_view(
    enabled: bool,
    xml_success: bool,
    xml_stderr: Seq<char>,
    xml_stdout: Seq<char>,
    fallback: Result<(), Seq<char>>,
) -> Result<Seq<char>, Seq<char>> {
    if !enabled {
        Ok("Post-update task removed"@)
    } else if xml_success {
        Ok("Post-update task '"@ + TASK_NAME@ + "' created (WU Event 19 + logon backup)"@)
    } else {
        match fallback {
            Ok(_) => Ok(
                "Post-update fallback task created (ONLOGON) — event XML unavailable on this PC"@,
            ),
            Err(e) => Err(
                "event-based task failed ("@ + command_error_view(xml_stderr, xml_stdout)
                    + "); fallback also failed: "@ + e,
            ),
        }
    }
}

/// Outcome of switching the post-update task once the task file was written
/// and registered: the XML run's status and output, and the fallback's
/// outcome (run, and read, only when the XML run failed).
pub fn set_post_update_task(
    enabled: bool,
    xml_success: bool,
    xml_stderr: &str,
    xml_stdout: &str,
    fallback: Result<(), String>,
) -> (r: Result<String, String>)
    ensures
        text_result_view(r) == post_update_view(
            enabled,
            xml_success,
            xml_stderr@,
            xml_stdout@,
            result_view(fallback),
        ),
{
    if !enabled {
        return Ok(string_of("Post-update task removed"));
    }
    if xml_success {
        let mut m = string_of("Post-update task '");
        push_str(&mut m, TASK_NAME);
        push_str(&mut m, "' created (WU Event 19 + logon backup)");
        return Ok(m);
    }
    match fallback {
        Ok(_) => Ok(
            string_of(
                "Post-update fallback task created (ONLOGON) — event XML unavailable on this PC",
            ),
        ),
        Err(e) => {
            let mut m = string_of("event-based task failed (");
            let msg = command_error(xml_stderr, xml_stdout);
            push_str(&mut m, msg.as_str());
            push_str(&mut m, "); fallback also failed: ");
            push_str(&mut m, e.as_str());
            Err(m)
        },
    }
}

/// Whether the integrations are on.
#[derive(Debug, Clone, Copy, PartialEq, Eq, Structural)]
pub struct IntegrationState {
    pub run_at_startup: bool,
    pub post_update: bool,
}

/// The integration state from whether the Run value is present and whether
/// the post-update task is registered.
pub fn read_integration(run_value_present: bool, task_registered: bool) -> (r: IntegrationState)
    ensures
        r == (IntegrationState { run_at_startup: run_value_present, post_update: task_registered }),
{
    IntegrationState { run_at_startup: run_value_present, post_update: task_registered }
}

} // verus!
