//! The Task Scheduler entry behind a cleanup schedule: its XML definition,
//! the UTF-16 file `schtasks /XML` reads, the simpler `schtasks /SC` fallback
//! used when the XML is rejected, and how the two attempts are reported.

use vstd::prelude::*;

use crate::cleanup_schedule::{CleanupInterval, CleanupScheduleConfig};
use crate::identity::CLEANUP_TASK_NAME;
use crate::launch::result_view;
use crate::text::{chars_of, push_char, push_str, string_of, trim, trim_chars, string_from_chars};

verus! {

/// The XML declaration line.
pub const XML_DECLARATION: &'static str = "<?xml version=\"1.0\" encoding=\"UTF-16\"?>";

/// From the task element to the opening of the trigger list.
pub const XML_TASK_OPEN: &'static str = "<Task version=\"1.4\" xmlns=\"http://schemas.microsoft.com/windows/2004/02/mit/task\">
  <RegistrationInfo>
    <Description>Telemetry Logging Utility — clear selected logs and/or temp folders on a schedule, at logon, or at session end.</Description>
  </RegistrationInfo>
  <Triggers>
";

/// Hourly at :05.
pub const XML_HOURLY: &'static str = "    <TimeTrigger>
      <Repetition>
        <Interval>PT1H</Interval>
        <StopAtDurationEnd>false</StopAtDurationEnd>
      </Repetition>
      <StartBoundary>2020-01-01T00:05:00</StartBoundary>
      <Enabled>true</Enabled>
    </TimeTrigger>
";

/// Every six hours from 03:00.
pub const XML_EVERY_6_HOURS: &'static str = "    <TimeTrigger>
      <Repetition>
        <Interval>PT6H</Interval>
        <StopAtDurationEnd>false</StopAtDurationEnd>
      </Repetition>
      <StartBoundary>2020-01-01T03:00:00</StartBoundary>
      <Enabled>true</Enabled>
    </TimeTrigger>
";

/// Daily at 03:30.
pub const XML_DAILY: &'static str = "    <CalendarTrigger>
      <StartBoundary>2020-01-01T03:30:00</StartBoundary>
      <Enabled>true</Enabled>
      <ScheduleByDay>
        <DaysInterval>1</DaysInterval>
      </ScheduleByDay>
    </CalendarTrigger>
";

/// Sundays at 03:30.
pub const XML_WEEKLY: &'static str = "    <CalendarTrigger>
      <StartBoundary>2020-01-05T03:30:00</StartBoundary>
      <Enabled>true</Enabled>
      <ScheduleByWeek>
        <WeeksInterval>1</WeeksInterval>
        <DaysOfWeek>
          <Sunday />
        </DaysOfWeek>
      </ScheduleByWeek>
    </CalendarTrigger>
";

/// At logon, three minutes in.
pub const XML_LOGON: &'static str = "    <LogonTrigger>
      <Enabled>true</Enabled>
      <Delay>PT3M</Delay>
    </LogonTrigger>
";

/// At console disconnect: the practical stand-in for "on shutdown" for a
/// user-scoped task.
pub const XML_SESSION_END: &'static str = "    <SessionStateChangeTrigger>
      <Enabled>true</Enabled>
      <StateChange>ConsoleDisconnect</StateChange>
    </SessionStateChangeTrigger>
";

/// From the end of the triggers to the opening of the action.
pub const XML_SETTINGS: &'static str = "  </Triggers>
  <Principals>
    <Principal id=\"Author\">
      <LogonType>InteractiveToken</LogonType>
      <RunLevel>HighestAvailable</RunLevel>
    </Principal>
  </Principals>
  <Settings>
    <MultipleInstancesPolicy>IgnoreNew</MultipleInstancesPolicy>
    <DisallowStartIfOnBatteries>false</DisallowStartIfOnBatteries>
    <StopIfGoingOnBatteries>false</StopIfGoingOnBatteries>
    <AllowHardTerminate>true</AllowHardTerminate>
    <StartWhenAvailable>true</StartWhenAvailable>
    <RunOnlyIfNetworkAvailable>false</RunOnlyIfNetworkAvailable>
    <AllowStartOnDemand>true</AllowStartOnDemand>
    <Enabled>true</Enabled>
    <Hidden>false</Hidden>
    <ExecutionTimeLimit>PT30M</ExecutionTimeLimit>
    <Priority>7</Priority>
  </Settings>
  <Actions Context=\"Author\">
    <Exec>
";

/// The arguments the scheduled task runs the CLI with.
pub const XML_ARGUMENTS: &'static str = "      <Arguments>scheduled-cleanup --no-elevate</Arguments>\n";

/// Closing of the action and the task.
pub const XML_TAIL: &'static str = "    </Exec>
  </Actions>
</Task>
";

/// `s` with every `&` written as `&amp;`.
pub open spec fn escape_amp(s: Seq<char>) -> Seq<char>
    decreases s.len(),
{
    if s.len() == 0 {
        Seq::empty()
    } else {
        escape_amp(s.drop_last()) + if s.last() == '&' {
            "&amp;"@
        } else {
            seq![s.last()]
        }
    }
}

/// The interval trigger of a schedule.
pub open spec fn interval_xml(i: CleanupInterval) -> Seq<char> {
    match i {
        CleanupInterval::Off => Seq::empty(),
        CleanupInterval::Hourly => XML_HOURLY@,
        CleanupInterval::Every6Hours => XML_EVERY_6_HOURS@,
        CleanupInterval::Daily => XML_DAILY@,
        CleanupInterval::Weekly => XML_WEEKLY@,
    }
}

/// All triggers of a schedule: interval, then logon, then session end.
pub open spec fn triggers_xml(cfg: CleanupScheduleConfig) -> Seq<char> {
    interval_xml(cfg.interval) + (if cfg.on_logon {
        XML_LOGON@
    } else {
        Seq::empty()
    }) + (if cfg.on_session_end {
        XML_SESSION_END@
    } else {
        Seq::empty()
    })
}

/// The task definition for `cfg`, running the CLI at `cli` (path as text).
pub open spec fn task_xml_view(cfg: CleanupScheduleConfig, cli: Seq<char>) -> Seq<char> {
    XML_DECLARATION@ + seq!['\n'] + XML_TASK_OPEN@ + triggers_xml(cfg) + XML_SETTINGS@ + "      <Command>"@
        + escape_amp(cli) + "</Command>\n"@ + XML_ARGUMENTS@ + XML_TAIL@
}

/// Appends `t` with `&` escaped.
pub fn push_escaped(s: &mut String, t: &str)
    ensures
        final(s)@ == old(s)@ + escape_amp(t@),
{
    let cs = chars_of(t);
    let ghost start = s@;
    let mut i: usize = 0;
    assert(cs@.take(0) =~= Seq::<char>::empty());
    while i < cs.len()
        invariant
            0 <= i <= cs@.len(),
            cs@ == t@,
            s@ == start + escape_amp(cs@.take(i as int)),
        decreases cs@.len() - i,
    {
        assert(cs@.take(i + 1).drop_last() =~= cs@.take(i as int));
        if cs[i] == '&' {
            push_str(s, "&amp;");
        } else {
            push_char(s, cs[i]);
        }
        i = i + 1;
        assert(s@ =~= start + escape_amp(cs@.take(i as int)));
    }
    assert(cs@.take(cs@.len() as int) =~= cs@);
}

/// The task definition for `cfg`, running the CLI at `cli`.
pub fn task_xml(cfg: &CleanupScheduleConfig, cli: &str) -> (r: String)
    ensures
        r@ == task_xml_view(*cfg, cli@),
{
    let mut xml = string_of(XML_DECLARATION);
    push_char(&mut xml, '\n');
    push_str(&mut xml, XML_TASK_OPEN);
    match cfg.interval {
        CleanupInterval::Off => {},
        CleanupInterval::Hourly => push_str(&mut xml, XML_HOURLY),
        CleanupInterval::Every6Hours => push_str(&mut xml, XML_EVERY_6_HOURS),
        CleanupInterval::Daily => push_str(&mut xml, XML_DAILY),
        CleanupInterval::Weekly => push_str(&mut xml, XML_WEEKLY),
    }
    if cfg.on_logon {
        push_str(&mut xml, XML_LOGON);
    }
    if cfg.on_session_end {
        push_str(&mut xml, XML_SESSION_END);
    }
    push_str(&mut xml, XML_SETTINGS);
    push_str(&mut xml, "      <Command>");
    push_escaped(&mut xml, cli);
    push_str(&mut xml, "</Command>\n");
    push_str(&mut xml, XML_ARGUMENTS);
    push_str(&mut xml, XML_TAIL);
    assert(xml@ =~= task_xml_view(*cfg, cli@));
    xml
}

/// The UTF-16 code units of a character (`char::encode_utf16`).
pub open spec fn utf16_units(c: char) -> Seq<u16> {
    let u = c as u32;
    if u < 0x10000 {
        seq![u as u16]
    } else {
        seq![(0xD800 + (u - 0x10000) / 1024) as u16, (0xDC00 + (u - 0x10000) % 1024) as u16]
    }
}

/// One code unit, low byte first.
pub open spec fn le_bytes(u: u16) -> Seq<u8> {
    seq![(u % 256) as u8, (u / 256) as u8]
}

/// Little-endian UTF-16 of a character.
pub open spec fn char_utf16le(c: char) -> Seq<u8> {
    let us = utf16_units(c);
    if us.len() == 1 {
        le_bytes(us[0])
    } else {
        le_bytes(us[0]) + le_bytes(us[1])
    }
}

/// Little-endian UTF-16 of a text (`str::encode_utf16`, each unit `to_le_bytes`).
pub open spec fn utf16le(s: Seq<char>) -> Seq<u8>
    decreases s.len(),
{
    if s.len() == 0 {
        Seq::empty()
    } else {
        utf16le(s.drop_last()) + char_utf16le(s.last())
    }
}

/// The bytes of the task file: a UTF-16 LE byte-order mark, then the text.
pub open spec fn task_file_view(text: Seq<char>) -> Seq<u8> {
    seq![0xFFu8, 0xFEu8] + utf16le(text)
}

fn push_unit(out: &mut Vec<u8>, u: u16)
    ensures
        final(out)@ == old(out)@ + le_bytes(u),
{
    out.push((u % 256) as u8);
    out.push((u / 256) as u8);
    assert(final(out)@ =~= old(out)@ + le_bytes(u));
}

/// The task file `schtasks /XML` reads: UTF-16 LE with a byte-order mark.
pub fn task_file_bytes(text: &str) -> (r: Vec<u8>)
    ensures
        r@ == task_file_view(text@),
{
    let cs = chars_of(text);
    let mut out: Vec<u8> = Vec::new();
    out.push(0xFF);
    out.push(0xFE);
    let mut i: usize = 0;
    assert(cs@.take(0) =~= Seq::<char>::empty());
    while i < cs.len()
        invariant
            0 <= i <= cs@.len(),
            cs@ == text@,
            out@ == seq![0xFFu8, 0xFEu8] + utf16le(cs@.take(i as int)),
        decreases cs@.len() - i,
    {
        assert(cs@.take(i + 1).drop_last() =~= cs@.take(i as int));
        let c = cs[i];
        let u = c as u32;
        if u < 0x10000 {
            push_unit(&mut out, u as u16);
        } else {
            proof {
                vstd::utf8::char_is_scalar(c);
            }
            assert(u <= 0x10FFFF);
            let v = u - 0x10000;
            push_unit(&mut out, (0xD800 + v / 1024) as u16);
            push_unit(&mut out, (0xDC00 + v % 1024) as u16);
        }
        i = i + 1;
        assert(out@ =~= seq![0xFFu8, 0xFEu8] + utf16le(cs@.take(i as int)));
    }
    assert(cs@.take(cs@.len() as int) =~= cs@);
    out
}

/// The `schtasks` arguments that register the task from the file at `xml_path`.
pub open spec fn xml_create_args_view(xml_path: Seq<char>) -> Seq<Seq<char>> {
    seq!["/Create"@, "/TN"@, CLEANUP_TASK_NAME@, "/XML"@, xml_path, "/F"@]
}

pub fn xml_create_args(xml_path: &str) -> (r: Vec<String>)
    ensures
        r.deep_view() == xml_create_args_view(xml_path@),
{
    let mut r: Vec<String> = Vec::new();
    r.push(string_of("/Create"));
    r.push(string_of("/TN"));
    r.push(string_of(CLEANUP_TASK_NAME));
    r.push(string_of("/XML"));
    r.push(string_of(xml_path));
    r.push(string_of("/F"));
    assert(r.deep_view() =~= xml_create_args_view(xml_path@));
    r
}

/// The `/SC` schedule (and `/MO` modifier) of the fallback task: at logon
/// when that is the only trigger, else the interval's nearest schedule.
pub open spec fn fallback_schedule_view(cfg: CleanupScheduleConfig) -> (Seq<char>, Option<Seq<char>>) {
    if cfg.on_logon && cfg.interval == CleanupInterval::Off {
        ("ONLOGON"@, None)
    } else {
        match cfg.interval {
            CleanupInterval::Hourly => ("HOURLY"@, None),
            CleanupInterval::Every6Hours => ("HOURLY"@, Some("6"@)),
            CleanupInterval::Daily => ("DAILY"@, None),
            CleanupInterval::Weekly => ("WEEKLY"@, None),
            CleanupInterval::Off => ("ONLOGON"@, None),
        }
    }
}

/// The `schtasks` arguments of the fallback task running `"<cli>" scheduled-cleanup --no-elevate`.
pub open spec fn fallback_args_view(cfg: CleanupScheduleConfig, cli: Seq<char>) -> Seq<Seq<char>> {
    let (sc, mo) = fallback_schedule_view(cfg);
    seq![
        "/Create"@,
        "/TN"@,
        CLEANUP_TASK_NAME@,
        "/TR"@,
        "\""@ + cli + "\" scheduled-cleanup --no-elevate"@,
        "/SC"@,
        sc,
        "/RL"@,
        "HIGHEST"@,
        "/F"@,
    ] + match mo {
        Some(m) => seq!["/MO"@, m],
        None => Seq::empty(),
    }
}

/// The `schtasks` arguments of the fallback task; `cli` is the path as it
/// stands in the XML (with `&` escaped), which is what the fallback is given.
pub fn fallback_args(cfg: &CleanupScheduleConfig, cli: &str) -> (r: Vec<String>)
    ensures
        r.deep_view() == fallback_args_view(*cfg, cli@),
{
    let (sc, mo): (&str, Option<&str>) = if cfg.on_logon && cfg.interval == CleanupInterval::Off {
        ("ONLOGON", None)
    } else {
        match cfg.interval {
            CleanupInterval::Hourly => ("HOURLY", None),
            CleanupInterval::Every6Hours => ("HOURLY", Some("6")),
            CleanupInterval::Daily => ("DAILY", None),
            CleanupInterval::Weekly => ("WEEKLY", None),
            CleanupInterval::Off => ("ONLOGON", None),
        }
    };
    let mut tr = string_of("\"");
    push_str(&mut tr, cli);
    push_str(&mut tr, "\" scheduled-cleanup --no-elevate");
    let mut r: Vec<String> = Vec::new();
    r.push(string_of("/Create"));
    r.push(string_of("/TN"));
    r.push(string_of(CLEANUP_TASK_NAME));
    r.push(string_of("/TR"));
    r.push(tr);
    r.push(string_of("/SC"));
    r.push(string_of(sc));
    r.push(string_of("/RL"));
    r.push(string_of("HIGHEST"));
    r.push(string_of("/F"));
    match mo {
        Some(m) => {
            r.push(string_of("/MO"));
            r.push(string_of(m));
        },
        None => {},
    }
    assert(r.deep_view() =~= fallback_args_view(*cfg, cli@));
    r
}

/// What a failed `schtasks` run says: its trimmed stderr, then its trimmed stdout.
pub open spec fn command_error_view(stderr: Seq<char>, stdout: Seq<char>) -> Seq<char> {
    trim(stderr) + trim(stdout)
}

/// What a failed `schtasks` run says: its trimmed stderr, then its trimmed stdout.
pub fn command_error(stderr: &str, stdout: &str) -> (r: String)
    ensures
        r@ == command_error_view(stderr@, stdout@),
{
    let mut a = trim_chars(&chars_of(stderr));
    let b = trim_chars(&chars_of(stdout));
    let mut k: usize = 0;
    let ghost a0 = a@;
    while k < b.len()
        invariant
            0 <= k <= b@.len(),
            a@ == a0 + b@.take(k as int),
        decreases b@.len() - k,
    {
        a.push(b[k]);
        k = k + 1;
        assert(a@ =~= a0 + b@.take(k as int));
    }
    assert(b@.take(b@.len() as int) =~= b@);
    string_from_chars(&a)
}

/// Outcome of one `schtasks /Create`: `Ok` on success, else its error text.
pub open spec fn run_outcome_view(success: bool, stderr: Seq<char>, stdout: Seq<char>) -> Result<
    (),
    Seq<char>,
> {
    if success {
        Ok(())
    } else {
        Err(command_error_view(stderr, stdout))
    }
}

/// Outcome of one `schtasks /Create` run (the fallback's is reported as is).
pub fn run_outcome(success: bool, stderr: &str, stdout: &str) -> (r: Result<(), String>)
    ensures
        result_view(r) == run_outcome_view(success, stderr@, stdout@),
{
    if success {
        Ok(())
    } else {
        Err(command_error(stderr, stdout))
    }
}

/// Registering the task: the XML run; when it failed, the fallback decides,
/// and a failed fallback reports both errors.
pub open spec fn create_outcome_view(
    xml_success: bool,
    xml_stderr: Seq<char>,
    xml_stdout: Seq<char>,
    fallback: Result<(), Seq<char>>,
) -> Result<(), Seq<char>> {
    if xml_success {
        Ok(())
    } else {
        match fallback {
            Ok(_) => Ok(()),
            Err(e) => Err(
                "cleanup schedule XML failed ("@ + command_error_view(xml_stderr, xml_stdout)
                    + "); fallback also failed: "@ + e,
            ),
        }
    }
}

/// Outcome of registering the task: the XML attempt's status and output, and
/// the fallback's outcome (run, and read, only when the XML attempt failed).
pub fn create_outcome(
    xml_success: bool,
    xml_stderr: &str,
    xml_stdout: &str,
    fallback: Result<(), String>,
) -> (r: Result<(), String>)
    ensures
        result_view(r) == create_outcome_view(
            xml_success,
            xml_stderr@,
            xml_stdout@,
            result_view(fallback),
        ),
{
    if xml_success {
        return Ok(());
    }
    match fallback {
        Ok(_) => Ok(()),
        Err(e) => {
            let mut m = string_of("cleanup schedule XML failed (");
            let msg = command_error(xml_stderr, xml_stdout);
            push_str(&mut m, msg.as_str());
            push_str(&mut m, "); fallback also failed: ");
            push_str(&mut m, e.as_str());
            Err(m)
        },
    }
}

} // verus!
