//! Disclaimer, no-warranty, and limitation of liability text + acceptance record.
//!
//! Acceptance is stored locally on the user's machine (not uploaded): in the
//! registry first (`HKCU\Software\TelemetryLoggingUtility\Disclaimer`), with a
//! file backup under `%APPDATA%\TelemetryLoggingUtility\`. This module holds
//! the text, reads records back from what was stored, and writes the record
//! and backup texts; the caller does the registry and file work.

use vstd::prelude::*;

use crate::cleanup_history::{is_first_of, parse_u64_text, parse_u64_text_chars, utf8_len, utf8_width_of};
use crate::text::{
    chars_eq, chars_of, dec, lines, push_char, push_dec, push_str, slice_chars, split_lines,
    string_from_chars, string_of, trim, trim_chars,
};

verus! {

/// One-line notice for footers / help blurbs.
pub const SHORT: &'static str = "USE AT YOUR OWN RISK. Provided AS IS with NO WARRANTY. Authors accept NO LIABILITY.";

/// Full disclaimer shown before use (GUI) and by the `disclaimer` command.
pub const FULL: &'static str = "DISCLAIMER — NO WARRANTY — LIMITATION OF LIABILITY — ASSUMPTION OF RISK\n\nBy downloading, installing, copying, or using Telemetry and Logging Utility for Windows (the \"Software\"), including the CLI, GUI, and installer, you acknowledge and agree to all of the following.\n\n1. NO WARRANTY. The Software is provided \"AS IS\" and \"AS AVAILABLE\", without warranty of any kind, express or implied, including but not limited to warranties of merchantability, fitness for a particular purpose, title, non-infringement, accuracy, or uninterrupted/error-free operation. You use it entirely at your own risk.\n\n2. DANGEROUS OPERATIONS. The Software can change Windows registry keys and policies, start/stop services, modify scheduled tasks, delete log and temporary files, and otherwise alter your system. Those actions may cause data loss, application or OS instability, loss of diagnostic information, security or compliance issues, boot or update problems, or other harm. You are solely responsible for backups, testing, and deciding whether any action is appropriate for your machine.\n\n3. NO LIABILITY. To the maximum extent permitted by law, the copyright holders, authors, contributors, and distributors (collectively, the \"Authors\") shall not be liable for any claim, damages, or other liability — whether in contract, tort (including negligence), strict liability, or otherwise — arising from or related to the Software or its use or inability to use, including but not limited to direct, indirect, incidental, special, consequential, punitive, or exemplary damages, loss of data, loss of profits, business interruption, system failure, or cost of substitute goods or services, even if advised of the possibility of such damages.\n\n4. INDEMNITY. You agree to defend, indemnify, and hold the Authors harmless from and against any claims, losses, damages, liabilities, costs, and expenses (including reasonable attorneys' fees) arising out of your use of the Software, your violation of these terms or of applicable law, or your distribution of the Software.\n\n5. NOT LEGAL, SECURITY, OR COMPLIANCE ADVICE. The Software does not constitute legal, privacy, security, IT, or regulatory advice. Disabling telemetry or deleting logs may conflict with employer policy, school policy, or legal/regulatory obligations. You alone are responsible for compliance.\n\n6. NO SUPPORT OBLIGATION. The Authors have no duty to provide support, updates, fixes, or continued availability of the Software.\n\n7. ACCEPTANCE. If you do not agree, do not install or use the Software. Continued use constitutes acceptance. These terms supplement the PolyForm Noncommercial License 1.0.0 (see LICENSE); if conflict exists on liability/warranty, the stricter limitation in favor of the Authors controls to the extent allowed by law.\n\nSome jurisdictions do not allow certain exclusions; in those places, liability is limited to the fullest extent the law permits (which may be zero monetary liability where allowed).\n";

/// Snapshot of a local acceptance record.
#[derive(Debug, Clone)]
pub struct AcceptanceRecord {
    pub accepted_at: String,
    pub user: String,
    pub computer: String,
    pub version: String,
    pub source: String,
    pub disclaimer_bytes: usize,
}

/// The fields of a record: when, user, computer, version, source, bytes.
pub type RecordFields = (Seq<char>, Seq<char>, Seq<char>, Seq<char>, Seq<char>, usize);

pub open spec fn record_view(r: AcceptanceRecord) -> RecordFields {
    (r.accepted_at@, r.user@, r.computer@, r.version@, r.source@, r.disclaimer_bytes)
}

pub open spec fn empty_fields() -> RecordFields {
    (Seq::empty(), Seq::empty(), Seq::empty(), Seq::empty(), Seq::empty(), 0)
}

impl Default for AcceptanceRecord {
    fn default() -> (r: Self)
        ensures
            record_view(r) == empty_fields(),
    {
        AcceptanceRecord {
            accepted_at: String::new(),
            user: String::new(),
            computer: String::new(),
            version: String::new(),
            source: String::new(),
            disclaimer_bytes: 0,
        }
    }
}

/// What a record acceptance time says when the backup predates timestamps.
pub open spec fn unknown_time() -> Seq<char> {
    "(unknown — accepted before timestamped records)"@
}

/// `str::parse::<usize>`, 0 when it fails.
pub open spec fn usize_or_zero(v: Seq<char>) -> usize {
    match parse_u64_text(v) {
        Some(n) => if n <= usize::MAX {
            n as usize
        } else {
            0
        },
        None => 0,
    }
}

/// One backup line applied to the record read so far: `key=value` sets a
/// known field (keys and values trimmed); a bare `accepted` line stands in
/// for a missing time.
pub open spec fn apply_record_line(r: RecordFields, line: Seq<char>) -> RecordFields {
    if exists|i: int| is_first_of(line, i, '=') {
        let i = choose|i: int| is_first_of(line, i, '=');
        let k = trim(line.take(i));
        let v = trim(line.skip(i + 1));
        if k == "accepted_at"@ {
            (v, r.1, r.2, r.3, r.4, r.5)
        } else if k == "user"@ {
            (r.0, v, r.2, r.3, r.4, r.5)
        } else if k == "computer"@ {
            (r.0, r.1, v, r.3, r.4, r.5)
        } else if k == "version"@ {
            (r.0, r.1, r.2, v, r.4, r.5)
        } else if k == "source"@ {
            (r.0, r.1, r.2, r.3, v, r.5)
        } else if k == "disclaimer_bytes"@ {
            (r.0, r.1, r.2, r.3, r.4, usize_or_zero(v))
        } else {
            r
        }
    } else if trim(line) == "accepted"@ && r.0.len() == 0 {
        (unknown_time(), r.1, r.2, r.3, r.4, r.5)
    } else {
        r
    }
}

/// The record after reading lines in order.
pub open spec fn record_from_lines(ls: Seq<Seq<char>>) -> RecordFields
    decreases ls.len(),
{
    if ls.len() == 0 {
        empty_fields()
    } else {
        apply_record_line(record_from_lines(ls.drop_last()), ls.last())
    }
}

/// The record a backup file holds; a non-blank file without a time still
/// counts as an acceptance of unknown time.
pub open spec fn parse_record_view(text: Seq<char>) -> RecordFields {
    let r = record_from_lines(lines(text));
    if r.0.len() == 0 && trim(text).len() > 0 {
        (unknown_time(), r.1, r.2, r.3, r.4, r.5)
    } else {
        r
    }
}

fn first_equals(line: &[char]) -> (r: Option<usize>)
    ensures
        match r {
            Some(i) => is_first_of(line@, i as int, '='),
            None => !exists|i: int| is_first_of(line@, i, '='),
        },
{
    let mut i: usize = 0;
    while i < line.len()
        invariant
            0 <= i <= line@.len(),
            forall|j: int| 0 <= j < i ==> line@[j] != '=',
        decreases line@.len() - i,
    {
        if line[i] == '=' {
            return Some(i);
        }
        i = i + 1;
    }
    None
}

fn usize_field(v: &[char]) -> (r: usize)
    ensures
        r == usize_or_zero(v@),
{
    match parse_u64_text_chars(v) {
        Some(n) => if n <= usize::MAX as u64 {
            n as usize
        } else {
            0
        },
        None => 0,
    }
}

/// Reads an acceptance backup file (see [`parse_record_view`]).
pub fn parse_file_record(text: &str) -> (r: AcceptanceRecord)
    ensures
        record_view(r) == parse_record_view(text@),
{
    let cs = chars_of(text);
    let ls = split_lines(&cs);
    let ghost all = ls.deep_view();
    let mut rec = AcceptanceRecord::default();
    let mut i: usize = 0;
    assert(all.take(0) =~= Seq::<Seq<char>>::empty());
    while i < ls.len()
        invariant
            0 <= i <= ls@.len(),
            all == ls.deep_view(),
            all == lines(text@),
            record_view(rec) == record_from_lines(all.take(i as int)),
        decreases ls@.len() - i,
    {
        proof {
            reveal_strlit("accepted_at");
            reveal_strlit("user");
            reveal_strlit("computer");
            reveal_strlit("version");
            reveal_strlit("source");
            reveal_strlit("disclaimer_bytes");
            reveal_strlit("accepted");
            assert(ls@[i as int]@ =~= all[i as int]);
            assert(all.take(i + 1).drop_last() =~= all.take(i as int));
        }
        let line = &ls[i];
        match first_equals(line) {
            Some(e) => {
                proof {
                    let c = choose|j: int| is_first_of(all[i as int], j, '=');
                    crate::cleanup_history::lemma_first_of_unique(all[i as int], '=', e as int, c);
                }
                let n = line.len();
                let k = trim_chars(&slice_chars(line, 0, e));
                let v = trim_chars(&slice_chars(line, e + 1, n));
                proof {
                    assert(line@.subrange(0, e as int) =~= all[i as int].take(e as int));
                    assert(line@.subrange(e + 1, n as int) =~= all[i as int].skip(e + 1));
                }
                if chars_eq(&k, "accepted_at") {
                    rec.accepted_at = string_from_chars(&v);
                } else if chars_eq(&k, "user") {
                    rec.user = string_from_chars(&v);
                } else if chars_eq(&k, "computer") {
                    rec.computer = string_from_chars(&v);
                } else if chars_eq(&k, "version") {
                    rec.version = string_from_chars(&v);
                } else if chars_eq(&k, "source") {
                    rec.source = string_from_chars(&v);
                } else if chars_eq(&k, "disclaimer_bytes") {
                    rec.disclaimer_bytes = usize_field(&v);
                }
            },
            None => {
                let t = trim_chars(line);
                if chars_eq(&t, "accepted") && rec.accepted_at.as_str().is_empty() {
                    rec.accepted_at = string_of("(unknown — accepted before timestamped records)");
                }
            },
        }
        i = i + 1;
    }
    assert(all.take(all.len() as int) =~= all);
    let whole = trim_chars(&cs);
    if rec.accepted_at.as_str().is_empty() && whole.len() > 0 {
        rec.accepted_at = string_of("(unknown — accepted before timestamped records)");
    }
    rec
}

/// The registry record: present when `Accepted` is stored and not 0; each
/// other value is empty (or 0) when missing.
pub open spec fn registry_record_view(
    accepted: Option<u32>,
    accepted_at: Option<Seq<char>>,
    user: Option<Seq<char>>,
    computer: Option<Seq<char>>,
    version: Option<Seq<char>>,
    source: Option<Seq<char>>,
    bytes: Option<u32>,
) -> Option<RecordFields> {
    match accepted {
        None => None,
        Some(a) => if a == 0 {
            None
        } else {
            Some(
                (
                    text_or_empty(accepted_at),
                    text_or_empty(user),
                    text_or_empty(computer),
                    text_or_empty(version),
                    text_or_empty(source),
                    match bytes {
                        Some(b) => b as usize,
                        None => 0,
                    },
                ),
            )
        },
    }
}

pub open spec fn text_or_empty(v: Option<Seq<char>>) -> Seq<char> {
    match v {
        Some(s) => s,
        None => Seq::empty(),
    }
}

pub open spec fn opt_string_view(v: Option<String>) -> Option<Seq<char>> {
    match v {
        Some(s) => Some(s@),
        None => None,
    }
}

fn string_or_empty(v: Option<String>) -> (r: String)
    ensures
        r@ == text_or_empty(opt_string_view(v)),
{
    match v {
        Some(s) => s,
        None => String::new(),
    }
}

/// The acceptance record held in the registry, from the values read there
/// (`None` where a value is missing or unreadable).
pub fn registry_record(
    accepted: Option<u32>,
    accepted_at: Option<String>,
    user: Option<String>,
    computer: Option<String>,
    version: Option<String>,
    source: Option<String>,
    bytes: Option<u32>,
) -> (r: Option<AcceptanceRecord>)
    ensures
        match registry_record_view(
            accepted,
            opt_string_view(accepted_at),
            opt_string_view(user),
            opt_string_view(computer),
            opt_string_view(version),
            opt_string_view(source),
            bytes,
        ) {
            None => r is None,
            Some(f) => r is Some && record_view(r.unwrap()) == f,
        },
{
    match accepted {
        None => None,
        Some(a) => if a == 0 {
            None
        } else {
            Some(
                AcceptanceRecord {
                    accepted_at: string_or_empty(accepted_at),
                    user: string_or_empty(user),
                    computer: string_or_empty(computer),
                    version: string_or_empty(version),
                    source: string_or_empty(source),
                    disclaimer_bytes: match bytes {
                        Some(b) => b as usize,
                        None => 0,
                    },
                },
            )
        },
    }
}

/// The first backup text, among those read, that records an acceptance.
pub open spec fn first_file_record(files: Seq<Option<Seq<char>>>) -> Option<RecordFields>
    decreases files.len(),
{
    if files.len() == 0 {
        None
    } else {
        match files[0] {
            Some(t) => if parse_record_view(t).0.len() > 0 || trim(t).len() > 0 {
                Some(parse_record_view(t))
            } else {
                first_file_record(files.drop_first())
            },
            None => first_file_record(files.drop_first()),
        }
    }
}

pub open spec fn files_view(files: Seq<Option<String>>) -> Seq<Option<Seq<char>>> {
    files.map_values(|f: Option<String>| opt_string_view(f))
}

/// The latest acceptance record: the registry's, else that of the first
/// backup file (roaming, then local; `None` where unreadable) recording one.
pub fn read_record(registry: Option<AcceptanceRecord>, files: &[Option<String>]) -> (r: Option<
    AcceptanceRecord,
>)
    ensures
        match registry {
            Some(rec) => r is Some && record_view(r.unwrap()) == record_view(rec),
            None => match first_file_record(files_view(files@)) {
                None => r is None,
                Some(f) => r is Some && record_view(r.unwrap()) == f,
            },
        },
{
    if let Some(rec) = registry {
        return Some(rec);
    }
    let ghost fv = files_view(files@);
    let mut i: usize = 0;
    assert(fv.skip(0) =~= fv);
    while i < files.len()
        invariant
            0 <= i <= files@.len(),
            fv == files_view(files@),
            registry is None,
            first_file_record(fv) == first_file_record(fv.skip(i as int)),
        decreases files@.len() - i,
    {
        proof {
            assert(fv.skip(i as int)[0] == fv[i as int]);
            assert(fv.skip(i as int).drop_first() =~= fv.skip(i + 1));
        }
        if let Some(text) = &files[i] {
            let rec = parse_file_record(text.as_str());
            let t = trim_chars(&chars_of(text.as_str()));
            if !rec.accepted_at.as_str().is_empty() || t.len() > 0 {
                return Some(rec);
            }
        }
        i = i + 1;
    }
    assert(fv.skip(i as int) =~= Seq::<Option<Seq<char>>>::empty());
    None
}

/// Whether the user has accepted (registry first, then file backups).
pub fn is_accepted(registry: Option<AcceptanceRecord>, files: &[Option<String>]) -> (r: bool)
    ensures
        r == (registry is Some || first_file_record(files_view(files@)) is Some),
{
    read_record(registry, files).is_some()
}

/// Bytes of the full disclaimer text as UTF-8.
pub fn full_text_bytes() -> (r: usize)
    ensures
        r == utf8_len(FULL@) as usize,
{
    let cs = chars_of(FULL);
    let mut n: u128 = 0;
    let mut i: usize = 0;
    assert(cs@.take(0) =~= Seq::<char>::empty());
    while i < cs.len()
        invariant
            0 <= i <= cs@.len(),
            cs@ == FULL@,
            n == utf8_len(cs@.take(i as int)),
            n <= 4 * i,
        decreases cs@.len() - i,
    {
        assert(cs@.take(i + 1).drop_last() =~= cs@.take(i as int));
        let w = utf8_width_of(cs[i]);
        n = n + w as u128;
        i = i + 1;
    }
    assert(cs@.take(cs@.len() as int) =~= cs@);
    n as usize
}

/// The record of an acceptance now: `stamp` the local time stamp, `user` and
/// `computer` from the environment (`(unknown)` when unset), this version,
/// where it was accepted, and the size of the accepted text.
pub open spec fn accept_view(
    stamp: Seq<char>,
    user: Option<Seq<char>>,
    computer: Option<Seq<char>>,
    version: Seq<char>,
    source: Seq<char>,
) -> RecordFields {
    (
        stamp,
        match user {
            Some(u) => u,
            None => "(unknown)"@,
        },
        match computer {
            Some(c) => c,
            None => "(unknown)"@,
        },
        version,
        source,
        utf8_len(FULL@) as usize,
    )
}

/// A new acceptance record (see [`accept_view`]); the caller stores it.
pub fn accept(
    source: &str,
    stamp: &str,
    user: Option<String>,
    computer: Option<String>,
    version: &str,
) -> (r: AcceptanceRecord)
    ensures
        record_view(r) == accept_view(
            stamp@,
            opt_string_view(user),
            opt_string_view(computer),
            version@,
            source@,
        ),
{
    AcceptanceRecord {
        accepted_at: string_of(stamp),
        user: match user {
            Some(u) => u,
            None => string_of("(unknown)"),
        },
        computer: match computer {
            Some(c) => c,
            None => string_of("(unknown)"),
        },
        version: string_of(version),
        source: string_of(source),
        disclaimer_bytes: full_text_bytes(),
    }
}

/// Where the acceptance is kept, as the backup file notes it.
pub const STORAGE_NOTE: &'static str = "HKCU\\\\Software\\\\TelemetryLoggingUtility\\\\Disclaimer + APPDATA backup";

/// One `key=value` line.
pub open spec fn kv_line(key: Seq<char>, value: Seq<char>) -> Seq<char> {
    key + seq!['='] + value + seq!['\n']
}

/// The backup file text of a record: one `key=value` line per field, after
/// `accepted=yes` and before the short notice and where it is stored.
pub open spec fn backup_text_view(r: RecordFields) -> Seq<char> {
    kv_line("accepted"@, "yes"@) + kv_line("accepted_at"@, r.0) + kv_line("user"@, r.1) + kv_line(
        "computer"@,
        r.2,
    ) + kv_line("version"@, r.3) + kv_line("source"@, r.4) + kv_line(
        "disclaimer_bytes"@,
        dec(r.5 as nat),
    ) + kv_line("short"@, SHORT@) + kv_line("storage"@, STORAGE_NOTE@)
}

fn push_kv(s: &mut String, key: &str, value: &str)
    ensures
        final(s)@ == old(s)@ + kv_line(key@, value@),
{
    push_str(s, key);
    push_char(s, '=');
    push_str(s, value);
    push_char(s, '\n');
    assert(final(s)@ =~= old(s)@ + kv_line(key@, value@));
}

/// The backup file text of a record.
pub fn backup_text(rec: &AcceptanceRecord) -> (r: String)
    ensures
        r@ == backup_text_view(record_view(*rec)),
{
    let mut s = String::new();
    push_kv(&mut s, "accepted", "yes");
    push_kv(&mut s, "accepted_at", rec.accepted_at.as_str());
    push_kv(&mut s, "user", rec.user.as_str());
    push_kv(&mut s, "computer", rec.computer.as_str());
    push_kv(&mut s, "version", rec.version.as_str());
    push_kv(&mut s, "source", rec.source.as_str());
    let mut n = String::new();
    push_dec(&mut n, rec.disclaimer_bytes as u64);
    push_kv(&mut s, "disclaimer_bytes", n.as_str());
    push_kv(&mut s, "short", SHORT);
    push_kv(&mut s, "storage", STORAGE_NOTE);
    assert(s@ =~= backup_text_view(record_view(*rec)));
    s
}

/// The line an acceptance appends to the acceptance log.
pub open spec fn log_line_view(r: RecordFields) -> Seq<char> {
    r.0 + " | user="@ + r.1 + " | computer="@ + r.2 + " | version="@ + r.3 + " | source="@ + r.4
        + " | bytes="@ + dec(r.5 as nat) + seq!['\n']
}

pub fn acceptance_log_line(rec: &AcceptanceRecord) -> (r: String)
    ensures
        r@ == log_line_view(record_view(*rec)),
{
    let mut s = string_of(rec.accepted_at.as_str());
    push_str(&mut s, " | user=");
    push_str(&mut s, rec.user.as_str());
    push_str(&mut s, " | computer=");
    push_str(&mut s, rec.computer.as_str());
    push_str(&mut s, " | version=");
    push_str(&mut s, rec.version.as_str());
    push_str(&mut s, " | source=");
    push_str(&mut s, rec.source.as_str());
    push_str(&mut s, " | bytes=");
    push_dec(&mut s, rec.disclaimer_bytes as u64);
    push_char(&mut s, '\n');
    assert(s@ =~= log_line_view(record_view(*rec)));
    s
}


/// A field value a backup line gives back unchanged: on one line, and
/// without surrounding white space.
pub open spec fn plain_field(v: Seq<char>) -> bool {
    &&& forall|i: int| 0 <= i < v.len() ==> v[i] != '\n'
    &&& trim(v) == v
}

/// A key of a backup line: non-empty, without `=`, line breaks or
/// surrounding white space.
pub open spec fn plain_key(k: Seq<char>) -> bool {
    &&& k.len() > 0
    &&& forall|i: int| 0 <= i < k.len() ==> k[i] != '=' && k[i] != '\n'
    &&& trim(k) == k
}

/// The field update a `key=value` line makes (see [`apply_record_line`]).
pub open spec fn field_update(r: RecordFields, k: Seq<char>, v: Seq<char>) -> RecordFields {
    if k == "accepted_at"@ {
        (v, r.1, r.2, r.3, r.4, r.5)
    } else if k == "user"@ {
        (r.0, v, r.2, r.3, r.4, r.5)
    } else if k == "computer"@ {
        (r.0, r.1, v, r.3, r.4, r.5)
    } else if k == "version"@ {
        (r.0, r.1, r.2, v, r.4, r.5)
    } else if k == "source"@ {
        (r.0, r.1, r.2, r.3, v, r.5)
    } else if k == "disclaimer_bytes"@ {
        (r.0, r.1, r.2, r.3, r.4, usize_or_zero(v))
    } else {
        r
    }
}

proof fn lemma_kv_line_applies(r: RecordFields, k: Seq<char>, v: Seq<char>)
    requires
        plain_key(k),
    ensures
        apply_record_line(r, k + seq!['='] + v) == field_update(r, k, trim(v)),
{
    let line = k + seq!['='] + v;
    let w = k.len() as int;
    assert(is_first_of(line, w, '='));
    let c = choose|i: int| is_first_of(line, i, '=');
    crate::cleanup_history::lemma_first_of_unique(line, '=', w, c);
    assert(line.take(w) =~= k);
    assert(line.skip(w + 1) =~= v);
}

proof fn lemma_kv_line_lines(k: Seq<char>, v: Seq<char>)
    requires
        plain_key(k),
        forall|i: int| 0 <= i < v.len() ==> v[i] != '\n',
        v.len() > 0 ==> v.last() != '\r',
    ensures
        lines(kv_line(k, v)) == seq![k + seq!['='] + v],
{
    let body = k + seq!['='] + v;
    assert forall|i: int| 0 <= i < body.len() implies body[i] != '\n' by {
        if i < k.len() {
            assert(body[i] == k[i]);
        } else if i > k.len() {
            assert(body[i] == v[i - k.len() - 1]);
        }
    }
    if v.len() > 0 {
        assert(body.last() == v.last());
    }
    assert(kv_line(k, v) =~= body.push('\n'));
    crate::text::lemma_lines_single(body);
}

proof fn lemma_plain_field_line(v: Seq<char>)
    requires
        plain_field(v),
    ensures
        forall|i: int| 0 <= i < v.len() ==> v[i] != '\n',
        v.len() > 0 ==> v.last() != '\r',
{
    if v.len() > 0 {
        assert(trim(v) == v);
        let t = crate::text::trim_start(v);
        assert(crate::text::trim_end(t) == v);
        lemma_trim_start_len(v);
        lemma_trim_end_drops_last(t);
        if v.last() == '\r' {
            assert(t.len() == v.len());
            assert(t == v);
            assert(crate::text::is_white_space(t.last()));
        }
    }
}

proof fn lemma_trim_end_drops_last(s: Seq<char>)
    ensures
        crate::text::trim_end(s).len() <= s.len(),
        s.len() > 0 && crate::text::is_white_space(s.last()) ==> crate::text::trim_end(s).len() < s.len(),
    decreases s.len(),
{
    if s.len() > 0 && crate::text::is_white_space(s.last()) {
        lemma_trim_end_drops_last(s.drop_last());
    }
}

proof fn lemma_trim_start_len(s: Seq<char>)
    ensures
        crate::text::trim_start(s).len() <= s.len(),
        crate::text::trim_start(s).len() == s.len() ==> crate::text::trim_start(s) == s,
    decreases s.len(),
{
    if s.len() > 0 && crate::text::is_white_space(s[0]) {
        lemma_trim_start_len(s.drop_first());
    }
}

proof fn lemma_record_push(ls: Seq<Seq<char>>, l: Seq<char>)
    ensures
        record_from_lines(ls.push(l)) == apply_record_line(record_from_lines(ls), l),
{
    assert(ls.push(l).drop_last() =~= ls);
}

/// The keys of the backup lines, in order.
pub open spec fn backup_keys() -> Seq<Seq<char>> {
    seq![
        "accepted"@,
        "accepted_at"@,
        "user"@,
        "computer"@,
        "version"@,
        "source"@,
        "disclaimer_bytes"@,
        "short"@,
        "storage"@,
    ]
}

/// The values of the backup lines of a record, in order.
pub open spec fn backup_values(r: RecordFields) -> Seq<Seq<char>> {
    seq!["yes"@, r.0, r.1, r.2, r.3, r.4, dec(r.5 as nat), SHORT@, STORAGE_NOTE@]
}

/// The backup text as its lines (without line breaks).
pub open spec fn backup_bodies(r: RecordFields) -> Seq<Seq<char>> {
    Seq::new(9, |i: int| backup_keys()[i] + seq!['='] + backup_values(r)[i])
}

proof fn lemma_backup_keys_plain()
    ensures
        forall|i: int| 0 <= i < 9 ==> plain_key(#[trigger] backup_keys()[i]),
        backup_keys()[0] != "accepted_at"@ && backup_keys()[0] != "user"@ && backup_keys()[0]
            != "computer"@ && backup_keys()[0] != "version"@ && backup_keys()[0] != "source"@
            && backup_keys()[0] != "disclaimer_bytes"@,
        backup_keys()[7] != "accepted_at"@ && backup_keys()[7] != "user"@ && backup_keys()[7]
            != "computer"@ && backup_keys()[7] != "version"@ && backup_keys()[7] != "source"@
            && backup_keys()[7] != "disclaimer_bytes"@,
        backup_keys()[8] != "accepted_at"@ && backup_keys()[8] != "user"@ && backup_keys()[8]
            != "computer"@ && backup_keys()[8] != "version"@ && backup_keys()[8] != "source"@
            && backup_keys()[8] != "disclaimer_bytes"@,
        backup_keys()[1] == "accepted_at"@,
        backup_keys()[2] == "user"@ && backup_keys()[2] != "accepted_at"@,
        backup_keys()[3] == "computer"@ && backup_keys()[3] != "accepted_at"@ && backup_keys()[3]
            != "user"@,
        backup_keys()[4] == "version"@ && backup_keys()[4] != "accepted_at"@ && backup_keys()[4]
            != "user"@ && backup_keys()[4] != "computer"@,
        backup_keys()[5] == "source"@ && backup_keys()[5] != "accepted_at"@ && backup_keys()[5]
            != "user"@ && backup_keys()[5] != "computer"@ && backup_keys()[5] != "version"@,
        backup_keys()[6] == "disclaimer_bytes"@ && backup_keys()[6] != "accepted_at"@
            && backup_keys()[6] != "user"@ && backup_keys()[6] != "computer"@ && backup_keys()[6]
            != "version"@ && backup_keys()[6] != "source"@,
{
    reveal_strlit("accepted");
    reveal_strlit("accepted_at");
    reveal_strlit("user");
    reveal_strlit("computer");
    reveal_strlit("version");
    reveal_strlit("source");
    reveal_strlit("disclaimer_bytes");
    reveal_strlit("short");
    reveal_strlit("storage");
    let ks = backup_keys();
    assert forall|i: int| 0 <= i < 9 implies plain_key(#[trigger] backup_keys()[i]) by {
        let k = ks[i];
        assert(crate::text::trim_start(k) == k);
        assert(crate::text::trim_end(k) == k);
    }
}

proof fn lemma_constant_values_one_line()
    ensures
        forall|i: int| 0 <= i < SHORT@.len() ==> SHORT@[i] != '\n',
        SHORT@.len() > 0 && SHORT@.last() != '\r',
        forall|i: int| 0 <= i < STORAGE_NOTE@.len() ==> STORAGE_NOTE@[i] != '\n',
        STORAGE_NOTE@.len() > 0 && STORAGE_NOTE@.last() != '\r',
        forall|i: int| 0 <= i < "yes"@.len() ==> "yes"@[i] != '\n',
        "yes"@.len() > 0 && "yes"@.last() != '\r',
{
    reveal_strlit("USE AT YOUR OWN RISK. Provided AS IS with NO WARRANTY. Authors accept NO LIABILITY.");
    reveal_strlit("HKCU\\\\Software\\\\TelemetryLoggingUtility\\\\Disclaimer + APPDATA backup");
    reveal_strlit("yes");
}

/// The first `k` lines of the backup text.
pub open spec fn backup_prefix(r: RecordFields, k: nat) -> Seq<char>
    decreases k,
{
    if k == 0 {
        Seq::empty()
    } else {
        backup_prefix(r, (k - 1) as nat) + kv_line(backup_keys()[k - 1], backup_values(r)[k - 1])
    }
}

proof fn lemma_backup_prefix_lines(r: RecordFields, k: nat)
    requires
        k <= 9,
        forall|i: int| 0 <= i < 9 ==> lines(kv_line(backup_keys()[i], backup_values(r)[i])) == seq![
            #[trigger] backup_bodies(r)[i],
        ],
    ensures
        lines(backup_prefix(r, k)) == backup_bodies(r).take(k as int),
        k > 0 ==> backup_prefix(r, k).len() > 0 && backup_prefix(r, k).last() == '\n',
    decreases k,
{
    let bs = backup_bodies(r);
    if k == 0 {
        assert(bs.take(0) =~= Seq::<Seq<char>>::empty());
        assert(lines(Seq::<char>::empty()) =~= Seq::<Seq<char>>::empty());
    } else {
        let j = (k - 1) as nat;
        lemma_backup_prefix_lines(r, j);
        let p = backup_prefix(r, j);
        let l = kv_line(backup_keys()[j as int], backup_values(r)[j as int]);
        crate::text::lemma_lines_append(p, l);
        assert(lines(l) == seq![bs[j as int]]);
        assert(bs.take(k as int) =~= bs.take(j as int) + seq![bs[j as int]]);
        assert((p + l).last() == l.last());
    }
}

/// The backup text reads as its lines.
proof fn lemma_backup_lines(r: RecordFields)
    requires
        plain_field(r.0),
        plain_field(r.1),
        plain_field(r.2),
        plain_field(r.3),
        plain_field(r.4),
    ensures
        lines(backup_text_view(r)) == backup_bodies(r),
{
    lemma_backup_keys_plain();
    lemma_constant_values_one_line();
    let ks = backup_keys();
    let vs = backup_values(r);
    crate::text::lemma_dec_digits(r.5 as nat);
    let v7 = dec(r.5 as nat);
    assert forall|i: int| 0 <= i < v7.len() implies v7[i] != '\n' by {
        assert(crate::text::is_digit(v7[i]));
    }
    assert(crate::text::is_digit(v7.last()));
    lemma_plain_field_line(r.0);
    lemma_plain_field_line(r.1);
    lemma_plain_field_line(r.2);
    lemma_plain_field_line(r.3);
    lemma_plain_field_line(r.4);
    assert forall|i: int| 0 <= i < 9 implies lines(kv_line(ks[i], vs[i])) == seq![
        #[trigger] backup_bodies(r)[i],
    ] by {
        assert(plain_key(ks[i]));
        lemma_kv_line_lines(ks[i], vs[i]);
    }
    lemma_backup_prefix_lines(r, 9);
    reveal_with_fuel(backup_prefix, 10);
    assert(backup_prefix(r, 9) =~= backup_text_view(r));
    assert(backup_bodies(r).take(9) =~= backup_bodies(r));
}

/// The record after the first `k` backup lines.
proof fn lemma_backup_fold(r: RecordFields)
    requires
        plain_field(r.0),
        plain_field(r.1),
        plain_field(r.2),
        plain_field(r.3),
        plain_field(r.4),
    ensures
        record_from_lines(backup_bodies(r)) == r,
{
    lemma_backup_keys_plain();
    let ks = backup_keys();
    let vs = backup_values(r);
    let bs = backup_bodies(r);
    let e = empty_fields();
    assert(bs.take(1) =~= Seq::<Seq<char>>::empty().push(bs[0]));
    lemma_record_push(Seq::<Seq<char>>::empty(), bs[0]);
    lemma_kv_line_applies(e, ks[0], vs[0]);
    assert(record_from_lines(bs.take(1)) == e);
    assert(bs.take(2) =~= bs.take(1).push(bs[1]));
    lemma_record_push(bs.take(1), bs[1]);
    lemma_kv_line_applies(e, ks[1], vs[1]);
    assert(record_from_lines(bs.take(2)) == (r.0, e.1, e.2, e.3, e.4, e.5));
    assert(bs.take(3) =~= bs.take(2).push(bs[2]));
    lemma_record_push(bs.take(2), bs[2]);
    lemma_kv_line_applies(record_from_lines(bs.take(2)), ks[2], vs[2]);
    assert(record_from_lines(bs.take(3)) == (r.0, r.1, e.2, e.3, e.4, e.5));
    assert(bs.take(4) =~= bs.take(3).push(bs[3]));
    lemma_record_push(bs.take(3), bs[3]);
    lemma_kv_line_applies(record_from_lines(bs.take(3)), ks[3], vs[3]);
    assert(record_from_lines(bs.take(4)) == (r.0, r.1, r.2, e.3, e.4, e.5));
    assert(bs.take(5) =~= bs.take(4).push(bs[4]));
    lemma_record_push(bs.take(4), bs[4]);
    lemma_kv_line_applies(record_from_lines(bs.take(4)), ks[4], vs[4]);
    assert(record_from_lines(bs.take(5)) == (r.0, r.1, r.2, r.3, e.4, e.5));
    assert(bs.take(6) =~= bs.take(5).push(bs[5]));
    lemma_record_push(bs.take(5), bs[5]);
    lemma_kv_line_applies(record_from_lines(bs.take(5)), ks[5], vs[5]);
    assert(record_from_lines(bs.take(6)) == (r.0, r.1, r.2, r.3, r.4, e.5));
    assert(bs.take(7) =~= bs.take(6).push(bs[6]));
    lemma_record_push(bs.take(6), bs[6]);
    lemma_kv_line_applies(record_from_lines(bs.take(6)), ks[6], vs[6]);
    crate::cleanup_history::lemma_dec_reads_back(r.5 as u64);
    crate::text::lemma_dec_digits(r.5 as nat);
    let v7 = dec(r.5 as nat);
    assert(crate::text::is_digit(v7[0]));
    assert(crate::text::is_digit(v7.last()));
    crate::text::lemma_trim_noop(v7);
    assert(usize_or_zero(trim(v7)) == r.5);
    assert(record_from_lines(bs.take(7)) == r);
    assert(bs.take(8) =~= bs.take(7).push(bs[7]));
    lemma_record_push(bs.take(7), bs[7]);
    lemma_kv_line_applies(r, ks[7], vs[7]);
    assert(record_from_lines(bs.take(8)) == r);
    assert(bs.take(9) =~= bs.take(8).push(bs[8]));
    lemma_record_push(bs.take(8), bs[8]);
    lemma_kv_line_applies(r, ks[8], vs[8]);
    assert(bs.take(9) =~= bs);
}

/// What the backup file holds reads back as the record written: for a
/// record whose text fields are each on one line without surrounding white
/// space, with a non-empty acceptance time.
pub proof fn lemma_backup_reads_back(r: RecordFields)
    requires
        r.0.len() > 0,
        plain_field(r.0),
        plain_field(r.1),
        plain_field(r.2),
        plain_field(r.3),
        plain_field(r.4),
    ensures
        parse_record_view(backup_text_view(r)) == r,
{
    lemma_backup_lines(r);
    lemma_backup_fold(r);
}

/// An acceptance, once its backup file is written, is what a later start
/// reads when the registry holds none: the first backup read gives the
/// record back, whatever backups follow (for records as in
/// [`lemma_backup_reads_back`]).
pub proof fn lemma_backed_up_acceptance_is_read(r: RecordFields, later: Seq<Option<Seq<char>>>)
    requires
        r.0.len() > 0,
        plain_field(r.0),
        plain_field(r.1),
        plain_field(r.2),
        plain_field(r.3),
        plain_field(r.4),
    ensures
        first_file_record(seq![Some(backup_text_view(r))] + later) == Some(r),
{
    lemma_backup_reads_back(r);
    let files = seq![Some(backup_text_view(r))] + later;
    assert(files[0] == Some(backup_text_view(r)));
}

} // verus!
