//! Daily cleanup history: bytes freed by log / temp clears.
//!
//! The history is a text file of `yyyy-MM-dd|logs|123` lines kept under
//! `%APPDATA%`; this module writes such lines, reads them back and aggregates
//! them. Reading and appending the file is the caller's part.

use vstd::prelude::*;

use crate::calendar::{local_stamp, spec_days_in_month, stamp_view, valid_date, LocalTime};
use crate::text::{
    f64_round, f64_round_u64, fixed_point, push_fixed_point,
    chars_same,
    chars_eq, chars_of, dec, is_digit, lines, normalize_id, parse_u64_chars,
    parse_u64_digits, push_char, push_dec, push_str, split_lines, string_from_chars, trim,
    trim_chars, zero_pad,
};

verus! {

#[derive(Debug, Clone, Copy, PartialEq, Eq, Structural)]
pub enum Category {
    Logs,
    Temp,
}

pub open spec fn category_name(c: Category) -> Seq<char> {
    match c {
        Category::Logs => "logs"@,
        Category::Temp => "temp"@,
    }
}

/// Reading a category name: case and surrounding white space ignored,
/// singular / plural accepted.
pub open spec fn parse_category(s: Seq<char>) -> Option<Category> {
    let n = normalize_id(s);
    if n == "logs"@ || n == "log"@ {
        Some(Category::Logs)
    } else if n == "temp"@ || n == "temps"@ {
        Some(Category::Temp)
    } else {
        None
    }
}

fn parse_category_chars(s: &[char]) -> (r: Option<Category>)
    ensures
        r == parse_category(s@),
{
    let cs = trim_chars(s);
    let n = crate::text::lower_chars(&cs);
    if chars_eq(&n, "logs") || chars_eq(&n, "log") {
        Some(Category::Logs)
    } else if chars_eq(&n, "temp") || chars_eq(&n, "temps") {
        Some(Category::Temp)
    } else {
        None
    }
}

impl Category {
    pub fn as_str(self) -> (r: &'static str)
        ensures
            r@ == category_name(self),
    {
        match self {
            Category::Logs => "logs",
            Category::Temp => "temp",
        }
    }

    pub fn parse(s: &str) -> (r: Option<Self>)
        ensures
            r == parse_category(s@),
    {
        let cs = chars_of(s);
        parse_category_chars(&cs)
    }
}

/// Bytes freed on one calendar day.
#[derive(Debug, Clone)]
pub struct DayTotals {
    pub date: String,
    pub logs_bytes: u64,
    pub temp_bytes: u64,
}

impl DayTotals {
    pub fn total_bytes(&self) -> (r: u64)
        ensures
            r == if self.logs_bytes + self.temp_bytes <= u64::MAX {
                self.logs_bytes + self.temp_bytes
            } else {
                u64::MAX as int
            },
    {
        self.logs_bytes.saturating_add(self.temp_bytes)
    }
}

/// Bytes of the UTF-8 encoding of `c` (`char::len_utf8`).
pub open spec fn utf8_width(c: char) -> nat {
    if (c as u32) < 0x80 {
        1
    } else if (c as u32) < 0x800 {
        2
    } else if (c as u32) < 0x10000 {
        3
    } else {
        4
    }
}

/// Bytes of the UTF-8 encoding of `s` (`str::len`).
pub open spec fn utf8_len(s: Seq<char>) -> nat
    decreases s.len(),
{
    if s.len() == 0 {
        0
    } else {
        utf8_len(s.drop_last()) + utf8_width(s.last())
    }
}

/// `s` can be cut after its first 10 bytes: the cut falls between characters.
pub open spec fn cuts_at_ten(s: Seq<char>) -> bool {
    exists|k: int| 0 <= k <= s.len() && utf8_len(s.take(k)) == 10
}

/// The leading characters of `s` that make up its first 10 bytes (`&s[..10]`).
pub open spec fn first_ten_bytes(s: Seq<char>) -> Seq<char> {
    s.take(choose|k: int| 0 <= k <= s.len() && utf8_len(s.take(k)) == 10)
}

/// `i` is the position of the first `c` in `s`.
pub open spec fn is_first_of(s: Seq<char>, i: int, c: char) -> bool {
    &&& 0 <= i < s.len()
    &&& s[i] == c
    &&& forall|j: int| 0 <= j < i ==> s[j] != c
}

/// `s` split at every `c` (`str::split`): one more part than separators.
pub open spec fn split_on(s: Seq<char>, c: char) -> Seq<Seq<char>>
    decreases s.len(),
{
    if exists|i: int| is_first_of(s, i, c) {
        let i = choose|i: int| is_first_of(s, i, c);
        seq![s.take(i)] + split_on(s.skip(i + 1), c)
    } else {
        seq![s]
    }
}

/// `str::parse::<u64>`: an optional `+`, then one or more ASCII digits, not too large.
pub open spec fn parse_u64_text(s: Seq<char>) -> Option<u64> {
    let d = unsigned_part(s);
    if d.len() > 0 && all_digits(d) {
        parse_u64_digits(d)
    } else {
        None
    }
}

/// `s` without a leading `+`.
pub open spec fn unsigned_part(s: Seq<char>) -> Seq<char> {
    if s.len() > 0 && s[0] == '+' {
        s.drop_first()
    } else {
        s
    }
}

pub open spec fn all_digits(d: Seq<char>) -> bool {
    forall|k: int| 0 <= k < d.len() ==> is_digit(#[trigger] d[k])
}

/// The date, category and byte count of a history line, if it is one.
pub open spec fn parse_history_line(line: Seq<char>) -> Option<(Seq<char>, Category, u64)> {
    let parts = split_on(line, '|');
    if parts.len() < 3 {
        None
    } else {
        let date = trim(parts[0]);
        match parse_category(parts[1]) {
            None => None,
            Some(cat) => match parse_u64_text(trim(parts[2])) {
                None => None,
                Some(bytes) => if utf8_len(date) >= 10 {
                    Some((first_ten_bytes(date), cat, bytes))
                } else {
                    None
                },
            },
        }
    }
}

/// Reading a line never cuts a character in two: the date of every line that
/// is otherwise well formed splits after its tenth byte.
pub open spec fn history_line_readable(line: Seq<char>) -> bool {
    let parts = split_on(line, '|');
    parts.len() >= 3 && parse_category(parts[1]) is Some && parse_u64_text(trim(parts[2])) is Some
        && utf8_len(trim(parts[0])) >= 10 ==> cuts_at_ten(trim(parts[0]))
}

/// Every line of the history text is readable.
pub open spec fn history_readable(text: Seq<char>) -> bool {
    forall|i: int| 0 <= i < lines(text).len() ==> history_line_readable(#[trigger] lines(text)[i])
}

/// The records of a list of history lines, malformed lines skipped.
pub open spec fn parse_history_lines(ls: Seq<Seq<char>>) -> Seq<(Seq<char>, Category, u64)>
    decreases ls.len(),
{
    if ls.len() == 0 {
        Seq::empty()
    } else {
        parse_history_lines(ls.drop_last()) + match parse_history_line(ls.last()) {
            Some(r) => seq![r],
            None => Seq::empty(),
        }
    }
}

/// The records of a history text.
pub open spec fn parse_history_view(text: Seq<char>) -> Seq<(Seq<char>, Category, u64)> {
    parse_history_lines(lines(text))
}

/// The views of parsed records.
pub open spec fn records_view(raw: Seq<(String, Category, u64)>) -> Seq<(Seq<char>, Category, u64)> {
    raw.map_values(|r: (String, Category, u64)| (r.0@, r.1, r.2))
}

pub proof fn lemma_first_of_unique(s: Seq<char>, c: char, i: int, k: int)
    requires
        is_first_of(s, i, c),
        is_first_of(s, k, c),
    ensures
        i == k,
{
    if i < k {
        assert(s[i] != c);
    } else if k < i {
        assert(s[k] != c);
    }
}

/// `str::split(c)` over characters.
pub fn split_on_char(s: &[char], c: char) -> (r: Vec<Vec<char>>)
    ensures
        r.deep_view() == split_on(s@, c),
{
    let n = s.len();
    let mut out: Vec<Vec<char>> = Vec::new();
    let mut start: usize = 0;
    assert(s@.skip(0) =~= s@);
    loop
        invariant
            0 <= start <= n,
            n == s@.len(),
            split_on(s@, c) == out.deep_view() + split_on(s@.skip(start as int), c),
        decreases n - start,
    {
        let ghost rest = s@.skip(start as int);
        let mut k: usize = start;
        while k < n && s[k] != c
            invariant
                start <= k <= n,
                n == s@.len(),
                forall|j: int| start <= j < k ==> s@[j] != c,
            decreases n - k,
        {
            k = k + 1;
        }
        let part = crate::text::slice_chars(s, start, k);
        let ghost before = out.deep_view();
        let ghost pv = part@;
        assert(part.deep_view() =~= part@);
        out.push(part);
        assert(out@.last().deep_view() == pv);
        assert(out.deep_view() =~= before.push(pv));
        if k < n {
            proof {
                let i = (k - start) as int;
                assert(is_first_of(rest, i, c));
                let w = choose|w: int| is_first_of(rest, w, c);
                lemma_first_of_unique(rest, c, i, w);
                assert(rest.take(i) =~= pv);
                assert(rest.skip(i + 1) =~= s@.skip(k + 1));
            }
            start = k + 1;
        } else {
            proof {
                assert(!exists|i: int| is_first_of(rest, i, c));
                assert(pv =~= rest);
                assert(out.deep_view() =~= before + seq![pv]);
            }
            return out;
        }
    }
}

/// `str::parse::<u64>` over characters.
pub fn parse_u64_text_chars(s: &[char]) -> (r: Option<u64>)
    ensures
        r == parse_u64_text(s@),
{
    let d = if s.len() > 0 && s[0] == '+' {
        crate::text::slice_chars(s, 1, s.len())
    } else {
        crate::text::slice_chars(s, 0, s.len())
    };
    assert(d@ =~= unsigned_part(s@));
    if d.len() == 0 {
        return None;
    }
    let mut k: usize = 0;
    while k < d.len()
        invariant
            0 <= k <= d@.len(),
            forall|i: int| 0 <= i < k ==> is_digit(d@[i]),
            d@ == unsigned_part(s@),
        decreases d@.len() - k,
    {
        if !crate::text::is_digit_char(d[k]) {
            assert(!is_digit(d@[k as int]));
            return None;
        }
        k = k + 1;
    }
    parse_u64_chars(&d)
}

pub fn utf8_width_of(c: char) -> (r: usize)
    ensures
        r == utf8_width(c),
        1 <= r <= 4,
{
    let u = c as u32;
    if u < 0x80 {
        1
    } else if u < 0x800 {
        2
    } else if u < 0x10000 {
        3
    } else {
        4
    }
}

proof fn lemma_utf8_len_take_step(s: Seq<char>, k: int)
    requires
        0 <= k < s.len(),
    ensures
        utf8_len(s.take(k + 1)) == utf8_len(s.take(k)) + utf8_width(s[k]),
{
    assert(s.take(k + 1).drop_last() =~= s.take(k));
}

proof fn lemma_utf8_len_take_mono(s: Seq<char>, a: int, b: int)
    requires
        0 <= a < b <= s.len(),
    ensures
        utf8_len(s.take(a)) < utf8_len(s.take(b)),
    decreases b - a,
{
    lemma_utf8_len_take_step(s, b - 1);
    if a < b - 1 {
        lemma_utf8_len_take_mono(s, a, b - 1);
    }
}

/// `&s[..10]` over characters (the cut must fall between characters).
pub fn first_ten_bytes_chars(s: &[char]) -> (r: Vec<char>)
    requires
        cuts_at_ten(s@),
    ensures
        r@ == first_ten_bytes(s@),
{
    let ghost kk = choose|k: int| 0 <= k <= s@.len() && utf8_len(s@.take(k)) == 10;
    let mut k: usize = 0;
    let mut total: usize = 0;
    assert(s@.take(0) =~= Seq::<char>::empty());
    while total < 10
        invariant
            0 <= k <= s@.len(),
            0 <= kk <= s@.len(),
            utf8_len(s@.take(kk)) == 10,
            total == utf8_len(s@.take(k as int)),
            k <= kk,
        decreases kk - k,
    {
        proof {
            if k == kk {
                assert(false);
            }
            lemma_utf8_len_take_step(s@, k as int);
            if k + 1 < kk {
                lemma_utf8_len_take_mono(s@, k + 1, kk);
            }
        }
        total = total + utf8_width_of(s[k]);
        k = k + 1;
    }
    proof {
        if (k as int) < kk {
            lemma_utf8_len_take_mono(s@, k as int, kk);
        }
    }
    crate::text::slice_chars(s, 0, k)
}

/// Reads one history line: `date|category|bytes`, the date cut to its first
/// ten bytes; anything malformed gives `None`.
pub fn parse_history_line_chars(line: &[char]) -> (r: Option<(String, Category, u64)>)
    requires
        history_line_readable(line@),
    ensures
        match parse_history_line(line@) {
            None => r is None,
            Some((d, c, b)) => r is Some && r.unwrap().0@ == d && r.unwrap().1 == c && r.unwrap().2
                == b,
        },
{
    let parts = split_on_char(line, '|');
    if parts.len() < 3 {
        return None;
    }
    proof {
        assert(parts@[0]@ =~= parts.deep_view()[0]);
        assert(parts@[1]@ =~= parts.deep_view()[1]);
        assert(parts@[2]@ =~= parts.deep_view()[2]);
    }
    let date = trim_chars(&parts[0]);
    let cat = match parse_category_chars(&parts[1]) {
        None => {
            return None;
        },
        Some(c) => c,
    };
    let bytes_text = trim_chars(&parts[2]);
    let bytes = match parse_u64_text_chars(&bytes_text) {
        None => {
            return None;
        },
        Some(b) => b,
    };
    let mut total: usize = 0;
    let mut k: usize = 0;
    assert(date@.take(0) =~= Seq::<char>::empty());
    while k < date.len() && total < 10
        invariant
            0 <= k <= date@.len(),
            total == utf8_len(date@.take(k as int)),
        decreases date@.len() - k,
    {
        proof {
            lemma_utf8_len_take_step(date@, k as int);
        }
        total = total + utf8_width_of(date[k]);
        k = k + 1;
    }
    if total < 10 {
        assert(date@.take(k as int) =~= date@);
        return None;
    }
    proof {
        if (k as int) < date@.len() {
            lemma_utf8_len_take_mono(date@, k as int, date@.len() as int);
            assert(date@.take(date@.len() as int) =~= date@);
        } else {
            assert(date@.take(k as int) =~= date@);
        }
    }
    let cut = first_ten_bytes_chars(&date);
    Some((string_from_chars(&cut), cat, bytes))
}

/// Whether reading a history line would cut a character in two (see
/// [`history_line_readable`]).
pub fn history_line_readable_chars(line: &[char]) -> (r: bool)
    ensures
        r == history_line_readable(line@),
{
    let parts = split_on_char(line, '|');
    if parts.len() < 3 {
        return true;
    }
    proof {
        assert(parts@[0]@ =~= parts.deep_view()[0]);
        assert(parts@[1]@ =~= parts.deep_view()[1]);
        assert(parts@[2]@ =~= parts.deep_view()[2]);
    }
    let date = trim_chars(&parts[0]);
    if parse_category_chars(&parts[1]).is_none() {
        return true;
    }
    let bytes_text = trim_chars(&parts[2]);
    if parse_u64_text_chars(&bytes_text).is_none() {
        return true;
    }
    let mut total: usize = 0;
    let mut k: usize = 0;
    assert(date@.take(0) =~= Seq::<char>::empty());
    while k < date.len() && total < 10
        invariant
            0 <= k <= date@.len(),
            total == utf8_len(date@.take(k as int)),
            k > 0 ==> utf8_len(date@.take(k - 1)) < 10,
        decreases date@.len() - k,
    {
        proof {
            lemma_utf8_len_take_step(date@, k as int);
        }
        total = total + utf8_width_of(date[k]);
        k = k + 1;
    }
    if total < 10 {
        assert(date@.take(k as int) =~= date@);
        return true;
    }
    proof {
        if (k as int) < date@.len() {
            lemma_utf8_len_take_mono(date@, k as int, date@.len() as int);
            assert(date@.take(date@.len() as int) =~= date@);
        } else {
            assert(date@.take(k as int) =~= date@);
        }
        if total > 10 {
            assert forall|j: int| 0 <= j <= date@.len() implies utf8_len(date@.take(j)) != 10 by {
                if j < k - 1 {
                    lemma_utf8_len_take_mono(date@, j, k - 1);
                } else if j > k {
                    lemma_utf8_len_take_mono(date@, k as int, j);
                }
            }
        }
    }
    total == 10
}

/// Whether a history text can be read without cutting a character in two
/// (see [`history_readable`]); [`parse_history`] needs it.
pub fn history_is_readable(text: &str) -> (r: bool)
    ensures
        r == history_readable(text@),
{
    let cs = chars_of(text);
    let ls = split_lines(&cs);
    let ghost all = ls.deep_view();
    let mut i: usize = 0;
    while i < ls.len()
        invariant
            0 <= i <= ls@.len(),
            all == ls.deep_view(),
            all == lines(text@),
            forall|j: int| 0 <= j < i ==> history_line_readable(#[trigger] all[j]),
        decreases ls@.len() - i,
    {
        assert(ls@[i as int]@ =~= all[i as int]);
        if !history_line_readable_chars(&ls[i]) {
            return false;
        }
        i = i + 1;
    }
    true
}

/// Reads a whole history text: one record per well-formed line, in order.
pub fn parse_history(text: &str) -> (r: Vec<(String, Category, u64)>)
    requires
        history_readable(text@),
    ensures
        records_view(r@) == parse_history_view(text@),
{
    let cs = chars_of(text);
    let ls = split_lines(&cs);
    let ghost all = ls.deep_view();
    let mut out: Vec<(String, Category, u64)> = Vec::new();
    let mut i: usize = 0;
    assert(all.take(0) =~= Seq::<Seq<char>>::empty());
    assert(records_view(out@) =~= Seq::empty());
    while i < ls.len()
        invariant
            0 <= i <= ls@.len(),
            all == ls.deep_view(),
            all == lines(text@),
            history_readable(text@),
            records_view(out@) == parse_history_lines(all.take(i as int)),
        decreases ls@.len() - i,
    {
        proof {
            assert(ls@[i as int]@ =~= all[i as int]);
            assert(all.take(i + 1).drop_last() =~= all.take(i as int));
            assert(history_line_readable(lines(text@)[i as int]));
        }
        let ghost prev = out@;
        match parse_history_line_chars(&ls[i]) {
            None => {},
            Some(rec) => {
                out.push(rec);
                assert(records_view(out@) =~= records_view(prev).push(
                    (out@.last().0@, out@.last().1, out@.last().2),
                ));
            },
        }
        i = i + 1;
        assert(records_view(out@) =~= parse_history_lines(all.take(i as int)));
    }
    assert(all.take(all.len() as int) =~= all);
    out
}

/// Saturation at `u64::MAX`.
pub open spec fn sat(x: nat) -> u64 {
    if x <= u64::MAX {
        x as u64
    } else {
        u64::MAX
    }
}

/// Bytes recorded for `cat` on date `d`.
pub open spec fn bytes_on(raw: Seq<(Seq<char>, Category, u64)>, d: Seq<char>, cat: Category) -> nat
    decreases raw.len(),
{
    if raw.len() == 0 {
        0
    } else {
        bytes_on(raw.drop_last(), d, cat) + if raw.last().0 == d && raw.last().1 == cat {
            raw.last().2 as nat
        } else {
            0
        }
    }
}

/// Bytes recorded for `cat` on any date.
pub open spec fn bytes_for(raw: Seq<(Seq<char>, Category, u64)>, cat: Category) -> nat
    decreases raw.len(),
{
    if raw.len() == 0 {
        0
    } else {
        bytes_for(raw.drop_last(), cat) + if raw.last().1 == cat {
            raw.last().2 as nat
        } else {
            0
        }
    }
}

/// Saturating total of `cat` on `d` (or on every date when `d` is `None`).
fn sum_bytes(raw: &[(String, Category, u64)], d: Option<&[char]>, cat: Category) -> (r: u64)
    ensures
        r == sat(
            match d {
                Some(dd) => bytes_on(records_view(raw@), dd@, cat),
                None => bytes_for(records_view(raw@), cat),
            },
        ),
{
    let ghost rv = records_view(raw@);
    let mut acc: u64 = 0;
    let mut k: usize = 0;
    assert(rv.take(0) =~= Seq::<(Seq<char>, Category, u64)>::empty());
    while k < raw.len()
        invariant
            0 <= k <= raw@.len(),
            rv == records_view(raw@),
            acc == sat(
                match d {
                    Some(dd) => bytes_on(rv.take(k as int), dd@, cat),
                    None => bytes_for(rv.take(k as int), cat),
                },
            ),
        decreases raw@.len() - k,
    {
        let entry = &raw[k];
        let date_matches = match d {
            Some(dd) => {
                let ev = chars_of(entry.0.as_str());
                chars_same(&ev, dd)
            },
            None => true,
        };
        proof {
            assert(rv.take(k + 1).drop_last() =~= rv.take(k as int));
            assert(rv.take(k + 1).last() == rv[k as int]);
        }
        if date_matches && entry.1 == cat {
            acc = acc.saturating_add(entry.2);
        }
        k = k + 1;
    }
    assert(rv.take(raw@.len() as int) =~= rv);
    acc
}

/// Days to show: at least one, at most ninety.
pub open spec fn clamp_days(days: int) -> int {
    if days < 1 {
        1
    } else if days > 90 {
        90
    } else {
        days
    }
}

/// The calendar day before `(year, month, day)`.
pub open spec fn day_before(t: (int, int, int)) -> (int, int, int) {
    if t.2 > 1 {
        (t.0, t.1, t.2 - 1)
    } else if t.1 > 1 {
        (t.0, t.1 - 1, spec_days_in_month(t.0, t.1 - 1))
    } else {
        (t.0 - 1, 12, 31)
    }
}

/// The calendar date `k` days before `t`.
pub open spec fn days_back(t: (int, int, int), k: nat) -> (int, int, int)
    decreases k,
{
    if k == 0 {
        t
    } else {
        day_before(days_back(t, (k - 1) as nat))
    }
}

/// A date as the history writes it: `yyyy-MM-dd` (the first ten characters
/// of its stamp).
pub open spec fn date_key(t: (int, int, int)) -> Seq<char> {
    (zero_pad(t.0 as nat, 4) + seq!['-'] + zero_pad(t.1 as nat, 2) + seq!['-'] + zero_pad(
        t.2 as nat,
        2,
    )).take(10)
}

/// The row of one date.
pub open spec fn day_row(raw: Seq<(Seq<char>, Category, u64)>, d: Seq<char>) -> (Seq<char>, u64, u64) {
    (d, sat(bytes_on(raw, d, Category::Logs)), sat(bytes_on(raw, d, Category::Temp)))
}

pub open spec fn date_of(now: LocalTime) -> (int, int, int) {
    (now.year as int, now.month as int, now.day as int)
}

/// The last `clamp_days(days)` calendar days ending with the date of `now`,
/// oldest first, each with its saturating totals (zero where nothing is
/// recorded).
pub open spec fn daily_totals_view(
    raw: Seq<(Seq<char>, Category, u64)>,
    now: LocalTime,
    days: int,
) -> Seq<(Seq<char>, u64, u64)> {
    let n = clamp_days(days);
    Seq::new(n as nat, |i: int| day_row(raw, date_key(days_back(date_of(now), (n - 1 - i) as nat))))
}

pub open spec fn day_totals_view(t: DayTotals) -> (Seq<char>, u64, u64) {
    (t.date@, t.logs_bytes, t.temp_bytes)
}

pub open spec fn day_rows_view(v: Seq<DayTotals>) -> Seq<(Seq<char>, u64, u64)> {
    v.map_values(|t: DayTotals| day_totals_view(t))
}

/// A local time as the OS can report it: a real date in 1601..=30827.
pub open spec fn reportable_date(now: LocalTime) -> bool {
    &&& valid_date(now)
    &&& 1601 <= now.year <= 30827
}

/// Whether `now` is a date [`daily_totals`] can count back from.
pub fn is_reportable_date(now: LocalTime) -> (r: bool)
    ensures
        r == reportable_date(now),
{
    1 <= now.month && now.month <= 12 && 1 <= now.day && now.day <= crate::calendar::days_in_month(
        now.year,
        now.month,
    ) && 1601 <= now.year && now.year <= 30827
}

proof fn lemma_day_before_valid(t: (int, int, int))
    requires
        1 <= t.1 <= 12,
        1 <= t.2 <= spec_days_in_month(t.0, t.1),
    ensures
        1 <= day_before(t).1 <= 12,
        1 <= day_before(t).2 <= spec_days_in_month(day_before(t).0, day_before(t).1),
        day_before(t).0 == t.0 || day_before(t).0 == t.0 - 1,
{
}

proof fn lemma_days_back_valid(t: (int, int, int), k: nat)
    requires
        1 <= t.1 <= 12,
        1 <= t.2 <= spec_days_in_month(t.0, t.1),
    ensures
        1 <= days_back(t, k).1 <= 12,
        1 <= days_back(t, k).2 <= spec_days_in_month(days_back(t, k).0, days_back(t, k).1),
        t.0 - k <= days_back(t, k).0 <= t.0,
    decreases k,
{
    if k > 0 {
        lemma_days_back_valid(t, (k - 1) as nat);
        lemma_day_before_valid(days_back(t, (k - 1) as nat));
    }
}

/// The text of a date (see [`date_key`]).
fn date_text(y: u16, m: u16, d: u16) -> (r: Vec<char>)
    ensures
        r@ == date_key((y as int, m as int, d as int)),
{
    let mut s = String::new();
    crate::text::push_zero_padded(&mut s, y as u64, 4);
    push_char(&mut s, '-');
    crate::text::push_zero_padded(&mut s, m as u64, 2);
    push_char(&mut s, '-');
    crate::text::push_zero_padded(&mut s, d as u64, 2);
    let cs = chars_of(s.as_str());
    proof {
        crate::text::lemma_zero_pad_len(y as nat, 4);
        crate::text::lemma_zero_pad_len(m as nat, 2);
        crate::text::lemma_zero_pad_len(d as nat, 2);
        assert(cs@ =~= zero_pad(y as nat, 4) + seq!['-'] + zero_pad(m as nat, 2) + seq!['-']
            + zero_pad(d as nat, 2));
    }
    crate::text::slice_chars(&cs, 0, 10)
}

/// Aggregate by calendar day, newest last: the last `days` (1..=90)
/// calendar days ending with the date of `now`, each with its saturating
/// totals, zero where nothing is recorded.
pub fn daily_totals(raw: &[(String, Category, u64)], now: LocalTime, days: usize) -> (r: Vec<
    DayTotals,
>)
    requires
        reportable_date(now),
    ensures
        day_rows_view(r@) == daily_totals_view(records_view(raw@), now, days as int),
        r@.len() == clamp_days(days as int),
{
    let ghost rv = records_view(raw@);
    let n: usize = if days < 1 {
        1
    } else if days > 90 {
        90
    } else {
        days
    };
    let ghost want = daily_totals_view(rv, now, days as int);
    // The dates, newest first.
    let mut dates: Vec<(u16, u16, u16)> = Vec::new();
    let mut y: u16 = now.year;
    let mut m: u16 = now.month;
    let mut d: u16 = now.day;
    let mut k: usize = 0;
    while k < n
        invariant
            0 <= k <= n <= 90,
            reportable_date(now),
            dates@.len() == k,
            (y as int, m as int, d as int) == days_back(date_of(now), k as nat),
            forall|j: int|
                0 <= j < k ==> (#[trigger] dates@[j].0 as int, dates@[j].1 as int, dates@[j].2 as int)
                    == days_back(date_of(now), j as nat),
        decreases n - k,
    {
        proof {
            lemma_days_back_valid(date_of(now), k as nat);
        }
        dates.push((y, m, d));
        if d > 1 {
            d = d - 1;
        } else if m > 1 {
            m = m - 1;
            d = crate::calendar::days_in_month(y, m);
        } else {
            y = y - 1;
            m = 12;
            d = 31;
        }
        k = k + 1;
    }
    let mut out: Vec<DayTotals> = Vec::new();
    let mut i: usize = 0;
    while i < n
        invariant
            0 <= i <= n <= 90,
            n == clamp_days(days as int),
            dates@.len() == n,
            rv == records_view(raw@),
            want == daily_totals_view(rv, now, days as int),
            forall|j: int|
                0 <= j < n ==> (#[trigger] dates@[j].0 as int, dates@[j].1 as int, dates@[j].2 as int)
                    == days_back(date_of(now), j as nat),
            day_rows_view(out@) == want.take(i as int),
        decreases n - i,
    {
        let (y, m, d) = dates[n - 1 - i];
        let key = date_text(y, m, d);
        let logs = sum_bytes(raw, Some(key.as_slice()), Category::Logs);
        let temp = sum_bytes(raw, Some(key.as_slice()), Category::Temp);
        let date = string_from_chars(&key);
        let ghost prev = day_rows_view(out@);
        out.push(DayTotals { date, logs_bytes: logs, temp_bytes: temp });
        proof {
            let j = n - 1 - i;
            assert(dates@[j] == (y, m, d));
            assert(want[i as int] == day_row(rv, date_key(days_back(date_of(now), j as nat))));
            assert(day_rows_view(out@) =~= prev.push(day_row(rv, key@)));
            assert(want.take(i + 1) =~= want.take(i as int).push(want[i as int]));
        }
        i = i + 1;
    }
    assert(want.take(n as int) =~= want);
    out
}

/// Sums of all recorded frees, (logs, temp), saturating.
pub fn lifetime_totals(raw: &[(String, Category, u64)]) -> (r: (u64, u64))
    ensures
        r == (sat(bytes_for(records_view(raw@), Category::Logs)), sat(
            bytes_for(records_view(raw@), Category::Temp),
        )),
{
    (sum_bytes(raw, None, Category::Logs), sum_bytes(raw, None, Category::Temp))
}

/// Today's totals (logs, temp): the saturating sums recorded for the date of
/// `now`, zeros if nothing is recorded for it.
pub fn today_totals(raw: &[(String, Category, u64)], now: LocalTime) -> (r: DayTotals)
    ensures
        day_totals_view(r) == day_row(records_view(raw@), today_view(now)),
{
    let date = today(now);
    let key = chars_of(date.as_str());
    let logs = sum_bytes(raw, Some(key.as_slice()), Category::Logs);
    let temp = sum_bytes(raw, Some(key.as_slice()), Category::Temp);
    DayTotals { date, logs_bytes: logs, temp_bytes: temp }
}

/// The date a record of `now` carries is the date key of `now`'s date.
pub proof fn lemma_today_is_date_key(now: LocalTime)
    ensures
        today_view(now) == date_key(date_of(now)),
{
    let head = zero_pad(now.year as nat, 4) + seq!['-'] + zero_pad(now.month as nat, 2) + seq!['-']
        + zero_pad(now.day as nat, 2);
    crate::text::lemma_zero_pad_len(now.year as nat, 4);
    crate::text::lemma_zero_pad_len(now.month as nat, 2);
    crate::text::lemma_zero_pad_len(now.day as nat, 2);
    let st = stamp_view(now);
    assert(st =~= head + (seq![' '] + zero_pad(now.hour as nat, 2) + seq![':'] + zero_pad(
        now.minute as nat,
        2,
    ) + seq![':'] + zero_pad(now.second as nat, 2)));
    assert(st.take(10) =~= head.take(10));
}

/// Today's totals are the newest row of the daily totals, however many days
/// are asked for: the window ends today, and records dated later change
/// neither.
pub proof fn lemma_today_totals_are_todays(raw: Seq<(Seq<char>, Category, u64)>, now: LocalTime, days: int)
    ensures
        daily_totals_view(raw, now, days).last() == day_row(raw, today_view(now)),
        daily_totals_view(raw, now, days).len() == clamp_days(days),
{
    lemma_today_is_date_key(now);
    let n = clamp_days(days);
    assert(days_back(date_of(now), 0) == date_of(now));
    assert(daily_totals_view(raw, now, days)[n - 1] == day_row(raw, date_key(days_back(date_of(now), 0))));
}

/// One history line: `date|category|bytes` and a newline.
pub open spec fn history_line_view(date: Seq<char>, cat: Category, bytes: u64) -> Seq<char> {
    date + seq!['|'] + category_name(cat) + seq!['|'] + dec(bytes as nat) + seq!['\n']
}

/// The calendar date of `now`: the first ten characters of its stamp.
pub open spec fn today_view(now: LocalTime) -> Seq<char> {
    stamp_view(now).take(10)
}

/// How many bytes a clear records: the measured amount, else a small estimate
/// of 512 bytes per removed item (so clears of unknown size still show), else
/// nothing.
pub open spec fn recorded_bytes(freed_bytes: u64, removed_items: u64) -> Option<u64> {
    if freed_bytes > 0 {
        Some(freed_bytes)
    } else if removed_items > 0 {
        Some(sat(removed_items as nat * 512))
    } else {
        None
    }
}

/// The date part of a local stamp (`yyyy-MM-dd`).
pub fn today(now: LocalTime) -> (r: String)
    ensures
        r@ == today_view(now),
{
    let stamp = local_stamp(now);
    let cs = chars_of(stamp.as_str());
    proof {
        crate::text::lemma_zero_pad_len(now.year as nat, 4);
    }
    let cut = crate::text::slice_chars(&cs, 0, 10);
    string_from_chars(&cut)
}

/// The history line a clear appends, if it records anything (`None`: nothing freed).
pub fn record_clear(category: Category, freed_bytes: u64, removed_items: u64, now: LocalTime) -> (r:
    Option<String>)
    ensures
        match recorded_bytes(freed_bytes, removed_items) {
            None => r is None,
            Some(b) => r is Some && r.unwrap()@ == history_line_view(today_view(now), category, b),
        },
{
    let bytes = if freed_bytes > 0 {
        freed_bytes
    } else if removed_items > 0 {
        let b = match removed_items.checked_mul(512) {
            Some(v) => v,
            None => u64::MAX,
        };
        if b < 1 {
            1
        } else {
            b
        }
    } else {
        return None;
    };
    let mut line = today(now);
    push_char(&mut line, '|');
    push_str(&mut line, category.as_str());
    push_char(&mut line, '|');
    push_dec(&mut line, bytes);
    push_char(&mut line, '\n');
    assert(line@ =~= history_line_view(today_view(now), category, bytes));
    Some(line)
}

/// The history line a freed-bytes event appends, if any.
pub fn record(category: Category, freed_bytes: u64, now: LocalTime) -> (r: Option<String>)
    ensures
        match recorded_bytes(freed_bytes, 0) {
            None => r is None,
            Some(b) => r is Some && r.unwrap()@ == history_line_view(today_view(now), category, b),
        },
{
    record_clear(category, freed_bytes, 0, now)
}

/// Size with a unit for the dashboard: bytes below 1 KiB, then KB with one
/// decimal, MB with two, GB with three (GB from `bytes as f64`).
pub open spec fn format_size_view(bytes: nat) -> Seq<char> {
    if bytes >= 1073741824 {
        fixed_point(f64_round(bytes), 1073741824, 3) + " GB"@
    } else if bytes >= 1048576 {
        fixed_point(bytes, 1048576, 2) + " MB"@
    } else if bytes >= 1024 {
        fixed_point(bytes, 1024, 1) + " KB"@
    } else {
        dec(bytes) + " B"@
    }
}

/// Format bytes with an appropriate unit (B / KB / MB / GB).
/// Small clears show as KB/MB instead of `0.00 GB`.
pub fn format_size(bytes: u64) -> (r: String)
    ensures
        r@ == format_size_view(bytes as nat),
{
    let mut s = String::new();
    if bytes >= 1073741824 {
        let b = f64_round_u64(bytes);
        push_fixed_point(&mut s, b, 1073741824, 3);
        push_str(&mut s, " GB");
    } else if bytes >= 1048576 {
        push_fixed_point(&mut s, bytes as u128, 1048576, 2);
        push_str(&mut s, " MB");
    } else if bytes >= 1024 {
        push_fixed_point(&mut s, bytes as u128, 1024, 1);
        push_str(&mut s, " KB");
    } else {
        push_dec(&mut s, bytes);
        push_str(&mut s, " B");
    }
    assert(s@ =~= format_size_view(bytes as nat));
    s
}

/// Same as [`format_size`] (older name).
pub fn format_gib(bytes: u64) -> (r: String)
    ensures
        r@ == format_size_view(bytes as nat),
{
    format_size(bytes)
}


/// A calendar date as history lines hold it: ten characters, each a digit
/// or `-` (a `yyyy-MM-dd` date is one).
pub open spec fn plain_date(d: Seq<char>) -> bool {
    &&& d.len() == 10
    &&& forall|i: int| 0 <= i < d.len() ==> is_digit(#[trigger] d[i]) || d[i] == '-'
}

proof fn lemma_split_first(x: Seq<char>, y: Seq<char>, c: char)
    requires
        forall|i: int| 0 <= i < x.len() ==> x[i] != c,
    ensures
        split_on(x + seq![c] + y, c) == seq![x] + split_on(y, c),
{
    let s = x + seq![c] + y;
    let w = x.len() as int;
    assert(is_first_of(s, w, c));
    let k = choose|i: int| is_first_of(s, i, c);
    lemma_first_of_unique(s, c, w, k);
    assert(s.take(w) =~= x);
    assert(s.skip(w + 1) =~= y);
}

proof fn lemma_split_none(y: Seq<char>, c: char)
    requires
        forall|i: int| 0 <= i < y.len() ==> y[i] != c,
    ensures
        split_on(y, c) == seq![y],
{
    assert(!exists|i: int| is_first_of(y, i, c));
}

proof fn lemma_ascii_utf8_len(s: Seq<char>)
    requires
        forall|i: int| 0 <= i < s.len() ==> (#[trigger] s[i] as u32) < 0x80,
    ensures
        utf8_len(s) == s.len(),
    decreases s.len(),
{
    if s.len() > 0 {
        assert(forall|i: int| 0 <= i < s.drop_last().len() ==> s.drop_last()[i] == s[i]);
        lemma_ascii_utf8_len(s.drop_last());
        assert((s[s.len() - 1] as u32) < 0x80);
    }
}

/// A ten-character ASCII date is read back whole.
proof fn lemma_plain_date_read(d: Seq<char>)
    requires
        plain_date(d),
    ensures
        trim(d) == d,
        utf8_len(d) == 10,
        cuts_at_ten(d),
        first_ten_bytes(d) == d,
{
    assert forall|i: int| 0 <= i < d.len() implies (#[trigger] d[i] as u32) < 0x80 by {
        assert(is_digit(d[i]) || d[i] == '-');
    }
    assert(is_digit(d[0]) || d[0] == '-');
    assert(is_digit(d[9]) || d[9] == '-');
    crate::text::lemma_trim_noop(d);
    lemma_ascii_utf8_len(d);
    assert(d.take(10) =~= d);
    assert(cuts_at_ten(d));
    let k = choose|k: int| 0 <= k <= d.len() && utf8_len(d.take(k)) == 10;
    assert forall|i: int| 0 <= i < d.take(k).len() implies (#[trigger] d.take(k)[i] as u32)
        < 0x80 by {
        assert(d.take(k)[i] == d[i]);
        assert(is_digit(d[i]) || d[i] == '-');
    }
    lemma_ascii_utf8_len(d.take(k));
}

/// Each category's name reads back as it.
pub proof fn lemma_category_name_round_trip(c: Category)
    ensures
        parse_category(category_name(c)) == Some(c),
{
    reveal_strlit("logs");
    reveal_strlit("log");
    reveal_strlit("temp");
    reveal_strlit("temps");
    let s = category_name(c);
    assert(crate::text::trim_start(s) == s);
    assert(crate::text::trim_end(s) == s);
    assert(crate::text::ascii_lower(s) =~= s);
}

pub proof fn lemma_dec_reads_back(b: u64)
    ensures
        parse_u64_text(trim(dec(b as nat))) == Some(b),
{
    let d = dec(b as nat);
    crate::text::lemma_dec_digits(b as nat);
    crate::text::lemma_digits_value_dec(b as nat);
    assert(is_digit(d[0]));
    assert(is_digit(d.last()));
    crate::text::lemma_trim_noop(d);
    assert(unsigned_part(d) == d);
}

/// The body of one history line (without its newline).
pub open spec fn history_body(date: Seq<char>, cat: Category, bytes: u64) -> Seq<char> {
    date + seq!['|'] + category_name(cat) + seq!['|'] + dec(bytes as nat)
}

proof fn lemma_body_chars(date: Seq<char>, cat: Category, bytes: u64)
    requires
        plain_date(date),
    ensures
        forall|i: int|
            0 <= i < history_body(date, cat, bytes).len() ==> #[trigger] history_body(
                date,
                cat,
                bytes,
            )[i] != '\n',
        history_body(date, cat, bytes).len() > 0,
        is_digit(history_body(date, cat, bytes).last()),
{
    reveal_strlit("logs");
    reveal_strlit("temp");
    crate::text::lemma_dec_digits(bytes as nat);
    let body = history_body(date, cat, bytes);
    let n = category_name(cat);
    let d = dec(bytes as nat);
    assert forall|i: int| 0 <= i < body.len() implies #[trigger] body[i] != '\n' by {
        if i < 10 {
            assert(body[i] == date[i]);
            assert(is_digit(date[i]) || date[i] == '-');
        } else if i == 10 {
        } else if i < 11 + n.len() {
            assert(body[i] == n[i - 11]);
        } else if i == 11 + n.len() {
        } else {
            assert(body[i] == d[i - 12 - n.len()]);
            assert(is_digit(d[i - 12 - n.len()]));
        }
    }
    assert(body.last() == d.last());
}

/// A history line reads back as the record it was written from.
proof fn lemma_history_line_reads_back(date: Seq<char>, cat: Category, bytes: u64)
    requires
        plain_date(date),
    ensures
        parse_history_line(history_body(date, cat, bytes)) == Some((date, cat, bytes)),
        history_line_readable(history_body(date, cat, bytes)),
{
    reveal_strlit("logs");
    reveal_strlit("temp");
    let n = category_name(cat);
    let d = dec(bytes as nat);
    crate::text::lemma_dec_digits(bytes as nat);
    assert forall|i: int| 0 <= i < date.len() implies date[i] != '|' by {
        assert(is_digit(date[i]) || date[i] == '-');
    }
    assert forall|i: int| 0 <= i < n.len() implies n[i] != '|' by {
    }
    assert forall|i: int| 0 <= i < d.len() implies d[i] != '|' by {
        assert(is_digit(d[i]));
    }
    lemma_split_none(d, '|');
    lemma_split_first(n, d, '|');
    assert(n + seq!['|'] + d == n + seq!['|'] + d);
    let body = history_body(date, cat, bytes);
    assert(body =~= date + seq!['|'] + (n + seq!['|'] + d));
    lemma_split_first(date, n + seq!['|'] + d, '|');
    let parts = split_on(body, '|');
    assert(parts =~= seq![date, n, d]);
    lemma_plain_date_read(date);
    lemma_category_name_round_trip(cat);
    lemma_dec_reads_back(bytes);
}

/// What a record appends reads back: appended to a history text that is
/// empty or ends a line, the line of a record (a plain date, a category and
/// a byte count) adds exactly that record to what the text reads as, and
/// keeps a readable text readable.
pub proof fn lemma_history_read_back(text: Seq<char>, date: Seq<char>, cat: Category, bytes: u64)
    requires
        text.len() == 0 || text.last() == '\n',
        plain_date(date),
    ensures
        parse_history_view(text + history_line_view(date, cat, bytes)) == parse_history_view(
            text,
        ).push((date, cat, bytes)),
        history_readable(text) ==> history_readable(text + history_line_view(date, cat, bytes)),
{
    let body = history_body(date, cat, bytes);
    let line = history_line_view(date, cat, bytes);
    assert(line =~= body.push('\n'));
    lemma_body_chars(date, cat, bytes);
    assert(body.last() != '\r') by {
        assert(is_digit(body.last()));
    }
    crate::text::lemma_lines_single(body);
    crate::text::lemma_lines_append(text, line);
    let ls = lines(text + line);
    assert(ls == lines(text) + seq![body]);
    assert(ls.drop_last() =~= lines(text));
    assert(ls.last() == body);
    lemma_history_line_reads_back(date, cat, bytes);
    assert(parse_history_lines(ls) == parse_history_lines(lines(text)) + seq![(date, cat, bytes)]);
    assert(parse_history_lines(lines(text)) + seq![(date, cat, bytes)] =~= parse_history_view(
        text,
    ).push((date, cat, bytes)));
    if history_readable(text) {
        assert forall|i: int| 0 <= i < ls.len() implies history_line_readable(#[trigger] ls[i]) by {
            if i < lines(text).len() {
                assert(ls[i] == lines(text)[i]);
            } else {
                assert(ls[i] == body);
            }
        }
    }
}

/// Today's date, as a record stamps it, is a plain date.
pub proof fn lemma_today_is_plain_date(now: LocalTime)
    ensures
        plain_date(today_view(now)),
{
    let y = zero_pad(now.year as nat, 4);
    let m = zero_pad(now.month as nat, 2);
    let dd = zero_pad(now.day as nat, 2);
    crate::text::lemma_zero_pad_len(now.year as nat, 4);
    crate::text::lemma_zero_pad_len(now.month as nat, 2);
    crate::text::lemma_zero_pad_len(now.day as nat, 2);
    crate::text::lemma_zero_pad_digits(now.year as nat, 4);
    crate::text::lemma_zero_pad_digits(now.month as nat, 2);
    crate::text::lemma_zero_pad_digits(now.day as nat, 2);
    let st = stamp_view(now);
    let head = y + seq!['-'] + m + seq!['-'] + dd;
    assert(st =~= head + (seq![' '] + zero_pad(now.hour as nat, 2) + seq![':'] + zero_pad(
        now.minute as nat,
        2,
    ) + seq![':'] + zero_pad(now.second as nat, 2)));
    assert(head.len() >= 10);
    let t = today_view(now);
    assert(t =~= head.take(10));
    assert forall|i: int| 0 <= i < t.len() implies is_digit(#[trigger] t[i]) || t[i] == '-' by {
        assert(t[i] == head[i]);
        if i < y.len() {
            assert(head[i] == y[i]);
        } else if i == y.len() {
        } else if i < y.len() + 1 + m.len() {
            assert(head[i] == m[i - y.len() - 1]);
        } else if i == y.len() + 1 + m.len() {
        } else {
            assert(head[i] == dd[i - y.len() - 2 - m.len()]);
        }
    }
}

} // verus!
