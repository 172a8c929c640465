//! Character-level text helpers shared by the report and parser code.
//!
//! Strings are specified by their view, a `Seq<char>`. Decimal output is
//! specified by [`dec`], whitespace by [`is_white_space`] (the Unicode
//! `White_Space` property, which is what `str::trim` removes).

use vstd::prelude::*;

verus! {

/// Appends `c` (std `String::push`).
#[verifier::external_body]
pub(crate) fn push_char(s: &mut String, c: char)
    ensures
        final(s)@ == old(s)@.push(c),
{
    s.push(c)
}

/// The ASCII digit for `d` (0..=9).
pub open spec fn digit_char(d: int) -> char {
    if d == 0 {
        '0'
    } else if d == 1 {
        '1'
    } else if d == 2 {
        '2'
    } else if d == 3 {
        '3'
    } else if d == 4 {
        '4'
    } else if d == 5 {
        '5'
    } else if d == 6 {
        '6'
    } else if d == 7 {
        '7'
    } else if d == 8 {
        '8'
    } else {
        '9'
    }
}

/// Decimal representation of `n` without leading zeros.
pub open spec fn dec(n: nat) -> Seq<char>
    decreases n,
{
    if n < 10 {
        seq![digit_char(n as int)]
    } else {
        dec(n / 10).push(digit_char((n % 10) as int))
    }
}

/// `n` in decimal, left-padded with zeros to at least `width` characters.
pub open spec fn zero_pad(n: nat, width: nat) -> Seq<char> {
    if dec(n).len() < width {
        Seq::new((width - dec(n).len()) as nat, |i: int| '0') + dec(n)
    } else {
        dec(n)
    }
}

pub fn digit(d: u64) -> (c: char)
    requires
        d < 10,
    ensures
        c == digit_char(d as int),
{
    match d {
        0 => '0',
        1 => '1',
        2 => '2',
        3 => '3',
        4 => '4',
        5 => '5',
        6 => '6',
        7 => '7',
        8 => '8',
        _ => '9',
    }
}

/// Appends `n` in decimal.
pub fn push_dec(s: &mut String, n: u64)
    ensures
        final(s)@ == old(s)@ + dec(n as nat),
    decreases n,
{
    if n >= 10 {
        push_dec(s, n / 10);
    }
    push_char(s, digit(n % 10));
    proof {
        if n < 10 {
            assert(dec(n as nat) == seq![digit_char(n as int)]);
        }
    }
}

pub open spec fn pow10(k: nat) -> nat
    decreases k,
{
    if k == 0 {
        1
    } else {
        10 * pow10((k - 1) as nat)
    }
}

/// Numbers below `10^k` have at most `k` digits.
pub proof fn lemma_dec_len_bound(n: nat, k: nat)
    requires
        n < pow10(k),
        k >= 1,
    ensures
        dec(n).len() <= k,
    decreases k,
{
    if n >= 10 {
        assert(k >= 2) by {
            if k == 1 {
                reveal_with_fuel(pow10, 2);
            }
        }
        lemma_dec_len_bound(n / 10, (k - 1) as nat);
    }
}

/// Number of decimal digits of `n`.
pub fn dec_len(n: u64) -> (r: usize)
    ensures
        r == dec(n as nat).len(),
    decreases n,
{
    if n >= 10 {
        proof {
            reveal_with_fuel(pow10, 20);
            assert(pow10(19) == 10000000000000000000);
            lemma_dec_len_bound((n / 10) as nat, 19);
        }
        dec_len(n / 10) + 1
    } else {
        1
    }
}

/// Appends `n` in decimal, zero-padded to `width` characters.
pub fn push_zero_padded(s: &mut String, n: u64, width: usize)
    ensures
        final(s)@ == old(s)@ + zero_pad(n as nat, width as nat),
{
    let len = dec_len(n);
    let ghost start = s@;
    if len < width {
        let mut k: usize = len;
        while k < width
            invariant
                len <= k <= width,
                s@ == start + Seq::new((k - len) as nat, |i: int| '0'),
            decreases width - k,
        {
            push_char(s, '0');
            k = k + 1;
            assert(s@ =~= start + Seq::new((k - len) as nat, |i: int| '0'));
        }
    }
    let ghost mid = s@;
    push_dec(s, n);
    assert(s@ =~= start + zero_pad(n as nat, width as nat));
}

/// Appends every character of `t`.
pub fn push_str(s: &mut String, t: &str)
    ensures
        final(s)@ == old(s)@ + t@,
{
    s.append(t);
}

/// A fresh string holding `t`.
pub fn string_of(t: &str) -> (r: String)
    ensures
        r@ == t@,
{
    let mut r = String::new();
    push_str(&mut r, t);
    assert(r@ =~= t@);
    r
}

/// The characters of `t` as a vector.
pub fn chars_of(t: &str) -> (v: Vec<char>)
    ensures
        v@ == t@,
{
    broadcast use vstd::string::group_string_axioms;

    let mut v: Vec<char> = Vec::new();
    for c in it: t.chars()
        invariant
            v@ == it.seq().take(it.index() as int),
            it.seq() == t@,
    {
        v.push(c);
    }
    assert(v@ =~= t@);
    v
}

/// A fresh string holding the characters `cs`.
pub fn string_from_chars(cs: &[char]) -> (r: String)
    ensures
        r@ == cs@,
{
    let mut r = String::new();
    let mut i: usize = 0;
    while i < cs.len()
        invariant
            0 <= i <= cs@.len(),
            r@ == cs@.take(i as int),
        decreases cs@.len() - i,
    {
        push_char(&mut r, cs[i]);
        i = i + 1;
        assert(r@ =~= cs@.take(i as int));
    }
    assert(cs@.take(cs@.len() as int) =~= cs@);
    r
}

/// The Unicode `White_Space` property (what `char::is_whitespace` tests).
pub open spec fn is_white_space(c: char) -> bool {
    let u = c as u32;
    ||| 9 <= u <= 13
    ||| u == 32
    ||| u == 0x85
    ||| u == 0xA0
    ||| u == 0x1680
    ||| 0x2000 <= u <= 0x200A
    ||| u == 0x2028
    ||| u == 0x2029
    ||| u == 0x202F
    ||| u == 0x205F
    ||| u == 0x3000
}

/// `s` without leading white space.
pub open spec fn trim_start(s: Seq<char>) -> Seq<char>
    decreases s.len(),
{
    if s.len() > 0 && is_white_space(s[0]) {
        trim_start(s.drop_first())
    } else {
        s
    }
}

/// `s` without trailing white space.
pub open spec fn trim_end(s: Seq<char>) -> Seq<char>
    decreases s.len(),
{
    if s.len() > 0 && is_white_space(s.last()) {
        trim_end(s.drop_last())
    } else {
        s
    }
}

/// `s` without leading and trailing white space (`str::trim`).
pub open spec fn trim(s: Seq<char>) -> Seq<char> {
    trim_end(trim_start(s))
}

/// ASCII lower-casing of one character.
pub open spec fn ascii_lower_char(c: char) -> char {
    if 'A' <= c <= 'Z' {
        ((c as u32) + 32) as char
    } else {
        c
    }
}

/// `str::to_ascii_lowercase`.
pub open spec fn ascii_lower(s: Seq<char>) -> Seq<char> {
    s.map_values(|c: char| ascii_lower_char(c))
}

pub fn is_whitespace_char(c: char) -> (r: bool)
    ensures
        r == is_white_space(c),
{
    let u = c as u32;
    (9 <= u && u <= 13) || u == 32 || u == 0x85 || u == 0xA0 || u == 0x1680 || (0x2000 <= u && u
        <= 0x200A) || u == 0x2028 || u == 0x2029 || u == 0x202F || u == 0x205F || u == 0x3000
}

pub fn lower_char(c: char) -> (r: char)
    ensures
        r == ascii_lower_char(c),
{
    if 'A' <= c && c <= 'Z' {
        let b = (c as u8) + 32;
        let r = b as char;
        assert(r == ((c as u32) + 32) as char);
        r
    } else {
        c
    }
}

proof fn lemma_trim_start_skip(s: Seq<char>, i: int)
    requires
        0 <= i < s.len(),
        is_white_space(s[i]),
    ensures
        trim_start(s.subrange(i, s.len() as int)) == trim_start(s.subrange(i + 1, s.len() as int)),
{
    assert(s.subrange(i, s.len() as int).drop_first() =~= s.subrange(i + 1, s.len() as int));
}

proof fn lemma_trim_end_skip(s: Seq<char>, j: int)
    requires
        0 < j <= s.len(),
        is_white_space(s[j - 1]),
    ensures
        trim_end(s.subrange(0, j)) == trim_end(s.subrange(0, j - 1)),
{
    assert(s.subrange(0, j).drop_last() =~= s.subrange(0, j - 1));
}

/// The characters of `s` with leading and trailing white space removed.
pub fn trim_chars(s: &[char]) -> (r: Vec<char>)
    ensures
        r@ == trim(s@),
{
    let n = s.len();
    let mut i: usize = 0;
    assert(s@.subrange(0, n as int) =~= s@);
    while i < n && is_whitespace_char(s[i])
        invariant
            0 <= i <= n,
            n == s@.len(),
            trim_start(s@) == trim_start(s@.subrange(i as int, n as int)),
        decreases n - i,
    {
        proof {
            lemma_trim_start_skip(s@, i as int);
        }
        i = i + 1;
    }
    let ghost mid = s@.subrange(i as int, n as int);
    assert(trim_start(s@) == mid) by {
        if mid.len() > 0 {
            assert(mid[0] == s@[i as int]);
        }
    }
    let mut j: usize = n;
    assert(mid.subrange(0, (n - i) as int) =~= mid);
    while j > i && is_whitespace_char(s[j - 1])
        invariant
            i <= j <= n,
            n == s@.len(),
            mid == s@.subrange(i as int, n as int),
            trim_end(mid) == trim_end(mid.subrange(0, (j - i) as int)),
        decreases j - i,
    {
        proof {
            lemma_trim_end_skip(mid, (j - i) as int);
        }
        j = j - 1;
    }
    let mut r: Vec<char> = Vec::new();
    let mut k: usize = i;
    while k < j
        invariant
            i <= k <= j <= n,
            n == s@.len(),
            r@ == s@.subrange(i as int, k as int),
        decreases j - k,
    {
        r.push(s[k]);
        k = k + 1;
        assert(r@ =~= s@.subrange(i as int, k as int));
    }
    proof {
        let fin = mid.subrange(0, (j - i) as int);
        assert(fin =~= r@);
        if fin.len() > 0 {
            assert(fin.last() == s@[j - 1]);
        }
    }
    r
}

/// `s` with ASCII upper-case letters lowered.
pub fn lower_chars(s: &[char]) -> (r: Vec<char>)
    ensures
        r@ == ascii_lower(s@),
{
    let mut r: Vec<char> = Vec::new();
    let mut k: usize = 0;
    while k < s.len()
        invariant
            0 <= k <= s@.len(),
            r@ == ascii_lower(s@.subrange(0, k as int)),
        decreases s@.len() - k,
    {
        r.push(lower_char(s[k]));
        k = k + 1;
        assert(r@ =~= ascii_lower(s@.subrange(0, k as int)));
    }
    assert(s@.subrange(0, s@.len() as int) =~= s@);
    r
}

/// Whether the characters `a` spell exactly `b`.
pub fn chars_eq(a: &[char], b: &str) -> (r: bool)
    ensures
        r == (a@ == b@),
{
    let bv = chars_of(b);
    if a.len() != bv.len() {
        return false;
    }
    let mut k: usize = 0;
    while k < a.len()
        invariant
            0 <= k <= a@.len(),
            a@.len() == bv@.len(),
            bv@ == b@,
            forall|i: int| 0 <= i < k ==> a@[i] == bv@[i],
        decreases a@.len() - k,
    {
        if a[k] != bv[k] {
            return false;
        }
        k = k + 1;
    }
    assert(a@ =~= bv@);
    true
}

/// `s` trimmed and ASCII-lowered: the normal form of user-typed ids.
pub open spec fn normalize_id(s: Seq<char>) -> Seq<char> {
    ascii_lower(trim(s))
}

pub fn normalize_id_chars(s: &str) -> (r: Vec<char>)
    ensures
        r@ == normalize_id(s@),
{
    let cs = chars_of(s);
    let t = trim_chars(&cs);
    lower_chars(&t)
}

/// `parts` joined with `sep` between consecutive parts (`[T]::join`).
pub open spec fn join(parts: Seq<Seq<char>>, sep: Seq<char>) -> Seq<char>
    decreases parts.len(),
{
    if parts.len() == 0 {
        Seq::empty()
    } else if parts.len() == 1 {
        parts[0]
    } else {
        join(parts.drop_last(), sep) + sep + parts.last()
    }
}

/// The views of a list of string slices.
pub open spec fn str_views(parts: Seq<&str>) -> Seq<Seq<char>> {
    parts.map_values(|p: &str| p@)
}

/// Appends `parts` joined with `sep`.
pub fn push_joined(s: &mut String, parts: &Vec<&str>, sep: &str)
    ensures
        final(s)@ == old(s)@ + join(str_views(parts@), sep@),
{
    let ghost start = s@;
    let ghost views = str_views(parts@);
    let mut i: usize = 0;
    assert(views.take(0) =~= Seq::<Seq<char>>::empty());
    while i < parts.len()
        invariant
            0 <= i <= parts@.len(),
            views == str_views(parts@),
            views.len() == parts@.len(),
            s@ == start + join(views.take(i as int), sep@),
        decreases parts@.len() - i,
    {
        if i != 0 {
            push_str(s, sep);
        }
        push_str(s, parts[i]);
        proof {
            let next = views.take(i + 1);
            assert(next.drop_last() =~= views.take(i as int));
            assert(next.last() == parts@[i as int]@);
            if i == 0 {
                assert(join(next, sep@) == next[0]);
            }
        }
        i = i + 1;
        assert(s@ =~= start + join(views.take(i as int), sep@));
    }
    assert(views.take(parts@.len() as int) =~= views);
}

/// `num / den` rounded to the nearest integer, ties to even.
pub open spec fn round_half_even(num: int, den: int) -> int {
    let q = num / den;
    let r = num % den;
    if 2 * r > den || (2 * r == den && q % 2 == 1) {
        q + 1
    } else {
        q
    }
}

/// `num / den` printed with exactly `prec` decimals, rounded half to even
/// (the `{:.prec}` rendering of the exact quotient).
pub open spec fn fixed_point(num: nat, den: nat, prec: nat) -> Seq<char> {
    let scaled = round_half_even((num * pow10(prec)) as int, den as int);
    dec((scaled / pow10(prec) as int) as nat) + seq!['.'] + zero_pad(
        (scaled % pow10(prec) as int) as nat,
        prec,
    )
}

/// Spacing of doubles around `n` (for `n < 2^64`): 1 below 2^53, doubling per binade.
pub open spec fn f64_ulp(n: nat) -> nat {
    if n < 0x20000000000000 {
        1
    } else if n < 0x40000000000000 {
        2
    } else if n < 0x80000000000000 {
        4
    } else if n < 0x100000000000000 {
        8
    } else if n < 0x200000000000000 {
        16
    } else if n < 0x400000000000000 {
        32
    } else if n < 0x800000000000000 {
        64
    } else if n < 0x1000000000000000 {
        128
    } else if n < 0x2000000000000000 {
        256
    } else if n < 0x4000000000000000 {
        512
    } else if n < 0x8000000000000000 {
        1024
    } else {
        2048
    }
}

/// The double nearest to the integer `n` (ties to even), i.e. `n as f64`.
pub open spec fn f64_round(n: nat) -> nat {
    (f64_ulp(n) * round_half_even(n as int, f64_ulp(n) as int)) as nat
}

pub fn round_half_even_u128(num: u128, den: u128) -> (r: u128)
    requires
        den > 0,
        den <= 0x1_0000_0000_0000_0000_0000,
        num <= 0x1_0000_0000_0000_0000_0000,
    ensures
        r == round_half_even(num as int, den as int),
        r <= num / den + 1,
{
    let q = num / den;
    proof {
        vstd::arithmetic::div_mod::lemma_div_is_ordered_by_denominator(num as int, 1, den as int);
    }
    let rem = num % den;
    if rem * 2 > den || (rem * 2 == den && q % 2 == 1) {
        q + 1
    } else {
        q
    }
}

/// `n as f64`, as an exact integer.
pub fn f64_round_u64(n: u64) -> (r: u128)
    ensures
        r == f64_round(n as nat),
        r <= 0x1_0000_0000_0000_0000,
{
    let u: u128 = if n < 0x20000000000000 {
        1
    } else if n < 0x40000000000000 {
        2
    } else if n < 0x80000000000000 {
        4
    } else if n < 0x100000000000000 {
        8
    } else if n < 0x200000000000000 {
        16
    } else if n < 0x400000000000000 {
        32
    } else if n < 0x800000000000000 {
        64
    } else if n < 0x1000000000000000 {
        128
    } else if n < 0x2000000000000000 {
        256
    } else if n < 0x4000000000000000 {
        512
    } else if n < 0x8000000000000000 {
        1024
    } else {
        2048
    };
    let k = round_half_even_u128(n as u128, u);
    proof {
        vstd::arithmetic::div_mod::lemma_fundamental_div_mod(n as int, u as int);
        assert(u * k <= u * ((n as int) / (u as int)) + u) by (nonlinear_arith)
            requires
                k <= (n as int) / (u as int) + 1,
                u > 0,
        ;
        assert(u * (n as int / u as int) <= n as int) by {
            assert(n as int % u as int >= 0);
        }
        if n < 0x8000000000000000 {
            assert(u <= 1024);
        }
    }
    u * k
}

/// Appends `num / den` with `prec` (1..=3) decimals, rounded half to even.
pub fn push_fixed_point(s: &mut String, num: u128, den: u128, prec: u32)
    requires
        1 <= prec <= 3,
        1000 <= den <= 0x1_0000_0000_0000_0000_0000,
        num <= 0x2_0000_0000_0000_0000,
    ensures
        final(s)@ == old(s)@ + fixed_point(num as nat, den as nat, prec as nat),
{
    let p: u128 = if prec == 1 {
        10
    } else if prec == 2 {
        100
    } else {
        1000
    };
    proof {
        reveal_with_fuel(pow10, 4);
    }
    assert(p == pow10(prec as nat));
    assert(num * p <= 0x2_0000_0000_0000_0000 * 1000) by (nonlinear_arith)
        requires
            num <= 0x2_0000_0000_0000_0000,
            p <= 1000,
    ;
    let scaled = round_half_even_u128(num * p, den);
    proof {
        vstd::arithmetic::div_mod::lemma_div_is_ordered_by_denominator(
            (num * p) as int,
            p as int,
            den as int,
        );
        vstd::arithmetic::div_mod::lemma_div_multiples_vanish(num as int, p as int);
        assert((num * p) as int / p as int == num as int) by {
            assert(p * num == num * p) by (nonlinear_arith);
        }
        vstd::arithmetic::div_mod::lemma_div_is_ordered(scaled as int, 0x2_0000_0000_0000_0001, p as int);
    }
    let int_part = scaled / p;
    let frac = scaled % p;
    push_dec(s, int_part as u64);
    push_char(s, '.');
    push_zero_padded(s, frac as u64, prec as usize);
    assert(final(s)@ =~= old(s)@ + fixed_point(num as nat, den as nat, prec as nat));
}

/// A line without its `\r` terminator half.
pub open spec fn strip_cr(l: Seq<char>) -> Seq<char> {
    if l.len() > 0 && l.last() == '\r' {
        l.drop_last()
    } else {
        l
    }
}

/// `i` is the position of the first `\n` in `s`.
pub open spec fn is_first_nl(s: Seq<char>, i: int) -> bool {
    &&& 0 <= i < s.len()
    &&& s[i] == '\n'
    &&& forall|j: int| 0 <= j < i ==> s[j] != '\n'
}

/// The lines of `s` as `str::lines` yields them: split at `\n`, a `\r` just
/// before a `\n` dropped, no empty line after a final `\n`.
pub open spec fn lines(s: Seq<char>) -> Seq<Seq<char>>
    decreases s.len(),
{
    if s.len() == 0 {
        Seq::empty()
    } else if exists|i: int| is_first_nl(s, i) {
        let i = choose|i: int| is_first_nl(s, i);
        seq![strip_cr(s.take(i))] + lines(s.skip(i + 1))
    } else {
        seq![s]
    }
}

pub proof fn lemma_first_nl_unique(s: Seq<char>, i: int, k: int)
    requires
        is_first_nl(s, i),
        is_first_nl(s, k),
    ensures
        i == k,
{
    if i < k {
        assert(s[i] != '\n');
    } else if k < i {
        assert(s[k] != '\n');
    }
}

/// The characters `s[from..to]`.
pub fn slice_chars(s: &[char], from: usize, to: usize) -> (r: Vec<char>)
    requires
        from <= to <= s@.len(),
    ensures
        r@ == s@.subrange(from as int, to as int),
{
    let mut r: Vec<char> = Vec::new();
    let mut k: usize = from;
    while k < to
        invariant
            from <= k <= to <= s@.len(),
            r@ == s@.subrange(from as int, k as int),
        decreases to - k,
    {
        r.push(s[k]);
        k = k + 1;
        assert(r@ =~= s@.subrange(from as int, k as int));
    }
    r
}

/// `str::lines` over characters.
pub fn split_lines(s: &[char]) -> (r: Vec<Vec<char>>)
    ensures
        r.deep_view() == lines(s@),
{
    let n = s.len();
    let mut out: Vec<Vec<char>> = Vec::new();
    let mut start: usize = 0;
    assert(s@.skip(0) =~= s@);
    while start < n
        invariant
            0 <= start <= n,
            n == s@.len(),
            lines(s@) == out.deep_view() + lines(s@.skip(start as int)),
        decreases n - start,
    {
        let ghost rest = s@.skip(start as int);
        let mut k: usize = start;
        while k < n && s[k] != '\n'
            invariant
                start <= k <= n,
                n == s@.len(),
                forall|j: int| start <= j < k ==> s@[j] != '\n',
            decreases n - k,
        {
            k = k + 1;
        }
        if k < n {
            let mut line = slice_chars(s, start, k);
            let len = line.len();
            if len > 0 && line[len - 1] == '\r' {
                line.pop();
            }
            proof {
                let i = (k - start) as int;
                assert(is_first_nl(rest, i));
                let c = choose|c: int| is_first_nl(rest, c);
                lemma_first_nl_unique(rest, i, c);
                assert(rest.take(i) =~= s@.subrange(start as int, k as int));
                assert(rest.skip(i + 1) =~= s@.skip(k + 1));
                assert(line@ == strip_cr(rest.take(i)));
            }
            let ghost before = out.deep_view();
            let ghost line_view = line@;
            assert(line.deep_view() =~= line@);
            out.push(line);
            assert(out@.last().deep_view() == line_view);
            assert(out.deep_view() =~= before.push(line_view));
            start = k + 1;
        } else {
            let line = slice_chars(s, start, n);
            proof {
                assert(!exists|i: int| is_first_nl(rest, i));
                assert(line@ =~= rest);
                assert(s@.skip(n as int) =~= Seq::<char>::empty());
            }
            let ghost before = out.deep_view();
            let ghost line_view = line@;
            assert(line.deep_view() =~= line@);
            out.push(line);
            assert(out@.last().deep_view() == line_view);
            assert(out.deep_view() =~= before.push(line_view));
            start = n;
        }
    }
    assert(s@.skip(n as int) =~= Seq::<char>::empty());
    assert(out.deep_view() + Seq::<Seq<char>>::empty() =~= out.deep_view());
    out
}

pub open spec fn is_digit(c: char) -> bool {
    '0' <= c <= '9'
}

/// `s` without its leading non-digits (`skip_while(|c| !c.is_ascii_digit())`).
pub open spec fn skip_non_digits(s: Seq<char>) -> Seq<char>
    decreases s.len(),
{
    if s.len() > 0 && !is_digit(s[0]) {
        skip_non_digits(s.drop_first())
    } else {
        s
    }
}

/// The leading digits of `s` (`take_while(|c| c.is_ascii_digit())`).
pub open spec fn take_digits(s: Seq<char>) -> Seq<char>
    decreases s.len(),
{
    if s.len() > 0 && is_digit(s[0]) {
        seq![s[0]] + take_digits(s.drop_first())
    } else {
        Seq::empty()
    }
}

/// The first run of ASCII digits in `s`.
pub open spec fn first_digit_run(s: Seq<char>) -> Seq<char> {
    take_digits(skip_non_digits(s))
}

/// The number spelled by the ASCII digits `d`.
pub open spec fn digits_value(d: Seq<char>) -> nat
    decreases d.len(),
{
    if d.len() == 0 {
        0
    } else {
        digits_value(d.drop_last()) * 10 + (d.last() as nat - 48) as nat
    }
}

/// `str::parse::<u64>` of a non-empty run of ASCII digits: `None` when too large.
pub open spec fn parse_u64_digits(d: Seq<char>) -> Option<u64> {
    if digits_value(d) <= u64::MAX {
        Some(digits_value(d) as u64)
    } else {
        None
    }
}

/// `pre` is a prefix of `s`.
pub open spec fn has_prefix(s: Seq<char>, pre: Seq<char>) -> bool {
    pre.len() <= s.len() && s.take(pre.len() as int) == pre
}

pub fn is_digit_char(c: char) -> (r: bool)
    ensures
        r == is_digit(c),
{
    '0' <= c && c <= '9'
}

proof fn lemma_take_digits_stop(s: Seq<char>, i: int, j: int)
    requires
        0 <= i <= j <= s.len(),
        forall|k: int| i <= k < j ==> is_digit(s[k]),
        j == s.len() || !is_digit(s[j]),
    ensures
        take_digits(s.subrange(i, s.len() as int)) == s.subrange(i, j),
    decreases j - i,
{
    let t = s.subrange(i, s.len() as int);
    if i < j {
        lemma_take_digits_stop(s, i + 1, j);
        assert(t.drop_first() =~= s.subrange(i + 1, s.len() as int));
        assert(seq![s[i]] + s.subrange(i + 1, j) =~= s.subrange(i, j));
    } else {
        assert(s.subrange(i, j) =~= Seq::<char>::empty());
    }
}

/// The first run of ASCII digits in `s`.
pub fn first_digit_run_chars(s: &[char]) -> (r: Vec<char>)
    ensures
        r@ == first_digit_run(s@),
        forall|k: int| 0 <= k < r@.len() ==> is_digit(#[trigger] r@[k]),
{
    let n = s.len();
    let mut i: usize = 0;
    assert(s@.subrange(0, n as int) =~= s@);
    while i < n && !is_digit_char(s[i])
        invariant
            0 <= i <= n,
            n == s@.len(),
            skip_non_digits(s@) == skip_non_digits(s@.subrange(i as int, n as int)),
        decreases n - i,
    {
        assert(s@.subrange(i as int, n as int).drop_first() =~= s@.subrange(i + 1, n as int));
        i = i + 1;
    }
    assert(skip_non_digits(s@) == s@.subrange(i as int, n as int)) by {
        if i < n {
            assert(s@.subrange(i as int, n as int)[0] == s@[i as int]);
        }
    }
    let mut j: usize = i;
    while j < n && is_digit_char(s[j])
        invariant
            i <= j <= n,
            n == s@.len(),
            forall|k: int| i <= k < j ==> is_digit(s@[k]),
        decreases n - j,
    {
        j = j + 1;
    }
    proof {
        lemma_take_digits_stop(s@, i as int, j as int);
    }
    slice_chars(s, i, j)
}

/// `str::parse::<u64>` of a run of ASCII digits.
pub fn parse_u64_chars(d: &[char]) -> (r: Option<u64>)
    requires
        forall|k: int| 0 <= k < d@.len() ==> is_digit(d@[k]),
    ensures
        r == parse_u64_digits(d@),
{
    let mut acc: u64 = 0;
    let mut k: usize = 0;
    assert(d@.take(0) =~= Seq::<char>::empty());
    while k < d.len()
        invariant
            0 <= k <= d@.len(),
            forall|i: int| 0 <= i < d@.len() ==> is_digit(d@[i]),
            acc == digits_value(d@.take(k as int)),
        decreases d@.len() - k,
    {
        let dv = (d[k] as u32 - 48) as u64;
        proof {
            assert(d@.take(k + 1).drop_last() =~= d@.take(k as int));
        }
        match acc.checked_mul(10) {
            None => {
                proof {
                    lemma_digits_value_prefix_mono(d@, k + 1);
                }
                return None;
            },
            Some(m) => match m.checked_add(dv) {
                None => {
                    proof {
                        lemma_digits_value_prefix_mono(d@, k + 1);
                    }
                    return None;
                },
                Some(v) => {
                    acc = v;
                },
            },
        }
        k = k + 1;
    }
    assert(d@.take(d@.len() as int) =~= d@);
    Some(acc)
}

/// Extending a digit run never lowers its value.
proof fn lemma_digits_value_prefix_mono(d: Seq<char>, k: int)
    requires
        0 <= k <= d.len(),
    ensures
        digits_value(d.take(k)) <= digits_value(d),
    decreases d.len() - k,
{
    if k < d.len() {
        lemma_digits_value_prefix_mono(d, k + 1);
        assert(d.take(k + 1).drop_last() =~= d.take(k));
    } else {
        assert(d.take(k) =~= d);
    }
}

/// Whether `s` starts with `pre`.
pub fn starts_with_chars(s: &[char], pre: &[char]) -> (r: bool)
    ensures
        r == has_prefix(s@, pre@),
{
    if pre.len() > s.len() {
        return false;
    }
    let mut k: usize = 0;
    while k < pre.len()
        invariant
            0 <= k <= pre@.len() <= s@.len(),
            forall|i: int| 0 <= i < k ==> s@[i] == pre@[i],
        decreases pre@.len() - k,
    {
        if s[k] != pre[k] {
            assert(s@.take(pre@.len() as int)[k as int] != pre@[k as int]);
            return false;
        }
        k = k + 1;
    }
    assert(s@.take(pre@.len() as int) =~= pre@);
    true
}

/// Whether the characters `a` and `b` are the same.
pub fn chars_same(a: &[char], b: &[char]) -> (r: bool)
    ensures
        r == (a@ == b@),
{
    if a.len() != b.len() {
        return false;
    }
    let mut k: usize = 0;
    while k < a.len()
        invariant
            0 <= k <= a@.len(),
            a@.len() == b@.len(),
            forall|i: int| 0 <= i < k ==> a@[i] == b@[i],
        decreases a@.len() - k,
    {
        if a[k] != b[k] {
            return false;
        }
        k = k + 1;
    }
    assert(a@ =~= b@);
    true
}

proof fn lemma_dec_len_pos(n: nat)
    ensures
        dec(n).len() >= 1,
    decreases n,
{
    if n >= 10 {
        lemma_dec_len_pos(n / 10);
    }
}

/// A zero-padded number is at least as long as its width.
pub proof fn lemma_zero_pad_len(n: nat, width: nat)
    ensures
        zero_pad(n, width).len() >= width,
        zero_pad(n, width).len() >= 1,
{
    lemma_dec_len_pos(n);
}


/// Position of the first occurrence of `pat` in `s` at or after `from`.
pub open spec fn first_index_of(s: Seq<char>, pat: Seq<char>, from: int) -> Option<int>
    decreases s.len() - from,
{
    if from < 0 || from >= s.len() || from + pat.len() > s.len() {
        None
    } else if s.subrange(from, from + pat.len()) == pat {
        Some(from)
    } else {
        first_index_of(s, pat, from + 1)
    }
}

/// `s` without the leading characters equal to `c` (`str::trim_start_matches`).
pub open spec fn trim_start_char(s: Seq<char>, c: char) -> Seq<char>
    decreases s.len(),
{
    if s.len() > 0 && s[0] == c {
        trim_start_char(s.drop_first(), c)
    } else {
        s
    }
}

/// Whether `pat` occurs in `s` at position `at`.
pub fn matches_at(s: &[char], at: usize, pat: &[char]) -> (r: bool)
    requires
        at + pat@.len() <= s@.len(),
    ensures
        r == (s@.subrange(at as int, at + pat@.len()) == pat@),
{
    let n = s.len();
    let mut k: usize = 0;
    while k < pat.len()
        invariant
            0 <= k <= pat@.len(),
            n == s@.len(),
            at + pat@.len() <= n,
            forall|i: int| 0 <= i < k ==> s@[at + i] == pat@[i],
        decreases pat@.len() - k,
    {
        if s[at + k] != pat[k] {
            assert(s@.subrange(at as int, at + pat@.len())[k as int] != pat@[k as int]);
            return false;
        }
        k = k + 1;
    }
    assert(s@.subrange(at as int, at + pat@.len()) =~= pat@);
    true
}

/// The first position of `pat` in `s` (`str::find`), for a non-empty `pat`.
pub fn index_of_chars(s: &[char], pat: &[char]) -> (r: Option<usize>)
    requires
        pat@.len() > 0,
    ensures
        match first_index_of(s@, pat@, 0) {
            None => r is None,
            Some(i) => r is Some && r.unwrap() == i,
        },
        r matches Some(i) ==> i + pat@.len() <= s@.len(),
{
    let n = s.len();
    let m = pat.len();
    let mut i: usize = 0;
    while i < n && m <= n - i
        invariant
            0 <= i <= n,
            n == s@.len(),
            m == pat@.len(),
            m > 0,
            first_index_of(s@, pat@, 0) == first_index_of(s@, pat@, i as int),
        decreases n - i,
    {
        if matches_at(s, i, pat) {
            return Some(i);
        }
        assert(!(s@.subrange(i as int, i + m) == pat@));
        i = i + 1;
    }
    None
}

/// The characters of `s` after its leading run of `c`.
pub fn trim_start_char_chars(s: &[char], c: char) -> (r: Vec<char>)
    ensures
        r@ == trim_start_char(s@, c),
{
    let n = s.len();
    let mut i: usize = 0;
    assert(s@.subrange(0, n as int) =~= s@);
    while i < n && s[i] == c
        invariant
            0 <= i <= n,
            n == s@.len(),
            trim_start_char(s@, c) == trim_start_char(s@.subrange(i as int, n as int), c),
        decreases n - i,
    {
        assert(s@.subrange(i as int, n as int).drop_first() =~= s@.subrange(i + 1, n as int));
        i = i + 1;
    }
    slice_chars(s, i, n)
}


/// Every character of a decimal numeral is a digit.
pub proof fn lemma_dec_digits(n: nat)
    ensures
        dec(n).len() >= 1,
        forall|i: int| 0 <= i < dec(n).len() ==> is_digit(#[trigger] dec(n)[i]),
    decreases n,
{
    if n >= 10 {
        lemma_dec_digits(n / 10);
        assert forall|i: int| 0 <= i < dec(n).len() implies is_digit(#[trigger] dec(n)[i]) by {
            if i < dec(n / 10).len() {
                assert(dec(n)[i] == dec(n / 10)[i]);
            }
        }
    }
}

/// Reading a decimal numeral back gives the number.
pub proof fn lemma_digits_value_dec(n: nat)
    ensures
        digits_value(dec(n)) == n,
    decreases n,
{
    let s = dec(n);
    if n < 10 {
        assert(s.drop_last() =~= Seq::<char>::empty());
        lemma_digit_char_value(n as int);
        assert(s.last() == digit_char(n as int));
        assert(digits_value(s) == digits_value(s.drop_last()) * 10 + (s.last() as nat - 48) as nat);
    } else {
        lemma_digits_value_dec(n / 10);
        assert(s.drop_last() =~= dec(n / 10));
        lemma_digit_char_value((n % 10) as int);
        assert(s.last() == digit_char((n % 10) as int));
        assert(digits_value(s) == digits_value(s.drop_last()) * 10 + (s.last() as nat - 48) as nat);
        assert(n / 10 * 10 + n % 10 == n) by (nonlinear_arith);
    }
}

proof fn lemma_digit_char_value(d: int)
    requires
        0 <= d < 10,
    ensures
        digit_char(d) as nat - 48 == d,
        is_digit(digit_char(d)),
{
}

/// The characters of a zero-padded numeral are digits.
pub proof fn lemma_zero_pad_digits(n: nat, width: nat)
    ensures
        forall|i: int| 0 <= i < zero_pad(n, width).len() ==> is_digit(#[trigger] zero_pad(n, width)[i]),
{
    lemma_dec_digits(n);
    let z = zero_pad(n, width);
    if dec(n).len() < width {
        let pad = Seq::new((width - dec(n).len()) as nat, |i: int| '0');
        assert forall|i: int| 0 <= i < z.len() implies is_digit(#[trigger] z[i]) by {
            if i >= pad.len() {
                assert(z[i] == dec(n)[i - pad.len()]);
            }
        }
    }
}

/// A text that ends a line reads as its lines followed by those of what comes after.
pub proof fn lemma_lines_append(a: Seq<char>, b: Seq<char>)
    requires
        a.len() == 0 || a.last() == '\n',
    ensures
        lines(a + b) == lines(a) + lines(b),
    decreases a.len(),
{
    if a.len() == 0 {
        assert(a + b =~= b);
        assert(lines(a) =~= Seq::<Seq<char>>::empty());
        assert(lines(a) + lines(b) =~= lines(b));
    } else {
        let s = a + b;
        let w = choose|i: int| 0 <= i < a.len() && a[i] == '\n' && forall|j: int|
            0 <= j < i ==> a[j] != '\n';
        assert(exists|i: int| 0 <= i < a.len() && a[i] == '\n' && forall|j: int|
            0 <= j < i ==> a[j] != '\n') by {
            lemma_first_nl_exists(a, a.len() - 1);
        }
        assert(is_first_nl(a, w));
        assert(is_first_nl(s, w));
        let ca = choose|c: int| is_first_nl(a, c);
        lemma_first_nl_unique(a, w, ca);
        let cs = choose|c: int| is_first_nl(s, c);
        lemma_first_nl_unique(s, w, cs);
        assert(s.take(w) =~= a.take(w));
        let rest = a.skip(w + 1);
        assert(s.skip(w + 1) =~= rest + b);
        if rest.len() > 0 {
            assert(rest.last() == a.last());
        }
        lemma_lines_append(rest, b);
        assert(lines(s) =~= seq![strip_cr(a.take(w))] + (lines(rest) + lines(b)));
        assert(lines(a) == seq![strip_cr(a.take(w))] + lines(rest));
        assert(lines(a) + lines(b) =~= seq![strip_cr(a.take(w))] + (lines(rest) + lines(b)));
    }
}

/// A text with a `\n` at or before `k` has a first `\n`.
proof fn lemma_first_nl_exists(a: Seq<char>, k: int)
    requires
        0 <= k < a.len(),
        a[k] == '\n',
    ensures
        exists|i: int| 0 <= i < a.len() && a[i] == '\n' && forall|j: int| 0 <= j < i ==> a[j] != '\n',
    decreases k,
{
    if exists|j: int| 0 <= j < k && a[j] == '\n' {
        let j = choose|j: int| 0 <= j < k && a[j] == '\n';
        lemma_first_nl_exists(a, j);
    } else {
        assert(forall|j: int| 0 <= j < k ==> a[j] != '\n');
    }
}

/// One line ended by `\n` reads as that line.
pub proof fn lemma_lines_single(body: Seq<char>)
    requires
        forall|i: int| 0 <= i < body.len() ==> body[i] != '\n',
        body.len() > 0,
        body.last() != '\r',
    ensures
        lines(body.push('\n')) == seq![body],
{
    let s = body.push('\n');
    let w = body.len() as int;
    assert(is_first_nl(s, w));
    let c = choose|c: int| is_first_nl(s, c);
    lemma_first_nl_unique(s, w, c);
    assert(s.take(w) =~= body);
    assert(s.skip(w + 1) =~= Seq::<char>::empty());
    assert(lines(Seq::<char>::empty()) =~= Seq::<Seq<char>>::empty());
    assert(lines(s) =~= seq![body]);
}

/// A text whose first and last characters are not white space is its own trim.
pub proof fn lemma_trim_noop(s: Seq<char>)
    requires
        s.len() > 0,
        !is_white_space(s[0]),
        !is_white_space(s.last()),
    ensures
        trim(s) == s,
{
}

} // verus!
