//! Decibel display text: formatting a centi-decibel level as `"-24.00 dB"`
//! and parsing such text back, clamped to the curve's range. Formatting a
//! level in range and parsing the text again returns exactly the same level,
//! so the display round-trips within the two-decimal precision it shows.

use vstd::prelude::*;
use vstd::string::StrSliceExecFns;
use vstd::string::StringExecFns;

use crate::curve::{MAX_CDB, MIN_CDB};

verus! {

/// The error a caller receives for gain text that does not parse.
#[derive(Clone, Copy, PartialEq, Eq, Structural, Debug)]
pub enum DbTextError {
    InvalidInput,
}

/// Whether a character is a decimal digit.
pub open spec fn is_dec_digit(c: char) -> bool {
    c == '0' || c == '1' || c == '2' || c == '3' || c == '4' || c == '5' || c == '6' || c == '7'
        || c == '8' || c == '9'
}

/// The value of a decimal digit character; anything else counts as nine,
/// which `is_dec_digit` rules out where it matters.
pub open spec fn dec_digit_val(c: char) -> int {
    if c == '0' {
        0
    } else if c == '1' {
        1
    } else if c == '2' {
        2
    } else if c == '3' {
        3
    } else if c == '4' {
        4
    } else if c == '5' {
        5
    } else if c == '6' {
        6
    } else if c == '7' {
        7
    } else if c == '8' {
        8
    } else {
        9
    }
}

/// The digit character of a value below ten.
pub open spec fn dec_digit_char(d: int) -> char {
    if d == 0 {
        '0'
    } else if d == 1 {
        '1'
    } else if d == 2 {
        '2'
    } else if d == 3 {
        '3'
    } else if d == 4 {
        '4'
    } else if d == 5 {
        '5'
    } else if d == 6 {
        '6'
    } else if d == 7 {
        '7'
    } else if d == 8 {
        '8'
    } else {
        '9'
    }
}

/// The decimal digits of `n`, most significant first, with no leading zeros
/// except for `n == 0` itself.
pub open spec fn dec_digits_of(n: nat) -> Seq<char>
    decreases n,
{
    if n < 10 {
        seq![dec_digit_char(n as int)]
    } else {
        dec_digits_of(n / 10).push(dec_digit_char((n % 10) as int))
    }
}

/// The index of the first character at or after `from` that is not a decimal
/// digit (or the end of the text).
pub open spec fn digits_end(t: Seq<char>, from: int) -> int
    decreases t.len() - from,
{
    if from < 0 || from >= t.len() || !is_dec_digit(t[from]) {
        from
    } else {
        digits_end(t, from + 1)
    }
}

/// The numeric value of the digit characters `t[from..to)`.
pub open spec fn digits_value(t: Seq<char>, from: int, to: int) -> int
    decreases to - from,
{
    if from >= to {
        0
    } else {
        digits_value(t, from, to - 1) * 10 + dec_digit_val(t[to - 1])
    }
}

/// A centi-decibel value held to the curve's floor and ceiling.
pub open spec fn clamp_cdb(v: int) -> int {
    if v < MIN_CDB as int {
        MIN_CDB as int
    } else if v > MAX_CDB as int {
        MAX_CDB as int
    } else {
        v
    }
}

/// The text without its `" dB"` unit suffix, if it carries one.
pub open spec fn strip_db_suffix(s: Seq<char>) -> Seq<char> {
    if s.len() >= 3 && s[s.len() - 3] == ' ' && s[s.len() - 2] == 'd' && s[s.len() - 1] == 'B' {
        s.subrange(0, s.len() - 3)
    } else {
        s
    }
}

/// The display text of a decibel level `cdb` in centi-decibels: an optional
/// minus sign, the whole decibels, a point, exactly two fraction digits, and
/// the `" dB"` unit.
pub open spec fn format_spec(cdb: int) -> Seq<char> {
    let m = if cdb >= 0 { cdb } else { -cdb };
    let sign: Seq<char> = if cdb < 0 { seq!['-'] } else { Seq::<char>::empty() };
    sign + dec_digits_of((m / 100) as nat) + seq!['.'] + seq![
        dec_digit_char((m % 100) / 10),
        dec_digit_char((m % 100) % 10),
    ] + seq![' ', 'd', 'B']
}

/// The centi-decibel value of gain text: an optional `" dB"` suffix is
/// dropped, then the text must be an optional minus sign, at least one whole
/// digit, and optionally a point followed by at least one fraction digit.
/// Fraction digits beyond the second are ignored; the value is clamped to the
/// curve's range. Anything else does not parse.
pub open spec fn parse_spec(s: Seq<char>) -> Option<int> {
    let t = strip_db_suffix(s);
    let neg = t.len() > 0 && t[0] == '-';
    let st: int = if neg { 1 } else { 0 };
    let de = digits_end(t, st);
    if de == st {
        None
    } else {
        let w = digits_value(t, st, de);
        if de == t.len() {
            Some(clamp_cdb(if neg { -(w * 100) } else { w * 100 }))
        } else if t[de] == '.' {
            let fs = de + 1;
            let fe = digits_end(t, fs);
            if fe == fs || fe != t.len() {
                None
            } else {
                let f = if fe - fs == 1 {
                    dec_digit_val(t[fs]) * 10
                } else {
                    dec_digit_val(t[fs]) * 10 + dec_digit_val(t[fs + 1])
                };
                let v = w * 100 + f;
                Some(clamp_cdb(if neg { -v } else { v }))
            }
        } else {
            None
        }
    }
}

/// Every character that `dec_digits_of` produces is a decimal digit, and it
/// produces at least one.
proof fn lemma_dec_digits_of_digits(n: nat)
    ensures
        dec_digits_of(n).len() >= 1,
        forall|k: int| 0 <= k < dec_digits_of(n).len() ==> is_dec_digit(#[trigger] dec_digits_of(n)[k]),
    decreases n,
{
    if n >= 10 {
        lemma_dec_digits_of_digits(n / 10);
    }
}

/// Scanning from `from` over digits up to a stopper lands exactly on the
/// stopper.
proof fn lemma_digits_end_scan(t: Seq<char>, from: int, to: int)
    requires
        0 <= from <= to <= t.len(),
        forall|k: int| from <= k < to ==> is_dec_digit(#[trigger] t[k]),
        to == t.len() || !is_dec_digit(t[to]),
    ensures
        digits_end(t, from) == to,
    decreases to - from,
{
    if from < to {
        lemma_digits_end_scan(t, from + 1, to);
    }
}

/// The value of a digit region is never negative.
proof fn lemma_digits_value_nonneg(t: Seq<char>, from: int, to: int)
    ensures
        digits_value(t, from, to) >= 0,
    decreases to - from,
{
    if from < to {
        lemma_digits_value_nonneg(t, from, to - 1);
    }
}

/// Reading back the digit characters of `n` embedded in `t` yields `n`.
proof fn lemma_digits_value_reads(t: Seq<char>, from: int, n: nat)
    requires
        0 <= from,
        from + dec_digits_of(n).len() <= t.len(),
        t.subrange(from, from + dec_digits_of(n).len() as int) == dec_digits_of(n),
    ensures
        digits_value(t, from, from + dec_digits_of(n).len() as int) == n,
    decreases n,
{
    let d = dec_digits_of(n);
    let l = d.len() as int;
    assert(forall|k: int| 0 <= k < l ==> t[from + k] == #[trigger] d[k]) by {
        assert(forall|k: int| 0 <= k < l ==> t.subrange(from, from + l)[k] == #[trigger] d[k]);
    }
    if n < 10 {
        assert(digits_value(t, from, from + 1) == digits_value(t, from, from) * 10 + dec_digit_val(
            t[from],
        ));
        assert(t[from] == d[0]);
    } else {
        let dh = dec_digits_of(n / 10);
        let lh = dh.len() as int;
        assert(d == dh.push(dec_digit_char((n % 10) as int)));
        assert(l == lh + 1);
        assert(t.subrange(from, from + lh) =~= dh) by {
            assert(forall|k: int| 0 <= k < lh ==> dh[k] == #[trigger] d[k]);
        }
        lemma_digits_value_reads(t, from, n / 10);
        assert(t[from + l - 1] == d[l - 1]);
        assert(d[l - 1] == dec_digit_char((n % 10) as int));
        assert(dec_digit_val(dec_digit_char((n % 10) as int)) == n % 10);
        assert(digits_value(t, from, from + l) == digits_value(t, from, from + lh) * 10
            + dec_digit_val(t[from + l - 1]));
        assert(n / 10 * 10 + n % 10 == n) by {
            vstd::arithmetic::div_mod::lemma_fundamental_div_mod(n as int, 10);
        }
    }
}

/// Formatting a level of the curve's range and parsing the text back returns
/// exactly that level: the decibel display round-trips.
pub proof fn lemma_db_text_round_trip(cdb: int)
    requires
        MIN_CDB as int <= cdb <= MAX_CDB as int,
    ensures
        parse_spec(format_spec(cdb)) == Some(cdb),
{
    let m = if cdb >= 0 { cdb } else { -cdb };
    let w = (m / 100) as nat;
    let f = m % 100;
    vstd::arithmetic::div_mod::lemma_fundamental_div_mod(m, 100);
    vstd::arithmetic::div_mod::lemma_remainder_lower(m, 100);
    vstd::arithmetic::div_mod::lemma_remainder_upper(m, 100);
    vstd::arithmetic::div_mod::lemma_div_pos_is_pos(m, 100);
    vstd::arithmetic::div_mod::lemma_fundamental_div_mod(f, 10);
    vstd::arithmetic::div_mod::lemma_remainder_lower(f, 10);
    vstd::arithmetic::div_mod::lemma_remainder_upper(f, 10);
    vstd::arithmetic::div_mod::lemma_div_pos_is_pos(f, 10);
    let dw = dec_digits_of(w);
    let l = dw.len() as int;
    lemma_dec_digits_of_digits(w);
    let sign: Seq<char> = if cdb < 0 { seq!['-'] } else { Seq::<char>::empty() };
    let sg = sign.len() as int;
    let tail: Seq<char> = seq!['.', dec_digit_char(f / 10), dec_digit_char(f % 10)];
    let s = format_spec(cdb);
    assert(s =~= sign + dw + tail + seq![' ', 'd', 'B']);
    let len = s.len() as int;
    assert(len == sg + l + 6);
    assert(s[len - 3] == ' ' && s[len - 2] == 'd' && s[len - 1] == 'B');
    let t = strip_db_suffix(s);
    assert(t =~= sign + dw + tail);
    assert(t.len() == sg + l + 3);
    assert(forall|k: int| 0 <= k < l ==> t[sg + k] == #[trigger] dw[k]);
    assert(t[sg + l] == '.');
    assert(t[sg + l + 1] == dec_digit_char(f / 10));
    assert(t[sg + l + 2] == dec_digit_char(f % 10));
    // The sign is recognized exactly when the level is negative.
    if cdb < 0 {
        assert(t[0] == '-');
    } else {
        assert(t[0] == dw[0]);
        assert(is_dec_digit(dw[0]));
    }
    let neg = t.len() > 0 && t[0] == '-';
    assert(neg == (cdb < 0));
    let st: int = if neg { 1 } else { 0 };
    assert(st == sg);
    // The whole-digit scan stops at the point.
    assert(forall|k: int| st <= k < st + l ==> is_dec_digit(#[trigger] t[k]));
    lemma_digits_end_scan(t, st, st + l);
    let de = digits_end(t, st);
    assert(de == st + l);
    assert(de != st && de != t.len() && t[de] == '.');
    // The whole digits read back as the whole centi-decibel hundreds.
    assert(t.subrange(st, st + l) =~= dw);
    lemma_digits_value_reads(t, st, w);
    assert(digits_value(t, st, de) == w);
    // The fraction scan covers exactly the two fraction digits.
    let fs = de + 1;
    assert(forall|k: int| fs <= k < fs + 2 ==> is_dec_digit(#[trigger] t[k]));
    lemma_digits_end_scan(t, fs, fs + 2);
    assert(digits_end(t, fs) == fs + 2);
    assert(fs + 2 == t.len());
    assert(dec_digit_val(t[fs]) * 10 + dec_digit_val(t[fs + 1]) == (f / 10) * 10 + f % 10);
    assert((f / 10) * 10 + f % 10 == f);
    assert(w * 100 + f == m);
    assert(clamp_cdb(if neg { -m } else { m }) == cdb);
}

/// A decimal digit's value, or nothing for any other character.
fn dec_digit_of(c: char) -> (r: Option<u32>)
    ensures
        match r {
            Some(d) => is_dec_digit(c) && d < 10 && d as int == dec_digit_val(c),
            None => !is_dec_digit(c),
        },
{
    match c {
        '0' => Some(0u32),
        '1' => Some(1u32),
        '2' => Some(2u32),
        '3' => Some(3u32),
        '4' => Some(4u32),
        '5' => Some(5u32),
        '6' => Some(6u32),
        '7' => Some(7u32),
        '8' => Some(8u32),
        '9' => Some(9u32),
        _ => None,
    }
}

/// The digit character of a value below ten, as borrowed text.
fn dec_digit_text(d: u32) -> (r: &'static str)
    requires
        d < 10,
    ensures
        r@ == seq![dec_digit_char(d as int)],
{
    proof {
        reveal_strlit("0");
        reveal_strlit("1");
        reveal_strlit("2");
        reveal_strlit("3");
        reveal_strlit("4");
        reveal_strlit("5");
        reveal_strlit("6");
        reveal_strlit("7");
        reveal_strlit("8");
        reveal_strlit("9");
        assert("0"@ =~= seq!['0']);
        assert("1"@ =~= seq!['1']);
        assert("2"@ =~= seq!['2']);
        assert("3"@ =~= seq!['3']);
        assert("4"@ =~= seq!['4']);
        assert("5"@ =~= seq!['5']);
        assert("6"@ =~= seq!['6']);
        assert("7"@ =~= seq!['7']);
        assert("8"@ =~= seq!['8']);
        assert("9"@ =~= seq!['9']);
    }
    if d == 0 {
        "0"
    } else if d == 1 {
        "1"
    } else if d == 2 {
        "2"
    } else if d == 3 {
        "3"
    } else if d == 4 {
        "4"
    } else if d == 5 {
        "5"
    } else if d == 6 {
        "6"
    } else if d == 7 {
        "7"
    } else if d == 8 {
        "8"
    } else {
        "9"
    }
}

/// Appends the decimal digits of `n`, most significant first.
fn push_digits(out: &mut String, n: u32)
    ensures
        final(out)@ == old(out)@ + dec_digits_of(n as nat),
    decreases n,
{
    if n < 10 {
        out.append(dec_digit_text(n));
    } else {
        push_digits(out, n / 10);
        out.append(dec_digit_text(n % 10));
        proof {
            assert(out@ =~= old(out)@ + dec_digits_of(n as nat));
        }
    }
}

/// The display text of a decibel level in centi-decibels, such as
/// `"-24.00 dB"`.
pub fn format_cdb(cdb: i32) -> (r: String)
    requires
        MIN_CDB <= cdb <= MAX_CDB,
    ensures
        r@ == format_spec(cdb as int),
{
    let mut out = String::new();
    let m: u32 = if cdb < 0 {
        out.append("-");
        (-(cdb as i64)) as u32
    } else {
        cdb as u32
    };
    push_digits(&mut out, m / 100);
    out.append(".");
    let f: u32 = m % 100;
    out.append(dec_digit_text(f / 10));
    out.append(dec_digit_text(f % 10));
    out.append(" dB");
    proof {
        reveal_strlit("-");
        reveal_strlit(".");
        reveal_strlit(" dB");
        assert("-"@ =~= seq!['-']);
        assert("."@ =~= seq!['.']);
        assert(" dB"@ =~= seq![' ', 'd', 'B']);
        assert(out@ =~= format_spec(cdb as int));
    }
    out
}

/// The centi-decibel value of gain text, or `InvalidInput` for text that is
/// not a decibel number. The value is clamped to the curve's range.
pub fn parse_db(s: &str) -> (r: Result<i32, DbTextError>)
    ensures
        match parse_spec(s@) {
            Some(v) => r == Ok::<i32, DbTextError>(v as i32),
            None => r == Err::<i32, DbTextError>(DbTextError::InvalidInput),
        },
{
    let n: usize = s.unicode_len();
    let limit: usize = if n >= 3 && s.get_char(n - 3) == ' ' && s.get_char(n - 2) == 'd'
        && s.get_char(n - 1) == 'B' {
        n - 3
    } else {
        n
    };
    let ghost t = strip_db_suffix(s@);
    proof {
        if limit < n {
            assert(t =~= s@.subrange(0, limit as int));
        } else {
            assert(t =~= s@);
        }
        assert(t.len() == limit);
        assert(forall|k: int| 0 <= k < limit ==> t[k] == s@[k]);
    }
    let neg: bool = limit > 0 && s.get_char(0) == '-';
    let st: usize = if neg { 1 } else { 0 };
    assert(neg == (t.len() > 0 && t[0] == '-'));
    let mut pos: usize = st;
    let mut acc: u64 = 0;
    while pos < limit
        invariant
            st <= pos <= limit,
            limit <= s@.len(),
            t == strip_db_suffix(s@),
            t.len() == limit,
            forall|k: int| 0 <= k < limit ==> t[k] == s@[k],
            forall|k: int| st <= k < pos ==> is_dec_digit(#[trigger] t[k]),
            acc <= 10_000_009,
            acc == digits_value(t, st as int, pos as int) || (acc > 1_000_000 && digits_value(
                t,
                st as int,
                pos as int,
            ) >= acc),
        ensures
            st <= pos <= limit,
            forall|k: int| st <= k < pos ==> is_dec_digit(#[trigger] t[k]),
            pos == limit || !is_dec_digit(t[pos as int]),
            acc <= 10_000_009,
            acc == digits_value(t, st as int, pos as int) || (acc > 1_000_000 && digits_value(
                t,
                st as int,
                pos as int,
            ) >= acc),
        decreases limit - pos,
    {
        let c = s.get_char(pos);
        match dec_digit_of(c) {
            None => {
                break ;
            },
            Some(d) => {
                proof {
                    lemma_digits_value_nonneg(t, st as int, pos as int);
                    assert(digits_value(t, st as int, pos as int + 1) == digits_value(
                        t,
                        st as int,
                        pos as int,
                    ) * 10 + dec_digit_val(t[pos as int]));
                }
                if acc <= 1_000_000 {
                    acc = acc * 10 + (d as u64);
                }
                pos = pos + 1;
            },
        }
    }
    proof {
        lemma_digits_end_scan(t, st as int, pos as int);
    }
    if pos == st {
        return Err(DbTextError::InvalidInput);
    }
    let mut frac: u32 = 0;
    if pos < limit {
        let c = s.get_char(pos);
        if c != '.' {
            return Err(DbTextError::InvalidInput);
        }
        let fs: usize = pos + 1;
        let mut q: usize = fs;
        let mut d1: u32 = 0;
        let mut d2: u32 = 0;
        while q < limit
            invariant
                fs <= q <= limit,
                limit <= s@.len(),
                t == strip_db_suffix(s@),
                t.len() == limit,
                forall|k: int| 0 <= k < limit ==> t[k] == s@[k],
                forall|k: int| fs <= k < q ==> is_dec_digit(#[trigger] t[k]),
                q > fs ==> d1 < 10 && d1 as int == dec_digit_val(t[fs as int]),
                q > fs + 1 ==> d2 < 10 && d2 as int == dec_digit_val(t[fs as int + 1]),
            ensures
                fs <= q <= limit,
                forall|k: int| fs <= k < q ==> is_dec_digit(#[trigger] t[k]),
                q == limit || !is_dec_digit(t[q as int]),
                q > fs ==> d1 < 10 && d1 as int == dec_digit_val(t[fs as int]),
                q > fs + 1 ==> d2 < 10 && d2 as int == dec_digit_val(t[fs as int + 1]),
            decreases limit - q,
        {
            match dec_digit_of(s.get_char(q)) {
                None => {
                    break ;
                },
                Some(d) => {
                    if q == fs {
                        d1 = d;
                    } else if q == fs + 1 {
                        d2 = d;
                    }
                    q = q + 1;
                },
            }
        }
        proof {
            lemma_digits_end_scan(t, fs as int, q as int);
        }
        if q == fs {
            return Err(DbTextError::InvalidInput);
        }
        if q != limit {
            return Err(DbTextError::InvalidInput);
        }
        frac = if q - fs == 1 {
            d1 * 10
        } else {
            d1 * 10 + d2
        };
    }
    proof {
        lemma_digits_value_nonneg(t, st as int, pos as int);
    }
    if acc > 1_000_000 {
        // The whole part alone is already far past the curve's ceiling, so
        // the value clamps to whichever end the sign selects.
        if neg {
            Ok(MIN_CDB)
        } else {
            Ok(MAX_CDB)
        }
    } else {
        let v: u64 = acc * 100 + (frac as u64);
        let sv: i64 = if neg {
            -(v as i64)
        } else {
            v as i64
        };
        let c: i32 = if sv < MIN_CDB as i64 {
            MIN_CDB
        } else if sv > MAX_CDB as i64 {
            MAX_CDB
        } else {
            sv as i32
        };
        Ok(c)
    }
}

} // verus!
