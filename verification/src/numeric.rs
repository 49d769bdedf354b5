//! Numeric fields: base-10 parsing and the sentinel rule.
//!
//! Year and month fields are parsed with no trimming: a stray space anywhere
//! in the field is a `MalformedNumber` failure.  Value fields are
//! right-justified, so leading and trailing ASCII spaces are removed first;
//! a parsed value of exactly -9999 means "no measurement for this day".

use vstd::prelude::*;
use vstd::string::StrSliceExecFns;

use crate::error::DecodeError;

verus! {

/// The integer read from a value field when a measurement is absent.
pub const ABSENT_SENTINEL: isize = -9999;

pub open spec fn is_dec_digit(c: char) -> bool {
    48 <= c as u32 <= 57
}

pub open spec fn digit_val(c: char) -> int {
    c as u32 - 48
}

pub open spec fn all_dec_digits(s: Seq<char>) -> bool {
    forall|k: int| 0 <= k < s.len() ==> is_dec_digit(#[trigger] s[k])
}

/// The value of a digit string, most significant digit first.
pub open spec fn dec_val(s: Seq<char>) -> int
    decreases s.len(),
{
    if s.len() == 0 {
        0
    } else {
        10 * dec_val(s.drop_last()) + digit_val(s.last())
    }
}

pub open spec fn pow10(n: nat) -> int
    decreases n,
{
    if n == 0 {
        1
    } else {
        10 * pow10((n - 1) as nat)
    }
}

/// What a signed base-10 integer literal denotes: an optional sign followed
/// by at least one digit, and nothing else.
pub open spec fn spec_parse_int(s: Seq<char>) -> Option<int> {
    if s.len() == 0 {
        None
    } else if s[0] == '-' || s[0] == '+' {
        let body = s.subrange(1, s.len() as int);
        if body.len() > 0 && all_dec_digits(body) {
            Some(if s[0] == '-' { -dec_val(body) } else { dec_val(body) })
        } else {
            None
        }
    } else {
        if all_dec_digits(s) { Some(dec_val(s)) } else { None }
    }
}

/// `spec_parse_int`, with failure mapped to the decoder's error value.
pub open spec fn spec_parse_number(s: Seq<char>) -> Result<isize, DecodeError> {
    match spec_parse_int(s) {
        Some(v) => Ok(v as isize),
        None => Err(DecodeError::MalformedNumber),
    }
}

pub open spec fn trim_left(s: Seq<char>) -> Seq<char>
    decreases s.len(),
{
    if s.len() > 0 && s[0] == ' ' {
        trim_left(s.subrange(1, s.len() as int))
    } else {
        s
    }
}

pub open spec fn trim_right(s: Seq<char>) -> Seq<char>
    decreases s.len(),
{
    if s.len() > 0 && s.last() == ' ' {
        trim_right(s.drop_last())
    } else {
        s
    }
}

/// The field with its leading and trailing ASCII spaces removed.
pub open spec fn spec_trim(s: Seq<char>) -> Seq<char> {
    trim_right(trim_left(s))
}

/// What a decoded value field denotes: trim, parse, then apply the
/// sentinel rule.
pub open spec fn spec_parse_value(s: Seq<char>) -> Result<Option<isize>, DecodeError> {
    match spec_parse_int(spec_trim(s)) {
        Some(v) => if v == ABSENT_SENTINEL {
            Ok(None)
        } else {
            Ok(Some(v as isize))
        },
        None => Err(DecodeError::MalformedNumber),
    }
}

pub open spec fn digit_char(d: int) -> char {
    if d == 0 {
        '0'
    } else if d == 1 {
        '1'
    } else if d == 2 {
        '2'
    } else if d == 3 {
        '3'
    } else if d == 4 {
        '4'
    } else if d == 5 {
        '5'
    } else if d == 6 {
        '6'
    } else if d == 7 {
        '7'
    } else if d == 8 {
        '8'
    } else {
        '9'
    }
}

/// The decimal digits of a non-negative integer, most significant first.
pub open spec fn dec_digits(n: int) -> Seq<char>
    decreases n,
{
    if n < 10 {
        seq![digit_char(n)]
    } else {
        dec_digits(n / 10).push(digit_char(n % 10))
    }
}

pub open spec fn spaces(n: int) -> Seq<char>
    decreases n,
{
    if n <= 0 {
        Seq::empty()
    } else {
        spaces(n - 1).push(' ')
    }
}

/// An integer rendered right-justified in a five-character value field.
pub open spec fn render_value(v: int) -> Seq<char> {
    let body = if v < 0 {
        seq!['-'] + dec_digits(-v)
    } else {
        dec_digits(v)
    };
    spaces(5 - body.len()) + body
}

proof fn lemma_pow10_pos(n: nat)
    ensures
        pow10(n) >= 1,
    decreases n,
{
    if n > 0 {
        lemma_pow10_pos((n - 1) as nat);
    }
}

proof fn lemma_pow10_le(a: nat, b: nat)
    requires
        a <= b,
    ensures
        1 <= pow10(a) <= pow10(b),
    decreases b,
{
    lemma_pow10_pos(a);
    if a < b {
        lemma_pow10_le(a, (b - 1) as nat);
    }
}

proof fn lemma_trim_left_at(s: Seq<char>, lo: int)
    requires
        0 <= lo <= s.len(),
        forall|k: int| 0 <= k < lo ==> s[k] == ' ',
        lo < s.len() ==> s[lo] != ' ',
    ensures
        trim_left(s) == s.subrange(lo, s.len() as int),
    decreases lo,
{
    if lo == 0 {
        assert(s.subrange(0, s.len() as int) =~= s);
    } else {
        let t = s.subrange(1, s.len() as int);
        lemma_trim_left_at(t, lo - 1);
        assert(t.subrange(lo - 1, t.len() as int) =~= s.subrange(lo, s.len() as int));
    }
}

proof fn lemma_trim_right_at(s: Seq<char>, hi: int)
    requires
        0 <= hi <= s.len(),
        forall|k: int| hi <= k < s.len() ==> s[k] == ' ',
        hi > 0 ==> s[hi - 1] != ' ',
    ensures
        trim_right(s) == s.subrange(0, hi),
    decreases s.len(),
{
    if hi == s.len() {
        assert(s.subrange(0, s.len() as int) =~= s);
    } else {
        let t = s.drop_last();
        lemma_trim_right_at(t, hi);
        assert(t.subrange(0, hi) =~= s.subrange(0, hi));
    }
}

/// Where the first loop of a scan stops at `lo` and the second at `hi`,
/// trimming yields exactly the slice between them.
proof fn lemma_trim_at(s: Seq<char>, lo: int, hi: int)
    requires
        0 <= lo <= hi <= s.len(),
        forall|k: int| 0 <= k < lo ==> s[k] == ' ',
        forall|k: int| hi <= k < s.len() ==> s[k] == ' ',
        lo < hi ==> s[lo] != ' ' && s[hi - 1] != ' ',
        lo == hi ==> hi == s.len(),
    ensures
        spec_trim(s) == s.subrange(lo, hi),
{
    lemma_trim_left_at(s, lo);
    let u = s.subrange(lo, s.len() as int);
    lemma_trim_right_at(u, hi - lo);
    assert(u.subrange(0, hi - lo) =~= s.subrange(lo, hi));
}

/// Parses an optional sign followed by digits; the length bound keeps the
/// result inside `isize` on every platform.
fn parse_signed(s: &str) -> (r: Result<isize, DecodeError>)
    requires
        s@.len() <= 9,
    ensures
        match r {
            Ok(v) => spec_parse_int(s@) == Some(v as int),
            Err(e) => spec_parse_int(s@) is None && e == DecodeError::MalformedNumber,
        },
{
    let n: usize = s.unicode_len();
    if n == 0 {
        return Err(DecodeError::MalformedNumber);
    }
    let c0: char = s.get_char(0);
    let neg: bool = c0 == '-';
    let has_sign: bool = neg || c0 == '+';
    let start: usize = if has_sign { 1 } else { 0 };
    if start == n {
        return Err(DecodeError::MalformedNumber);
    }
    let mut acc: isize = 0;
    let mut i: usize = start;
    while i < n
        invariant
            start <= i <= n,
            n == s@.len() <= 9,
            start <= 1,
            start == 1 <==> (s@[0] == '-' || s@[0] == '+'),
            neg <==> s@[0] == '-',
            forall|k: int| start <= k < i ==> is_dec_digit(#[trigger] s@[k]),
            acc == dec_val(s@.subrange(start as int, i as int)),
            0 <= acc < pow10((i - start) as nat),
        decreases n - i,
    {
        let c: char = s.get_char(i);
        let u: u32 = c as u32;
        if u < 48 || u > 57 {
            proof {
                assert(!is_dec_digit(s@[i as int]));
                if start == 1 {
                    let body = s@.subrange(1, s@.len() as int);
                    assert(body[i - 1] == s@[i as int]);
                    assert(!all_dec_digits(body));
                } else {
                    assert(!all_dec_digits(s@));
                }
            }
            return Err(DecodeError::MalformedNumber);
        }
        proof {
            lemma_pow10_le((i - start) as nat, 8);
            assert(pow10(8) == 100000000) by {
                reveal_with_fuel(pow10, 9);
            }
            let prev = s@.subrange(start as int, i as int);
            let next = s@.subrange(start as int, i + 1);
            assert(next.drop_last() =~= prev);
            assert(next.last() == s@[i as int]);
        }
        let d: isize = (u - 48) as isize;
        acc = acc * 10 + d;
        i = i + 1;
    }
    proof {
        lemma_pow10_le((n - start) as nat, 9);
        assert(pow10(9) == 1000000000) by {
            reveal_with_fuel(pow10, 10);
        }
        if start == 1 {
            let body = s@.subrange(1, s@.len() as int);
            assert(all_dec_digits(body));
        } else {
            assert(s@.subrange(0, s@.len() as int) =~= s@);
            assert(all_dec_digits(s@));
        }
    }
    if neg {
        Ok(-acc)
    } else {
        Ok(acc)
    }
}

/// Parses the four-character year field; no trimming is applied.  Fields up
/// to nine characters are accepted, which keeps the result inside `isize`
/// on every platform.
pub fn parse_year(raw: &str) -> (r: Result<isize, DecodeError>)
    requires
        raw@.len() <= 9,
    ensures
        r == spec_parse_number(raw@),
{
    parse_signed(raw)
}

/// Parses the two-character month field; no trimming is applied.  Fields up
/// to nine characters are accepted, as for `parse_year`.
pub fn parse_month(raw: &str) -> (r: Result<isize, DecodeError>)
    requires
        raw@.len() <= 9,
    ensures
        r == spec_parse_number(raw@),
{
    parse_signed(raw)
}

/// Parses a five-character value field: trims surrounding spaces, parses the
/// rest as a signed integer, and maps the -9999 sentinel to "absent".
/// Fields up to nine characters are accepted, as for `parse_year`.
pub fn parse_value(raw: &str) -> (r: Result<Option<isize>, DecodeError>)
    requires
        raw@.len() <= 9,
    ensures
        r == spec_parse_value(raw@),
{
    let n: usize = raw.unicode_len();
    let mut lo: usize = 0;
    while lo < n && raw.get_char(lo) == ' '
        invariant
            0 <= lo <= n,
            n == raw@.len() <= 9,
            forall|k: int| 0 <= k < lo ==> raw@[k] == ' ',
        decreases n - lo,
    {
        lo = lo + 1;
    }
    let mut hi: usize = n;
    while hi > lo && raw.get_char(hi - 1) == ' '
        invariant
            lo <= hi <= n,
            n == raw@.len() <= 9,
            forall|k: int| hi <= k < n ==> raw@[k] == ' ',
            lo < n ==> raw@[lo as int] != ' ',
            lo < n ==> lo < hi,
        decreases hi,
    {
        hi = hi - 1;
    }
    let trimmed: &str = raw.substring_char(lo, hi);
    proof {
        lemma_trim_at(raw@, lo as int, hi as int);
    }
    match parse_signed(trimmed) {
        Err(_) => Err(DecodeError::MalformedNumber),
        Ok(v) => if v == ABSENT_SENTINEL {
            Ok(None)
        } else {
            Ok(Some(v))
        },
    }
}

proof fn lemma_spaces(n: int)
    ensures
        n >= 0 ==> spaces(n).len() == n,
        n <= 0 ==> spaces(n).len() == 0,
        forall|k: int| 0 <= k < spaces(n).len() ==> spaces(n)[k] == ' ',
    decreases n,
{
    if n > 0 {
        lemma_spaces(n - 1);
    }
}

proof fn lemma_dec_digits_val(n: int)
    requires
        n >= 0,
    ensures
        all_dec_digits(dec_digits(n)),
        dec_val(dec_digits(n)) == n,
        dec_digits(n).len() >= 1,
    decreases n,
{
    if n < 10 {
        let s = dec_digits(n);
        assert(s.drop_last() =~= Seq::<char>::empty());
        assert(dec_val(s) == 10 * dec_val(s.drop_last()) + digit_val(s.last()));
    } else {
        lemma_dec_digits_val(n / 10);
        let s = dec_digits(n);
        assert(s.drop_last() =~= dec_digits(n / 10));
        assert(s.last() == digit_char(n % 10));
        assert(dec_val(s) == 10 * (n / 10) + (n % 10));
    }
}

proof fn lemma_dec_digits_len(n: int, m: nat)
    requires
        m >= 1,
        0 <= n < pow10(m as nat),
    ensures
        dec_digits(n).len() <= m,
    decreases n,
{
    if n >= 10 {
        lemma_pow10_le(1nat, m);
        assert(pow10(1nat) == 10) by {
            reveal_with_fuel(pow10, 2);
        }
        assert(m >= 2);
        assert(pow10(m) == 10 * pow10((m - 1) as nat));
        lemma_dec_digits_len(n / 10, (m - 1) as nat);
    }
}

/// A digit character is never a space, a minus sign, or a plus sign.
proof fn lemma_digit_not_special(c: char)
    requires
        is_dec_digit(c),
    ensures
        c != ' ',
        c != '-',
        c != '+',
{
}

/// Rendering an integer into the five-character field and parsing it back
/// yields the integer again.
pub proof fn lemma_render_value_parses(v: int)
    requires
        -10000 < v <= 99999,
    ensures
        render_value(v).len() == 5,
        spec_parse_int(spec_trim(render_value(v))) == Some(v),
{
    let body = if v < 0 {
        seq!['-'] + dec_digits(-v)
    } else {
        dec_digits(v)
    };
    assert(pow10(5nat) == 100000 && pow10(4nat) == 10000) by {
        reveal_with_fuel(pow10, 6);
    }
    if v < 0 {
        lemma_dec_digits_val(-v);
        lemma_dec_digits_len(-v, 4nat);
    } else {
        lemma_dec_digits_val(v);
        lemma_dec_digits_len(v, 5nat);
    }
    assert(1 <= body.len() <= 5);
    let pad = 5 - body.len();
    lemma_spaces(pad);
    let s = render_value(v);
    assert(s.len() == 5);
    assert forall|k: int| 0 <= k < pad implies s[k] == ' ' by {
        assert(s[k] == spaces(pad)[k]);
    }
    if v < 0 {
        assert(body[0] == '-');
    } else {
        assert(is_dec_digit(body[0]));
        lemma_digit_not_special(body[0]);
    }
    assert(is_dec_digit(body[body.len() - 1]));
    lemma_digit_not_special(body[body.len() - 1]);
    assert(s[pad] == body[0]);
    assert(s[s.len() - 1] == body[body.len() - 1]);
    lemma_trim_at(s, pad, s.len() as int);
    assert(spec_trim(s) =~= body);
    if v < 0 {
        let digits = body.subrange(1, body.len() as int);
        assert(digits =~= dec_digits(-v));
        assert(spec_parse_int(body) == Some(-dec_val(digits)));
    } else {
        assert(!(body[0] == '-' || body[0] == '+'));
        assert(spec_parse_int(body) == Some(dec_val(body)));
    }
}

/// The full sentinel rule for a rendered field: every integer in range other
/// than the sentinel round-trips to "present", and the sentinel's own
/// rendering decodes to "absent".
pub proof fn lemma_render_value_round_trip(v: int)
    requires
        -10000 < v <= 99999,
    ensures
        v != ABSENT_SENTINEL ==> spec_parse_value(render_value(v))
            == Ok::<Option<isize>, DecodeError>(Some(v as isize)),
        v == ABSENT_SENTINEL ==> spec_parse_value(render_value(v))
            == Ok::<Option<isize>, DecodeError>(None),
{
    lemma_render_value_parses(v);
}

/// A value field holding spaces followed by exactly `-9999` decodes to
/// "absent", whatever the padding.
pub proof fn lemma_sentinel_absent(pad: Seq<char>)
    requires
        forall|k: int| 0 <= k < pad.len() ==> pad[k] == ' ',
    ensures
        spec_parse_value(pad + "-9999"@) == Ok::<Option<isize>, DecodeError>(None),
{
    reveal_strlit("-9999");
    let s = pad + "-9999"@;
    let lo = pad.len() as int;
    assert(s[lo] == '-');
    assert(s[s.len() - 1] == '9');
    lemma_trim_at(s, lo, s.len() as int);
    assert(spec_trim(s) =~= "-9999"@);
    lemma_dec_digits_val(9999);
    assert(dec_digits(9) =~= seq!['9']);
    assert(dec_digits(99) =~= dec_digits(9).push('9'));
    assert(dec_digits(999) =~= dec_digits(99).push('9'));
    assert(dec_digits(9999) =~= dec_digits(999).push('9'));
    let digits = "-9999"@.subrange(1, 5);
    assert(digits =~= dec_digits(9999));
    assert(spec_parse_int("-9999"@) == Some(-9999int));
}

/// The converse direction of the sentinel rule: a value field decodes to
/// "absent" only when the trimmed field parses to exactly the sentinel.
pub proof fn lemma_absent_only_sentinel(s: Seq<char>)
    ensures
        spec_parse_value(s) == Ok::<Option<isize>, DecodeError>(None)
            ==> spec_parse_int(spec_trim(s)) == Some(ABSENT_SENTINEL as int),
{
}

} // verus!
