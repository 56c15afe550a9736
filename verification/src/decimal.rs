//! Decimal text of integers: writing them as `to_string` does and reading
//! them back as `str::parse::<i32>` does.
use vstd::prelude::*;
use vstd::string::StringExecFns;

verus! {

/// The character of the decimal digit `d`.
pub open spec fn digit_char(d: int) -> char {
    (d + 48) as char
}

/// A character among `'0'..='9'`.
pub open spec fn is_digit(c: char) -> bool {
    '0' <= c <= '9'
}

/// The value of the digit character `c`.
pub open spec fn digit_value(c: char) -> int {
    c as int - 48
}

/// The decimal digits of `n`, most significant first, without leading zeros.
pub open spec fn digits_of(n: nat) -> Seq<char>
    decreases n,
{
    if n < 10 {
        seq![digit_char(n as int)]
    } else {
        digits_of(n / 10).push(digit_char((n % 10) as int))
    }
}

/// The decimal text of `v`: a minus sign for a negative number, then the digits.
pub open spec fn decimal_text(v: int) -> Seq<char> {
    if v < 0 {
        seq!['-'] + digits_of((-v) as nat)
    } else {
        digits_of(v as nat)
    }
}

/// All characters of `s` are digits.
pub open spec fn all_digits(s: Seq<char>) -> bool {
    forall|k: int| 0 <= k < s.len() ==> is_digit(#[trigger] s[k])
}

/// The number that the digit string `s` spells.
pub open spec fn digits_value(s: Seq<char>) -> int
    decreases s.len(),
{
    if s.len() == 0 {
        0
    } else {
        digits_value(s.drop_last()) * 10 + digit_value(s.last())
    }
}

/// The `i32` that `s` spells, as `str::parse::<i32>` reads it: an optional
/// `+` or `-` sign and then one or more ASCII digits, within the range of
/// `i32`; `None` for any other text.
pub open spec fn parse_i32_spec(s: Seq<char>) -> Option<i32> {
    let neg = s.len() > 0 && s[0] == '-';
    let signed = s.len() > 0 && (s[0] == '-' || s[0] == '+');
    let digits = if signed {
        s.drop_first()
    } else {
        s
    };
    if digits.len() == 0 || !all_digits(digits) {
        None
    } else {
        let v = if neg {
            -digits_value(digits)
        } else {
            digits_value(digits)
        };
        if i32::MIN <= v <= i32::MAX {
            Some(v as i32)
        } else {
            None
        }
    }
}

/// The one-character text of the digit `d`.
fn digit_str(d: u64) -> (r: &'static str)
    requires
        d < 10,
    ensures
        r@ == seq![digit_char(d as int)],
{
    proof {
        reveal_strlit("0");
        reveal_strlit("1");
        reveal_strlit("2");
        reveal_strlit("3");
        reveal_strlit("4");
        reveal_strlit("5");
        reveal_strlit("6");
        reveal_strlit("7");
        reveal_strlit("8");
        reveal_strlit("9");
    }
    match d {
        0 => "0",
        1 => "1",
        2 => "2",
        3 => "3",
        4 => "4",
        5 => "5",
        6 => "6",
        7 => "7",
        8 => "8",
        _ => "9",
    }
}

/// Appends the decimal digits of `n` to `s`.
fn push_digits(s: &mut String, n: u64)
    ensures
        final(s)@ == old(s)@ + digits_of(n as nat),
    decreases n,
{
    if n >= 10 {
        push_digits(s, n / 10);
    }
    s.append(digit_str(n % 10));
    proof {
        if n >= 10 {
            assert(digits_of(n as nat) == digits_of((n / 10) as nat).push(digit_char((n % 10) as int)));
        }
    }
}

/// The decimal text of `v`, as `v.to_string()` writes it.
pub fn format_i64(v: i64) -> (s: String)
    ensures
        s@ == decimal_text(v as int),
{
    let mut s = String::new();
    if v < 0 {
        s.append("-");
        let mag: u64 = if v == i64::MIN {
            0x8000_0000_0000_0000
        } else {
            (-v) as u64
        };
        push_digits(&mut s, mag);
        proof {
            reveal_strlit("-");
        }
    } else {
        push_digits(&mut s, v as u64);
    }
    s
}

/// The saturation bound of the digit scan: just above the magnitude of `i32::MIN`.
spec fn scan_cap() -> int {
    0x8000_0001
}

proof fn lemma_digits_value_nonnegative(s: Seq<char>)
    requires
        all_digits(s),
    ensures
        digits_value(s) >= 0,
    decreases s.len(),
{
    if s.len() > 0 {
        assert(is_digit(s[s.len() - 1]));
        lemma_digits_value_nonnegative(s.drop_last());
    }
}

/// Reads the `i32` spelled by `s[start..end]`, as `str::parse::<i32>` does.
pub fn parse_i32_chars(s: &Vec<char>, start: usize, end: usize) -> (r: Option<i32>)
    requires
        start <= end <= s.len(),
    ensures
        r == parse_i32_spec(s@.subrange(start as int, end as int)),
{
    let ghost t = s@.subrange(start as int, end as int);
    let mut i = start;
    let mut neg = false;
    if i < end && (s[i] == '-' || s[i] == '+') {
        neg = s[i] == '-';
        i = i + 1;
    }
    let ds = i;
    let ghost digits = s@.subrange(ds as int, end as int);
    assert(digits =~= (if t.len() > 0 && (t[0] == '-' || t[0] == '+') {
        t.drop_first()
    } else {
        t
    }));
    if ds == end {
        return None;
    }
    let mut mag: u64 = 0;
    while i < end
        invariant
            start <= ds <= i <= end <= s.len(),
            digits == s@.subrange(ds as int, end as int),
            t == s@.subrange(start as int, end as int),
            digits == (if t.len() > 0 && (t[0] == '-' || t[0] == '+') {
                t.drop_first()
            } else {
                t
            }),
            neg == (t.len() > 0 && t[0] == '-'),
            all_digits(s@.subrange(ds as int, i as int)),
            mag as int == (if digits_value(s@.subrange(ds as int, i as int)) < scan_cap() {
                digits_value(s@.subrange(ds as int, i as int))
            } else {
                scan_cap()
            }),
        decreases end - i,
    {
        let c = s[i];
        if !(c >= '0' && c <= '9') {
            assert(digits[i - ds] == c);
            assert(!is_digit(digits[i - ds]));
            return None;
        }
        let d = (c as u32 - 48) as u64;
        proof {
            let prev = s@.subrange(ds as int, i as int);
            let next = s@.subrange(ds as int, i + 1);
            assert(next.drop_last() =~= prev);
            assert(next.last() == c);
            lemma_digits_value_nonnegative(prev);
            assert forall|k: int| 0 <= k < next.len() implies is_digit(#[trigger] next[k]) by {
                if k < prev.len() {
                    assert(next[k] == prev[k]);
                }
            }
        }
        let grown = mag * 10 + d;
        mag = if grown < 0x8000_0001 {
            grown
        } else {
            0x8000_0001
        };
        i = i + 1;
    }
    assert(s@.subrange(ds as int, i as int) =~= digits);
    if neg {
        if mag <= 0x8000_0000 {
            Some((-(mag as i64)) as i32)
        } else {
            None
        }
    } else {
        if mag <= 0x7fff_ffff {
            Some(mag as i32)
        } else {
            None
        }
    }
}

/// The character of a digit is a digit and reads back as that digit.
pub proof fn lemma_digit_char_value(d: int)
    requires
        0 <= d < 10,
    ensures
        digit_value(digit_char(d)) == d,
        is_digit(digit_char(d)),
{
    assert((d + 48) as char as int == d + 48);
}

/// The decimal digits of a number are digits, at least one, and read back
/// as the number.
pub proof fn lemma_digits_of_reads_back(n: nat)
    ensures
        digits_of(n).len() > 0,
        all_digits(digits_of(n)),
        digits_value(digits_of(n)) == n,
    decreases n,
{
    lemma_digit_char_value((n % 10) as int);
    if n < 10 {
        assert(digits_of(n).drop_last() =~= Seq::<char>::empty());
        assert(n % 10 == n);
        assert(digits_value(digits_of(n)) == digits_value(Seq::<char>::empty()) * 10 + digit_value(
            digit_char(n as int),
        ));
    } else {
        lemma_digits_of_reads_back(n / 10);
        let d = digits_of(n);
        assert(d.drop_last() =~= digits_of(n / 10));
        assert forall|k: int| 0 <= k < d.len() implies is_digit(#[trigger] d[k]) by {
            if k < d.len() - 1 {
                assert(d[k] == digits_of(n / 10)[k]);
            }
        }
        assert(d.last() == digit_char((n % 10) as int));
        assert(n == (n / 10) * 10 + n % 10);
        assert(digits_value(d) == digits_value(d.drop_last()) * 10 + digit_value(d.last()));
    }
}

/// Reading back the decimal text of an `i32` gives the number that was
/// written.
pub proof fn lemma_parse_decimal_text(v: i32)
    ensures
        parse_i32_spec(decimal_text(v as int)) == Some(v),
{
    let t = decimal_text(v as int);
    if v < 0 {
        lemma_digits_of_reads_back((-v) as nat);
        assert(t.drop_first() =~= digits_of((-v) as nat));
    } else {
        lemma_digits_of_reads_back(v as nat);
        let d = digits_of(v as nat);
        assert(is_digit(d[0]));
    }
}

/// The characters of `text`, in order.
pub fn chars_of(text: &str) -> (v: Vec<char>)
    ensures
        v@ == text@,
{
    broadcast use vstd::string::group_string_axioms;

    let mut v: Vec<char> = Vec::new();
    for c in it: text.chars()
        invariant
            v@ == it.seq().take(it.index() as int),
    {
        v.push(c);
    }
    v
}

/// The characters that `char::is_whitespace` accepts (Unicode White_Space).
pub open spec fn is_whitespace(c: char) -> bool {
    let u = c as int;
    ||| 0x09 <= u <= 0x0d
    ||| u == 0x20
    ||| u == 0x85
    ||| u == 0xa0
    ||| u == 0x1680
    ||| 0x2000 <= u <= 0x200a
    ||| u == 0x2028
    ||| u == 0x2029
    ||| u == 0x202f
    ||| u == 0x205f
    ||| u == 0x3000
}

/// `s` without its leading whitespace.
pub open spec fn trim_start(s: Seq<char>) -> Seq<char>
    decreases s.len(),
{
    if s.len() > 0 && is_whitespace(s[0]) {
        trim_start(s.drop_first())
    } else {
        s
    }
}

/// `s` without its trailing whitespace.
pub open spec fn trim_end(s: Seq<char>) -> Seq<char>
    decreases s.len(),
{
    if s.len() > 0 && is_whitespace(s.last()) {
        trim_end(s.drop_last())
    } else {
        s
    }
}

/// `s` without leading and trailing whitespace, as `str::trim` gives it.
pub open spec fn trim(s: Seq<char>) -> Seq<char> {
    trim_end(trim_start(s))
}

/// The number in an edit box: its text, trimmed, read as an `i32`, and 0
/// where that fails.
pub open spec fn edit_int(text: Seq<char>) -> i32 {
    match parse_i32_spec(trim(text)) {
        Some(v) => v,
        None => 0,
    }
}

/// Whether `c` is whitespace.
pub fn char_is_whitespace(c: char) -> (b: bool)
    ensures
        b == is_whitespace(c),
{
    let u = c as u32;
    (0x09 <= u && u <= 0x0d) || u == 0x20 || u == 0x85 || u == 0xa0 || u == 0x1680 || (0x2000
        <= u && u <= 0x200a) || u == 0x2028 || u == 0x2029 || u == 0x202f || u == 0x205f || u
        == 0x3000
}

/// The bounds `[i, j)` of `v[start..end]` with leading and trailing
/// whitespace left out.
pub fn trim_bounds(v: &Vec<char>, start: usize, end: usize) -> (b: (usize, usize))
    requires
        start <= end <= v.len(),
    ensures
        start <= b.0 <= b.1 <= end,
        v@.subrange(b.0 as int, b.1 as int) == trim(v@.subrange(start as int, end as int)),
{
    let mut i = start;
    while i < end && char_is_whitespace(v[i])
        invariant
            start <= i <= end <= v.len(),
            trim_start(v@.subrange(start as int, end as int)) == trim_start(
                v@.subrange(i as int, end as int),
            ),
        decreases end - i,
    {
        assert(v@.subrange(i as int, end as int).drop_first() =~= v@.subrange(i + 1, end as int));
        i = i + 1;
    }
    assert(trim_start(v@.subrange(start as int, end as int)) == v@.subrange(i as int, end as int))
        by {
        if i < end {
            assert(v@.subrange(i as int, end as int)[0] == v@[i as int]);
        }
    }
    let mut j = end;
    while j > i && char_is_whitespace(v[j - 1])
        invariant
            start <= i <= j <= end <= v.len(),
            trim_end(v@.subrange(i as int, end as int)) == trim_end(
                v@.subrange(i as int, j as int),
            ),
        decreases j - i,
    {
        assert(v@.subrange(i as int, j as int).drop_last() =~= v@.subrange(i as int, j - 1));
        j = j - 1;
    }
    assert(trim_end(v@.subrange(i as int, j as int)) == v@.subrange(i as int, j as int)) by {
        if j > i {
            assert(v@.subrange(i as int, j as int).last() == v@[j - 1]);
        }
    }
    (i, j)
}

/// The number in an edit box whose text is `text`: trimmed and read as an
/// `i32`, or 0 where that fails.
pub fn parse_edit_int(text: &str) -> (v: i32)
    ensures
        v == edit_int(text@),
{
    let chars = chars_of(text);
    let (i, j) = trim_bounds(&chars, 0, chars.len());
    assert(chars@.subrange(0, chars@.len() as int) =~= text@);
    match parse_i32_chars(&chars, i, j) {
        Some(v) => v,
        None => 0,
    }
}

/// The decimal text of a number has no whitespace, no newline and no `=`:
/// it is a minus sign or a digit, followed by digits, and ends with a digit.
pub proof fn lemma_decimal_text_shape(v: int)
    ensures
        decimal_text(v).len() > 0,
        is_digit(decimal_text(v).last()),
        is_digit(decimal_text(v)[0]) || decimal_text(v)[0] == '-',
        forall|k: int|
            0 <= k < decimal_text(v).len() ==> is_digit(#[trigger] decimal_text(v)[k])
                || decimal_text(v)[k] == '-',
{
    if v < 0 {
        let d = digits_of((-v) as nat);
        lemma_digits_of_reads_back((-v) as nat);
        let t = decimal_text(v);
        assert forall|k: int| 0 <= k < t.len() implies is_digit(#[trigger] t[k]) || t[k] == '-' by {
            if k > 0 {
                assert(t[k] == d[k - 1]);
            }
        }
        assert(t.last() == d.last());
    } else {
        lemma_digits_of_reads_back(v as nat);
    }
}

/// An edit box that shows the decimal text of an `i32` reads back as that
/// number.
pub proof fn lemma_edit_int_of_decimal_text(v: i32)
    ensures
        edit_int(decimal_text(v as int)) == v,
{
    let t = decimal_text(v as int);
    lemma_decimal_text_shape(v as int);
    lemma_parse_decimal_text(v);
    assert(!is_whitespace(t[0]));
    assert(trim_start(t) == t);
    assert(!is_whitespace(t.last()));
    assert(trim_end(t) == t);
}

} // verus!
