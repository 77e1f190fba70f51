//! The number texts of the protocol, checked as `str::parse` reads them.
//!
//! std documents the texts that `usize::from_str` accepts (an optional `+` and
//! decimal digits, within range) and those that `f64::from_str` accepts, with the
//! grammar, once lowercased:
//!
//! ```text
//! Float  ::= Sign? ( 'inf' | 'infinity' | 'nan' | Number )
//! Number ::= ( Digit+ | Digit+ '.' Digit* | Digit* '.' Digit+ ) Exp?
//! Exp    ::= 'e' Sign? Digit+
//! Sign   ::= [+-]
//! Digit  ::= [0-9]
//! ```
use vstd::prelude::*;
use vstd::string::StrSliceExecFns;
use crate::text::{decimal_text, digit_char};

verus! {

pub const INT_ERR_EMPTY: &'static str = "cannot parse integer from empty string";

pub const INT_ERR_INVALID_DIGIT: &'static str = "invalid digit found in string";

pub const INT_ERR_TOO_LARGE: &'static str = "number too large to fit in target type";

pub const FLOAT_ERR_EMPTY: &'static str = "cannot parse float from empty string";

pub const FLOAT_ERR_INVALID: &'static str = "invalid float literal";

pub open spec fn is_digit_char(c: char) -> bool {
    '0' <= c <= '9'
}

pub open spec fn digit_value(c: char) -> nat {
    ((c as u32) - 48) as nat
}

/// Reads the digits `s[i..]` onto the value `acc`, left to right, stopping at the
/// first character that is not a digit or at the first overflow.
pub open spec fn usize_digits(s: Seq<char>, i: int, acc: nat) -> Result<usize, Seq<char>>
    decreases s.len() - i,
{
    if i < 0 || i >= s.len() {
        if acc <= usize::MAX {
            Ok(acc as usize)
        } else {
            Err(INT_ERR_TOO_LARGE@)
        }
    } else if !is_digit_char(s[i]) {
        Err(INT_ERR_INVALID_DIGIT@)
    } else if acc * 10 + digit_value(s[i]) > usize::MAX {
        Err(INT_ERR_TOO_LARGE@)
    } else {
        usize_digits(s, i + 1, acc * 10 + digit_value(s[i]))
    }
}

/// The value of `s` as `usize::from_str` reads it, or the text of its error.
pub open spec fn spec_parse_usize(s: Seq<char>) -> Result<usize, Seq<char>> {
    if s.len() == 0 {
        Err(INT_ERR_EMPTY@)
    } else if s[0] == '+' {
        if s.len() == 1 {
            Err(INT_ERR_INVALID_DIGIT@)
        } else {
            usize_digits(s, 1, 0)
        }
    } else {
        usize_digits(s, 0, 0)
    }
}

/// Reads a `usize` as `usize::from_str` does.
pub fn parse_usize(s: &str) -> (r: Result<usize, &'static str>)
    ensures
        match spec_parse_usize(s@) {
            Ok(v) => r == Ok::<usize, &'static str>(v),
            Err(t) => r is Err && r->Err_0@ == t,
        },
{
    let n = s.unicode_len();
    if n == 0 {
        return Err(INT_ERR_EMPTY);
    }
    let mut i: usize = 0;
    if s.get_char(0) == '+' {
        if n == 1 {
            return Err(INT_ERR_INVALID_DIGIT);
        }
        i = 1;
    }
    let ghost start = i as int;
    let mut acc: usize = 0;
    while i < n
        invariant
            n == s@.len(),
            start <= i <= n,
            start == 0 || start == 1,
            spec_parse_usize(s@) == usize_digits(s@, start, 0),
            usize_digits(s@, i as int, acc as nat) == usize_digits(s@, start, 0),
        decreases n - i,
    {
        let c = s.get_char(i);
        if !('0' <= c && c <= '9') {
            return Err(INT_ERR_INVALID_DIGIT);
        }
        let d = (c as u32 - 48) as usize;
        if acc > (usize::MAX - d) / 10 {
            assert(acc * 10 + d > usize::MAX) by (nonlinear_arith)
                requires
                    acc > (usize::MAX - d) / 10,
                    d <= 9,
            ;
            return Err(INT_ERR_TOO_LARGE);
        }
        assert(acc * 10 + d <= usize::MAX) by (nonlinear_arith)
            requires
                acc <= (usize::MAX - d) / 10,
                d <= 9,
        ;
        acc = acc * 10 + d;
        i = i + 1;
    }
    Ok(acc)
}

/// The number of digits in `s` from index `i` on.
pub open spec fn digit_run(s: Seq<char>, i: int) -> nat
    decreases s.len() - i,
{
    if 0 <= i < s.len() && is_digit_char(s[i]) {
        1 + digit_run(s, i + 1)
    } else {
        0
    }
}

/// Whether `c`, lowercased, is `w`.
pub open spec fn lowers_to(c: char, w: char) -> bool {
    if 'A' <= c <= 'Z' {
        (c as u32) + 32 == (w as u32)
    } else {
        c == w
    }
}

/// Whether `s`, lowercased, is `word`.
pub open spec fn equals_ignoring_case(s: Seq<char>, word: Seq<char>) -> bool {
    s.len() == word.len() && forall|k: int| 0 <= k < s.len() ==> lowers_to(#[trigger] s[k], word[k])
}

/// Whether the exponent part `s[i..]` (starting at the `e`) is well formed.
pub open spec fn exponent_ok(s: Seq<char>, i: int) -> bool {
    let j = if i + 1 < s.len() && (s[i + 1] == '+' || s[i + 1] == '-') {
        i + 2
    } else {
        i + 1
    };
    i < s.len() && (s[i] == 'e' || s[i] == 'E') && digit_run(s, j) > 0 && j + digit_run(s, j) == s.len()
}

/// Whether `s` is a `Number` of the grammar.
pub open spec fn decimal_number_ok(s: Seq<char>) -> bool {
    let a = digit_run(s, 0) as int;
    if a < s.len() && s[a] == '.' {
        let b = digit_run(s, a + 1) as int;
        let q = a + 1 + b;
        (a > 0 || b > 0) && (q == s.len() || exponent_ok(s, q))
    } else {
        a > 0 && (a == s.len() || exponent_ok(s, a))
    }
}

/// Whether `s` is a `Float` of the grammar.
pub open spec fn float_text_ok(s: Seq<char>) -> bool {
    let t = if s.len() > 0 && (s[0] == '+' || s[0] == '-') {
        s.drop_first()
    } else {
        s
    };
    equals_ignoring_case(t, "inf"@) || equals_ignoring_case(t, "infinity"@) || equals_ignoring_case(
        t,
        "nan"@,
    ) || decimal_number_ok(t)
}

/// The text of the error of `f64::from_str` on `s`, if it fails.
pub open spec fn spec_check_float(s: Seq<char>) -> Option<Seq<char>> {
    if s.len() == 0 {
        Some(FLOAT_ERR_EMPTY@)
    } else if float_text_ok(s) {
        None
    } else {
        Some(FLOAT_ERR_INVALID@)
    }
}

/// The number of digits of `s` from character `i` on.
fn count_digits(s: &str, n: usize, i: usize) -> (r: usize)
    requires
        n == s@.len(),
        i <= n,
    ensures
        r == digit_run(s@, i as int),
        i + r <= n,
{
    let mut j = i;
    while j < n
        invariant
            n == s@.len(),
            i <= j <= n,
            digit_run(s@, i as int) == (j - i) + digit_run(s@, j as int),
        decreases n - j,
    {
        let c = s.get_char(j);
        if !('0' <= c && c <= '9') {
            return j - i;
        }
        j = j + 1;
    }
    j - i
}

/// Whether the characters of `s` from `from` on, lowercased, spell `word`.
fn rest_equals_ignoring_case(s: &str, n: usize, from: usize, word: &str) -> (r: bool)
    requires
        n == s@.len(),
        from <= n,
    ensures
        r == equals_ignoring_case(s@.skip(from as int), word@),
{
    let m = word.unicode_len();
    if n - from != m {
        return false;
    }
    let mut k: usize = 0;
    while k < m
        invariant
            n == s@.len(),
            m == word@.len(),
            from <= n,
            n - from == m,
            k <= m,
            forall|q: int| 0 <= q < k ==> lowers_to(#[trigger] s@.skip(from as int)[q], word@[q]),
        decreases m - k,
    {
        let c = s.get_char(from + k);
        let w = word.get_char(k);
        let same = if 'A' <= c && c <= 'Z' {
            (c as u32) + 32 == (w as u32)
        } else {
            c == w
        };
        assert(s@.skip(from as int)[k as int] == c);
        if !same {
            assert(!lowers_to(s@.skip(from as int)[k as int], word@[k as int]));
            return false;
        }
        k = k + 1;
    }
    true
}

/// Checks `s` as `f64::from_str` reads it, giving the text of its error when it
/// would fail.
pub fn check_float(s: &str) -> (r: Option<&'static str>)
    ensures
        match spec_check_float(s@) {
            None => r is None,
            Some(t) => r is Some && r->Some_0@ == t,
        },
{
    let n = s.unicode_len();
    if n == 0 {
        return Some(FLOAT_ERR_EMPTY);
    }
    let first = s.get_char(0);
    let start: usize = if first == '+' || first == '-' {
        1
    } else {
        0
    };
    let ghost t = if s@.len() > 0 && (s@[0] == '+' || s@[0] == '-') {
        s@.drop_first()
    } else {
        s@
    };
    assert(t =~= s@.skip(start as int));
    if rest_equals_ignoring_case(s, n, start, "inf") || rest_equals_ignoring_case(s, n, start, "infinity")
        || rest_equals_ignoring_case(s, n, start, "nan") {
        return None;
    }
    let ok = decimal_number_at(s, n, start);
    if ok {
        None
    } else {
        Some(FLOAT_ERR_INVALID)
    }
}

proof fn lemma_digit_run_shift(s: Seq<char>, k: int, i: int)
    requires
        0 <= k <= s.len(),
        0 <= i,
    ensures
        digit_run(s.skip(k), i) == digit_run(s, k + i),
    decreases s.len() - k - i,
{
    if 0 <= i < s.len() - k && is_digit_char(s[k + i]) {
        lemma_digit_run_shift(s, k, i + 1);
    }
}

/// Whether the characters of `s` from `k` on form a `Number` of the grammar.
fn decimal_number_at(s: &str, n: usize, k: usize) -> (r: bool)
    requires
        n == s@.len(),
        k <= n,
    ensures
        r == decimal_number_ok(s@.skip(k as int)),
{
    let ghost t = s@.skip(k as int);
    let a = count_digits(s, n, k);
    proof {
        lemma_digit_run_shift(s@, k as int, 0);
    }
    let mut q = k + a;
    let mut mantissa_ok = a > 0;
    if q < n && s.get_char(q) == '.' {
        let b = count_digits(s, n, q + 1);
        proof {
            lemma_digit_run_shift(s@, k as int, a + 1);
        }
        mantissa_ok = a > 0 || b > 0;
        q = q + 1 + b;
    }
    if !mantissa_ok {
        return false;
    }
    if q == n {
        return true;
    }
    let e = s.get_char(q);
    if !(e == 'e' || e == 'E') {
        return false;
    }
    let mut j = q + 1;
    if j < n {
        let sg = s.get_char(j);
        if sg == '+' || sg == '-' {
            j = j + 1;
        }
    }
    let c = count_digits(s, n, j);
    proof {
        lemma_digit_run_shift(s@, k as int, (j - k) as int);
    }
    c > 0 && j + c == n
}

/// The value of a sequence of decimal digits.
pub open spec fn digits_value(s: Seq<char>) -> nat
    decreases s.len(),
{
    if s.len() == 0 {
        0
    } else {
        digits_value(s.drop_last()) * 10 + digit_value(s.last())
    }
}

/// Every character of `s` is a decimal digit.
pub open spec fn all_digit_chars(s: Seq<char>) -> bool {
    forall|i: int| 0 <= i < s.len() ==> is_digit_char(#[trigger] s[i])
}

/// The decimal numeral of `n` is a nonempty sequence of digits whose value is `n`.
pub proof fn lemma_decimal_text(n: nat)
    ensures
        decimal_text(n).len() > 0,
        all_digit_chars(decimal_text(n)),
        digits_value(decimal_text(n)) == n,
    decreases n,
{
    let d = n % 10;
    assert(((48 + d) as char) as u32 == 48 + d);
    assert(digit_value(digit_char(d)) == d);
    let s = decimal_text(n);
    if n >= 10 {
        assert((n / 10) * 10 + n % 10 == n) by (nonlinear_arith);
        lemma_decimal_text(n / 10);
        let t = decimal_text(n / 10);
        assert(s == t.push(digit_char(d)));
        assert(s.drop_last() =~= t);
        assert(s.last() == digit_char(d));
        assert(digits_value(s) == digits_value(t) * 10 + d);
        assert forall|i: int| 0 <= i < s.len() implies is_digit_char(#[trigger] s[i]) by {
            if i < t.len() {
                assert(s[i] == t[i]);
            }
        }
    } else {
        assert(d == n);
        assert(s == seq![digit_char(n)]);
        assert(s.drop_last() =~= Seq::<char>::empty());
        assert(digits_value(s.drop_last()) == 0);
        assert(digits_value(s) == digits_value(s.drop_last()) * 10 + digit_value(s.last()));
    }
}

/// The value of a prefix of digits is at most the value of the whole.
proof fn lemma_digits_value_prefix(s: Seq<char>, i: int)
    requires
        0 <= i <= s.len(),
    ensures
        digits_value(s.take(i)) <= digits_value(s),
    decreases s.len(),
{
    if i < s.len() {
        lemma_digits_value_prefix(s.drop_last(), i);
        assert(s.drop_last().take(i) =~= s.take(i));
    } else {
        assert(s.take(i) =~= s);
    }
}

/// Reading the digits of `s` from `i` on, onto the value of those before `i`, gives
/// the value of `s`, when it fits.
proof fn lemma_usize_digits_value(s: Seq<char>, i: int)
    requires
        0 <= i <= s.len(),
        all_digit_chars(s),
        digits_value(s) <= usize::MAX,
    ensures
        usize_digits(s, i, digits_value(s.take(i))) == Ok::<usize, Seq<char>>(digits_value(s) as usize),
    decreases s.len() - i,
{
    if i < s.len() {
        assert(s.take(i + 1).drop_last() =~= s.take(i));
        assert(s.take(i + 1).last() == s[i]);
        lemma_digits_value_prefix(s, i + 1);
        lemma_usize_digits_value(s, i + 1);
    } else {
        assert(s.take(i) =~= s);
    }
}

/// Reading the decimal numeral of a `usize` gives it back.
pub proof fn lemma_parse_decimal_text(n: usize)
    ensures
        spec_parse_usize(decimal_text(n as nat)) == Ok::<usize, Seq<char>>(n),
{
    let s = decimal_text(n as nat);
    lemma_decimal_text(n as nat);
    assert(is_digit_char(s[0]));
    assert(s.take(0) =~= Seq::<char>::empty());
    lemma_usize_digits_value(s, 0);
}

} // verus!
