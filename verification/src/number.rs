//! `printf`-style number formats with the INDI sexagesimal extension.
//!
//! From the INDI Protocol reference documentation:
//!
//! > The format of a numberValue shall be any one of integer, real or sexagesimal;
//! > each sexagesimal separator shall be any one of space( ), colon (:) or
//! > semicolon (;); each sexagesimal component specified shall be integer or real;
//! > unspecified components shall default to 0; negative values shall be indicated
//! > with a leading hyphen (-).
//!
//! A number format follows the template `%[flags][width][.precision][length]specifier`.
//! Sexagesimals use the `m` specifier in the form `%<w>.<f>m`, where `<f>` is one of
//! 3 (`:mm`), 5 (`:mm.m`), 6 (`:mm:ss`), 8 (`:mm:ss.s`) or 9 (`:mm:ss.ss`) and the
//! total width `<w>` is at least `<f>`.
use vstd::prelude::*;
use vstd::string::StringSliceAdditionalSpecFns;
use crate::text::{decimal_text, push_char, push_decimal};

verus! {

pub const FMT_ERR_TRAILING_CHARACTERS_AFTER_FORMAT: &'static str = "trailing character(s) after format";

pub const FMT_ERR_FIRST_CHARACTER_MUST_BE_A_PERCENT_SIGN: &'static str = "first character must be a percent sign";

pub const FMT_ERR_FORMAT_MUST_ONLY_CONTAIN_ONE_PERIOD: &'static str = "format must only contain one period";

pub const FMT_ERR_LENGTH: &'static str = "length error";

pub const FMT_ERR_NO_FORMAT_SPECIFIER: &'static str = "no format specifier";

pub const FMT_ERR_PREMATURE_END_OF_FORMAT_STRING: &'static str = "premature end of format string";

pub const FMT_ERR_ZERO_LENGTH_BUFFER: &'static str = "zero length buffer";

pub const FMT_ERR_SEXAGESIMAL_FRACTION_MUST_BE_3_5_6_8_OR_9: &'static str = "sexagesimal fraction must be 3, 5, 6, 8 or 9";

pub const FMT_ERR_SEXAGESIMAL_FORMAT_MUST_SPECIFY_WIDTH: &'static str = "sexagesimal format must spefify width";

pub const FMT_ERR_SEXAGESIMAL_FORMAT_MUST_SPECIFY_PRECISION: &'static str = "sexagesimal format must spefify precision";

pub const FMT_ERR_SEXAGESIMAL_WIDTH_MUST_EQUAL_OR_EXCEED_PRECISION: &'static str = "sexagesimal width must equal or exceed precision";

pub const FMT_ERR_UNKNOWN_FORMAT_SPECIFIER: &'static str = "unknown format specifier";

pub const FMT_ERR_UNSUPORTED_PRINTF_FORMAT: &'static str = "unsuported printf format";

pub const FMT_ERR_COULD_NOT_PARSE_INT: &'static str = "could not parse int";

pub const FMT_ERR_BEGIN_INDEX_AFTER_END_INDEX: &'static str = "begin index must smaller than end index";

/// The error of a failed number format parse: a message and the byte index at which
/// parsing stopped.
#[derive(Debug, PartialEq, Eq, Clone, Copy)]
pub struct ParseError {
    pub msg: &'static str,
    pub index: usize,
}

/// The error with message `msg` at byte index `i`.
pub open spec fn perr(msg: &'static str, i: int) -> ParseError {
    ParseError { msg, index: i as usize }
}

impl ParseError {
    pub fn new(msg: &'static str, index: usize) -> (r: ParseError)
        ensures
            r == (ParseError { msg, index }),
    {
        ParseError { msg, index }
    }

    pub open spec fn spec_msg(&self) -> &'static str {
        self.msg
    }

    pub open spec fn spec_index(&self) -> usize {
        self.index
    }

    pub fn msg(&self) -> (r: &'static str)
        ensures
            r == self.msg,
    {
        self.msg
    }

    pub fn index(&self) -> (r: usize)
        ensures
            r == self.index,
    {
        self.index
    }
}

/// The `printf` flags of a number format, one bit per flag.
#[derive(Debug, PartialEq, Eq, Clone, Copy)]
pub struct FormatFlags(pub u8);

/// Left justify the number within the width.
pub const FLAG_MINUS: u8 = 1;

/// Prefix positive numbers with a plus sign.
pub const FLAG_PLUS: u8 = 2;

/// Prefix with space if no sign is printed.
pub const FLAG_SPACE: u8 = 4;

/// Prefix octal and hex or always use a decimal point for floats.
pub const FLAG_HASH: u8 = 8;

/// Zero left pad number up until width.
pub const FLAG_ZERO: u8 = 16;

impl FormatFlags {
    pub const MINUS: u8 = 1;

    pub const PLUS: u8 = 2;

    pub const SPACE: u8 = 4;

    pub const HASH: u8 = 8;

    pub const ZERO: u8 = 16;

    /// Whether the bit `mask` is set.
    pub open spec fn has(self, mask: u8) -> bool {
        self.0 & mask != 0
    }

    pub fn minus_flag(&self) -> (r: bool)
        ensures
            r == self.has(FLAG_MINUS),
    {
        self.0 & FLAG_MINUS != 0
    }

    pub fn plus_flag(&self) -> (r: bool)
        ensures
            r == self.has(FLAG_PLUS),
    {
        self.0 & FLAG_PLUS != 0
    }

    pub fn space_flag(&self) -> (r: bool)
        ensures
            r == self.has(FLAG_SPACE),
    {
        self.0 & FLAG_SPACE != 0
    }

    pub fn hash_flag(&self) -> (r: bool)
        ensures
            r == self.has(FLAG_HASH),
    {
        self.0 & FLAG_HASH != 0
    }

    pub fn zero_flag(&self) -> (r: bool)
        ensures
            r == self.has(FLAG_ZERO),
    {
        self.0 & FLAG_ZERO != 0
    }

    /// The bits with `mask` set when `on`, cleared otherwise.
    pub open spec fn with_bit(self, mask: u8, on: bool) -> FormatFlags {
        if on {
            FormatFlags(self.0 | mask)
        } else {
            FormatFlags(self.0 & !mask)
        }
    }

    pub fn set_minus_flag(&mut self, on: bool)
        ensures
            *final(self) == old(self).with_bit(FLAG_MINUS, on),
    {
        if on {
            self.0 = self.0 | FLAG_MINUS;
        } else {
            self.0 = self.0 & !FLAG_MINUS;
        }
    }

    pub fn set_plus_flag(&mut self, on: bool)
        ensures
            *final(self) == old(self).with_bit(FLAG_PLUS, on),
    {
        if on {
            self.0 = self.0 | FLAG_PLUS;
        } else {
            self.0 = self.0 & !FLAG_PLUS;
        }
    }

    pub fn set_space_flag(&mut self, on: bool)
        ensures
            *final(self) == old(self).with_bit(FLAG_SPACE, on),
    {
        if on {
            self.0 = self.0 | FLAG_SPACE;
        } else {
            self.0 = self.0 & !FLAG_SPACE;
        }
    }

    pub fn set_hash_flag(&mut self, on: bool)
        ensures
            *final(self) == old(self).with_bit(FLAG_HASH, on),
    {
        if on {
            self.0 = self.0 | FLAG_HASH;
        } else {
            self.0 = self.0 & !FLAG_HASH;
        }
    }

    pub fn set_zero_flag(&mut self, on: bool)
        ensures
            *final(self) == old(self).with_bit(FLAG_ZERO, on),
    {
        if on {
            self.0 = self.0 | FLAG_ZERO;
        } else {
            self.0 = self.0 & !FLAG_ZERO;
        }
    }
}

/// The `printf` length modifier of a number format.
#[derive(Debug, PartialEq, Eq, Clone, Copy)]
#[allow(non_camel_case_types)]
pub enum FormatLength {
    hh,
    h,
    l,
    ll,
    j,
    z,
    t,
    L,
}

/// A `printf` C-style format specifier with support for the INDI sexagesimal extension.
#[derive(Debug, PartialEq, Eq, Clone, Copy)]
pub struct NumberFormat {
    /// The flags, `None` when no flag is given.
    pub f: Option<FormatFlags>,
    /// The minimum field width.
    pub w: Option<usize>,
    /// The precision (for sexagesimals, the width of the fraction).
    pub p: Option<usize>,
    /// The length modifier.
    pub l: Option<FormatLength>,
    /// The conversion specifier.
    pub s: char,
}

// ---------------------------------------------------------------------------
// The grammar of a number format, byte by byte
// ---------------------------------------------------------------------------

pub open spec fn is_digit(b: u8) -> bool {
    48u8 <= b <= 57u8
}

pub open spec fn is_flag_byte(b: u8) -> bool {
    b == 45u8 || b == 43u8 || b == 32u8 || b == 35u8 || b == 48u8
}

/// The flag bit that a flag character sets.
pub open spec fn flag_mask(b: u8) -> u8 {
    if b == 45u8 {
        FLAG_MINUS
    } else if b == 43u8 {
        FLAG_PLUS
    } else if b == 32u8 {
        FLAG_SPACE
    } else if b == 35u8 {
        FLAG_HASH
    } else if b == 48u8 {
        FLAG_ZERO
    } else {
        0
    }
}

/// Scans the flags from index `i` with the bits `acc` collected so far; gives the
/// index of the first byte that is not a flag and the collected bits.
pub open spec fn scan_flags(s: Seq<u8>, i: int, acc: u8) -> Result<(int, u8), ParseError>
    decreases s.len() - i,
{
    if 0 <= i < s.len() {
        if is_flag_byte(s[i]) {
            scan_flags(s, i + 1, acc | flag_mask(s[i]))
        } else if s[i] == 0 {
            Err(perr(FMT_ERR_PREMATURE_END_OF_FORMAT_STRING, i))
        } else {
            Ok((i, acc))
        }
    } else {
        Ok((i, acc))
    }
}

/// The decimal value of the digits `s[i..j]`.
pub open spec fn decimal_value(s: Seq<u8>, i: int, j: int) -> nat
    decreases j - i,
{
    if j <= i {
        0
    } else {
        decimal_value(s, i, j - 1) * 10 + ((s[j - 1] - 48u8) as nat)
    }
}

pub open spec fn all_digits(s: Seq<u8>, i: int, j: int) -> bool {
    forall|k: int| i <= k < j ==> #[trigger] is_digit(s[k])
}

/// The number that the digits `s[i..j]` spell, as `str::parse::<usize>` reads it.
pub open spec fn spec_format_number(s: Seq<u8>, i: int, j: int) -> Result<usize, ParseError> {
    if i > j {
        Err(perr(FMT_ERR_BEGIN_INDEX_AFTER_END_INDEX, i))
    } else if i == j {
        Err(perr(FMT_ERR_COULD_NOT_PARSE_INT, 0))
    } else if decimal_value(s, i, j) <= usize::MAX {
        Ok(decimal_value(s, i, j) as usize)
    } else {
        Err(perr(FMT_ERR_COULD_NOT_PARSE_INT, 0))
    }
}

/// The width before a period at `i`, where the width digits began at `start`: none
/// when there are no digits, since the width is optional.
pub open spec fn spec_parse_width(s: Seq<u8>, flags: Option<FormatFlags>, start: int, i: int) -> Result<
    Option<usize>,
    ParseError,
> {
    if i == start {
        Ok(None)
    } else {
        match spec_format_number(s, start, i) {
            Ok(n) => Ok(Some(n)),
            Err(e) => Err(e),
        }
    }
}

/// Whether a sexagesimal format lacks the width it needs before its period: there is
/// a period, no width digits before it and no zero flag.
pub open spec fn lacks_sexagesimal_width(flags: Option<FormatFlags>, dot: bool, w: Option<usize>) -> bool {
    &&& dot
    &&& w is None
    &&& !(flags matches Some(f) && f.has(FLAG_ZERO))
}

/// Scans width digits, at most one period and precision digits from index `i`;
/// `start` is where the current run of digits began.
pub open spec fn scan_width_precision(
    s: Seq<u8>,
    flags: Option<FormatFlags>,
    i: int,
    start: int,
    dot: bool,
    width: Option<usize>,
) -> Result<(int, int, bool, Option<usize>), ParseError>
    decreases s.len() - i,
{
    if 0 <= i < s.len() {
        if is_digit(s[i]) {
            scan_width_precision(s, flags, i + 1, start, dot, width)
        } else if s[i] == 46u8 {
            if dot {
                Err(perr(FMT_ERR_FORMAT_MUST_ONLY_CONTAIN_ONE_PERIOD, i))
            } else {
                match spec_parse_width(s, flags, start, i) {
                    Ok(w) => scan_width_precision(s, flags, i + 1, i + 1, true, w),
                    Err(e) => Err(e),
                }
            }
        } else if s[i] == 0 {
            Err(perr(FMT_ERR_PREMATURE_END_OF_FORMAT_STRING, i))
        } else {
            Ok((i, start, dot, width))
        }
    } else {
        Ok((i, start, dot, width))
    }
}

/// The width and precision once the digits end at `i`.
pub open spec fn finish_width_precision(
    s: Seq<u8>,
    i: int,
    start: int,
    dot: bool,
    width: Option<usize>,
) -> Result<(Option<usize>, Option<usize>), ParseError> {
    if i > start {
        match spec_format_number(s, start, i) {
            Ok(n) => if width is None && !dot {
                Ok((Some(n), None))
            } else {
                Ok((width, Some(n)))
            },
            Err(e) => Err(e),
        }
    } else {
        Ok((width, None))
    }
}

/// Scans the length modifier from index `i`.
pub open spec fn scan_length(s: Seq<u8>, i: int, len: Option<FormatLength>) -> Result<
    (int, Option<FormatLength>),
    ParseError,
>
    decreases s.len() - i,
{
    if 0 <= i < s.len() {
        let c = s[i];
        if c == 104u8 {
            match len {
                None => scan_length(s, i + 1, Some(FormatLength::h)),
                Some(FormatLength::h) => scan_length(s, i + 1, Some(FormatLength::hh)),
                Some(_) => Err(perr(FMT_ERR_LENGTH, i)),
            }
        } else if c == 108u8 {
            match len {
                None => scan_length(s, i + 1, Some(FormatLength::l)),
                Some(FormatLength::l) => scan_length(s, i + 1, Some(FormatLength::ll)),
                Some(_) => Err(perr(FMT_ERR_LENGTH, i)),
            }
        } else if c == 106u8 || c == 122u8 || c == 116u8 || c == 76u8 {
            match len {
                None => scan_length(s, i + 1, Some(single_length(c))),
                Some(_) => Err(perr(FMT_ERR_LENGTH, i)),
            }
        } else if c == 0 {
            Err(perr(FMT_ERR_PREMATURE_END_OF_FORMAT_STRING, i))
        } else {
            Ok((i, len))
        }
    } else {
        Ok((i, len))
    }
}

/// The length modifier that one of `j`, `z`, `t` and `L` stands for.
pub open spec fn single_length(c: u8) -> FormatLength {
    if c == 106u8 {
        FormatLength::j
    } else if c == 122u8 {
        FormatLength::z
    } else if c == 116u8 {
        FormatLength::t
    } else {
        FormatLength::L
    }
}

pub open spec fn is_sexagesimal_fraction(p: usize) -> bool {
    p == 3 || p == 5 || p == 6 || p == 8 || p == 9
}

/// The checks of a sexagesimal format, reported at index `i`.
pub open spec fn spec_validate_sexagesimal(i: int, w: Option<usize>, p: Option<usize>) -> Result<
    (),
    ParseError,
> {
    match p {
        None => Err(perr(FMT_ERR_SEXAGESIMAL_FORMAT_MUST_SPECIFY_PRECISION, i)),
        Some(pv) => if !is_sexagesimal_fraction(pv) {
            Err(perr(FMT_ERR_SEXAGESIMAL_FRACTION_MUST_BE_3_5_6_8_OR_9, i))
        } else {
            match w {
                None => Err(perr(FMT_ERR_SEXAGESIMAL_FORMAT_MUST_SPECIFY_WIDTH, i)),
                Some(wv) => if wv < pv {
                    Err(perr(FMT_ERR_SEXAGESIMAL_WIDTH_MUST_EQUAL_OR_EXCEED_PRECISION, i))
                } else {
                    Ok(())
                },
            }
        },
    }
}

pub open spec fn is_numeric_specifier(c: u8) -> bool {
    c == 100u8 || c == 105u8 || c == 117u8 || c == 111u8 || c == 120u8 || c == 88u8 || c == 102u8
        || c == 70u8 || c == 101u8 || c == 69u8 || c == 103u8 || c == 71u8 || c == 97u8 || c
        == 65u8
}

pub open spec fn is_unsupported_specifier(c: u8) -> bool {
    c == 99u8 || c == 115u8 || c == 112u8 || c == 110u8 || c == 37u8
}

/// The check of the specifier at index `i`.
pub open spec fn spec_check_specifier(s: Seq<u8>, i: int, w: Option<usize>, p: Option<usize>) -> Result<
    (),
    ParseError,
> {
    let c = s[i];
    if is_numeric_specifier(c) {
        Ok(())
    } else if c == 109u8 {
        spec_validate_sexagesimal(i, w, p)
    } else if is_unsupported_specifier(c) {
        Err(perr(FMT_ERR_UNSUPORTED_PRINTF_FORMAT, i))
    } else if c == 0 {
        Err(perr(FMT_ERR_PREMATURE_END_OF_FORMAT_STRING, i))
    } else {
        Err(perr(FMT_ERR_UNKNOWN_FORMAT_SPECIFIER, i))
    }
}

/// The number format that the bytes `s` spell, or the error at which parsing stops.
pub open spec fn spec_parse_number_format(s: Seq<u8>) -> Result<NumberFormat, ParseError> {
    if s.len() == 0 {
        Err(perr(FMT_ERR_ZERO_LENGTH_BUFFER, 1))
    } else if s[0] != 37u8 {
        Err(perr(FMT_ERR_FIRST_CHARACTER_MUST_BE_A_PERCENT_SIGN, 0))
    } else {
        match scan_flags(s, 1, 0) {
            Err(e) => Err(e),
            Ok((i1, bits)) => {
                let flags = if bits == 0 {
                    None
                } else {
                    Some(FormatFlags(bits))
                };
                match scan_width_precision(s, flags, i1, i1, false, None) {
                    Err(e) => Err(e),
                    Ok((i2, start, dot, width)) => match finish_width_precision(
                        s,
                        i2,
                        start,
                        dot,
                        width,
                    ) {
                        Err(e) => Err(e),
                        Ok((w, p)) => match scan_length(s, i2, None) {
                            Err(e) => Err(e),
                            Ok((i3, l)) => if i3 == s.len() {
                                Err(perr(FMT_ERR_NO_FORMAT_SPECIFIER, i3))
                            } else {
                                if s[i3] == 109u8 && lacks_sexagesimal_width(flags, dot, w) {
                                    Err(perr(FMT_ERR_SEXAGESIMAL_FORMAT_MUST_SPECIFY_WIDTH, start - 1))
                                } else {
                                match spec_check_specifier(s, i3, w, p) {
                                    Err(e) => Err(e),
                                    Ok(_) => if i3 + 1 != s.len() && s[i3 + 1] != 0 {
                                        Err(perr(FMT_ERR_TRAILING_CHARACTERS_AFTER_FORMAT, i3 + 1))
                                    } else {
                                        Ok(NumberFormat { f: flags, w, p, l, s: s[i3] as char })
                                    },
                                }
                                }
                            },
                        },
                    },
                }
            },
        }
    }
}

impl NumberFormat {
    /// A sexagesimal format names a fraction of 3, 5, 6, 8 or 9 and a width of at
    /// least that fraction.
    pub open spec fn is_valid_sexagesimal(&self) -> bool {
        &&& self.p matches Some(p)
        &&& is_sexagesimal_fraction(p)
        &&& self.w matches Some(w)
        &&& w >= p
    }
}

/// Every sexagesimal format that parses names a valid fraction and a width that
/// covers it.
pub proof fn lemma_parsed_sexagesimal_is_valid(s: Seq<u8>)
    ensures
        spec_parse_number_format(s) matches Ok(f) ==> (f.s == 'm' ==> f.is_valid_sexagesimal()),
{
}

// ---------------------------------------------------------------------------
// The formats that parse
// ---------------------------------------------------------------------------

/// The flag bits that a run of flag bytes sets.
pub open spec fn flag_bits(f: Seq<u8>) -> u8
    decreases f.len(),
{
    if f.len() == 0 {
        0
    } else {
        flag_mask(f[0]) | flag_bits(f.drop_first())
    }
}

/// The bytes of a length modifier as a format writes it: `hh`, `h`, `l`, `ll`, `j`,
/// `z`, `t` or `L`, or nothing.
pub open spec fn length_bytes(l: Option<FormatLength>) -> Seq<u8> {
    match l {
        None => Seq::empty(),
        Some(FormatLength::hh) => seq![104u8, 104u8],
        Some(FormatLength::h) => seq![104u8],
        Some(FormatLength::l) => seq![108u8],
        Some(FormatLength::ll) => seq![108u8, 108u8],
        Some(FormatLength::j) => seq![106u8],
        Some(FormatLength::z) => seq![122u8],
        Some(FormatLength::t) => seq![116u8],
        Some(FormatLength::L) => seq![76u8],
    }
}

/// A format spelled from its parts: `%`, the flag bytes, the width digits, a period
/// and the precision digits where a precision part is given, the length modifier and
/// the conversion byte.
pub open spec fn format_bytes(
    flags: Seq<u8>,
    width: Seq<u8>,
    precision: Option<Seq<u8>>,
    l: Option<FormatLength>,
    c: u8,
) -> Seq<u8> {
    seq![37u8] + flags + width + precision_bytes(precision) + length_bytes(l) + seq![c]
}

/// The number that a run of decimal digits spells; none for no digits.
pub open spec fn digits_value(d: Seq<u8>) -> Option<usize> {
    if d.len() == 0 {
        None
    } else {
        Some(decimal_value(d, 0, d.len() as int) as usize)
    }
}

/// Every numeric `printf` conversion, `d`, `i`, `u`, `o`, `x`, `X`, `f`, `F`, `e`,
/// `E`, `g`, `G`, `a` and `A`, parses after any well-formed prefix: flags, a width
/// that does not begin with `0` (a leading `0` is the zero flag), an optional period
/// with precision digits, and a length modifier. The format holds those flags, the
/// width and precision that the digits spell (none where there are no digits), the
/// length modifier and the conversion itself.
pub proof fn lemma_numeric_conversions_parse(
    flags: Seq<u8>,
    width: Seq<u8>,
    precision: Option<Seq<u8>>,
    l: Option<FormatLength>,
    c: char,
)
    requires
        forall|k: int| 0 <= k < flags.len() ==> is_flag_byte(#[trigger] flags[k]),
        forall|k: int| 0 <= k < width.len() ==> is_digit(#[trigger] width[k]),
        width.len() > 0 ==> width[0] != 48u8,
        decimal_value(width, 0, width.len() as int) <= usize::MAX,
        precision matches Some(p) ==> forall|k: int| 0 <= k < p.len() ==> is_digit(#[trigger] p[k]),
        precision matches Some(p) ==> decimal_value(p, 0, p.len() as int) <= usize::MAX,
        c == 'd' || c == 'i' || c == 'u' || c == 'o' || c == 'x' || c == 'X' || c == 'f' || c == 'F'
            || c == 'e' || c == 'E' || c == 'g' || c == 'G' || c == 'a' || c == 'A',
    ensures
        spec_parse_number_format(format_bytes(flags, width, precision, l, c as u8)) == Ok::<
            NumberFormat,
            ParseError,
        >(
            NumberFormat {
                f: if flags.len() == 0 {
                    None
                } else {
                    Some(FormatFlags(flag_bits(flags)))
                },
                w: digits_value(width),
                p: match precision {
                    Some(p) => digits_value(p),
                    None => None,
                },
                l: l,
                s: c,
            },
        ),
{
    let s = format_bytes(flags, width, precision, l, c as u8);
    let i1: int = 1 + flags.len() as int;
    let e1: int = i1 + width.len();
    let e2: int = e1 + precision_bytes(precision).len();
    let e3: int = e2 + length_bytes(l).len();
    assert(s.subrange(1, i1) =~= flags);
    assert(s.subrange(i1, e1) =~= width);
    assert(s.subrange(e1, e2) =~= precision_bytes(precision));
    assert(s.subrange(e2, e3) =~= length_bytes(l));
    lemma_parse_parts(s, flags, width, precision, l, c);
}

/// The width and precision digits of a sexagesimal format: a width, and a precision
/// of 3, 5, 6, 8 or 9 that the width covers.
pub open spec fn sexagesimal_parts(width: Seq<u8>, precision: Option<Seq<u8>>) -> bool {
    &&& width.len() > 0
    &&& precision matches Some(pd) && pd.len() > 0 && {
        let pv = decimal_value(pd, 0, pd.len() as int);
        &&& (pv == 3 || pv == 5 || pv == 6 || pv == 8 || pv == 9)
        &&& decimal_value(width, 0, width.len() as int) >= pv
    }
}

/// The sexagesimal conversion `m` parses after flags, a width that does not begin
/// with `0`, a period, a precision of 3, 5, 6, 8 or 9 digits that the width covers,
/// and a length modifier. The format holds those flags, that width and precision,
/// the length modifier and `m`.
pub proof fn lemma_sexagesimal_conversion_parses(
    flags: Seq<u8>,
    width: Seq<u8>,
    precision: Seq<u8>,
    l: Option<FormatLength>,
)
    requires
        forall|k: int| 0 <= k < flags.len() ==> is_flag_byte(#[trigger] flags[k]),
        forall|k: int| 0 <= k < width.len() ==> is_digit(#[trigger] width[k]),
        forall|k: int| 0 <= k < precision.len() ==> is_digit(#[trigger] precision[k]),
        width.len() > 0,
        width[0] != 48u8,
        decimal_value(width, 0, width.len() as int) <= usize::MAX,
        precision.len() > 0,
        ({
            let pv = decimal_value(precision, 0, precision.len() as int);
            &&& (pv == 3 || pv == 5 || pv == 6 || pv == 8 || pv == 9)
            &&& decimal_value(width, 0, width.len() as int) >= pv
        }),
    ensures
        spec_parse_number_format(format_bytes(flags, width, Some(precision), l, 109u8)) == Ok::<
            NumberFormat,
            ParseError,
        >(
            NumberFormat {
                f: if flags.len() == 0 {
                    None
                } else {
                    Some(FormatFlags(flag_bits(flags)))
                },
                w: digits_value(width),
                p: digits_value(precision),
                l: l,
                s: 'm',
            },
        ),
{
    let s = format_bytes(flags, width, Some(precision), l, 109u8);
    let i1: int = 1 + flags.len() as int;
    let e1: int = i1 + width.len();
    let e2: int = e1 + precision_bytes(Some(precision)).len();
    let e3: int = e2 + length_bytes(l).len();
    assert(s.subrange(1, i1) =~= flags);
    assert(s.subrange(i1, e1) =~= width);
    assert(s.subrange(e1, e2) =~= precision_bytes(Some(precision)));
    assert(s.subrange(e2, e3) =~= length_bytes(l));
    assert(('m' as u8) == 109u8);
    lemma_parse_parts(s, flags, width, Some(precision), l, 'm');
}

/// The period and digits of a precision part, where one is given.
pub open spec fn precision_bytes(precision: Option<Seq<u8>>) -> Seq<u8> {
    match precision {
        Some(p) => seq![46u8] + p,
        None => Seq::empty(),
    }
}

/// What `lemma_numeric_conversions_parse` states, of a format given by where its
/// parts stand.
proof fn lemma_parse_parts(
    s: Seq<u8>,
    flags: Seq<u8>,
    width: Seq<u8>,
    precision: Option<Seq<u8>>,
    l: Option<FormatLength>,
    c: char,
)
    requires
        forall|k: int| 0 <= k < flags.len() ==> is_flag_byte(#[trigger] flags[k]),
        forall|k: int| 0 <= k < width.len() ==> is_digit(#[trigger] width[k]),
        width.len() > 0 ==> width[0] != 48u8,
        decimal_value(width, 0, width.len() as int) <= usize::MAX,
        precision matches Some(p) ==> forall|k: int| 0 <= k < p.len() ==> is_digit(#[trigger] p[k]),
        precision matches Some(p) ==> decimal_value(p, 0, p.len() as int) <= usize::MAX,
        c == 'd' || c == 'i' || c == 'u' || c == 'o' || c == 'x' || c == 'X' || c == 'f' || c == 'F'
            || c == 'e' || c == 'E' || c == 'g' || c == 'G' || c == 'a' || c == 'A' || (c == 'm' && sexagesimal_parts(
            width,
            precision,
        )),
        s.len() == 2 + flags.len() + width.len() + precision_bytes(precision).len() + length_bytes(l).len(),
        s[0] == 37u8,
        s.subrange(1, 1 + flags.len() as int) == flags,
        s.subrange(1 + flags.len() as int, 1 + flags.len() as int + width.len()) == width,
        s.subrange(1 + flags.len() as int + width.len(), 1 + flags.len() as int + width.len() + precision_bytes(precision).len())
            == precision_bytes(precision),
        s.subrange(
            1 + flags.len() as int + width.len() + precision_bytes(precision).len(),
            s.len() - 1,
        ) == length_bytes(l),
        s[s.len() - 1] == c as u8,
    ensures
        spec_parse_number_format(s) == Ok::<NumberFormat, ParseError>(
            NumberFormat {
                f: if flags.len() == 0 {
                    None
                } else {
                    Some(FormatFlags(flag_bits(flags)))
                },
                w: digits_value(width),
                p: match precision {
                    Some(p) => digits_value(p),
                    None => None,
                },
                l: l,
                s: c,
            },
        ),
{
    let i1: int = 1 + flags.len() as int as int;
    let e1: int = i1 + width.len();
    let e2: int = e1 + precision_bytes(precision).len();
    let e3: int = e2 + length_bytes(l).len();
    let bits = flag_bits(flags);
    let fl = if bits == 0 {
        None
    } else {
        Some(FormatFlags(bits))
    };
    // the bytes of the length modifier and the conversion are letters
    lemma_length_bytes_letters(l);
    assert forall|k: int| e2 <= k <= e3 implies !is_digit(#[trigger] s[k]) && s[k] != 46u8 && s[k] != 0
        && !is_flag_byte(s[k]) by {
        if k < e3 {
            assert(s[k] == s.subrange(e2, e3)[k - e2]);
        }
    }
    // the byte after the flags ends them
    assert(!is_flag_byte(s[i1]) && s[i1] != 0) by {
        if width.len() > 0 {
            assert(s[i1] == s.subrange(i1, e1)[0]);
        } else if precision is Some {
            assert(s[i1] == s.subrange(e1, e2)[0]);
        }
    }
    lemma_parse_flags_part(s, flags);
    lemma_flag_bits_nonzero(flags);
    lemma_width_precision_part(s, fl, i1, width, precision, e2);
    lemma_scan_length_bytes(s, e2, l);
}

/// The width digits from `i1`, then the period and precision digits where given,
/// up to `e2`.
proof fn lemma_width_precision_part(
    s: Seq<u8>,
    fl: Option<FormatFlags>,
    i1: int,
    width: Seq<u8>,
    precision: Option<Seq<u8>>,
    e2: int,
)
    requires
        0 <= i1,
        e2 == i1 + width.len() + precision_bytes(precision).len(),
        e2 < s.len(),
        forall|k: int| 0 <= k < width.len() ==> is_digit(#[trigger] width[k]),
        decimal_value(width, 0, width.len() as int) <= usize::MAX,
        precision matches Some(p) ==> forall|k: int| 0 <= k < p.len() ==> is_digit(#[trigger] p[k]),
        precision matches Some(p) ==> decimal_value(p, 0, p.len() as int) <= usize::MAX,
        s.subrange(i1, i1 + width.len()) == width,
        s.subrange(i1 + width.len(), e2) == precision_bytes(precision),
        !is_digit(s[e2]),
        s[e2] != 46u8,
        s[e2] != 0,
    ensures
        ({
            let start = if precision is Some {
                i1 + width.len() + 1
            } else {
                i1
            };
            let wd = if precision is Some {
                digits_value(width)
            } else {
                None
            };
            &&& scan_width_precision(s, fl, i1, i1, false, None) == Ok::<
                (int, int, bool, Option<usize>),
                ParseError,
            >((e2, start, precision is Some, wd))
            &&& finish_width_precision(s, e2, start, precision is Some, wd) == Ok::<
                (Option<usize>, Option<usize>),
                ParseError,
            >(
                (
                    digits_value(width),
                    match precision {
                        Some(p) => digits_value(p),
                        None => None,
                    },
                ),
            )
        }),
{
    let e1: int = i1 + width.len();
    assert forall|k: int| i1 <= k < e1 implies is_digit(#[trigger] s[k]) by {
        assert(s[k] == s.subrange(i1, e1)[k - i1]);
    }
    lemma_scan_digits(s, fl, i1, e1, i1, false, None);
    lemma_decimal_value_shift(s, i1, width, width.len() as int);
    match precision {
        Some(p) => {
            assert(s[e1] == 46u8) by {
                assert(s[e1] == s.subrange(e1, e2)[0]);
            }
            assert forall|k: int| e1 + 1 <= k < e2 implies is_digit(#[trigger] s[k]) by {
                assert(s[k] == s.subrange(e1, e2)[k - e1]);
            }
            let w = digits_value(width);
            assert(spec_parse_width(s, fl, i1, e1) == Ok::<Option<usize>, ParseError>(w));
            lemma_scan_digits(s, fl, e1 + 1, e2, e1 + 1, true, w);
            assert(s.subrange(e1 + 1, e2) =~= p) by {
                assert forall|k: int| 0 <= k < p.len() implies s.subrange(e1 + 1, e2)[k] == p[k] by {
                    assert(s[e1 + 1 + k] == s.subrange(e1, e2)[k + 1]);
                }
            }
            lemma_decimal_value_shift(s, e1 + 1, p, p.len() as int);
        },
        None => {},
    }
}

/// The flags of a format, from index 1 up to the first byte that is no flag.
proof fn lemma_parse_flags_part(s: Seq<u8>, flags: Seq<u8>)
    requires
        forall|k: int| 0 <= k < flags.len() ==> is_flag_byte(#[trigger] flags[k]),
        1 + flags.len() < s.len(),
        s.subrange(1, 1 + flags.len() as int) == flags,
        !is_flag_byte(s[1 + flags.len() as int]),
        s[1 + flags.len() as int] != 0,
    ensures
        scan_flags(s, 1, 0) == Ok::<(int, u8), ParseError>((1 + flags.len() as int, flag_bits(flags))),
{
    let i1: int = 1 + flags.len() as int as int;
    assert forall|k: int| 1 <= k < i1 implies is_flag_byte(#[trigger] s[k]) by {
        assert(s[k] == s.subrange(1, i1)[k - 1]);
    }
    assert(!is_flag_byte(s[i1]) && s[i1] != 0);
    lemma_scan_flags_run(s, 1, i1, 0);
    let bits = flag_bits(flags);
    assert((0u8 | bits) == bits) by (bit_vector);
}

/// Scanning a run of flag bytes collects their bits and stops after them.
proof fn lemma_scan_flags_run(s: Seq<u8>, b: int, e: int, acc: u8)
    requires
        0 <= b <= e < s.len(),
        forall|k: int| b <= k < e ==> is_flag_byte(#[trigger] s[k]),
        !is_flag_byte(s[e]),
        s[e] != 0,
    ensures
        scan_flags(s, b, acc) == Ok::<(int, u8), ParseError>((e, acc | flag_bits(s.subrange(b, e)))),
    decreases e - b,
{
    if b == e {
        assert(s.subrange(b, e).len() == 0);
        assert((acc | 0u8) == acc) by (bit_vector);
    } else {
        let m = flag_mask(s[b]);
        lemma_scan_flags_run(s, b + 1, e, acc | m);
        assert(s.subrange(b, e).drop_first() =~= s.subrange(b + 1, e));
        let rest = flag_bits(s.subrange(b + 1, e));
        assert(((acc | m) | rest) == (acc | (m | rest))) by (bit_vector);
    }
}

/// A non-empty run of flag bytes sets some bit.
proof fn lemma_flag_bits_nonzero(f: Seq<u8>)
    requires
        forall|k: int| 0 <= k < f.len() ==> is_flag_byte(#[trigger] f[k]),
    ensures
        (flag_bits(f) == 0) == (f.len() == 0),
{
    if f.len() > 0 {
        assert(is_flag_byte(f[0]));
        let m = flag_mask(f[0]);
        let rest = flag_bits(f.drop_first());
        assert(m != 0);
        assert(m != 0 ==> (m | rest) != 0) by (bit_vector);
    }
}

/// Scanning a run of digits moves past it.
proof fn lemma_scan_digits(
    s: Seq<u8>,
    flags: Option<FormatFlags>,
    i: int,
    e: int,
    start: int,
    dot: bool,
    width: Option<usize>,
)
    requires
        0 <= i <= e <= s.len(),
        forall|k: int| i <= k < e ==> is_digit(#[trigger] s[k]),
    ensures
        scan_width_precision(s, flags, i, start, dot, width) == scan_width_precision(s, flags, e, start, dot, width),
    decreases e - i,
{
    if i < e {
        assert(is_digit(s[i]));
        lemma_scan_digits(s, flags, i + 1, e, start, dot, width);
    }
}

/// The digits at `a` spell what the same digits spell on their own.
proof fn lemma_decimal_value_shift(s: Seq<u8>, a: int, t: Seq<u8>, n: int)
    requires
        0 <= a,
        0 <= n <= t.len(),
        a + t.len() <= s.len(),
        s.subrange(a, a + t.len()) == t,
    ensures
        decimal_value(s, a, a + n) == decimal_value(t, 0, n),
    decreases n,
{
    if n > 0 {
        lemma_decimal_value_shift(s, a, t, n - 1);
        assert(s[a + n - 1] == s.subrange(a, a + t.len())[n - 1]);
    }
}

/// The bytes of a length modifier are letters of a length modifier, none of them a
/// digit, a period or a numeric conversion.
proof fn lemma_length_bytes_letters(l: Option<FormatLength>)
    ensures
        forall|k: int|
            0 <= k < length_bytes(l).len() ==> {
                let b = #[trigger] length_bytes(l)[k];
                b == 104u8 || b == 108u8 || b == 106u8 || b == 122u8 || b == 116u8 || b == 76u8
            },
        length_bytes(l).len() <= 2,
{
}

/// Scanning the bytes of a length modifier, followed by a byte that is none, gives
/// that modifier.
proof fn lemma_scan_length_bytes(s: Seq<u8>, i: int, l: Option<FormatLength>)
    requires
        0 <= i,
        i + length_bytes(l).len() < s.len(),
        s.subrange(i, i + length_bytes(l).len()) == length_bytes(l),
        ({
            let c = s[i + length_bytes(l).len()];
            !(c == 104u8 || c == 108u8 || c == 106u8 || c == 122u8 || c == 116u8 || c == 76u8 || c == 0)
        }),
    ensures
        scan_length(s, i, None) == Ok::<(int, Option<FormatLength>), ParseError>((i + length_bytes(l).len(), l)),
{
    let n: int = length_bytes(l).len() as int;
    assert forall|k: int| 0 <= k < n implies s[i + k] == length_bytes(l)[k] by {
        assert(s[i + k] == s.subrange(i, i + n)[k]);
    }
    let e = i + n;
    assert(scan_length(s, e, l) == Ok::<(int, Option<FormatLength>), ParseError>((e, l)));
    match l {
        None => {},
        Some(FormatLength::hh) => {
            assert(s[i] == 104u8 && s[i + 1] == 104u8);
            assert(scan_length(s, i + 1, Some(FormatLength::h)) == scan_length(s, e, l));
        },
        Some(FormatLength::ll) => {
            assert(s[i] == 108u8 && s[i + 1] == 108u8);
            assert(scan_length(s, i + 1, Some(FormatLength::l)) == scan_length(s, e, l));
        },
        Some(_) => {
            assert(s[i] == length_bytes(l)[0]);
        },
    }
}

// ---------------------------------------------------------------------------
// Parsing
// ---------------------------------------------------------------------------

proof fn lemma_decimal_value_monotone(s: Seq<u8>, i: int, k: int, j: int)
    requires
        i <= k <= j,
    ensures
        decimal_value(s, i, k) <= decimal_value(s, i, j),
    decreases j - k,
{
    if k < j {
        lemma_decimal_value_monotone(s, i, k, j - 1);
    }
}

/// Reads the digits `buf[i..j]` as a `usize`.
fn parse_format_number(buf: &[u8], i: usize, j: usize) -> (r: Result<usize, ParseError>)
    requires
        j <= buf@.len(),
        all_digits(buf@, i as int, j as int),
    ensures
        r == spec_format_number(buf@, i as int, j as int),
{
    if i > j {
        return Err(ParseError::new(FMT_ERR_BEGIN_INDEX_AFTER_END_INDEX, i));
    }
    if i == j {
        return Err(ParseError::new(FMT_ERR_COULD_NOT_PARSE_INT, 0));
    }
    let mut acc: usize = 0;
    let mut k: usize = i;
    while k < j
        invariant
            i <= k <= j <= buf@.len(),
            all_digits(buf@, i as int, j as int),
            acc == decimal_value(buf@, i as int, k as int),
        decreases j - k,
    {
        assert(is_digit(buf@[k as int]));
        let d = (buf[k] - 48u8) as usize;
        let m = acc.checked_mul(10);
        match m {
            None => {
                proof {
                    lemma_decimal_value_monotone(buf@, i as int, (k + 1) as int, j as int);
                }
                return Err(ParseError::new(FMT_ERR_COULD_NOT_PARSE_INT, 0));
            },
            Some(m) => {
                match m.checked_add(d) {
                    None => {
                        proof {
                            lemma_decimal_value_monotone(buf@, i as int, (k + 1) as int, j as int);
                        }
                        return Err(ParseError::new(FMT_ERR_COULD_NOT_PARSE_INT, 0));
                    },
                    Some(a) => {
                        acc = a;
                    },
                }
            },
        }
        k = k + 1;
    }
    Ok(acc)
}

/// Checks the width and precision of a sexagesimal format.
pub fn validate_sexagesimal(i: usize, w: Option<usize>, p: Option<usize>) -> (r: Result<
    (),
    ParseError,
>)
    ensures
        r == spec_validate_sexagesimal(i as int, w, p),
{
    match p {
        None => Err(ParseError::new(FMT_ERR_SEXAGESIMAL_FORMAT_MUST_SPECIFY_PRECISION, i)),
        Some(pv) => {
            if !(pv == 3 || pv == 5 || pv == 6 || pv == 8 || pv == 9) {
                return Err(ParseError::new(FMT_ERR_SEXAGESIMAL_FRACTION_MUST_BE_3_5_6_8_OR_9, i));
            }
            match w {
                None => Err(ParseError::new(FMT_ERR_SEXAGESIMAL_FORMAT_MUST_SPECIFY_WIDTH, i)),
                Some(wv) => if wv < pv {
                    Err(ParseError::new(FMT_ERR_SEXAGESIMAL_WIDTH_MUST_EQUAL_OR_EXCEED_PRECISION, i))
                } else {
                    Ok(())
                },
            }
        },
    }
}

impl NumberFormat {
    /// The width before a period at `index`, where the width digits began at `start`.
    fn parse_width(value: &[u8], _flags: Option<FormatFlags>, start: usize, index: usize) -> (r:
        Result<Option<usize>, ParseError>)
        requires
            start <= index <= value@.len(),
            all_digits(value@, start as int, index as int),
        ensures
            r == spec_parse_width(value@, _flags, start as int, index as int),
    {
        if index == start {
            return Ok(None);
        }
        match parse_format_number(value, start, index) {
            Ok(n) => Ok(Some(n)),
            Err(e) => Err(e),
        }
    }

    /// Parses a number format from its bytes.
    pub fn try_from_bytes(value: &[u8]) -> (r: Result<NumberFormat, ParseError>)
        ensures
            r == spec_parse_number_format(value@),
            r matches Ok(f) ==> (f.s == 'm' ==> f.is_valid_sexagesimal()),
    {
        let r = Self::parse_bytes(value);
        proof {
            lemma_parsed_sexagesimal_is_valid(value@);
        }
        r
    }

    fn parse_bytes(value: &[u8]) -> (r: Result<NumberFormat, ParseError>)
        ensures
            r == spec_parse_number_format(value@),
    {
        let len = value.len();
        if len == 0 {
            return Err(ParseError::new(FMT_ERR_ZERO_LENGTH_BUFFER, 1));
        }
        if value[0] != 37u8 {
            return Err(ParseError::new(FMT_ERR_FIRST_CHARACTER_MUST_BE_A_PERCENT_SIGN, 0));
        }
        let ghost s = value@;

        // parse flags
        let mut index: usize = 1;
        let mut bits: u8 = 0;
        while index < len
            invariant
                len == s.len(),
                s == value@,
                s[0] == 37u8,
                1 <= index <= len,
                scan_flags(s, index as int, bits) == scan_flags(s, 1, 0),
            ensures
                scan_flags(s, 1, 0) == Ok::<(int, u8), ParseError>((index as int, bits)),
            decreases len - index,
        {
            let b = value[index];
            if b == 45u8 {
                bits = bits | FLAG_MINUS;
            } else if b == 43u8 {
                bits = bits | FLAG_PLUS;
            } else if b == 32u8 {
                bits = bits | FLAG_SPACE;
            } else if b == 35u8 {
                bits = bits | FLAG_HASH;
            } else if b == 48u8 {
                bits = bits | FLAG_ZERO;
            } else if b == 0 {
                return Err(ParseError::new(FMT_ERR_PREMATURE_END_OF_FORMAT_STRING, index));
            } else {
                break ;
            }
            index += 1;
        }
        let flags = if bits == 0 {
            None
        } else {
            Some(FormatFlags(bits))
        };
        let ghost i1 = index as int;

        // parse width and precision
        let mut start = index;
        let mut dot = false;
        let mut width: Option<usize> = None;
        while index < len
            invariant
                len == s.len(),
                s == value@,
                len > 0,
                s[0] == 37u8,
                scan_flags(s, 1, 0) == Ok::<(int, u8), ParseError>((i1, bits)),
                flags == (if bits == 0 {
                    None
                } else {
                    Some(FormatFlags(bits))
                }),
                i1 <= start <= index <= len,
                all_digits(s, start as int, index as int),
                scan_width_precision(s, flags, index as int, start as int, dot, width)
                    == scan_width_precision(s, flags, i1, i1, false, None),
            ensures
                i1 <= start <= index <= len,
                all_digits(s, start as int, index as int),
                scan_width_precision(s, flags, i1, i1, false, None) == Ok::<
                    (int, int, bool, Option<usize>),
                    ParseError,
                >((index as int, start as int, dot, width)),
            decreases len - index,
        {
            let b = value[index];
            if 48u8 <= b && b <= 57u8 {
                index += 1;
            } else if b == 46u8 {
                if dot {
                    return Err(ParseError::new(FMT_ERR_FORMAT_MUST_ONLY_CONTAIN_ONE_PERIOD, index));
                }
                match Self::parse_width(value, flags, start, index) {
                    Ok(w) => {
                        width = w;
                    },
                    Err(e) => {
                        return Err(e);
                    },
                }
                dot = true;
                index += 1;
                start = index;
            } else if b == 0 {
                return Err(ParseError::new(FMT_ERR_PREMATURE_END_OF_FORMAT_STRING, index));
            } else {
                break ;
            }
        }
        let ghost start0 = start as int;
        let ghost width0 = width;
        let mut precision: Option<usize> = None;
        if index > start {
            let n = parse_format_number(value, start, index);
            match n {
                Ok(n) => {
                    if width.is_none() && !dot {
                        width = Some(n);
                    } else {
                        precision = Some(n);
                    }
                },
                Err(e) => {
                    return Err(e);
                },
            }
        }
        let ghost i2 = index as int;

        // parse length
        let mut length: Option<FormatLength> = None;
        while index < len
            invariant
                len == s.len(),
                s == value@,
                len > 0,
                s[0] == 37u8,
                scan_flags(s, 1, 0) == Ok::<(int, u8), ParseError>((i1, bits)),
                flags == (if bits == 0 {
                    None
                } else {
                    Some(FormatFlags(bits))
                }),
                scan_width_precision(s, flags, i1, i1, false, None) == Ok::<
                    (int, int, bool, Option<usize>),
                    ParseError,
                >((i2, start0, dot, width0)),
                finish_width_precision(s, i2, start0, dot, width0) == Ok::<
                    (Option<usize>, Option<usize>),
                    ParseError,
                >((width, precision)),
                i2 <= index <= len,
                scan_length(s, index as int, length) == scan_length(s, i2, None),
            ensures
                scan_length(s, i2, None) == Ok::<(int, Option<FormatLength>), ParseError>(
                    (index as int, length),
                ),
            decreases len - index,
        {
            let b = value[index];
            if b == 104u8 {
                match length {
                    None => {
                        length = Some(FormatLength::h);
                    },
                    Some(FormatLength::h) => {
                        length = Some(FormatLength::hh);
                    },
                    Some(_) => {
                        return Err(ParseError::new(FMT_ERR_LENGTH, index));
                    },
                }
            } else if b == 108u8 {
                match length {
                    None => {
                        length = Some(FormatLength::l);
                    },
                    Some(FormatLength::l) => {
                        length = Some(FormatLength::ll);
                    },
                    Some(_) => {
                        return Err(ParseError::new(FMT_ERR_LENGTH, index));
                    },
                }
            } else if b == 106u8 || b == 122u8 || b == 116u8 || b == 76u8 {
                match length {
                    None => {
                        length = Some(
                            if b == 106u8 {
                                FormatLength::j
                            } else if b == 122u8 {
                                FormatLength::z
                            } else if b == 116u8 {
                                FormatLength::t
                            } else {
                                FormatLength::L
                            },
                        );
                    },
                    Some(_) => {
                        return Err(ParseError::new(FMT_ERR_LENGTH, index));
                    },
                }
            } else if b == 0 {
                return Err(ParseError::new(FMT_ERR_PREMATURE_END_OF_FORMAT_STRING, index));
            } else {
                break ;
            }
            index += 1;
        }

        if index == len {
            return Err(ParseError::new(FMT_ERR_NO_FORMAT_SPECIFIER, index));
        }
        let c = value[index];
        if c == 109u8 && dot && width.is_none() && !(match flags {
            Some(f) => f.zero_flag(),
            None => false,
        }) {
            return Err(ParseError::new(FMT_ERR_SEXAGESIMAL_FORMAT_MUST_SPECIFY_WIDTH, start - 1));
        }
        if c == 100u8 || c == 105u8 || c == 117u8 || c == 111u8 || c == 120u8 || c == 88u8 || c == 102u8
            || c == 70u8 || c == 101u8 || c == 69u8 || c == 103u8 || c == 71u8 || c == 97u8 || c
            == 65u8 {
        } else if c == 109u8 {
            match validate_sexagesimal(index, width, precision) {
                Ok(_) => {},
                Err(e) => {
                    return Err(e);
                },
            }
        } else if c == 99u8 || c == 115u8 || c == 112u8 || c == 110u8 || c == 37u8 {
            return Err(ParseError::new(FMT_ERR_UNSUPORTED_PRINTF_FORMAT, index));
        } else if c == 0 {
            return Err(ParseError::new(FMT_ERR_PREMATURE_END_OF_FORMAT_STRING, index));
        } else {
            return Err(ParseError::new(FMT_ERR_UNKNOWN_FORMAT_SPECIFIER, index));
        }
        let specifier = c as char;
        let next = index + 1;
        if next != len {
            if value[next] != 0 {
                return Err(ParseError::new(FMT_ERR_TRAILING_CHARACTERS_AFTER_FORMAT, next));
            }
        }
        Ok(NumberFormat { f: flags, w: width, p: precision, l: length, s: specifier })
    }
}

impl NumberFormat {
    /// Creates a number format from a string that must spell a valid format.
    pub fn new(fmt: &str) -> (r: NumberFormat)
        requires
            spec_parse_number_format(fmt.spec_bytes()) is Ok,
        ensures
            Ok::<NumberFormat, ParseError>(r) == spec_parse_number_format(fmt.spec_bytes()),
    {
        match NumberFormat::try_from_bytes(fmt.as_bytes()) {
            Ok(f) => f,
            Err(_) => {
                assert(false);
                NumberFormat { f: None, w: None, p: None, l: None, s: 'd' }
            },
        }
    }

    /// Parses a number format from a string.
    pub fn try_from_str(value: &str) -> (r: Result<NumberFormat, ParseError>)
        ensures
            r == spec_parse_number_format(value.spec_bytes()),
    {
        NumberFormat::try_from_bytes(value.as_bytes())
    }
}

impl<'a> TryFrom<&'a str> for NumberFormat {
    type Error = ParseError;

    fn try_from(value: &'a str) -> (r: Result<NumberFormat, ParseError>)
        ensures
            r == spec_parse_number_format(value.spec_bytes()),
    {
        NumberFormat::try_from_bytes(value.as_bytes())
    }
}

impl<'a> vstd::std_specs::convert::TryFromSpecImpl<&'a str> for NumberFormat {
    open spec fn obeys_try_from_spec() -> bool {
        true
    }

    open spec fn try_from_spec(v: &'a str) -> Result<NumberFormat, ParseError> {
        spec_parse_number_format(v.spec_bytes())
    }
}

impl<'a> vstd::std_specs::convert::TryFromSpecImpl<&'a [u8]> for NumberFormat {
    open spec fn obeys_try_from_spec() -> bool {
        true
    }

    open spec fn try_from_spec(v: &'a [u8]) -> Result<NumberFormat, ParseError> {
        spec_parse_number_format(v@)
    }
}

impl<'a> TryFrom<&'a [u8]> for NumberFormat {
    type Error = ParseError;

    fn try_from(value: &'a [u8]) -> (r: Result<NumberFormat, ParseError>)
        ensures
            r == spec_parse_number_format(value@),
    {
        NumberFormat::try_from_bytes(value)
    }
}

impl core::str::FromStr for NumberFormat {
    type Err = ParseError;

    fn from_str(s: &str) -> (r: Result<NumberFormat, ParseError>)
        ensures
            r == spec_parse_number_format(s.spec_bytes()),
    {
        NumberFormat::try_from_bytes(s.as_bytes())
    }
}

// ---------------------------------------------------------------------------
// Text
// ---------------------------------------------------------------------------

/// The character `c` if `on`, else nothing.
pub open spec fn char_if(on: bool, c: char) -> Seq<char> {
    if on {
        seq![c]
    } else {
        Seq::empty()
    }
}

impl FormatFlags {
    /// The flags as written in a format: `-`, `+`, space, `#` and `0`, in that order,
    /// each when set.
    pub open spec fn spec_text(self) -> Seq<char> {
        char_if(self.has(FLAG_MINUS), '-') + char_if(self.has(FLAG_PLUS), '+') + char_if(
            self.has(FLAG_SPACE),
            ' ',
        ) + char_if(self.has(FLAG_HASH), '#') + char_if(self.has(FLAG_ZERO), '0')
    }

    /// The flags as written in a format.
    pub fn text(&self) -> (r: String)
        ensures
            r@ == self.spec_text(),
    {
        let mut t = String::new();
        if self.minus_flag() {
            push_char(&mut t, '-');
        }
        if self.plus_flag() {
            push_char(&mut t, '+');
        }
        if self.space_flag() {
            push_char(&mut t, ' ');
        }
        if self.hash_flag() {
            push_char(&mut t, '#');
        }
        if self.zero_flag() {
            push_char(&mut t, '0');
        }
        assert(t@ =~= self.spec_text());
        t
    }
}

impl FormatLength {
    pub open spec fn spec_text(self) -> &'static str {
        match self {
            FormatLength::hh => "hh",
            FormatLength::h => "h",
            FormatLength::l => "l",
            FormatLength::ll => "ll",
            FormatLength::j => "j",
            FormatLength::z => "z",
            FormatLength::t => "t",
            FormatLength::L => "L",
        }
    }

    /// The length modifier as written in a format.
    pub fn text(&self) -> (r: &'static str)
        ensures
            r == self.spec_text(),
    {
        match self {
            FormatLength::hh => "hh",
            FormatLength::h => "h",
            FormatLength::l => "l",
            FormatLength::ll => "ll",
            FormatLength::j => "j",
            FormatLength::z => "z",
            FormatLength::t => "t",
            FormatLength::L => "L",
        }
    }
}

/// A length modifier is written as the bytes that the parser reads as that modifier.
pub proof fn lemma_length_text(len: FormatLength)
    ensures
        len.spec_text().spec_bytes() == length_bytes(Some(len)),
{
    reveal_strlit("hh");
    reveal_strlit("h");
    reveal_strlit("l");
    reveal_strlit("ll");
    reveal_strlit("j");
    reveal_strlit("z");
    reveal_strlit("t");
    reveal_strlit("L");
    assert(vstd::string::is_ascii(len.spec_text()));
    vstd::string::is_ascii_spec_bytes(len.spec_text());
    match len {
        FormatLength::hh => assert(len.spec_text().spec_bytes() =~= length_bytes(Some(len))),
        FormatLength::h => assert(len.spec_text().spec_bytes() =~= length_bytes(Some(len))),
        FormatLength::l => assert(len.spec_text().spec_bytes() =~= length_bytes(Some(len))),
        FormatLength::ll => assert(len.spec_text().spec_bytes() =~= length_bytes(Some(len))),
        FormatLength::j => assert(len.spec_text().spec_bytes() =~= length_bytes(Some(len))),
        FormatLength::z => assert(len.spec_text().spec_bytes() =~= length_bytes(Some(len))),
        FormatLength::t => assert(len.spec_text().spec_bytes() =~= length_bytes(Some(len))),
        FormatLength::L => assert(len.spec_text().spec_bytes() =~= length_bytes(Some(len))),
    }
}

impl NumberFormat {
    /// The format as its `Display` writes it: flags, width, `.` and precision,
    /// length and specifier, each part when present (without the leading `%`).
    pub open spec fn spec_text(&self) -> Seq<char> {
        (match self.f {
            Some(f) => f.spec_text(),
            None => Seq::empty(),
        }) + (match self.w {
            Some(w) => decimal_text(w as nat),
            None => Seq::empty(),
        }) + (match self.p {
            Some(p) => seq!['.'] + decimal_text(p as nat),
            None => Seq::empty(),
        }) + (match self.l {
            Some(len) => len.spec_text()@,
            None => Seq::empty(),
        }) + seq![self.s]
    }

    /// The format as its `Display` writes it.
    #[verifier::rlimit(30)]
    pub fn text(&self) -> (r: String)
        ensures
            r@ == self.spec_text(),
    {
        let mut t = String::new();
        if let Some(f) = self.f {
            let ft = f.text();
            t.append(ft.as_str());
        }
        if let Some(w) = self.w {
            push_decimal(&mut t, w as u64);
        }
        if let Some(p) = self.p {
            push_char(&mut t, '.');
            push_decimal(&mut t, p as u64);
        }
        if let Some(len) = self.l {
            t.append(len.text());
        }
        push_char(&mut t, self.s);
        assert(t@ =~= self.spec_text());
        t
    }
}

/// The message for a byte that cannot stand in a sexagesimal number.
pub const SEXAGESIMAL_ILLEGAL_CHARACTER: &'static str = "illegal sexagesimal character";

/// The message for an empty component of a number.
pub const EMPTY_COMPONENT: &'static str = "begin and start indeces must not be equal";

/// A byte that may stand in a component of a sexagesimal number: a digit, `.`, `-`
/// or `+`.
pub open spec fn is_component_byte(b: u8) -> bool {
    (48 <= b <= 57) || b == 46 || b == 45 || b == 43
}

/// A byte that separates the components of a sexagesimal number: space, `:` or `;`.
pub open spec fn is_component_separator(b: u8) -> bool {
    b == 32 || b == 58 || b == 59
}

/// Where the leading component that begins at `i` ends.
pub open spec fn lead_end(s: Seq<u8>, i: int) -> int
    decreases s.len() - i,
{
    if i < 0 || i >= s.len() || !is_component_byte(s[i]) {
        i
    } else {
        lead_end(s, i + 1)
    }
}

/// What follows the leading component of a sexagesimal number, as byte ranges.
#[derive(Debug, Clone, Copy, PartialEq, Eq)]
pub enum SexagesimalTail {
    /// Nothing: the number is its leading component.
    Whole,
    /// Minutes, from `start` to `end`.
    Minutes { start: usize, end: usize },
    /// Minutes and seconds.
    MinutesSeconds { minutes_start: usize, minutes_end: usize, seconds_start: usize, seconds_end: usize },
}

/// Where the components of a sexagesimal number stand in its text.
///
/// The leading component is `0..lead_end`; a negative number's later components
/// count negatively. The tail holds its error apart, because it is reported only
/// once the leading component has been read as a number.
#[derive(Debug, Clone, Copy, PartialEq, Eq)]
pub struct SexagesimalLayout {
    pub lead_end: usize,
    pub negative: bool,
    pub tail: Result<SexagesimalTail, ParseError>,
}

/// The message for a fourth component of a sexagesimal number.
pub const SEXAGESIMAL_TOO_MANY_COMPONENTS: &'static str = "too many sexagesimal components";

/// The tail of a sexagesimal number whose leading component ends at `j`: after a
/// separator, the minutes up to the next separator and, after that, the seconds up
/// to the end. Each component is a non-empty run of digits, `.`, `-` and `+`; a
/// component ends at a separator or at the end.
pub open spec fn spec_tail(s: Seq<u8>, j: int) -> Result<SexagesimalTail, ParseError> {
    if j >= s.len() {
        Ok(SexagesimalTail::Whole)
    } else {
        let m0 = j + 1;
        let m1 = lead_end(s, m0);
        if m1 < s.len() && !is_component_separator(s[m1]) {
            Err(perr(SEXAGESIMAL_ILLEGAL_CHARACTER, m1))
        } else if m1 == m0 {
            Err(perr(EMPTY_COMPONENT, m0))
        } else if m1 >= s.len() {
            Ok(SexagesimalTail::Minutes { start: m0 as usize, end: m1 as usize })
        } else {
            let s0 = m1 + 1;
            let s1 = lead_end(s, s0);
            if s1 < s.len() && !is_component_separator(s[s1]) {
                Err(perr(SEXAGESIMAL_ILLEGAL_CHARACTER, s1))
            } else if s1 == s0 {
                Err(perr(EMPTY_COMPONENT, s0))
            } else if s1 >= s.len() {
                Ok(SexagesimalTail::MinutesSeconds {
                    minutes_start: m0 as usize,
                    minutes_end: m1 as usize,
                    seconds_start: s0 as usize,
                    seconds_end: s1 as usize,
                })
            } else {
                Err(perr(SEXAGESIMAL_TOO_MANY_COMPONENTS, s1))
            }
        }
    }
}

/// The layout of a sexagesimal number such as `-10:30:18`, `-10 30.3` or `-10.505`:
/// the leading component runs up to the first byte that is not a digit, `.`, `-` or
/// `+`, which must be a separator; it must not be empty.
pub open spec fn spec_sexagesimal_layout(s: Seq<u8>) -> Result<SexagesimalLayout, ParseError> {
    let j = lead_end(s, 0);
    if j < s.len() && !is_component_separator(s[j]) {
        Err(perr(SEXAGESIMAL_ILLEGAL_CHARACTER, j))
    } else if j == 0 {
        Err(perr(EMPTY_COMPONENT, 0))
    } else {
        Ok(SexagesimalLayout { lead_end: j as usize, negative: s[0] == 45, tail: spec_tail(s, j) })
    }
}

proof fn lemma_lead_end_bounds(s: Seq<u8>, i: int)
    requires
        0 <= i <= s.len(),
    ensures
        i <= lead_end(s, i) <= s.len(),
        forall|k: int| i <= k < lead_end(s, i) ==> is_component_byte(#[trigger] s[k]),
        lead_end(s, i) < s.len() ==> !is_component_byte(s[lead_end(s, i)]),
    decreases s.len() - i,
{
    if i < s.len() && is_component_byte(s[i]) {
        lemma_lead_end_bounds(s, i + 1);
    }
}

/// Putting one separator in place of another leaves every component where it was.
proof fn lemma_lead_end_separator_swap(s: Seq<u8>, i: int, b: u8, k: int)
    requires
        0 <= i < s.len(),
        is_component_separator(s[i]),
        is_component_separator(b),
    ensures
        lead_end(s.update(i, b), k) == lead_end(s, k),
    decreases s.len() - k,
{
    let t = s.update(i, b);
    if 0 <= k < s.len() {
        assert(is_component_byte(t[k]) == is_component_byte(s[k]));
        if is_component_byte(s[k]) {
            lemma_lead_end_separator_swap(s, i, b, k + 1);
        }
    }
}

/// Which of the separators (space, `:` or `;`) stands between two components does
/// not matter: putting any separator in place of another gives the same layout, the
/// same components at the same places, or the same error.
pub proof fn lemma_sexagesimal_separators_interchangeable(s: Seq<u8>, i: int, b: u8)
    requires
        0 <= i < s.len(),
        s[i] == 32u8 || s[i] == 58u8 || s[i] == 59u8,
        b == 32u8 || b == 58u8 || b == 59u8,
    ensures
        spec_sexagesimal_layout(s.update(i, b)) == spec_sexagesimal_layout(s),
{
    let t = s.update(i, b);
    assert forall|k: int| 0 <= k < s.len() implies (is_component_separator(#[trigger] t[k])
        == is_component_separator(s[k])) && (t[k] == 45u8) == (s[k] == 45u8) by {}
    let j = lead_end(s, 0);
    lemma_lead_end_separator_swap(s, i, b, 0);
    lemma_lead_end_bounds(s, 0);
    assert(t.len() == s.len());
    if j < s.len() {
        let m1 = lead_end(s, j + 1);
        lemma_lead_end_separator_swap(s, i, b, j + 1);
        lemma_lead_end_bounds(s, j + 1);
        assert(lead_end(t, j + 1) == m1);
        if m1 < s.len() {
            lemma_lead_end_separator_swap(s, i, b, m1 + 1);
            lemma_lead_end_bounds(s, m1 + 1);
            assert(lead_end(t, m1 + 1) == lead_end(s, m1 + 1));
        }
        assert(spec_tail(t, j) == spec_tail(s, j));
    }
    if j != 0 && s.len() > 0 {
        assert((t[0] == 45u8) == (s[0] == 45u8));
    }
}

/// A component is a run of bytes that each may stand in one.
pub open spec fn is_component(c: Seq<u8>) -> bool {
    &&& c.len() > 0
    &&& forall|k: int| 0 <= k < c.len() ==> is_component_byte(#[trigger] c[k])
}

/// A component that runs from `i` to `e` ends there.
proof fn lemma_lead_end_run(s: Seq<u8>, i: int, e: int)
    requires
        0 <= i <= e <= s.len(),
        forall|k: int| i <= k < e ==> is_component_byte(#[trigger] s[k]),
        e < s.len() ==> !is_component_byte(s[e]),
    ensures
        lead_end(s, i) == e,
    decreases e - i,
{
    if i < e {
        lemma_lead_end_run(s, i + 1, e);
    }
}

/// Degrees, minutes and seconds with a separator between each two: the layout
/// gives each component's place, and the number is negative when it begins with
/// `-`.
pub proof fn lemma_sexagesimal_layout_of_components(d: Seq<u8>, x: u8, m: Seq<u8>, y: u8, sec: Seq<u8>)
    requires
        is_component(d),
        is_component(m),
        is_component(sec),
        x == 32u8 || x == 58u8 || x == 59u8,
        y == 32u8 || y == 58u8 || y == 59u8,
        d.len() + m.len() + sec.len() + 2 <= usize::MAX,
    ensures
        spec_sexagesimal_layout(d) == Ok::<SexagesimalLayout, ParseError>(
            SexagesimalLayout { lead_end: d.len() as usize, negative: d[0] == 45u8, tail: Ok(SexagesimalTail::Whole) },
        ),
        spec_sexagesimal_layout(d + seq![x] + m) == Ok::<SexagesimalLayout, ParseError>(
            SexagesimalLayout {
                lead_end: d.len() as usize,
                negative: d[0] == 45u8,
                tail: Ok(SexagesimalTail::Minutes { start: (d.len() + 1) as usize, end: (d.len() + 1 + m.len()) as usize }),
            },
        ),
        spec_sexagesimal_layout(d + seq![x] + m + seq![y] + sec) == Ok::<SexagesimalLayout, ParseError>(
            SexagesimalLayout {
                lead_end: d.len() as usize,
                negative: d[0] == 45u8,
                tail: Ok(
                    SexagesimalTail::MinutesSeconds {
                        minutes_start: (d.len() + 1) as usize,
                        minutes_end: (d.len() + 1 + m.len()) as usize,
                        seconds_start: (d.len() + 2 + m.len()) as usize,
                        seconds_end: (d.len() + 2 + m.len() + sec.len()) as usize,
                    },
                ),
            },
        ),
{
    let a: int = d.len() as int;
    let b: int = a + 1 + m.len();
    let c: int = b + 1 + sec.len();
    lemma_lead_end_run(d, 0, a);
    let s2 = d + seq![x] + m;
    assert forall|k: int| 0 <= k < a implies s2[k] == d[k] by {}
    assert forall|k: int| a + 1 <= k < b implies s2[k] == m[k - a - 1] by {}
    lemma_lead_end_run(s2, 0, a);
    lemma_lead_end_run(s2, a + 1, b);
    let s3 = d + seq![x] + m + seq![y] + sec;
    assert forall|k: int| 0 <= k < a implies s3[k] == d[k] by {}
    assert forall|k: int| a + 1 <= k < b implies s3[k] == m[k - a - 1] by {}
    assert forall|k: int| b + 1 <= k < c implies s3[k] == sec[k - b - 1] by {}
    assert(s3[a] == x && s3[b] == y);
    lemma_lead_end_run(s3, 0, a);
    lemma_lead_end_run(s3, a + 1, b);
    lemma_lead_end_run(s3, b + 1, c);
}

fn component_byte(b: u8) -> (r: bool)
    ensures
        r == is_component_byte(b),
{
    (48 <= b && b <= 57) || b == 46 || b == 45 || b == 43
}

fn is_separator_byte(b: u8) -> (r: bool)
    ensures
        r == is_component_separator(b),
{
    b == 32 || b == 58 || b == 59
}

/// Where the component that begins at `i` ends.
fn component_end(s: &[u8], i: usize) -> (r: usize)
    requires
        i <= s@.len(),
    ensures
        r == lead_end(s@, i as int),
        i <= r <= s@.len(),
{
    proof {
        lemma_lead_end_bounds(s@, i as int);
    }
    let mut j: usize = i;
    while j < s.len() && component_byte(s[j])
        invariant
            i <= j <= s@.len(),
            lead_end(s@, i as int) == lead_end(s@, j as int),
        decreases s.len() - j,
    {
        j = j + 1;
    }
    j
}

/// Finds where the components of a sexagesimal number stand in its text.
pub fn sexagesimal_layout(s: &[u8]) -> (r: Result<SexagesimalLayout, ParseError>)
    ensures
        r == spec_sexagesimal_layout(s@),
{
    let j = component_end(s, 0);
    if j < s.len() && !is_separator_byte(s[j]) {
        return Err(ParseError::new(SEXAGESIMAL_ILLEGAL_CHARACTER, j));
    }
    if j == 0 {
        return Err(ParseError::new(EMPTY_COMPONENT, 0));
    }
    let tail = if j >= s.len() {
        Ok(SexagesimalTail::Whole)
    } else {
        let m0 = j + 1;
        let m1 = component_end(s, m0);
        if m1 < s.len() && !is_separator_byte(s[m1]) {
            Err(ParseError::new(SEXAGESIMAL_ILLEGAL_CHARACTER, m1))
        } else if m1 == m0 {
            Err(ParseError::new(EMPTY_COMPONENT, m0))
        } else if m1 >= s.len() {
            Ok(SexagesimalTail::Minutes { start: m0, end: m1 })
        } else {
            let s0 = m1 + 1;
            let s1 = component_end(s, s0);
            if s1 < s.len() && !is_separator_byte(s[s1]) {
                Err(ParseError::new(SEXAGESIMAL_ILLEGAL_CHARACTER, s1))
            } else if s1 == s0 {
                Err(ParseError::new(EMPTY_COMPONENT, s0))
            } else if s1 >= s.len() {
                Ok(
                    SexagesimalTail::MinutesSeconds {
                        minutes_start: m0,
                        minutes_end: m1,
                        seconds_start: s0,
                        seconds_end: s1,
                    },
                )
            } else {
                Err(ParseError::new(SEXAGESIMAL_TOO_MANY_COMPONENTS, s1))
            }
        }
    };
    Ok(SexagesimalLayout { lead_end: j, negative: s[0] == 45, tail })
}

} // verus!
