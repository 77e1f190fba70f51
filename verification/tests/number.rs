use libindigo::number::{sexagesimal_layout, SexagesimalLayout, SexagesimalTail};
use libindigo::number::{
    FormatFlags, FormatLength, NumberFormat, ParseError, FMT_ERR_FIRST_CHARACTER_MUST_BE_A_PERCENT_SIGN,
    FMT_ERR_NO_FORMAT_SPECIFIER, FMT_ERR_PREMATURE_END_OF_FORMAT_STRING,
    FMT_ERR_SEXAGESIMAL_FORMAT_MUST_SPECIFY_PRECISION, FMT_ERR_SEXAGESIMAL_FORMAT_MUST_SPECIFY_WIDTH,
    FMT_ERR_SEXAGESIMAL_FRACTION_MUST_BE_3_5_6_8_OR_9,
    FMT_ERR_SEXAGESIMAL_WIDTH_MUST_EQUAL_OR_EXCEED_PRECISION, FMT_ERR_TRAILING_CHARACTERS_AFTER_FORMAT,
    FMT_ERR_UNKNOWN_FORMAT_SPECIFIER, FMT_ERR_UNSUPORTED_PRINTF_FORMAT, FMT_ERR_LENGTH,
    FMT_ERR_FORMAT_MUST_ONLY_CONTAIN_ONE_PERIOD, FMT_ERR_ZERO_LENGTH_BUFFER, FMT_ERR_COULD_NOT_PARSE_INT,
};

#[test]
fn test_format_flags() {
    assert_eq!(FormatFlags::SPACE, 4u8);
    assert_eq!(FormatFlags::SPACE | FormatFlags::MINUS, 5u8);

    let minus_space = FormatFlags(5);

    assert_eq!(minus_space.0 & FormatFlags::SPACE, 4u8);
    assert_eq!(minus_space.0 & FormatFlags::MINUS, 1u8);
    assert_eq!(minus_space.0 & FormatFlags::HASH, 0u8);

    assert!(minus_space.space_flag());
    assert!(minus_space.minus_flag());
    assert!(!minus_space.hash_flag());
    assert!(!minus_space.plus_flag());
    assert!(!minus_space.zero_flag());
}

fn assert_format_error(fmt: &str, msg: &'static str, index: usize) {
    let actual = NumberFormat::try_from(fmt).expect_err("expected format parsing to fail");
    let expected = ParseError::new(msg, index);
    assert_eq!(actual, expected);
}

fn assert_format(
    fmt: &str,
    f: Option<FormatFlags>,
    w: Option<usize>,
    p: Option<usize>,
    le: Option<FormatLength>,
    s: char,
) {
    let fmt = NumberFormat::try_from(fmt).unwrap();
    assert_eq!(fmt.f, f);
    assert_eq!(fmt.w, w);
    assert_eq!(fmt.p, p);
    assert_eq!(fmt.l, le);
    assert_eq!(fmt.s, s);
}

#[test]
fn test_number_format() {
    assert_format("%i", None, None, None, None, 'i');
    assert_format("%d", None, None, None, None, 'd');
    assert_format("%5i", None, Some(5), None, None, 'i');
    assert_format("%10d", None, Some(10), None, None, 'd');
    assert_format("%10f", None, Some(10), None, None, 'f');
    assert_format("%10F", None, Some(10), None, None, 'F');
    assert_format("%10g", None, Some(10), None, None, 'g');
    assert_format("%10G", None, Some(10), None, None, 'G');
    assert_format("%1.2f", None, Some(1), Some(2), None, 'f');
    assert_format("%10.2f", None, Some(10), Some(2), None, 'f');
    assert_format("%10.2F", None, Some(10), Some(2), None, 'F');
    assert_format("%10.2g", None, Some(10), Some(2), None, 'g');
    assert_format("%10.2G", None, Some(10), Some(2), None, 'G');

    // zero flag
    assert_format("%0f", Some(FormatFlags(FormatFlags::ZERO)), None, None, None, 'f');
    assert_format("%01f", Some(FormatFlags(FormatFlags::ZERO)), Some(1), None, None, 'f');
    assert_format("%010f", Some(FormatFlags(FormatFlags::ZERO)), Some(10), None, None, 'f');
    assert_format("%010.2f", Some(FormatFlags(FormatFlags::ZERO)), Some(10), Some(2), None, 'f');
    assert_format("%0.0f", Some(FormatFlags(FormatFlags::ZERO)), None, Some(0), None, 'f');
    assert_format("%0.2f", Some(FormatFlags(FormatFlags::ZERO)), None, Some(2), None, 'f');
    assert_format("%010.f", Some(FormatFlags(FormatFlags::ZERO)), Some(10), None, None, 'f');

    // space flag
    assert_format("% 10i", Some(FormatFlags(FormatFlags::SPACE)), Some(10), None, None, 'i');
    // minus flag
    assert_format("%-10d", Some(FormatFlags(FormatFlags::MINUS)), Some(10), None, None, 'd');
    // plus flag
    assert_format("%+10x", Some(FormatFlags(FormatFlags::PLUS)), Some(10), None, None, 'x');
    // hash flag
    assert_format("%#10X", Some(FormatFlags(FormatFlags::HASH)), Some(10), None, None, 'X');

    let zero_plus = Some(FormatFlags(FormatFlags::ZERO | FormatFlags::PLUS));
    assert_format("%+010f", zero_plus, Some(10), None, None, 'f'); // plus zero
    assert_format("%0+10f", zero_plus, Some(10), None, None, 'f'); // zero plus

    assert_format("%10.0f", None, Some(10), Some(0), None, 'f');
    assert_format("%10.f", None, Some(10), None, None, 'f');

    assert_format_error("%c", FMT_ERR_UNSUPORTED_PRINTF_FORMAT, 1);
    assert_format_error("%s", FMT_ERR_UNSUPORTED_PRINTF_FORMAT, 1);
    assert_format_error("%p", FMT_ERR_UNSUPORTED_PRINTF_FORMAT, 1);
    assert_format_error("%n", FMT_ERR_UNSUPORTED_PRINTF_FORMAT, 1);
    assert_format_error("%%", FMT_ERR_UNSUPORTED_PRINTF_FORMAT, 1);
    assert_format_error("%q", FMT_ERR_UNKNOWN_FORMAT_SPECIFIER, 1);
    assert_format_error("%t", FMT_ERR_NO_FORMAT_SPECIFIER, 2);
    assert_format_error("%10\0.2g", FMT_ERR_PREMATURE_END_OF_FORMAT_STRING, 3);
    assert_format_error("%c", FMT_ERR_UNSUPORTED_PRINTF_FORMAT, 1);
    assert_format_error("%2a2c", FMT_ERR_TRAILING_CHARACTERS_AFTER_FORMAT, 3);
}

#[test]
fn test_sexagesimal_format() {
    assert_format("%12.3m", None, Some(12), Some(3), None, 'm');
    assert_format("%12.5m", None, Some(12), Some(5), None, 'm');
    assert_format("%12.6m", None, Some(12), Some(6), None, 'm');
    assert_format("%12.8m", None, Some(12), Some(8), None, 'm');
    assert_format("%12.9m", None, Some(12), Some(9), None, 'm');
    assert_format("%16.6m", None, Some(16), Some(6), None, 'm');
    assert_format("%5.3m", None, Some(5), Some(3), None, 'm');
    assert_format("%7.6m", None, Some(7), Some(6), None, 'm');

    assert_format_error("%12.1m", FMT_ERR_SEXAGESIMAL_FRACTION_MUST_BE_3_5_6_8_OR_9, 5);
    assert_format_error("%12.2m", FMT_ERR_SEXAGESIMAL_FRACTION_MUST_BE_3_5_6_8_OR_9, 5);
    assert_format_error("%12.4m", FMT_ERR_SEXAGESIMAL_FRACTION_MUST_BE_3_5_6_8_OR_9, 5);
    assert_format_error("%12.7m", FMT_ERR_SEXAGESIMAL_FRACTION_MUST_BE_3_5_6_8_OR_9, 5);

    assert_format_error("%1.9m", FMT_ERR_SEXAGESIMAL_WIDTH_MUST_EQUAL_OR_EXCEED_PRECISION, 4);

    assert_format_error("%.m", FMT_ERR_SEXAGESIMAL_FORMAT_MUST_SPECIFY_WIDTH, 1);
    assert_format_error("%.9m", FMT_ERR_SEXAGESIMAL_FORMAT_MUST_SPECIFY_WIDTH, 1);
    assert_format_error("%12.m", FMT_ERR_SEXAGESIMAL_FORMAT_MUST_SPECIFY_PRECISION, 4);

    assert_format_error("%12m", FMT_ERR_SEXAGESIMAL_FORMAT_MUST_SPECIFY_PRECISION, 3);

    assert_format_error("12.3m", FMT_ERR_FIRST_CHARACTER_MUST_BE_A_PERCENT_SIGN, 0);
    assert_format_error("%12.3", FMT_ERR_NO_FORMAT_SPECIFIER, 5);
}

#[test]
fn number_format_rejects_empty_and_repeated_parts() {
    assert_format_error("", FMT_ERR_ZERO_LENGTH_BUFFER, 1);
    assert_format_error("%1.2.3f", FMT_ERR_FORMAT_MUST_ONLY_CONTAIN_ONE_PERIOD, 4);
    assert_format_error("%hlf", FMT_ERR_LENGTH, 2);
    assert_format_error("%jjf", FMT_ERR_LENGTH, 2);
    assert_format_error("%-\0f", FMT_ERR_PREMATURE_END_OF_FORMAT_STRING, 2);
    assert_format_error("%l\0", FMT_ERR_PREMATURE_END_OF_FORMAT_STRING, 2);
    assert_format_error("%\0", FMT_ERR_PREMATURE_END_OF_FORMAT_STRING, 1);
    assert_format_error("%99999999999999999999999d", FMT_ERR_COULD_NOT_PARSE_INT, 0);
}

#[test]
fn number_format_length_modifiers() {
    assert_format("%ld", None, None, None, Some(FormatLength::l), 'd');
    assert_format("%lld", None, None, None, Some(FormatLength::ll), 'd');
    assert_format("%hhd", None, None, None, Some(FormatLength::hh), 'd');
    assert_format_error("%lhd", FMT_ERR_LENGTH, 2);
    assert_format("%hd", None, None, None, Some(FormatLength::h), 'd');
    // the width is optional but for a sexagesimal
    assert_format("%.2f", None, None, Some(2), None, 'f');
    assert_format("%Lf", None, None, None, Some(FormatLength::L), 'f');
    assert_format("%zu", None, None, None, Some(FormatLength::z), 'u');
    // a trailing NUL terminates the format
    assert_format("%5.2f\0\0", None, Some(5), Some(2), None, 'f');
    let parsed: NumberFormat = "%9.6m".parse().unwrap();
    assert_eq!(parsed, NumberFormat::new("%9.6m"));
    assert_eq!(NumberFormat::try_from(&b"%3x"[..]).unwrap().w, Some(3));
}

#[test]
fn sexagesimal_layouts() {
    let l = sexagesimal_layout(b"10:30:18").unwrap();
    assert_eq!(
        l,
        SexagesimalLayout {
            lead_end: 2,
            negative: false,
            tail: Ok(SexagesimalTail::MinutesSeconds { minutes_start: 3, minutes_end: 5, seconds_start: 6, seconds_end: 8 }),
        }
    );
    assert_eq!(sexagesimal_layout(b"10 30.3").unwrap().tail, Ok(SexagesimalTail::Minutes { start: 3, end: 7 }));
    assert_eq!(sexagesimal_layout(b"10.505").unwrap().tail, Ok(SexagesimalTail::Whole));
    let n = sexagesimal_layout(b"-10:30:18.0").unwrap();
    assert!(n.negative);
    assert_eq!(n.lead_end, 3);
    assert_eq!(
        n.tail,
        Ok(SexagesimalTail::MinutesSeconds { minutes_start: 4, minutes_end: 6, seconds_start: 7, seconds_end: 11 })
    );
    assert_eq!(
        sexagesimal_layout(b"-10:30:18.00").unwrap().tail,
        Ok(SexagesimalTail::MinutesSeconds { minutes_start: 4, minutes_end: 6, seconds_start: 7, seconds_end: 12 })
    );
    assert_eq!(sexagesimal_layout(b"-10;30.30").unwrap().tail, Ok(SexagesimalTail::Minutes { start: 4, end: 9 }));
    let e = sexagesimal_layout(b"1x").unwrap_err();
    assert_eq!((e.msg(), e.index()), ("illegal sexagesimal character", 1));
    let e = sexagesimal_layout(b":30").unwrap_err();
    assert_eq!((e.msg(), e.index()), ("begin and start indeces must not be equal", 0));
    // components may have any length: "10:6" reads as "10:06"
    assert_eq!(sexagesimal_layout(b"10:6").unwrap().tail, Ok(SexagesimalTail::Minutes { start: 3, end: 4 }));
    assert_eq!(
        sexagesimal_layout(b"10:6:5.25").unwrap().tail,
        Ok(SexagesimalTail::MinutesSeconds { minutes_start: 3, minutes_end: 4, seconds_start: 5, seconds_end: 9 })
    );
    let t = sexagesimal_layout(b"1:2:3:4").unwrap().tail.unwrap_err();
    assert_eq!((t.msg(), t.index()), ("too many sexagesimal components", 5));
    let t = sexagesimal_layout(b"10:").unwrap().tail.unwrap_err();
    assert_eq!((t.msg(), t.index()), ("begin and start indeces must not be equal", 3));
    let t = sexagesimal_layout(b"10:3x").unwrap().tail.unwrap_err();
    assert_eq!((t.msg(), t.index()), ("illegal sexagesimal character", 4));
}
