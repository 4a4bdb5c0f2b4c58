use cryptify::range::{is_whitespace, parse_number, ContentRange, NumberError, RangeError};

fn parse(text: &str) -> Result<ContentRange, String> {
    ContentRange::from_str(text).map_err(|e| e.message())
}

fn number(text: &str) -> Result<u64, NumberError> {
    parse_number(&text.chars().collect())
}

#[test]
fn full_range_is_read() {
    assert_eq!(
        parse("bytes 0-99/250"),
        Ok(ContentRange { size: Some(250), start: Some(0), end: Some(99) })
    );
    assert_eq!(
        parse("bytes 100-250/*"),
        Ok(ContentRange { size: None, start: Some(100), end: Some(250) })
    );
    assert_eq!(parse("bytes */250"), Ok(ContentRange { size: Some(250), start: None, end: None }));
    assert_eq!(parse("bytes */*"), Ok(ContentRange { size: None, start: None, end: None }));
}

#[test]
fn white_space_around_the_words_is_skipped() {
    let expected = Ok(ContentRange { size: Some(9), start: Some(1), end: Some(2) });
    assert_eq!(parse("  bytes   1-2/9  "), expected);
    assert_eq!(parse("\tbytes\n1-2/9\r\n"), expected);
    assert_eq!(parse("bytes\u{a0}1-2/9\u{3000}"), expected);
}

#[test]
fn missing_and_excess_words_are_told_apart() {
    assert_eq!(parse(""), Err("Missing unit".to_string()));
    assert_eq!(parse("   "), Err("Missing unit".to_string()));
    assert_eq!(parse("bytes"), Err("Missing range".to_string()));
    assert_eq!(parse("bytes  "), Err("Missing range".to_string()));
    assert_eq!(parse("bytes 0-1/2 x"), Err("Excess data".to_string()));
    assert_eq!(parse("items 0-1/2 x"), Err("Excess data".to_string()));
}

#[test]
fn unknown_unit_is_named() {
    assert_eq!(parse("items 0-1/2"), Err("Unknown unit items".to_string()));
    assert_eq!(parse("Bytes 0-1/2"), Err("Unknown unit Bytes".to_string()));
    assert_eq!(parse("byte 0-1/2"), Err("Unknown unit byte".to_string()));
    assert_eq!(parse("bytess 0-1/2"), Err("Unknown unit bytess".to_string()));
    match ContentRange::from_str("b\u{e9}tes 0-1/2") {
        Err(RangeError::UnknownUnit(unit)) => assert_eq!(unit, "b\u{e9}tes"),
        other => panic!("unexpected {:?}", other),
    }
}

#[test]
fn size_part_is_needed_once() {
    assert_eq!(parse("bytes 0-1"), Err("Missing size part of range".to_string()));
    assert_eq!(parse("bytes 0-1/2/3"), Err("Excess data in range".to_string()));
    assert_eq!(parse("bytes 0-1/"), Err("cannot parse integer from empty string".to_string()));
    assert_eq!(parse("bytes x-1/"), Err("cannot parse integer from empty string".to_string()));
    assert_eq!(parse("bytes /5"), Err("cannot parse integer from empty string".to_string()));
}

#[test]
fn size_is_read_before_the_bounds() {
    assert_eq!(
        parse("bytes 0-1/99999999999999999999"),
        Err("number too large to fit in target type".to_string())
    );
    assert_eq!(parse("bytes a-b/c"), Err("invalid digit found in string".to_string()));
    assert_eq!(
        parse("bytes 99999999999999999999-1/x"),
        Err("invalid digit found in string".to_string())
    );
}

#[test]
fn end_is_needed_and_what_follows_it_is_not_read() {
    assert_eq!(parse("bytes 5/10"), Err("Missing end of range".to_string()));
    assert_eq!(parse("bytes x/10"), Err("invalid digit found in string".to_string()));
    assert_eq!(parse("bytes 5-/10"), Err("cannot parse integer from empty string".to_string()));
    assert_eq!(parse("bytes -5/10"), Err("cannot parse integer from empty string".to_string()));
    assert_eq!(
        parse("bytes 1-2-3/10"),
        Ok(ContentRange { size: Some(10), start: Some(1), end: Some(2) })
    );
    assert_eq!(
        parse("bytes 1-2-x/10"),
        Ok(ContentRange { size: Some(10), start: Some(1), end: Some(2) })
    );
    assert_eq!(parse("bytes **/10"), Err("invalid digit found in string".to_string()));
}

#[test]
fn numbers_are_read_as_the_standard_library_reads_them() {
    let texts = [
        "", "0", "7", "007", "+7", "+", "-", "-7", "++7", "+-7", "7+", " 7", "7 ", "1_000", "12a",
        "a12", "18446744073709551615", "18446744073709551616", "18446744073709551620",
        "018446744073709551615", "99999999999999999999", "99999999999999999999x",
        "9999999999999999999x", "1844674407370955161x", "x99999999999999999999",
        "+18446744073709551615", "+18446744073709551616", "1234567890123456", "12345678901234567",
        "\u{663}", "1\u{e9}",
    ];
    for text in texts {
        let expected = match text.parse::<u64>() {
            Ok(n) => Ok(n),
            Err(e) => Err(e.to_string()),
        };
        assert_eq!(number(text).map_err(|e| e.message()), expected, "for {:?}", text);
    }
}

#[test]
fn number_errors_name_their_kind() {
    assert_eq!(number(""), Err(NumberError::Empty));
    assert_eq!(number("+"), Err(NumberError::InvalidDigit));
    assert_eq!(number("1x"), Err(NumberError::InvalidDigit));
    assert_eq!(number("18446744073709551616"), Err(NumberError::Overflow));
    assert_eq!(number("18446744073709551615"), Ok(u64::MAX));
}

#[test]
fn white_space_is_what_the_standard_library_says() {
    for code in 0u32..0x11_0000 {
        if let Some(c) = char::from_u32(code) {
            assert_eq!(is_whitespace(c), c.is_whitespace(), "for {:x}", code);
        }
    }
}

#[test]
fn ranges_are_read_as_by_splitting_on_white_space_and_separators() {
    let texts = [
        "bytes 0-99/250", "bytes  0-0/0", "bytes 1-2/3 ", "bytes 1-2/3/", "bytes 1--2/3",
        "bytes +1-+2/+3", "bytes */*", "bytes *-1/5", "bytes 1-*/5", "bytes * /5", "bytes 0-1 /2",
        "bytes=0-1/2", "bytes\u{2003}7-8/9", "bytes 7-8/9\u{85}", "bytes 5-4/3",
    ];
    for text in texts {
        assert_eq!(parse(text), split_and_read(text), "for {:?}", text);
    }
}

fn split_and_read(s: &str) -> Result<ContentRange, String> {
    let mut parts = s.split_whitespace();
    let unit = parts.next().ok_or("Missing unit")?;
    let range = parts.next().ok_or("Missing range")?;
    if parts.next().is_some() {
        return Err("Excess data".into());
    }
    if unit != "bytes" {
        return Err(format!("Unknown unit {}", unit));
    }
    let mut rangeparts = range.split('/');
    let range = rangeparts.next().ok_or("Missing lower-upper part of range")?;
    let size = rangeparts.next().ok_or("Missing size part of range")?;
    if rangeparts.next().is_some() {
        return Err("Excess data in range".into());
    }
    let size = if size != "*" {
        Some(size.parse::<u64>().map_err(|e| e.to_string())?)
    } else {
        None
    };
    if range != "*" {
        let mut rangeparts = range.split('-');
        let start =
            rangeparts.next().ok_or("Missing start of range")?.parse::<u64>().map_err(|e| e.to_string())?;
        let end =
            rangeparts.next().ok_or("Missing end of range")?.parse::<u64>().map_err(|e| e.to_string())?;
        Ok(ContentRange { size, start: Some(start), end: Some(end) })
    } else {
        Ok(ContentRange { size, start: None, end: None })
    }
}
