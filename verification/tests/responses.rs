use mms_rs::MmsApi;
use mms_rs::MmsError;
use mms_rs::Stat;
use mms_rs::StatQuery;
use std::num::ParseFloatError;

fn parse_real(text: &str) -> Result<u32, ParseFloatError> {
    text.parse::<f32>().map(f32::to_bits)
}

#[test]
fn ack_is_accepted() {
    assert!(MmsApi::read_ack("ack".to_string()).is_ok());
    assert!(MmsApi::read_ack("ack\n".to_string()).is_ok());
    assert!(MmsApi::read_ack("ack\r\n".to_string()).is_ok());
    assert!(MmsApi::read_ack("ack  \t\n".to_string()).is_ok());
}

#[test]
fn nope_is_an_invalid_acknowledgment() {
    match MmsApi::read_ack("nope".to_string()) {
        Err(MmsError::InvalidAck(held)) => assert_eq!(held, "nope"),
        other => panic!("{:?}", other),
    }
}

#[test]
fn an_invalid_acknowledgment_holds_the_line_untrimmed() {
    for line in ["nope\n", "", "\n", "ack ack\n", "Ack\n", "ac\n", "acknowledged\n", "true\n"] {
        match MmsApi::read_ack(line.to_string()) {
            Err(MmsError::InvalidAck(held)) => assert_eq!(held, line),
            other => panic!("{:?}", other),
        }
    }
}

#[test]
fn only_trailing_whitespace_is_set_aside() {
    match MmsApi::read_ack(" ack\n".to_string()) {
        Err(MmsError::InvalidAck(held)) => assert_eq!(held, " ack\n"),
        other => panic!("{:?}", other),
    }
    assert!(!MmsApi::read_flag(" true\n"));
    assert!(MmsApi::read_integer(" 7\n").is_err());
}

#[test]
fn true_is_yes() {
    assert!(MmsApi::read_flag("true"));
    assert!(MmsApi::read_flag("true\n"));
    assert!(MmsApi::read_flag("true\r\n"));
    assert!(MmsApi::read_flag("true \n"));
}

#[test]
fn anything_else_is_no() {
    for line in ["maybe", "false\n", "", "\n", "True\n", "TRUE\n", "1\n", "tru\n", "true!\n", "ack\n"] {
        assert!(!MmsApi::read_flag(line));
    }
}

#[test]
fn seven_is_an_integer() {
    assert_eq!(MmsApi::read_integer("7").unwrap(), 7);
    assert_eq!(MmsApi::read_integer("7\n").unwrap(), 7);
    assert_eq!(MmsApi::read_integer("16\r\n").unwrap(), 16);
}

#[test]
fn seven_in_letters_is_no_integer() {
    match MmsApi::read_integer("seven") {
        Err(MmsError::ParseIntError(_)) => {}
        other => panic!("{:?}", other),
    }
}

#[test]
fn integers_may_carry_a_sign_and_leading_zeros() {
    assert_eq!(MmsApi::read_integer("-1\n").unwrap(), -1);
    assert_eq!(MmsApi::read_integer("+5\n").unwrap(), 5);
    assert_eq!(MmsApi::read_integer("-0\n").unwrap(), 0);
    assert_eq!(MmsApi::read_integer("007\n").unwrap(), 7);
    assert_eq!(MmsApi::read_integer("2147483647\n").unwrap(), i32::MAX);
    assert_eq!(MmsApi::read_integer("-2147483648\n").unwrap(), i32::MIN);
    assert_eq!(
        MmsApi::read_integer("000000000000000000002147483647\n").unwrap(),
        i32::MAX
    );
}

#[test]
fn what_is_no_integer_is_an_error() {
    for line in [
        "", "\n", "+", "-", "+-5", "--5", "5-", "1 2", "1.0", "1e3", "0x10", "1_000", "2147483648",
        "-2147483649", "99999999999999999999", "٣", "true",
    ] {
        match MmsApi::read_integer(line) {
            Err(MmsError::ParseIntError(_)) => {}
            other => panic!("{:?} for {:?}", other, line),
        }
    }
}

#[test]
fn the_score_is_a_real_number() {
    match MmsApi::read_stat(&StatQuery::Score, "12.5", parse_real) {
        Ok(Stat::Score(bits)) => assert_eq!(f32::from_bits(bits), 12.5),
        other => panic!("{:?}", other),
    }
}

#[test]
fn the_turns_are_a_whole_number() {
    match MmsApi::read_stat(&StatQuery::TotalTurns, "4", parse_real) {
        Ok(Stat::TotalTurns(turns)) => assert_eq!(turns, 4),
        other => panic!("{:?}", other),
    }
}

#[test]
fn every_statistic_carries_the_tag_of_its_query() {
    let line = "3\n";
    let three = 3.0f32.to_bits();
    assert_eq!(
        MmsApi::read_stat(&StatQuery::TotalDistance, line, parse_real).unwrap(),
        Stat::TotalDistance(3)
    );
    assert_eq!(
        MmsApi::read_stat(&StatQuery::TotalTurns, line, parse_real).unwrap(),
        Stat::TotalTurns(3)
    );
    assert_eq!(
        MmsApi::read_stat(&StatQuery::BestRunDistance, line, parse_real).unwrap(),
        Stat::BestRunDistance(3)
    );
    assert_eq!(
        MmsApi::read_stat(&StatQuery::BestRunTurns, line, parse_real).unwrap(),
        Stat::BestRunTurns(3)
    );
    assert_eq!(
        MmsApi::read_stat(&StatQuery::CurrentRunDistance, line, parse_real).unwrap(),
        Stat::CurrentRunDistance(3)
    );
    assert_eq!(
        MmsApi::read_stat(&StatQuery::CurrentRunTurns, line, parse_real).unwrap(),
        Stat::CurrentRunTurns(3)
    );
    assert_eq!(
        MmsApi::read_stat(&StatQuery::TotalEffectiveDistance, line, parse_real).unwrap(),
        Stat::TotalEffectiveDistance(three)
    );
    assert_eq!(
        MmsApi::read_stat(&StatQuery::BestRunEffectiveDistance, line, parse_real).unwrap(),
        Stat::BestRunEffectiveDistance(three)
    );
    assert_eq!(
        MmsApi::read_stat(&StatQuery::CurrentRunEffectiveDistance, line, parse_real).unwrap(),
        Stat::CurrentRunEffectiveDistance(three)
    );
    assert_eq!(
        MmsApi::read_stat(&StatQuery::Score, line, parse_real).unwrap(),
        Stat::Score(three)
    );
}

#[test]
fn a_statistic_without_a_value_is_minus_one() {
    assert_eq!(
        MmsApi::read_stat(&StatQuery::BestRunTurns, "-1\n", parse_real).unwrap(),
        Stat::BestRunTurns(-1)
    );
    assert_eq!(
        MmsApi::read_stat(&StatQuery::Score, "-1\n", parse_real).unwrap(),
        Stat::Score((-1.0f32).to_bits())
    );
}

#[test]
fn a_count_that_is_no_integer_is_an_error() {
    for line in ["12.5\n", "four\n", "", " 4\n"] {
        match MmsApi::read_stat(&StatQuery::TotalTurns, line, parse_real) {
            Err(MmsError::ParseIntError(_)) => {}
            other => panic!("{:?} for {:?}", other, line),
        }
    }
}

#[test]
fn a_measure_that_is_no_number_is_an_error() {
    for line in ["twelve\n", "", "12,5\n", " 12.5\n"] {
        match MmsApi::read_stat(&StatQuery::Score, line, parse_real) {
            Err(MmsError::ParseFloatError(_)) => {}
            other => panic!("{:?} for {:?}", other, line),
        }
    }
}

#[test]
fn the_parser_of_real_numbers_sees_the_line_without_its_end() {
    let seen = std::cell::RefCell::new(String::new());
    let result = MmsApi::read_stat(&StatQuery::Score, "0.25 \r\n", |text: &str| {
        seen.borrow_mut().push_str(text);
        parse_real(text)
    });
    assert_eq!(result.unwrap(), Stat::Score(0.25f32.to_bits()));
    assert_eq!(seen.into_inner(), "0.25");
}

#[test]
fn a_count_is_read_without_the_parser_of_real_numbers() {
    let result = MmsApi::read_stat(&StatQuery::TotalDistance, "42\n", |_: &str| {
        panic!("no real number is asked for")
    });
    assert_eq!(result.unwrap(), Stat::TotalDistance(42));
}

#[test]
fn failures_of_the_parts_become_failures_of_the_client() {
    let e = "x".parse::<i32>().unwrap_err();
    assert!(matches!(MmsError::from(e), MmsError::ParseIntError(_)));
    let e = "x".parse::<f32>().unwrap_err();
    assert!(matches!(MmsError::from(e), MmsError::ParseFloatError(_)));
    let e = std::io::Error::new(std::io::ErrorKind::BrokenPipe, "closed");
    match MmsError::from(e) {
        MmsError::IoError(held) => assert_eq!(held.kind(), std::io::ErrorKind::BrokenPipe),
        other => panic!("{:?}", other),
    }
}

#[test]
fn unicode_whitespace_at_the_end_is_set_aside() {
    assert!(MmsApi::read_flag("true\u{a0}\u{2003}\u{3000}\u{85}\n"));
    assert!(!MmsApi::read_flag("true\u{200b}\n"));
    assert_eq!(MmsApi::read_integer("12\u{b}\u{c}\u{2028}").unwrap(), 12);
}

#[test]
fn whitespace_is_the_unicode_property() {
    let white = [
        0x09u32, 0x0a, 0x0b, 0x0c, 0x0d, 0x20, 0x85, 0xa0, 0x1680, 0x2000, 0x2001, 0x2002, 0x2003,
        0x2004, 0x2005, 0x2006, 0x2007, 0x2008, 0x2009, 0x200a, 0x2028, 0x2029, 0x202f, 0x205f,
        0x3000,
    ];
    let mut line = String::new();
    for code in 0u32..=0x10ffff {
        if let Some(c) = char::from_u32(code) {
            line.clear();
            line.push_str("true");
            line.push(c);
            assert_eq!(MmsApi::read_flag(&line), white.contains(&code), "{:#x}", code);
        }
    }
}

/// What an optional sign and decimal digits denote, if they fit in 32 bits.
fn denoted(text: &str) -> Option<i32> {
    let mut chars = text.chars().peekable();
    let negative = match chars.peek() {
        Some('-') => {
            chars.next();
            true
        }
        Some('+') => {
            chars.next();
            false
        }
        _ => false,
    };
    let mut digits = 0;
    let mut value: i64 = 0;
    let mut fits = true;
    for c in chars {
        if !('0'..='9').contains(&c) {
            return None;
        }
        digits += 1;
        value = value * 10 + (c as i64 - '0' as i64);
        if value > i32::MAX as i64 + 1 {
            fits = false;
            value = i32::MAX as i64 + 2;
        }
    }
    if digits == 0 || !fits {
        return None;
    }
    let value = if negative { -value } else { value };
    i32::try_from(value).ok()
}

#[test]
fn integers_are_read_as_signed_decimal_numerals() {
    let alphabet = ['+', '-', '0', '1', '7', '9', ' ', '_', '.', 'a', 'x', '٣', '１'];
    let mut texts = vec![String::new()];
    let mut last = texts.clone();
    for _ in 0..4 {
        let mut next = Vec::new();
        for text in &last {
            for c in alphabet {
                let mut longer = text.clone();
                longer.push(c);
                next.push(longer);
            }
        }
        texts.extend(next.iter().cloned());
        last = next;
    }
    for edge in [
        "2147483646", "2147483647", "2147483648", "2147483649", "+2147483647", "+2147483648",
        "-2147483647", "-2147483648", "-2147483649", "4294967295", "4294967296", "9999999999",
        "-9999999999", "00000000002147483647", "-00000000002147483648", "00000000002147483648",
        "18446744073709551616", "1e5", "0x1f", "1,000",
    ] {
        texts.push(edge.to_string());
    }
    assert!(texts.len() > 30000);
    for text in texts {
        let read = MmsApi::read_integer(&text);
        let trimmed = text.trim_end_matches(' ');
        match (read, denoted(trimmed)) {
            (Ok(value), Some(expected)) => assert_eq!(value, expected, "{:?}", text),
            (Err(MmsError::ParseIntError(_)), None) => {}
            (read, expected) => panic!("{:?} read as {:?}, not {:?}", text, read, expected),
        }
    }
}

#[test]
fn only_the_end_of_a_line_is_trimmed() {
    let parts = ["", " ", "\t", "\n", "\r\n", "a", "true", " true", "tr ue", "\u{a0}x", "x\u{3000}"];
    for head in parts {
        for middle in parts {
            for tail in parts {
                let line = format!("{}{}{}", head, middle, tail);
                let expected = line.trim_end() == "true";
                assert_eq!(MmsApi::read_flag(&line), expected, "{:?}", line);
                let expected = line.trim_end() == "ack";
                assert_eq!(MmsApi::read_ack(line.clone()).is_ok(), expected, "{:?}", line);
            }
        }
    }
    assert!(MmsApi::read_flag("true \t\r\n\u{a0}"));
    assert!(!MmsApi::read_flag("\ttrue"));
    assert!(!MmsApi::read_flag("tr ue"));
}
