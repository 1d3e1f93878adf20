use wat_ast::{Decimal, Error, Hexadecimal, IntegerLiteral, Sign};

#[test]
fn decimal_from_str_empty() {
    if let Error::EmptyExpr = Decimal::from_str("").unwrap_err() {
    } else {
        assert!(false);
    }
}

#[test]
fn decimal_from_str_underscore() {
    if let Error::InvalidChar { idx, string } = Decimal::from_str("_").unwrap_err() {
        assert_eq!(idx, 0);
        assert_eq!(string, "_");
    } else {
        assert!(false);
    }
}

#[test]
fn decimal_from_str_number_without_underscore() {
    assert_eq!(
        Decimal::from_str("123").unwrap(),
        Decimal {
            sign: Sign::Empty,
            num: "123".to_string(),
        }
    )
}

#[test]
fn decimal_from_str_positive_only() {
    if let Error::MalformedPattern(s) = Decimal::from_str("+").unwrap_err() {
        assert_eq!(s, "+");
    } else {
        assert!(false);
    }
}

#[test]
fn decimal_from_str_positive_number() {
    assert_eq!(
        Decimal::from_str("+123").unwrap(),
        Decimal {
            sign: Sign::Positive,
            num: "123".to_string(),
        },
    )
}

#[test]
fn decimal_from_str_long_number() {
    assert_eq!(
        Decimal::from_str("123_456_789_123_456_789").unwrap(),
        Decimal {
            sign: Sign::Empty,
            num: "123_456_789_123_456_789".to_string(),
        },
    )
}

#[test]
fn decimal_from_str_number_ends_with_underscore() {
    if let Error::InvalidChar { idx, string } = Decimal::from_str("123_").unwrap_err() {
        assert_eq!(idx, 3);
        assert_eq!(string, "123_");
    } else {
        assert!(false);
    }
}

#[test]
fn hexadecimal_from_str_empty() {
    if let Error::EmptyExpr = Hexadecimal::from_str("").unwrap_err() {
    } else {
        assert!(false);
    }
}

#[test]
fn hexadecimal_from_str_underscore() {
    if let Error::InvalidChar { idx, string } = Hexadecimal::from_str("_").unwrap_err() {
        assert_eq!(idx, 0);
        assert_eq!(string, "_");
    } else {
        assert!(false);
    }
}

#[test]
fn hexadecimal_from_str_number_without_underscore() {
    assert_eq!(
        Hexadecimal::from_str("0x1234567890ABCDEFabcdef").unwrap(),
        Hexadecimal {
            sign: Sign::Empty,
            hexnum: "1234567890ABCDEFabcdef".to_string(),
        }
    )
}

#[test]
fn hexadecimal_from_str_positive_only() {
    if let Error::MalformedPattern(s) = Hexadecimal::from_str("+").unwrap_err() {
        assert_eq!(s, "+");
    } else {
        assert!(false);
    }
}

#[test]
fn hexadecimal_from_str_positive_number() {
    assert_eq!(
        Hexadecimal::from_str("+0x123").unwrap(),
        Hexadecimal {
            sign: Sign::Positive,
            hexnum: "123".to_string(),
        },
    )
}

#[test]
fn hexadecimal_from_str_long_negative_number() {
    assert_eq!(
        Hexadecimal::from_str("-0x1111_2222_3333_4444_5555_6666_7777_8888_9999_0000_aaaa_bbbb_cccc_dddd_eeee_ffff").unwrap(),
        Hexadecimal {
            sign: Sign::Negative,
            hexnum: "1111_2222_3333_4444_5555_6666_7777_8888_9999_0000_aaaa_bbbb_cccc_dddd_eeee_ffff".to_string(),
        },
    )
}

#[test]
fn hexadecimal_from_str_number_ends_with_underscore() {
    if let Error::InvalidChar { idx, string } = Decimal::from_str("0x123_").unwrap_err() {
        assert_eq!(idx, 5);
        assert_eq!(string, "0x123_");
    } else {
        assert!(false);
    }
}

#[test]
fn sign_empty() {
    assert_eq!(Sign::Empty.to_string(), "");
}

#[test]
fn positive() {
    assert_eq!(Sign::Positive.to_string(), "+");
}

#[test]
fn negative() {
    assert_eq!(Sign::Negative.to_string(), "-");
}

#[test]
fn hexadecimal_trailing_separator_rejected() {
    match Hexadecimal::from_str("0x123_").unwrap_err() {
        Error::InvalidChar { idx, string } => {
            assert_eq!(idx, 5);
            assert_eq!(string, "0x123_");
        },
        other => panic!("unexpected {:?}", other),
    }
}

#[test]
fn hexadecimal_negative_mixed_case_accepted() {
    let h = Hexadecimal::from_str("-0x1A_b2").unwrap();
    assert_eq!(h.sign, Sign::Negative);
    assert_eq!(h.hexnum, "1A_b2");
    assert_eq!(h.to_string(), "-0x1A_b2");
}

#[test]
fn decimal_keeps_separators() {
    let d = Decimal::from_str("123_456").unwrap();
    assert_eq!(d.num, "123_456");
    assert_eq!(d.to_string(), "123_456");
}

#[test]
fn decimal_separator_after_sign_rejected() {
    match Decimal::from_str("-_1").unwrap_err() {
        Error::InvalidChar { idx, .. } => assert_eq!(idx, 1),
        other => panic!("unexpected {:?}", other),
    }
}

#[test]
fn decimal_letter_rejected() {
    match Decimal::from_str("12a4").unwrap_err() {
        Error::InvalidChar { idx, .. } => assert_eq!(idx, 2),
        other => panic!("unexpected {:?}", other),
    }
}

#[test]
fn hexadecimal_requires_prefix() {
    match Hexadecimal::from_str("12").unwrap_err() {
        Error::InvalidChar { idx, .. } => assert_eq!(idx, 0),
        other => panic!("unexpected {:?}", other),
    }
    match Hexadecimal::from_str("-0y2").unwrap_err() {
        Error::InvalidChar { idx, .. } => assert_eq!(idx, 2),
        other => panic!("unexpected {:?}", other),
    }
    match Hexadecimal::from_str("0x").unwrap_err() {
        Error::MalformedPattern(s) => assert_eq!(s, "0x"),
        other => panic!("unexpected {:?}", other),
    }
}

#[test]
fn integer_literal_fields() {
    let i = IntegerLiteral::new("-0x1A_b2".to_string()).unwrap();
    assert_eq!(i.sign(), Sign::Negative);
    assert_eq!(i.src(), "-0x1A_b2");
    let (val, radix) = i.val();
    assert_eq!(val, "1A_b2");
    assert_eq!(radix, 16);
    let d = IntegerLiteral::new("+42".to_string()).unwrap();
    assert_eq!(d.sign(), Sign::Positive);
    assert_eq!(d.val().0, "42");
    assert_eq!(d.val().1, 10);
    assert!(IntegerLiteral::new("+".to_string()).is_err());
}
