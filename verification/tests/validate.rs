use passgen::validate::{
    parse_number, validate_length, validate_number, INVALID_NUMBER, LENGTH_MIN, LENGTH_TOO_SMALL,
    NUMBER_MIN, NUMBER_TOO_SMALL,
};

#[test]
fn validate_length_valid() {
    assert!(validate_length("3").is_ok());
    assert!(validate_length("12").is_ok());
}

#[test]
fn validate_length_invalid() {
    assert!(validate_length("0").is_err());
    assert!(validate_length("2").is_err());
    assert!(validate_length("-1").is_err());
    assert!(validate_length("abc").is_err());
}

#[test]
fn bounds_and_messages() {
    assert_eq!(LENGTH_MIN, 3);
    assert_eq!(NUMBER_MIN, 1);
    assert_eq!(INVALID_NUMBER, "Invalid number: ");
    assert_eq!(LENGTH_TOO_SMALL, format!("Password length must be at least {} characters", LENGTH_MIN));
    assert_eq!(NUMBER_TOO_SMALL, format!("Password number must be at least {}", NUMBER_MIN));
}

#[test]
fn validate_length_values() {
    assert_eq!(validate_length("3"), Ok(3));
    assert_eq!(validate_length("12"), Ok(12));
    assert_eq!(validate_length("+12"), Ok(12));
    assert_eq!(validate_length("0012"), Ok(12));
    assert_eq!(validate_length("1000000"), Ok(1000000));
    assert_eq!(validate_length(&usize::MAX.to_string()), Ok(usize::MAX));
}

#[test]
fn validate_length_too_small() {
    let message = "Password length must be at least 3 characters".to_string();
    assert_eq!(validate_length("0"), Err(message.clone()));
    assert_eq!(validate_length("1"), Err(message.clone()));
    assert_eq!(validate_length("2"), Err(message.clone()));
    assert_eq!(validate_length("+2"), Err(message.clone()));
    assert_eq!(validate_length("000"), Err(message));
}

#[test]
fn validate_length_not_a_number() {
    assert_eq!(validate_length("-1"), Err("Invalid number: -1".to_string()));
    assert_eq!(validate_length("abc"), Err("Invalid number: abc".to_string()));
    assert_eq!(validate_length(""), Err("Invalid number: ".to_string()));
    assert_eq!(validate_length("+"), Err("Invalid number: +".to_string()));
    assert_eq!(validate_length("12a"), Err("Invalid number: 12a".to_string()));
    assert_eq!(validate_length(" 12"), Err("Invalid number:  12".to_string()));
    assert_eq!(validate_length("1.5"), Err("Invalid number: 1.5".to_string()));
    assert_eq!(validate_length("é"), Err("Invalid number: é".to_string()));
}

#[test]
fn validate_number_values() {
    assert_eq!(validate_number("1"), Ok(1));
    assert_eq!(validate_number("5"), Ok(5));
    assert_eq!(validate_number("+7"), Ok(7));
    assert_eq!(validate_number("0"), Err("Password number must be at least 1".to_string()));
    assert_eq!(validate_number("00"), Err("Password number must be at least 1".to_string()));
    assert_eq!(validate_number("-1"), Err("Invalid number: -1".to_string()));
    assert_eq!(validate_number("x"), Err("Invalid number: x".to_string()));
    assert_eq!(validate_number(""), Err("Invalid number: ".to_string()));
}

#[test]
fn parse_number_reads_decimal_digits() {
    assert_eq!(parse_number("0"), Some(0));
    assert_eq!(parse_number("7"), Some(7));
    assert_eq!(parse_number("42"), Some(42));
    assert_eq!(parse_number("1234567890"), Some(1234567890));
    assert_eq!(parse_number("+0"), Some(0));
    assert_eq!(parse_number("+42"), Some(42));
    assert_eq!(parse_number("007"), Some(7));
    assert_eq!(parse_number("+007"), Some(7));
    assert_eq!(parse_number("000000000000000000000000000000000000000000001"), Some(1));
}

#[test]
fn parse_number_rejects_everything_else() {
    for text in [
        "", "+", "-", "++1", "+-1", "-1", "-0", "1+", "1-", " 1", "1 ", "1 2", "1_000", "0x10",
        "1e3", "1.0", "abc", "12a", "a12", "\t1", "1\n", "١٢", "１２", "1é", "é1", "+é",
    ] {
        assert_eq!(parse_number(text), None);
    }
}

#[test]
fn parse_number_stops_at_the_largest_usize() {
    let largest = usize::MAX.to_string();
    assert_eq!(parse_number(&largest), Some(usize::MAX));
    assert_eq!(parse_number(&format!("+{}", largest)), Some(usize::MAX));
    assert_eq!(parse_number(&format!("000{}", largest)), Some(usize::MAX));
    assert_eq!(parse_number(&(usize::MAX - 1).to_string()), Some(usize::MAX - 1));

    let one_more = (usize::MAX as u128 + 1).to_string();
    assert_eq!(parse_number(&one_more), None);
    assert_eq!(parse_number(&format!("{}0", largest)), None);
    assert_eq!(parse_number(&format!("{}9", largest)), None);
    assert_eq!(parse_number("99999999999999999999999999999999999999999999"), None);
    assert_eq!(parse_number("99999999999999999999999999999999999999999999x"), None);
}

#[test]
fn parse_number_agrees_with_the_standard_parser() {
    let largest = usize::MAX.to_string();
    let one_more = (usize::MAX as u128 + 1).to_string();
    let texts = [
        "", "0", "1", "9", "10", "99", "100", "+", "-", "+1", "-1", "++1", "+0", "-0", "007",
        " 7", "7 ", "7a", "a7", "1_0", "0x1", "１", "é", "12345678901234567890",
        "123456789012345678901", "+123", "+-3", "3+", "4294967295", "4294967296",
        largest.as_str(), one_more.as_str(),
    ];
    for text in texts {
        assert_eq!(parse_number(text), text.parse::<usize>().ok());
    }
    for value in 0usize..2000 {
        assert_eq!(parse_number(&value.to_string()), Some(value));
    }
}
