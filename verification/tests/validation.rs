use webauthn_rp::validation::{
    parses_as_integer, validate_name, NameError, RegistrationForm, ValidationError,
};

#[test]
fn ordinary_names_are_accepted() {
    assert_eq!(validate_name("alice"), Ok(()));
    assert_eq!(validate_name("a"), Ok(()));
    assert_eq!(validate_name("Alice A. the 2nd"), Ok(()));
    assert_eq!(validate_name("12a"), Ok(()));
    assert_eq!(validate_name("a12"), Ok(()));
    assert_eq!(validate_name("1 2"), Ok(()));
    assert_eq!(validate_name(" 12"), Ok(()));
    assert_eq!(validate_name("12 "), Ok(()));
    assert_eq!(validate_name("1.5"), Ok(()));
    assert_eq!(validate_name("0x10"), Ok(()));
}

#[test]
fn name_length_is_counted_in_characters() {
    assert_eq!(validate_name(""), Err(NameError::Length));
    let longest = "a".repeat(32);
    assert_eq!(validate_name(&longest), Ok(()));
    let too_long = "a".repeat(33);
    assert_eq!(validate_name(&too_long), Err(NameError::Length));
    let umlauts = "\u{e4}".repeat(32);
    assert_eq!(umlauts.len(), 64);
    assert_eq!(validate_name(&umlauts), Ok(()));
    let umlauts = "\u{e4}".repeat(33);
    assert_eq!(validate_name(&umlauts), Err(NameError::Length));
}

#[test]
fn integer_names_are_refused() {
    assert_eq!(validate_name("12345"), Err(NameError::OnlyDigits));
    assert_eq!(validate_name("0"), Err(NameError::OnlyDigits));
    assert_eq!(validate_name("-12"), Err(NameError::OnlyDigits));
    assert_eq!(validate_name("+7"), Err(NameError::OnlyDigits));
    assert_eq!(validate_name("007"), Err(NameError::OnlyDigits));
    assert_eq!(validate_name("9223372036854775807"), Err(NameError::OnlyDigits));
    assert_eq!(validate_name("-9223372036854775808"), Err(NameError::OnlyDigits));
    assert_eq!(validate_name("00000000000000000000000000000001"), Err(NameError::OnlyDigits));
}

#[test]
fn names_beyond_the_integer_range_are_accepted() {
    assert_eq!(validate_name("9223372036854775808"), Ok(()));
    assert_eq!(validate_name("-9223372036854775809"), Ok(()));
    assert_eq!(validate_name("+9223372036854775808"), Ok(()));
    assert_eq!(validate_name("99999999999999999999999999999999"), Ok(()));
    assert_eq!(validate_name("+"), Ok(()));
    assert_eq!(validate_name("-"), Ok(()));
    assert_eq!(validate_name("--1"), Ok(()));
    assert_eq!(validate_name("+-1"), Ok(()));
    assert_eq!(validate_name("1-"), Ok(()));
}

#[test]
fn length_is_reported_before_digits() {
    let long_number = "1".repeat(33);
    assert_eq!(validate_name(&long_number), Err(NameError::Length));
    let long_zeroes = format!("{}1", "0".repeat(40));
    assert!(parses_as_integer(&long_zeroes));
    assert_eq!(validate_name(&long_zeroes), Err(NameError::Length));
}

#[test]
fn integer_reading_agrees_with_the_standard_parser() {
    let cases = [
        "", "0", "-0", "+0", "1", "-1", "+1", "12", "a", "1a", "a1", "+", "-", "++1", " 1", "1 ",
        "9223372036854775807", "9223372036854775808", "-9223372036854775808",
        "-9223372036854775809", "+9223372036854775807", "+9223372036854775808",
        "18446744073709551616", "000000000000000000000000000000000000009223372036854775807",
        "000000000000000000000000000000000000009223372036854775808",
        "340282366920938463463374607431768211456", "1_000", "1e3", "\u{661}\u{662}",
        "99999999999999999999999999999999999999999999999999999999999999999999999999999999",
    ];
    for case in cases {
        assert_eq!(parses_as_integer(case), case.parse::<i64>().is_ok(), "{:?}", case);
    }
}

#[test]
fn form_reports_the_first_invalid_field() {
    let form = |username: &str, display_name: &str| RegistrationForm {
        username: username.to_string(),
        display_name: display_name.to_string(),
    };
    assert_eq!(form("alice", "Alice").validate(), Ok(()));
    assert_eq!(
        form("", "Alice").validate(),
        Err(ValidationError::Username(NameError::Length))
    );
    assert_eq!(
        form("42", "Alice").validate(),
        Err(ValidationError::Username(NameError::OnlyDigits))
    );
    assert_eq!(
        form("alice", "42").validate(),
        Err(ValidationError::DisplayName(NameError::OnlyDigits))
    );
    assert_eq!(
        form("alice", &"x".repeat(33)).validate(),
        Err(ValidationError::DisplayName(NameError::Length))
    );
    assert_eq!(form("42", "").validate(), Err(ValidationError::Username(NameError::OnlyDigits)));
}
