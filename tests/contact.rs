use vera_station_alert::contact::PhoneNumber;

#[test]
fn parses_and_sanitizes_phone_numbers() {
    let local = PhoneNumber::from_string("(040) 123 4567");
    assert!(local.is_ok());
    assert_eq!(local.unwrap().to_string(), "0401234567");

    let international = PhoneNumber::from_string("+358-40-123-4567");
    assert!(international.is_ok());
    assert_eq!(international.unwrap().to_string(), "+358401234567");
}

#[test]
fn phone_number_has_equality_and_clone_behavior() {
    let a = PhoneNumber::from_string("0401234567");
    let b = a.clone();
    assert_eq!(a, b);
}

#[test]
fn phone_number_of_only_separators_has_incorrect_length() {
    assert_eq!(PhoneNumber::from_string("( - )").unwrap_err(), "Incorrect length");
    assert_eq!(PhoneNumber::from_string("").unwrap_err(), "Incorrect length");
}

#[test]
fn phone_number_longer_than_fifteen_bytes_is_rejected() {
    assert!(PhoneNumber::from_string("123456789012345").is_ok());
    assert_eq!(PhoneNumber::from_string("1234567890123456").unwrap_err(), "Incorrect length");
    assert!(PhoneNumber::from_string("+12345678901234").is_ok());
}

#[test]
fn phone_number_with_letters_or_inner_plus_is_rejected() {
    assert_eq!(PhoneNumber::from_string("040-ABC").unwrap_err(), "Invalid characters");
    assert_eq!(PhoneNumber::from_string("040+123").unwrap_err(), "Invalid characters");
    assert_eq!(PhoneNumber::from_string("++123").unwrap_err(), "Invalid characters");
    assert_eq!(PhoneNumber::from_string("+").unwrap(), PhoneNumber::from_string("+").unwrap());
}
