use mt940_fields::date::{Date, DateParseError};

#[test]
fn test_invalid_date_length() {
    let result = Date::try_from("20211301");
    assert_eq!(result, Err(DateParseError::InvalidLength));
    assert_eq!(result.unwrap_err().message(), "Invalid date length");
}

#[test]
fn test_invalid_date_format() {
    let result = Date::try_from("2o1130");
    assert_eq!(result, Err(DateParseError::InvalidFormat));
    assert_eq!(result.unwrap_err().message(), "Invalid date format");

    let result = Date::try_from("21o130");
    assert_eq!(result, Err(DateParseError::InvalidFormat));
    assert_eq!(result.unwrap_err().message(), "Invalid date format");

    let result = Date::try_from("21113o");
    assert_eq!(result, Err(DateParseError::InvalidFormat));
    assert_eq!(result.unwrap_err().message(), "Invalid date format");
}

#[test]
fn test_invalid_date() {
    let result = Date::try_from("210231");
    assert_eq!(result, Err(DateParseError::InvalidValue));
    assert_eq!(result.unwrap_err().message(), "Invalid date");
}

#[test]
fn test_valid_date() {
    let result = Date::try_from("000101");
    assert_eq!(result, Ok(Date::new(2000, 1, 1)));
    assert_eq!(result.unwrap().to_text(), "2000-01-01");
}
