use transaction_queue_api::validation::{
    check_json_payload, validation_error_detail, MinMaxI32, NonNullJsonMaxSize, StrLen,
    ValidationError,
};

fn value(text: &str) -> serde_json::Value {
    serde_json::from_str(text).unwrap()
}

#[test]
fn str_len_bounds() {
    assert!(StrLen::<1, 255>::new("a".to_string()).is_ok());
    assert!(StrLen::<1, 255>::new("x".repeat(255)).is_ok());
    assert_eq!(
        StrLen::<1, 255>::new(String::new()).err(),
        Some(ValidationError::TooShort { min_len: 1, len: 0 })
    );
    assert_eq!(
        StrLen::<1, 255>::new("x".repeat(256)).err(),
        Some(ValidationError::TooLong { max_len: 255, len: 256 })
    );
    // Characters, not bytes, are counted.
    assert!(StrLen::<1, 3>::new("测试账".to_string()).is_ok());
    assert_eq!(
        StrLen::<1, 3>::new("🚀rocket".to_string()).err(),
        Some(ValidationError::TooLong { max_len: 3, len: 7 })
    );
}

#[test]
fn min_max_bounds() {
    assert_eq!(MinMaxI32::new(0, -1000, 1000), Ok(MinMaxI32(0)));
    assert_eq!(MinMaxI32::new(-1000, -1000, 1000), Ok(MinMaxI32(-1000)));
    assert_eq!(MinMaxI32::new(1000, -1000, 1000), Ok(MinMaxI32(1000)));
    assert_eq!(
        MinMaxI32::new(1001, -1000, 1000),
        Err(ValidationError::TooHigh { max_value: 1000, value: 1001 })
    );
    assert_eq!(
        MinMaxI32::new(-1000000, -1000, 1000),
        Err(ValidationError::TooLow { min_value: -1000, value: -1000000 })
    );
}

#[test]
fn messages() {
    assert_eq!(
        ValidationError::TooShort { min_len: 1, len: 0 }.message(),
        "validation error: Value too short, min length is 1, got 0"
    );
    assert_eq!(
        ValidationError::TooLong { max_len: 255, len: 1000 }.message(),
        "validation error: Value too long, max length is 255, got 1000"
    );
    assert_eq!(
        ValidationError::TooLow { min_value: -1000, value: -1000000 }.message(),
        "validation error: Value too low, min value is -1000, got -1000000"
    );
    assert_eq!(
        ValidationError::TooHigh { max_value: 1000, value: 1000000 }.message(),
        "validation error: Value too high, max value is 1000, got 1000000"
    );
    assert_eq!(
        ValidationError::Null.message(),
        "validation error: Value must not be null"
    );
    assert_eq!(
        ValidationError::TooBig { max_size: 1048576, size: 2000000 }.message(),
        "validation error: Value too big, max size is 1048576 bytes, got 2000000 bytes"
    );
}

#[test]
fn json_payloads() {
    assert_eq!(
        NonNullJsonMaxSize::<100>::new(serde_json::Value::Null).err(),
        Some(ValidationError::Null)
    );
    // {"a":"bcd"} has 11 bytes of compact text.
    let v = value(r#"{"a": "bcd"}"#);
    assert!(NonNullJsonMaxSize::<11>::new(v.clone()).is_ok());
    assert_eq!(
        NonNullJsonMaxSize::<10>::new(v).err(),
        Some(ValidationError::TooBig { max_size: 10, size: 11 })
    );
    // The text "null" is a string, not null.
    assert!(NonNullJsonMaxSize::<100>::new(value(r#""null""#)).is_ok());
    // Bytes, not characters, are counted: "é" takes 2 bytes, plus 2 quotes.
    assert_eq!(
        NonNullJsonMaxSize::<3>::new(value(r#""é""#)).err(),
        Some(ValidationError::TooBig { max_size: 3, size: 4 })
    );
    let ok = NonNullJsonMaxSize::<100>::new(value("[1, 2]")).unwrap();
    assert_eq!(ok.0, value("[1, 2]"));
}

#[test]
fn payload_check() {
    assert_eq!(check_json_payload(true, 0, 10), Err(ValidationError::Null));
    assert_eq!(
        check_json_payload(false, 11, 10),
        Err(ValidationError::TooBig { max_size: 10, size: 11 })
    );
    assert_eq!(check_json_payload(false, 10, 10), Ok(()));
}

#[test]
fn rejection_detail() {
    assert_eq!(
        validation_error_detail(
            "Failed to deserialize the JSON body into the target type: account_id: validation error: Value too short, min length is 1, got 0 at line 1 column 16"
        ),
        Some("Value too short, min length is 1, got 0 at line 1 column 16".to_string())
    );
    assert_eq!(validation_error_detail("missing field `account_id`"), None);
    assert_eq!(
        validation_error_detail("a: validation error: b: validation error: c"),
        Some("b: validation error: c".to_string())
    );
    assert_eq!(
        validation_error_detail(": validation error: "),
        Some(String::new())
    );
}

#[test]
fn detail_reaches_client() {
    let e = ValidationError::TooShort { min_len: 1, len: 0 };
    assert_eq!(e.detail(), "Value too short, min length is 1, got 0");
    let body = format!("account_id: {} at line 1 column 16", e.message());
    assert_eq!(
        validation_error_detail(&body),
        Some(format!("{} at line 1 column 16", e.detail()))
    );
    assert_eq!(ValidationError::Null.detail(), "Value must not be null");
}
