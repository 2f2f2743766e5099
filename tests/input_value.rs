use form_fields::input_value::InputValue;
use form_fields::validators::{is_highlighted, validation_message, ValueValidationResult, ValueValidator};

#[test]
fn new_value_reads_back() {
    for v in [0i32, 5, -17, i32::MAX, i32::MIN] {
        let field = InputValue::new(v);
        assert_eq!(field.get_value(), Some(v));
        assert_eq!(field.as_str(), v.to_string());
    }
    assert_eq!(InputValue::new(-9_000_000_000i64).get_value(), Some(-9_000_000_000i64));
    assert_eq!(InputValue::new(u32::MAX).get_value(), Some(u32::MAX));
    assert_eq!(InputValue::new(u64::MAX).get_value(), Some(u64::MAX));
}

#[test]
fn new_formats_in_decimal() {
    assert_eq!(InputValue::new(5i32).as_str(), "5");
    assert_eq!(InputValue::new(-42i64).as_str(), "-42");
    assert_eq!(InputValue::new(1000u32).as_str(), "1000");
}

#[test]
fn unparsable_start_is_empty() {
    for s in ["abc", "12x", " 5", "-", "+", "1.5"] {
        let field = InputValue::<i32>::from_str(s);
        assert_eq!(field.get_value(), None);
        assert_eq!(field.as_str(), "");
    }
    let field = InputValue::<u32>::from_str("-3");
    assert_eq!(field.as_str(), "");
}

#[test]
fn parsable_start_is_kept() {
    let field = InputValue::<i32>::from_str("+007");
    assert_eq!(field.as_str(), "+007");
    assert_eq!(field.get_value(), Some(7));
    let field = InputValue::<i32>::from_str("-210");
    assert_eq!(field.get_value(), Some(-210));
}

#[test]
fn out_of_range_text_is_illegal() {
    let field = InputValue::<i32>::from_str("2147483648");
    assert_eq!(field.as_str(), "");
    let mut field = InputValue::<i32>::new(1);
    field.set_string_value("2147483648".to_string());
    assert_eq!(field.validate(), Err(ValueValidationResult::IllegalChars));
}

#[test]
fn bounds_are_checked() {
    let mut field = InputValue::new(5i32);
    field.set_min_value_mut(1);
    field.set_max_value_mut(10);
    for (text, expected) in [
        ("1", Ok(())),
        ("10", Ok(())),
        ("5", Ok(())),
        ("0", Err(ValueValidationResult::MinValueViolation)),
        ("-3", Err(ValueValidationResult::MinValueViolation)),
        ("11", Err(ValueValidationResult::MaxValueViolation)),
        ("x", Err(ValueValidationResult::IllegalChars)),
        ("", Err(ValueValidationResult::Empty)),
    ] {
        field.set_string_value(text.to_string());
        assert_eq!(field.validate(), expected);
        assert_eq!(field.validate_value(), expected);
    }
}

#[test]
fn lower_bound_is_reported_before_upper() {
    let mut field = InputValue::new(5i32);
    field.set_min_value_mut(10);
    field.set_max_value_mut(1);
    assert_eq!(field.validate(), Err(ValueValidationResult::MinValueViolation));
}

#[test]
fn no_bounds_accept_any_value() {
    let field = InputValue::new(i32::MIN);
    assert_eq!(field.validate(), Ok(()));
}

#[test]
fn set_string_then_validate() {
    let mut field = InputValue::new(5i32);
    field.set_min_value_mut(1);
    field.set_max_value_mut(10);
    field.set_string_value("15".to_string());
    assert_eq!(field.validate(), Err(ValueValidationResult::MaxValueViolation));
    field.set_string_value("".to_string());
    assert_eq!(field.validate(), Err(ValueValidationResult::Empty));
}

#[test]
fn messages_for_each_reason() {
    assert_eq!(validation_message(ValueValidationResult::Empty), "");
    assert_eq!(validation_message(ValueValidationResult::IllegalChars), "invalid value");
    assert_eq!(validation_message(ValueValidationResult::MinValueViolation), "min value violation");
    assert_eq!(validation_message(ValueValidationResult::MaxValueViolation), "max value violation");
    assert!(!is_highlighted(ValueValidationResult::Empty));
    assert!(is_highlighted(ValueValidationResult::IllegalChars));
    assert!(is_highlighted(ValueValidationResult::MinValueViolation));
    assert!(is_highlighted(ValueValidationResult::MaxValueViolation));
}
