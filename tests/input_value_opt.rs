use form_fields::input_value_opt::InputValueOpt;
use form_fields::validators::ValueValidationResult;

#[test]
fn unchanged_field_has_nothing_to_save() {
    let field = InputValueOpt::new(Some(7i32));
    assert_eq!(field.value_can_be_saved(), None);
    let field = InputValueOpt::<i32>::new(None);
    assert_eq!(field.value_can_be_saved(), None);
    assert_eq!(field.get_value(), None);
    assert_eq!(field.as_str(), "");
}

#[test]
fn text_set_back_to_start_has_nothing_to_save() {
    let mut field = InputValueOpt::new(Some(7i32));
    field.set_value("8".to_string());
    field.set_value("7".to_string());
    assert_eq!(field.value_can_be_saved(), None);
}

#[test]
fn cleared_field_can_be_saved() {
    let mut field = InputValueOpt::new(Some(7i32));
    field.set_value(String::new());
    assert_eq!(field.validate(), Err(ValueValidationResult::Empty));
    assert_eq!(field.value_can_be_saved(), Some(true));
}

#[test]
fn valid_change_can_be_saved() {
    let mut field = InputValueOpt::<i64>::new(None);
    field.set_min_value_mut(0);
    field.set_value("12".to_string());
    assert_eq!(field.get_value(), Some(12));
    assert_eq!(field.value_can_be_saved(), Some(true));
}

#[test]
fn invalid_change_cannot_be_saved() {
    let mut field = InputValueOpt::new(Some(7i32));
    field.set_min_value_mut(1);
    field.set_max_value_mut(10);
    field.set_value("abc".to_string());
    assert_eq!(field.value_can_be_saved(), Some(false));
    field.set_value("11".to_string());
    assert_eq!(field.validate(), Err(ValueValidationResult::MaxValueViolation));
    assert_eq!(field.value_can_be_saved(), Some(false));
    field.set_value("0".to_string());
    assert_eq!(field.validate(), Err(ValueValidationResult::MinValueViolation));
    assert_eq!(field.value_can_be_saved(), Some(false));
}
