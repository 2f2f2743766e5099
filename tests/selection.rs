use form_fields::enum_iterator::OptValueSelector;
use form_fields::select_enum_value::{is_null_choice, SelectEnumValue, NULL_VALUE};
use form_fields::selected_value_opt::{
    SelectItemsGroup, SelectOption, SelectValue, SelectedValueOpt,
};
use form_fields::time_offset::TimeOffset;

type Item = SelectOption;

fn item(id: &str, label: &str) -> Item {
    SelectOption::new(id.to_string(), label.to_string())
}

fn sample() -> SelectedValueOpt<Item> {
    SelectedValueOpt::new(vec![
        SelectItemsGroup::new("first", vec![item("a", "A"), item("b", "B")]),
        SelectItemsGroup::new("second", vec![item("c", "C"), item("b", "B2")]),
    ])
}

#[test]
fn selecting_by_id_finds_the_first_match() {
    let mut s = sample();
    assert!(s.get_selected().is_none());
    s.set_selected(Some("c"));
    assert_eq!(s.get_selected().unwrap().get_id(), "c");
    s.set_selected(Some("b"));
    assert_eq!(s.get_selected(), Some(&item("b", "B")));
}

#[test]
fn selecting_none_clears() {
    let mut s = sample();
    s.set_selected(Some("a"));
    s.set_selected(None);
    assert!(s.get_selected().is_none());
}

#[test]
fn unknown_id_keeps_the_selection() {
    let mut s = sample();
    s.set_selected(Some("a"));
    s.set_selected(Some("zzz"));
    assert_eq!(s.get_selected().unwrap().get_id(), "a");
    let mut empty = sample();
    empty.set_selected(Some("zzz"));
    assert!(empty.get_selected().is_none());
}

#[test]
fn selection_is_a_snapshot() {
    let mut s = sample();
    s.set_selected(Some("a"));
    s.push_item(item("d", "D"));
    assert_eq!(s.get_selected(), Some(&item("a", "A")));
}

#[test]
fn push_item_goes_to_the_first_group() {
    let mut s: SelectedValueOpt<Item> = SelectedValueOpt::default();
    s.push_item(item("x", "X"));
    assert_eq!(s.get_items().len(), 1);
    assert_eq!(s.get_items()[0].name, "");
    s.push_item(item("y", "Y"));
    s.push(SelectItemsGroup::new("later", vec![item("z", "Z")]));
    let groups = s.get_items();
    assert_eq!(groups.len(), 2);
    assert_eq!(groups[0].values, vec![item("x", "X"), item("y", "Y")]);
    assert_eq!(groups[1].name, "later");
    s.set_selected(Some("z"));
    assert_eq!(s.get_selected().unwrap().get_value(), "Z");
}

#[test]
fn new_with_selected_uses_the_identifier() {
    let wanted = item("c", "other label");
    let groups = vec![SelectItemsGroup::new("g", vec![item("a", "A"), item("c", "C")])];
    let s = SelectedValueOpt::new_with_selected(groups, Some(&wanted));
    assert_eq!(s.get_selected(), Some(&item("c", "C")));
    let groups = vec![SelectItemsGroup::new("g", vec![item("a", "A")])];
    let s = SelectedValueOpt::new_with_selected::<Item>(groups, None);
    assert!(s.get_selected().is_none());
}

#[test]
fn null_policy() {
    let s = SelectEnumValue::new::<TimeOffset>(None);
    assert!(s.validation_ok());
    let s = s.allow_null_result(false);
    assert!(!s.validation_ok());
    let mut s = SelectEnumValue::new::<TimeOffset>(Some(TimeOffset::Utc)).allow_null_result(false);
    assert!(s.validation_ok());
    s.set_value(None);
    assert!(!s.validation_ok());
    s.set_value(Some(TimeOffset::UtcPlus1));
    assert_eq!(s.get_value(), Some(&TimeOffset::UtcPlus1));
    assert_eq!(s.get_all().len(), 39);
}

#[test]
fn explicit_domain() {
    let s = SelectEnumValue::with_options(None, vec![TimeOffset::Utc, TimeOffset::UtcPlus1]);
    assert_eq!(s.get_all(), &[TimeOffset::Utc, TimeOffset::UtcPlus1]);
    assert!(s.validation_ok());
}

#[test]
fn opt_value_selector() {
    let mut s = OptValueSelector::new::<TimeOffset>(Some(TimeOffset::UtcMinus1));
    assert_eq!(s.get_value(), Some(&TimeOffset::UtcMinus1));
    assert_eq!(s.get_all()[0], TimeOffset::UtcMinus12);
    s.set_value(None);
    assert_eq!(s.get_value(), None);
}

#[test]
fn null_marker() {
    assert!(is_null_choice(NULL_VALUE));
    assert!(is_null_choice("---NULL---"));
    assert!(!is_null_choice("+00:00"));
    assert!(!is_null_choice(""));
}

#[test]
fn a_list_becomes_an_unnamed_group() {
    let group: SelectItemsGroup<Item> = vec![item("a", "A")].into();
    assert_eq!(group.name, "");
    assert_eq!(group.values, vec![item("a", "A")]);
    let mut s = SelectedValueOpt::new(vec![group]);
    s.set_selected(Some("a"));
    assert_eq!(s.get_selected().unwrap().get_value(), "A");
}
