use form_fields::enum_iterator::EnumIterator;
use form_fields::time_offset::TimeOffset;

#[test]
fn parses_half_hour_negative_offset() {
    let offset = TimeOffset::try_from_str("-03:30").expect("offset should parse");
    assert_eq!(offset.get_value_as_minutes(), -210);
}

#[test]
fn parses_quarter_hour_positive_offset() {
    let offset = TimeOffset::try_from_str("+05:45").expect("offset should parse");
    assert_eq!(offset.get_value_as_minutes(), 345);
}

#[test]
fn parse_utc_3() {
    let offset = TimeOffset::try_from_str("+03:00").expect("offset should parse");
    assert_eq!(offset.get_value_as_minutes(), 180);
}

#[test]
fn utc_is_zero_minutes() {
    let offset = TimeOffset::try_from_str("+00:00").expect("offset should parse");
    assert_eq!(offset, TimeOffset::Utc);
    assert_eq!(offset.get_value_as_minutes(), 0);
}

#[test]
fn garbage_falls_back_to_utc() {
    assert_eq!(TimeOffset::from_str("garbage"), TimeOffset::Utc);
    assert_eq!(TimeOffset::try_from_str("garbage"), None);
}

#[test]
fn empty_text_is_no_offset() {
    assert_eq!(TimeOffset::try_from_str(""), None);
    assert_eq!(TimeOffset::from_str(""), TimeOffset::Utc);
}

#[test]
fn surrounding_whitespace_is_trimmed() {
    assert_eq!(TimeOffset::try_from_str("  -09:30\t"), Some(TimeOffset::UtcMinus930));
    assert_eq!(TimeOffset::from_str(" +08:45 "), TimeOffset::UtcPlus845);
}

#[test]
fn offsets_outside_the_list_are_rejected() {
    assert_eq!(TimeOffset::try_from_str("+05:15"), None);
    assert_eq!(TimeOffset::try_from_str("5:45"), None);
    assert_eq!(TimeOffset::try_from_str("+5:45"), None);
    assert_eq!(TimeOffset::from_str("-13:00"), TimeOffset::Utc);
}

#[test]
fn extreme_offsets() {
    assert_eq!(TimeOffset::UtcMinus12.get_value_as_minutes(), -720);
    assert_eq!(TimeOffset::UtcPlus14.get_value_as_minutes(), 840);
    assert_eq!(TimeOffset::UtcMinus12.as_str(), "-12:00");
    assert_eq!(TimeOffset::UtcPlus14.to_string(), "+14:00");
}

#[test]
fn all_offsets_are_ascending_and_round_trip() {
    let all = TimeOffset::all();
    assert_eq!(all.len(), 39);
    for w in all.windows(2) {
        assert!(w[0].get_value_as_minutes() < w[1].get_value_as_minutes());
    }
    for o in all.iter() {
        assert_eq!(TimeOffset::try_from_str(o.as_str()), Some(*o));
        assert_eq!(TimeOffset::find_exact(&o.to_string()), Some(*o));
    }
    assert_eq!(TimeOffset::get_all(), all);
}

#[test]
fn find_exact_does_not_trim() {
    assert_eq!(TimeOffset::find_exact(" +01:00"), None);
    assert_eq!(TimeOffset::find_exact("+01:00"), Some(TimeOffset::UtcPlus1));
}

#[test]
fn default_and_from_str_trait() {
    assert_eq!(TimeOffset::default(), TimeOffset::Utc);
    let parsed: TimeOffset = "+10:30".parse().unwrap();
    assert_eq!(parsed, TimeOffset::UtcPlus1030);
    let fallback: TimeOffset = "nonsense".parse().unwrap();
    assert_eq!(fallback, TimeOffset::Utc);
    assert_eq!(TimeOffset::UtcPlus530.get_value(), TimeOffset::UtcPlus530);
}
