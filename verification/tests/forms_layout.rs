use syndicode::client::layout::{ExitPopupWidget, MainLayoutWidget};
use syndicode::client::number::{optional_number, parse_i64};

#[test]
fn parses_signed_decimal_numbers() {
    assert_eq!(parse_i64("0"), Some(0));
    assert_eq!(parse_i64("42"), Some(42));
    assert_eq!(parse_i64("+42"), Some(42));
    assert_eq!(parse_i64("-42"), Some(-42));
    assert_eq!(parse_i64("007"), Some(7));
    assert_eq!(parse_i64("9223372036854775807"), Some(i64::MAX));
    assert_eq!(parse_i64("-9223372036854775808"), Some(i64::MIN));
}

#[test]
fn rejects_what_from_str_rejects() {
    for s in ["", "-", "+", "1a", " 1", "1 ", "--1", "+-1", "1.5", "9223372036854775808", "-9223372036854775809",
        "99999999999999999999999"]
    {
        assert_eq!(parse_i64(s), None, "{s}");
        assert_eq!(s.parse::<i64>().ok(), None, "{s}");
    }
    for s in ["12", "-0", "+0", "123456789"] {
        assert_eq!(parse_i64(s), s.parse::<i64>().ok());
    }
}

#[test]
fn optional_form_numbers() {
    assert_eq!(optional_number(None), None);
    assert_eq!(optional_number(Some("")), None);
    assert_eq!(optional_number(Some("15")), Some(15));
    assert_eq!(optional_number(Some("-3")), Some(-3));
}

#[test]
fn exit_popup_centers_its_text() {
    let w = ExitPopupWidget;
    assert_eq!(w.spacer_percentage(0), None);
    assert_eq!(w.spacer_percentage(1), Some(0));
    assert_eq!(w.spacer_percentage(2), Some(25));
    assert_eq!(w.spacer_percentage(3), Some(33));
    assert_eq!(w.spacer_percentage(10), Some(45));
    assert_eq!(w.spacer_percentage(200), Some(50));
}

#[test]
fn header_labels_show_session() {
    let w = MainLayoutWidget;
    let l = w.header_labels(Some("alice".to_string()), true);
    assert_eq!(l.status, "Authenticated");
    assert_eq!(l.user_name, "alice");
    assert_eq!(l.stream, "Active");
    let l = w.header_labels(None, false);
    assert_eq!(l.status, "Unauthenticated");
    assert_eq!(l.user_name, "-");
    assert_eq!(l.stream, "Inactive");
}
