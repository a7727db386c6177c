//! The template engine: filling, reading back, and the fixed texts.

use zuzarule::fields::DraftField;
use zuzarule::messages::{extract_field, get_new_proposal_message, get_welcome_message, parse_message};

#[test]
fn welcome_message_text() {
    let w = get_welcome_message();
    assert!(w.starts_with("ZuzaRule: Crowdsourced Governance at Your Fingertips\n"));
    assert!(w.ends_with("with ZuzaRule"));
}

#[test]
fn new_proposal_template_shape() {
    let t = get_new_proposal_message();
    assert_eq!(
        t,
        "Create your proposal below:\nTitle: \nDescription: \nStarting Date: \nExpiration Date: \n"
    );
}

#[test]
fn fill_single_field() {
    let t = get_new_proposal_message();
    let m = parse_message(t.as_str(), Some("Town Park Renovation"), None, None, None);
    assert_eq!(
        m,
        "Create your proposal below:\nTitle: Town Park Renovation\nDescription: \nStarting Date: \nExpiration Date: \n"
    );
}

#[test]
fn fill_all_fields() {
    let t = get_new_proposal_message();
    let m = parse_message(
        t.as_str(),
        Some("Town Park Renovation"),
        Some("Repave paths"),
        Some("2024-01-01"),
        Some("2024-02-01"),
    );
    assert_eq!(
        m,
        "Create your proposal below:\nTitle: Town Park Renovation\nDescription: Repave paths\nStarting Date: 2024-01-01\nExpiration Date: 2024-02-01\n"
    );
}

#[test]
fn round_trip_subset() {
    let t = get_new_proposal_message();
    let m = parse_message(t.as_str(), Some("A title"), None, Some("2024-06-01"), None);
    assert_eq!(extract_field(m.as_str(), DraftField::Title), "A title");
    assert_eq!(extract_field(m.as_str(), DraftField::Description), "");
    assert_eq!(extract_field(m.as_str(), DraftField::StartingDate), "2024-06-01");
    assert_eq!(extract_field(m.as_str(), DraftField::ExpirationDate), "");
}

#[test]
fn round_trip_all_fields() {
    let t = get_new_proposal_message();
    let m = parse_message(t.as_str(), Some("a"), Some("b"), Some("c"), Some("d"));
    assert_eq!(extract_field(m.as_str(), DraftField::Title), "a");
    assert_eq!(extract_field(m.as_str(), DraftField::Description), "b");
    assert_eq!(extract_field(m.as_str(), DraftField::StartingDate), "c");
    assert_eq!(extract_field(m.as_str(), DraftField::ExpirationDate), "d");
}

#[test]
fn round_trip_adversarial_value() {
    // a value that itself looks like another field's line prefix
    let t = get_new_proposal_message();
    let m = parse_message(t.as_str(), Some("Description: sneaky"), None, None, None);
    assert_eq!(extract_field(m.as_str(), DraftField::Title), "Description: sneaky");
    assert_eq!(extract_field(m.as_str(), DraftField::Description), "");
}

#[test]
fn fill_overwrites_previous_value() {
    let t = get_new_proposal_message();
    let once = parse_message(t.as_str(), Some("first"), None, None, None);
    let twice = parse_message(once.as_str(), Some("second"), None, None, None);
    assert_eq!(extract_field(twice.as_str(), DraftField::Title), "second");
}

#[test]
fn extract_from_text_without_field() {
    assert_eq!(extract_field("no fields here", DraftField::Title), "");
    assert_eq!(extract_field("", DraftField::Description), "");
}

#[test]
fn fill_without_field_is_identity() {
    let m = parse_message("no fields here", Some("x"), Some("y"), None, None);
    assert_eq!(m, "no fields here");
}

#[test]
fn parse_ignores_mid_line_prefix() {
    // the prefix must start a line; an occurrence inside a line is no field
    let text = "intro Title: not me\nTitle: me\n";
    assert_eq!(extract_field(text, DraftField::Title), "me");
}
