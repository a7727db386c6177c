//! The keyboard model: labels, decoration, layouts, the single-button
//! mutation, and sub-menu classification.

use zuzarule::fields::DraftField;
use zuzarule::keyboards::create_new_proposal_keyboard::{
    is_decorated, new_proporsal_keyboard, CreateNewProposalKeyboard,
};
use zuzarule::keyboards::see_proposals_keyboard::{new_see_proporsal_keyboard, SeeProposalsKeyboard};
use zuzarule::keyboards::{add_emoji, menu_keyboard, set_button};
use zuzarule::storage::TgMessage;
use zuzarule::handler::{find_keyboard_from_message, match_sub_menu, SubMenuType};

#[test]
fn add_emoji_known_labels() {
    assert_eq!(add_emoji("Main Menu"), "\u{1F3E0} Main Menu");
    assert_eq!(add_emoji("Close"), "\u{274C} Close");
    assert_eq!(add_emoji("Title"), "\u{2705} Title");
    assert_eq!(add_emoji("Description"), "\u{2705} Description");
    assert_eq!(add_emoji("Starting Date"), "\u{2705} Starting Date");
    assert_eq!(add_emoji("Expiration Date"), "\u{2705}Expiration Date");
    assert_eq!(add_emoji("Submit Proposal"), "\u{2705}Submit Proposal");
}

#[test]
fn add_emoji_unknown_label_unchanged() {
    assert_eq!(add_emoji("Something Else"), "Something Else");
    assert_eq!(add_emoji(""), "");
}

#[test]
fn decoration_is_visible_and_canonical_is_not() {
    for f in [
        DraftField::Title,
        DraftField::Description,
        DraftField::StartingDate,
        DraftField::ExpirationDate,
    ] {
        let canonical = f.label_str();
        let decorated = add_emoji(canonical);
        assert!(is_decorated(f, decorated.as_str()));
        assert!(!is_decorated(f, canonical));
    }
}

#[test]
fn menu_keyboard_layout() {
    let kb = menu_keyboard();
    assert_eq!(kb.rows.len(), 1);
    assert_eq!(kb.rows[0].len(), 2);
    assert_eq!(kb.rows[0][0].text, "See Proposals");
    assert_eq!(kb.rows[0][1].text, "Create a Proposal");
    assert_eq!(kb.rows[0][1].data, "Create a Proposal");
}

#[test]
fn new_proposal_keyboard_layout() {
    let kb = new_proporsal_keyboard(false, false, false, false);
    assert_eq!(kb.rows.len(), 6);
    assert_eq!(kb.rows[0][0].text, "\u{1F3E0} Main Menu");
    assert_eq!(kb.rows[0][0].data, "Main Menu");
    assert_eq!(kb.rows[0][1].text, "\u{274C} Close");
    assert_eq!(kb.rows[0][1].data, "Close");
    assert_eq!(kb.rows[1][0].text, "Title");
    assert_eq!(kb.rows[2][0].text, "Description");
    assert_eq!(kb.rows[3][0].text, "Starting Date");
    assert_eq!(kb.rows[4][0].text, "Expiration Date");
    assert_eq!(kb.rows[5][0].text, "Submit Proposal");
}

#[test]
fn new_proposal_keyboard_decorated_rows() {
    let kb = new_proporsal_keyboard(true, false, true, false);
    assert_eq!(kb.rows[1][0].text, "\u{2705} Title");
    assert_eq!(kb.rows[1][0].data, "\u{2705} Title");
    assert_eq!(kb.rows[2][0].text, "Description");
    assert_eq!(kb.rows[3][0].text, "\u{2705} Starting Date");
    assert_eq!(kb.rows[4][0].text, "Expiration Date");
    assert_eq!(kb.rows[5][0].text, "Submit Proposal");
}

#[test]
fn see_proposal_keyboard_layout() {
    let kb = new_see_proporsal_keyboard();
    assert_eq!(kb.rows.len(), 1);
    assert_eq!(kb.rows[0].len(), 1);
    assert_eq!(kb.rows[0][0].text, "\u{1F44D}");
}

#[test]
fn set_button_changes_exactly_one_button() {
    let before = new_proporsal_keyboard(false, false, false, false);
    let mut kb = new_proporsal_keyboard(false, false, false, false);
    let decorated = add_emoji("Description");
    set_button(&mut kb, 2, decorated.as_str());
    for (i, row) in kb.rows.iter().enumerate() {
        for (j, b) in row.iter().enumerate() {
            if i == 2 && j == 0 {
                assert_eq!(b.text, "\u{2705} Description");
                assert_eq!(b.data, "\u{2705} Description");
            } else {
                assert_eq!(b.text, before.rows[i][j].text);
                assert_eq!(b.data, before.rows[i][j].data);
            }
        }
    }
}

#[test]
fn set_button_out_of_range_changes_nothing() {
    let mut kb = menu_keyboard();
    set_button(&mut kb, 7, "x");
    assert_eq!(kb.rows.len(), 1);
    assert_eq!(kb.rows[0][0].text, "See Proposals");
    assert_eq!(kb.rows[0][1].text, "Create a Proposal");
}

#[test]
fn classify_create_proposal_buttons() {
    assert!(matches!(
        CreateNewProposalKeyboard::new("Title"),
        CreateNewProposalKeyboard::Title(_)
    ));
    assert!(matches!(
        CreateNewProposalKeyboard::new("\u{2705} Title"),
        CreateNewProposalKeyboard::Title(_)
    ));
    assert!(matches!(
        CreateNewProposalKeyboard::new("Expiration Date"),
        CreateNewProposalKeyboard::ExpirationDate(_)
    ));
    assert!(matches!(
        CreateNewProposalKeyboard::new("\u{2705}Expiration Date"),
        CreateNewProposalKeyboard::ExpirationDate(_)
    ));
    assert!(matches!(
        CreateNewProposalKeyboard::new("Main Menu"),
        CreateNewProposalKeyboard::MainMenu
    ));
    assert!(matches!(
        CreateNewProposalKeyboard::new("Close"),
        CreateNewProposalKeyboard::Close
    ));
    assert!(matches!(
        CreateNewProposalKeyboard::new("Submit Proposal"),
        CreateNewProposalKeyboard::SubmitProposal(_)
    ));
    // anything unknown falls back to the main menu
    assert!(matches!(
        CreateNewProposalKeyboard::new("garbage"),
        CreateNewProposalKeyboard::MainMenu
    ));
}

#[test]
fn toggle_flips_between_canonical_and_decorated() {
    let canonical = CreateNewProposalKeyboard::new("Title");
    assert_eq!(canonical.toggle(), "\u{2705} Title");
    let decorated_label = add_emoji("Title");
    let decorated = CreateNewProposalKeyboard::new(decorated_label.as_str());
    assert_eq!(decorated.toggle(), "Title");
}

#[test]
fn toggle_text_on_non_field_variants() {
    let k = CreateNewProposalKeyboard::new("Main Menu");
    assert_eq!(k.toggle(), "MainMenu");
    let c = CreateNewProposalKeyboard::new("Close");
    assert_eq!(c.toggle(), "Close");
}

#[test]
fn see_proposals_keyboard_new_is_thumb_up() {
    assert!(matches!(SeeProposalsKeyboard::new("\u{1F44D}"), SeeProposalsKeyboard::ThumbUp));
    assert!(matches!(SeeProposalsKeyboard::new("anything"), SeeProposalsKeyboard::ThumbUp));
}

#[test]
fn find_keyboard_needs_one_attached() {
    let with = TgMessage {
        chat_id: 1,
        message_id: 15,
        text: String::new(),
        keyboard: Some(menu_keyboard()),
    };
    let kb = find_keyboard_from_message(&with).unwrap();
    assert_eq!(kb.rows[0][0].text, "See Proposals");
    let without = TgMessage { chat_id: 1, message_id: 16, text: String::new(), keyboard: None };
    assert!(find_keyboard_from_message(&without).is_none());
}

#[test]
fn sub_menu_needs_a_last_button() {
    let empty = zuzarule::keyboards::Keyboard { rows: vec![] };
    let msg = TgMessage { chat_id: 1, message_id: 13, text: String::new(), keyboard: Some(empty) };
    assert!(match_sub_menu(Some(&msg)).is_none());

    let empty_row = zuzarule::keyboards::Keyboard { rows: vec![vec![]] };
    let msg2 =
        TgMessage { chat_id: 1, message_id: 14, text: String::new(), keyboard: Some(empty_row) };
    assert!(match_sub_menu(Some(&msg2)).is_none());
}

#[test]
fn set_button_on_empty_row_changes_nothing() {
    let mut kb = zuzarule::keyboards::Keyboard { rows: vec![vec![]] };
    set_button(&mut kb, 0, "x");
    assert_eq!(kb.rows.len(), 1);
    assert!(kb.rows[0].is_empty());
}

#[test]
fn sub_menu_by_last_button() {
    let draft_kb = new_proporsal_keyboard(false, false, false, false);
    let msg = TgMessage {
        chat_id: 1,
        message_id: 10,
        text: String::new(),
        keyboard: Some(draft_kb),
    };
    assert!(matches!(match_sub_menu(Some(&msg)), Some(SubMenuType::CreateNewProposal)));

    let vote_kb = new_see_proporsal_keyboard();
    let msg2 = TgMessage {
        chat_id: 1,
        message_id: 11,
        text: String::new(),
        keyboard: Some(vote_kb),
    };
    assert!(matches!(match_sub_menu(Some(&msg2)), Some(SubMenuType::SeeProposals)));

    let msg3 = TgMessage { chat_id: 1, message_id: 12, text: String::new(), keyboard: None };
    assert!(match_sub_menu(Some(&msg3)).is_none());
    assert!(match_sub_menu(None).is_none());
}
