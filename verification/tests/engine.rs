//! The dialogue engine: button classification, state transitions, and the
//! two authoring scenarios run end to end against the registries.

use zuzarule::fields::DraftField;
use zuzarule::handler::callback_handlers::submit_proposal;
use zuzarule::handler::dialogue_handlers::{
    awaited_field, field_state, handle_proposal_fields, receive_field_reply, reply_next_state,
    DialogueState, FieldReplyOutcome,
};
use zuzarule::handler::{classify_button_action, ButtonAction};
use zuzarule::keyboards::create_new_proposal_keyboard::new_proporsal_keyboard;
use zuzarule::keyboards::{add_emoji, Keyboard};
use zuzarule::messages::get_new_proposal_message;
use zuzarule::storage::{
    ProposalMenuStorage, ProposalStorage, TgMessage, TgMessageStorage, TgProposalStorage,
};

const BOT_KEY: &str = "zuzarule_bot";

fn draft_message(message_id: i32, text: &str, keyboard: Option<Keyboard>) -> TgMessage {
    TgMessage { chat_id: 77, message_id, text: text.to_string(), keyboard }
}

#[test]
fn field_states_are_linear() {
    let fields = [
        DraftField::Title,
        DraftField::Description,
        DraftField::StartingDate,
        DraftField::ExpirationDate,
    ];
    for f in fields {
        let s = field_state(f);
        assert_ne!(s, DialogueState::StartTitlePrompt);
        assert_eq!(awaited_field(&s), Some(f));
        for g in fields {
            if f != g {
                assert_ne!(s, field_state(g));
            }
        }
    }
    assert_eq!(awaited_field(&DialogueState::StartTitlePrompt), None);
}

#[test]
fn classify_global_buttons() {
    assert_eq!(classify_button_action(Some("Create a Proposal"), None), ButtonAction::NewProposal);
    assert_eq!(classify_button_action(Some("See Proposals"), None), ButtonAction::SeeProposals);
    assert_eq!(classify_button_action(Some("Main Menu"), None), ButtonAction::MainMenu);
    assert_eq!(classify_button_action(None, None), ButtonAction::Ignore);
}

#[test]
fn classify_field_buttons_in_draft_menu() {
    let kb = new_proporsal_keyboard(false, false, false, false);
    let msg = draft_message(5, get_new_proposal_message().as_str(), Some(kb));
    assert_eq!(
        classify_button_action(Some("Title"), Some(&msg)),
        ButtonAction::FieldPrompt(DraftField::Title)
    );
    let decorated = add_emoji("Description");
    assert_eq!(
        classify_button_action(Some(decorated.as_str()), Some(&msg)),
        ButtonAction::FieldPrompt(DraftField::Description)
    );
    assert_eq!(
        classify_button_action(Some("Submit Proposal"), Some(&msg)),
        ButtonAction::SubmitProposal
    );
    // the close button's data falls through to submit inside this sub-menu
    assert_eq!(classify_button_action(Some("Close"), Some(&msg)), ButtonAction::SubmitProposal);
    // without a keyboard there is nothing to do
    let bare = draft_message(6, "", None);
    assert_eq!(classify_button_action(Some("Title"), Some(&bare)), ButtonAction::Ignore);
}

#[test]
fn classify_thumb_up_in_votes_menu() {
    let kb = zuzarule::keyboards::see_proposals_keyboard::new_see_proporsal_keyboard();
    let msg = draft_message(9, "Title: x\nVotes: 0", Some(kb));
    assert_eq!(classify_button_action(Some("\u{1F44D}"), Some(&msg)), ButtonAction::ThumbUp);
}

#[test]
fn field_prompt_arms_state_and_records_draft() {
    let mut registry = ProposalMenuStorage::new();
    let kb = new_proporsal_keyboard(false, false, false, false);
    let msg = draft_message(42, get_new_proposal_message().as_str(), Some(kb));
    let (prompt, state) = handle_proposal_fields(
        &mut registry,
        Some(BOT_KEY),
        msg,
        DraftField::Title,
    );
    assert_eq!(prompt, "Enter the proposal Title");
    assert_eq!(state, DialogueState::TitleReceived);
    let stored = registry.get(BOT_KEY.to_string()).unwrap();
    assert_eq!(stored.message_id, 42);
}

#[test]
fn field_prompt_without_user_name_stores_nothing() {
    let mut registry = ProposalMenuStorage::new();
    let msg = draft_message(42, "body", None);
    let (prompt, state) = handle_proposal_fields(&mut registry, None, msg, DraftField::Description);
    assert_eq!(prompt, "Enter the proposal Description");
    assert_eq!(state, DialogueState::DescriptionReceived);
    assert!(registry.get(BOT_KEY.to_string()).is_none());
}

#[test]
fn reply_with_missing_draft_does_nothing() {
    let registry = ProposalMenuStorage::new();
    let r = receive_field_reply(&registry, BOT_KEY, DraftField::Title, 77, 50, Some("hello"));
    assert!(matches!(r, FieldReplyOutcome::MissingDraft));
    assert_eq!(
        reply_next_state(&DialogueState::TitleReceived, &r),
        Some(DialogueState::TitleReceived)
    );
}

#[test]
fn reply_without_keyboard_fails() {
    let mut registry = ProposalMenuStorage::new();
    registry.insert(BOT_KEY.to_string(), draft_message(40, "body", None));
    let r = receive_field_reply(&registry, BOT_KEY, DraftField::Title, 77, 50, Some("hello"));
    assert!(matches!(r, FieldReplyOutcome::MissingKeyboard));
}

// a photo (non-text reply) in DescriptionReceived asks for plain text and
// leaves state and draft unchanged
#[test]
fn malformed_reply_scenario() {
    let mut registry = ProposalMenuStorage::new();
    let kb = new_proporsal_keyboard(false, false, false, false);
    let body = get_new_proposal_message();
    registry.insert(BOT_KEY.to_string(), draft_message(42, body.as_str(), Some(kb)));
    let r = receive_field_reply(&registry, BOT_KEY, DraftField::Description, 77, 50, None);
    assert!(matches!(r, FieldReplyOutcome::AskPlainText));
    assert_eq!(
        reply_next_state(&DialogueState::DescriptionReceived, &r),
        Some(DialogueState::DescriptionReceived)
    );
    let stored = registry.get(BOT_KEY.to_string()).unwrap();
    assert_eq!(stored.text, body);
}

// the in-place edit always targets the captured draft's own identity, even
// when the reply arrives in another chat; only the cleanup follows the reply
#[test]
fn reply_edits_the_captured_identity() {
    let mut registry = ProposalMenuStorage::new();
    let kb = new_proporsal_keyboard(false, false, false, false);
    let body = get_new_proposal_message();
    registry.insert(BOT_KEY.to_string(), draft_message(42, body.as_str(), Some(kb)));
    let r = receive_field_reply(&registry, BOT_KEY, DraftField::Title, 9999, 60, Some("hello"));
    match r {
        FieldReplyOutcome::EditDraft { chat_id, message_id, reply_chat_id, reply_id, .. } => {
            assert_eq!(chat_id, 77);
            assert_eq!(message_id, 42);
            assert_eq!(reply_chat_id, 9999);
            assert_eq!(reply_id, 60);
        }
        _ => panic!("expected an in-place edit"),
    }
}

fn complete_field(
    registry: &mut ProposalMenuStorage,
    field: DraftField,
    value: &str,
) -> (String, Keyboard) {
    let stored = registry.get(BOT_KEY.to_string()).unwrap();
    let (prompt, state) = handle_proposal_fields(registry, Some(BOT_KEY), stored, field);
    assert_eq!(prompt, field.prompt_str());
    assert_eq!(state, field_state(field));
    let r = receive_field_reply(registry, BOT_KEY, field, 77, 60, Some(value));
    match r {
        FieldReplyOutcome::EditDraft {
            chat_id,
            message_id,
            text,
            keyboard,
            reply_chat_id,
            reply_id,
        } => {
            assert_eq!(chat_id, 77);
            assert_eq!(message_id, 42);
            assert_eq!(reply_chat_id, 77);
            assert_eq!(reply_id, 60);
            assert_eq!(reply_next_state(&state, &FieldReplyOutcome::AskPlainText), Some(state));
            // the edit ends the conversation
            let next = reply_next_state(
                &state,
                &FieldReplyOutcome::EditDraft {
                    chat_id,
                    message_id,
                    text: text.clone(),
                    keyboard: keyboard.clone(),
                    reply_chat_id,
                    reply_id,
                },
            );
            assert_eq!(next, None);
            // the edited message becomes the next captured draft
            registry.insert(
                BOT_KEY.to_string(),
                draft_message(42, text.as_str(), Some(keyboard.clone())),
            );
            (text, keyboard)
        }
        _ => panic!("expected an in-place edit"),
    }
}

// the full walk-through: open the template, fill the four fields one button
// press and one reply at a time, then submit
#[test]
fn full_walk_through_scenario() {
    let mut registry = ProposalMenuStorage::new();
    let mut proposals = ProposalStorage::new();

    // "Create a Proposal" sends the fresh template with all fields canonical
    let template = get_new_proposal_message();
    let kb = new_proporsal_keyboard(false, false, false, false);
    assert_eq!(template.matches("\u{2705}").count(), 0);
    registry.insert(BOT_KEY.to_string(), draft_message(42, template.as_str(), Some(kb)));

    let (text, keyboard) = complete_field(&mut registry, DraftField::Title, "Town Park Renovation");
    assert!(text.contains("Title: Town Park Renovation\n"));
    assert_eq!(keyboard.rows[1][0].text, "\u{2705} Title");
    assert_eq!(keyboard.rows[2][0].text, "Description");

    let (text, keyboard) = complete_field(&mut registry, DraftField::Description, "Repave paths");
    assert!(text.contains("Description: Repave paths\n"));
    assert_eq!(keyboard.rows[1][0].text, "\u{2705} Title");
    assert_eq!(keyboard.rows[2][0].text, "\u{2705} Description");

    let (text, _) = complete_field(&mut registry, DraftField::StartingDate, "2024-01-01");
    assert!(text.contains("Starting Date: 2024-01-01\n"));

    let (text, keyboard) = complete_field(&mut registry, DraftField::ExpirationDate, "2024-02-01");
    assert!(text.contains("Expiration Date: 2024-02-01\n"));
    assert_eq!(keyboard.rows[4][0].text, "\u{2705}Expiration Date");
    assert_eq!(keyboard.rows[5][0].text, "Submit Proposal");

    // submit parses the draft body and stores the proposal
    let p = submit_proposal(&mut proposals, Some(BOT_KEY), text.as_str());
    assert_eq!(p.title, "Town Park Renovation");
    assert_eq!(p.description, "Repave paths");
    assert_eq!(p.starting_date, "2024-01-01");
    assert_eq!(p.expiration_date, "2024-02-01");
    assert_eq!(p.vote, 0);

    let stored = proposals.get(BOT_KEY.to_string()).unwrap();
    assert_eq!(stored.len(), 1);
    assert_eq!(stored[0].title, "Town Park Renovation");
    assert_eq!(stored[0].vote, 0);
}

#[test]
fn submit_on_empty_template_stores_empty_fields() {
    let mut proposals = ProposalStorage::new();
    let template = get_new_proposal_message();
    let p = submit_proposal(&mut proposals, Some(BOT_KEY), template.as_str());
    assert_eq!(p.title, "");
    assert_eq!(p.description, "");
    assert_eq!(p.starting_date, "");
    assert_eq!(p.expiration_date, "");
    assert_eq!(p.vote, 0);
    assert_eq!(proposals.get(BOT_KEY.to_string()).unwrap().len(), 1);
}

#[test]
fn submit_accumulates_in_insertion_order() {
    let mut proposals = ProposalStorage::new();
    let template = get_new_proposal_message();
    let first = zuzarule::messages::parse_message(template.as_str(), Some("one"), None, None, None);
    let second = zuzarule::messages::parse_message(template.as_str(), Some("two"), None, None, None);
    submit_proposal(&mut proposals, Some(BOT_KEY), first.as_str());
    submit_proposal(&mut proposals, Some(BOT_KEY), second.as_str());
    let stored = proposals.get(BOT_KEY.to_string()).unwrap();
    assert_eq!(stored.len(), 2);
    assert_eq!(stored[0].title, "one");
    assert_eq!(stored[1].title, "two");
}
