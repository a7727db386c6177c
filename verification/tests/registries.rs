//! The registries and the vote counter.

use zuzarule::handler::callback_handlers::{increment_votes, parse_proposal, record_main_menu, render_proposal};
use zuzarule::handler::messages_between;
use zuzarule::numbers::{parse_u64, u64_to_string};
use zuzarule::storage::{
    MainMenuStorage, ProposalMenuStorage, ProposalStorage, TgMessage, TgMessageStorage,
    TgProposalStorage, Proposal,
};
use zuzarule::utils::messages_to_delete;

fn msg(chat_id: i64, message_id: i32, text: &str) -> TgMessage {
    TgMessage { chat_id, message_id, text: text.to_string(), keyboard: None }
}

#[test]
fn message_storage_insert_get_remove() {
    let mut s = ProposalMenuStorage::new();
    assert!(s.get("alice".to_string()).is_none());
    s.insert("alice".to_string(), msg(1, 10, "draft a"));
    let got = s.get("alice".to_string()).unwrap();
    assert_eq!(got.chat_id, 1);
    assert_eq!(got.message_id, 10);
    assert_eq!(got.text, "draft a");
    // an insert overwrites
    s.insert("alice".to_string(), msg(1, 11, "draft b"));
    assert_eq!(s.get("alice".to_string()).unwrap().message_id, 11);
    let removed = s.remove("alice".to_string()).unwrap();
    assert_eq!(removed.message_id, 11);
    assert!(s.get("alice".to_string()).is_none());
    assert!(s.remove("alice".to_string()).is_none());
}

#[test]
fn message_storage_delete_all() {
    let mut s = MainMenuStorage::new();
    s.insert("a".to_string(), msg(1, 1, "x"));
    s.insert("b".to_string(), msg(2, 2, "y"));
    s.delete_all();
    assert!(s.get("a".to_string()).is_none());
    assert!(s.get("b".to_string()).is_none());
}

// two chats author drafts at the same time: each registry entry is its own
#[test]
fn draft_isolation_scenario() {
    let mut s = ProposalMenuStorage::new();
    s.insert("alice".to_string(), msg(1, 10, "alice's draft"));
    s.insert("bob".to_string(), msg(2, 20, "bob's draft"));
    // editing alice's draft re-captures it; bob's stays as it was
    s.insert("alice".to_string(), msg(1, 10, "alice's draft, edited"));
    assert_eq!(s.get("alice".to_string()).unwrap().text, "alice's draft, edited");
    assert_eq!(s.get("bob".to_string()).unwrap().text, "bob's draft");
    assert_eq!(s.get("bob".to_string()).unwrap().message_id, 20);
}

#[test]
fn record_main_menu_stores_by_user() {
    let mut s = MainMenuStorage::new();
    record_main_menu(&mut s, Some("carol"), msg(3, 30, "menu"));
    assert_eq!(s.get("carol".to_string()).unwrap().message_id, 30);
    record_main_menu(&mut s, None, msg(4, 40, "menu"));
    assert!(s.get("".to_string()).is_none());
}

#[test]
fn proposal_storage_appends() {
    let mut s = ProposalStorage::new();
    assert!(s.get("k".to_string()).is_none());
    let p1 = parse_proposal("Title: a\nDescription: b\nStarting Date: c\nExpiration Date: d\n");
    let p2 = parse_proposal("Title: e\n");
    s.insert("k".to_string(), p1);
    s.insert("k".to_string(), p2);
    let got = s.get("k".to_string()).unwrap();
    assert_eq!(got.len(), 2);
    assert_eq!(got[0].title, "a");
    assert_eq!(got[0].description, "b");
    assert_eq!(got[1].title, "e");
    assert_eq!(got[1].description, "");
    s.delete_all();
    assert!(s.get("k".to_string()).is_none());
}

#[test]
fn render_proposal_text() {
    let p = Proposal {
        title: "T".to_string(),
        description: "D".to_string(),
        starting_date: "S".to_string(),
        expiration_date: "E".to_string(),
        vote: 12,
    };
    assert_eq!(
        render_proposal(&p),
        "Title: T\nDescription: D\nStarting Date: S\nExpiration Date: E\nVotes: 12"
    );
}

#[test]
fn increment_votes_on_rendered_proposal() {
    let p = Proposal {
        title: "T".to_string(),
        description: "D".to_string(),
        starting_date: "S".to_string(),
        expiration_date: "E".to_string(),
        vote: 0,
    };
    let text = render_proposal(&p);
    let once = increment_votes(text.as_str());
    assert_eq!(once, "Title: T\nDescription: D\nStarting Date: S\nExpiration Date: E\nVotes: 1");
    let twice = increment_votes(once.as_str());
    assert!(twice.ends_with("Votes: 2"));
}

#[test]
fn increment_votes_carries_digits() {
    assert_eq!(increment_votes("Votes: 9"), "Votes: 10");
    assert_eq!(increment_votes("Votes: 199"), "Votes: 200");
}

#[test]
fn increment_votes_rejects_junk() {
    assert_eq!(increment_votes("no votes line"), "");
    assert_eq!(increment_votes("Votes: "), "");
    assert_eq!(increment_votes("Votes: 1x"), "");
    assert_eq!(increment_votes("Votes: 18446744073709551615"), "");
}

#[test]
fn parse_and_print_u64() {
    assert_eq!(parse_u64("0"), Some(0));
    assert_eq!(parse_u64("907"), Some(907));
    assert_eq!(parse_u64("18446744073709551615"), Some(u64::MAX));
    assert_eq!(parse_u64("18446744073709551616"), None);
    assert_eq!(parse_u64(""), None);
    assert_eq!(parse_u64("12a"), None);
    assert_eq!(u64_to_string(0), "0");
    assert_eq!(u64_to_string(10), "10");
    assert_eq!(u64_to_string(907), "907");
    assert_eq!(u64_to_string(u64::MAX), "18446744073709551615");
}

#[test]
fn cleanup_ranges() {
    assert_eq!(messages_between(5, 2), vec![5, 4, 3]);
    assert_eq!(messages_between(2, 5), Vec::<i32>::new());
    assert_eq!(messages_between(2, 2), Vec::<i32>::new());
    assert_eq!(messages_to_delete(10, 3), vec![10, 9, 8, 7]);
    assert_eq!(messages_to_delete(10, 0), vec![10]);
}
