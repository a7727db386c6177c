//! Classification of inbound button presses: which sub-menu a pressed
//! keyboard belongs to, and which action a press asks for.

pub mod callback_handlers;
pub mod dialogue_handlers;

use vstd::prelude::*;

use crate::fields::DraftField;
use crate::keyboards::create_new_proposal_keyboard::{
    matched_field, matches_label, CreateNewProposalKeyboard,
};
use crate::keyboards::{
    close_label, create_a_proposal_label, main_menu_label, see_proposals_label,
    submit_proposal_label, ButtonV, Keyboard,
};
use crate::keyboards::{create_a_proposal_str, main_menu_str, see_proposals_str};
use crate::lines::str_eq;
use crate::storage::TgMessage;

verus! {

/// Which of the two sub-menus a keyboard belongs to.
#[derive(Debug, Clone, Copy, PartialEq, Eq, Structural)]
pub enum SubMenuType {
    CreateNewProposal,
    SeeProposals,
}

/// The sub-menu a keyboard belongs to: decided by its last button — the
/// draft-authoring keyboard ends with the submit button; anything else is
/// taken for the published-proposal view.  Nothing without a last button.
pub open spec fn spec_sub_menu(kb: Option<Seq<Seq<ButtonV>>>) -> Option<SubMenuType> {
    match kb {
        Option::None => Option::None,
        Option::Some(k) => {
            if k.len() > 0 && k[k.len() - 1].len() > 0 {
                if k[k.len() - 1][k[k.len() - 1].len() - 1].text == submit_proposal_label() {
                    Option::Some(SubMenuType::CreateNewProposal)
                } else {
                    Option::Some(SubMenuType::SeeProposals)
                }
            } else {
                Option::None
            }
        },
    }
}

/// The keyboard attached to the pressed message, if any.
pub open spec fn pressed_keyboard(message: Option<&TgMessage>) -> Option<Seq<Seq<ButtonV>>> {
    match message {
        Option::Some(m) => match m.keyboard {
            Option::Some(kb) => Option::Some(kb@),
            Option::None => Option::None,
        },
        Option::None => Option::None,
    }
}

/// Decides which sub-menu the pressed message's keyboard belongs to.
pub fn match_sub_menu(message: Option<&TgMessage>) -> (r: Option<SubMenuType>)
    ensures
        r == spec_sub_menu(pressed_keyboard(message)),
{
    match message {
        None => None,
        Some(m) => match &m.keyboard {
            None => None,
            Some(kb) => {
                let nrows = kb.rows.len();
                if nrows == 0 {
                    return None;
                }
                let row = &kb.rows[nrows - 1];
                let ncols = row.len();
                if ncols == 0 {
                    proof {
                        assert(kb@[nrows - 1].len() == 0);
                    }
                    return None;
                }
                proof {
                    assert(kb@[nrows - 1][ncols - 1] == kb.rows@[nrows - 1]@[ncols - 1]@);
                }
                if str_eq(row[ncols - 1].text.as_str(), crate::keyboards::submit_proposal_str()) {
                    Some(SubMenuType::CreateNewProposal)
                } else {
                    Some(SubMenuType::SeeProposals)
                }
            },
        },
    }
}

/// The keyboard attached to a captured message, where it has one.
pub fn find_keyboard_from_message(msg: &TgMessage) -> (r: Option<&Keyboard>)
    ensures
        match r {
            Option::Some(kb) => msg.keyboard matches Option::Some(k) && *kb == k,
            Option::None => msg.keyboard is None,
        },
{
    msg.keyboard.as_ref()
}

/// What one button press asks the engine to do.
#[derive(Debug, Clone, Copy, PartialEq, Eq, Structural)]
pub enum ButtonAction {
    /// Send a fresh empty draft template with its keyboard.
    NewProposal,
    /// List the published proposals.
    SeeProposals,
    /// Show the main menu again.
    MainMenu,
    /// Capture the draft handle and prompt for one field.
    FieldPrompt(DraftField),
    /// Parse the draft body and store the proposal.
    SubmitProposal,
    /// Increment the vote count of a published proposal.
    ThumbUp,
    /// Nothing to do.
    Ignore,
}

/// The action a press asks for: the three global menu actions by their
/// data alone; everything else by the sub-menu of the keyboard it was
/// pressed on.  Inside the draft sub-menu a field button prompts for its
/// field, and every non-field button — submit, but also the menu buttons'
/// decorated forms — submits.
pub open spec fn spec_button_action(
    data: Option<Seq<char>>,
    kb: Option<Seq<Seq<ButtonV>>>,
) -> ButtonAction {
    match data {
        Option::None => ButtonAction::Ignore,
        Option::Some(t) => {
            if t == create_a_proposal_label() {
                ButtonAction::NewProposal
            } else if t == see_proposals_label() {
                ButtonAction::SeeProposals
            } else if t == main_menu_label() {
                ButtonAction::MainMenu
            } else {
                match spec_sub_menu(kb) {
                    Option::Some(SubMenuType::CreateNewProposal) => {
                        if matches_label(t, main_menu_label()) || matches_label(t, close_label()) {
                            ButtonAction::SubmitProposal
                        } else {
                            match matched_field(t) {
                                Option::Some(f) => ButtonAction::FieldPrompt(f),
                                Option::None => ButtonAction::SubmitProposal,
                            }
                        }
                    },
                    Option::Some(SubMenuType::SeeProposals) => ButtonAction::ThumbUp,
                    Option::None => ButtonAction::Ignore,
                }
            }
        },
    }
}

/// Classifies one button press: its callback data and the message it was
/// pressed on.
pub fn classify_button_action(data: Option<&str>, message: Option<&TgMessage>) -> (r: ButtonAction)
    ensures
        r == spec_button_action(data.deep_view(), pressed_keyboard(message)),
{
    let action = match data {
        Some(a) => a,
        None => {
            return ButtonAction::Ignore;
        },
    };
    if str_eq(action, create_a_proposal_str()) {
        ButtonAction::NewProposal
    } else if str_eq(action, see_proposals_str()) {
        ButtonAction::SeeProposals
    } else if str_eq(action, main_menu_str()) {
        ButtonAction::MainMenu
    } else {
        match match_sub_menu(message) {
            Some(SubMenuType::CreateNewProposal) => match CreateNewProposalKeyboard::new(action) {
                CreateNewProposalKeyboard::Title(_) => ButtonAction::FieldPrompt(DraftField::Title),
                CreateNewProposalKeyboard::Description(_) => ButtonAction::FieldPrompt(
                    DraftField::Description,
                ),
                CreateNewProposalKeyboard::StartingDate(_) => ButtonAction::FieldPrompt(
                    DraftField::StartingDate,
                ),
                CreateNewProposalKeyboard::ExpirationDate(_) => ButtonAction::FieldPrompt(
                    DraftField::ExpirationDate,
                ),
                _ => ButtonAction::SubmitProposal,
            },
            Some(SubMenuType::SeeProposals) => ButtonAction::ThumbUp,
            None => ButtonAction::Ignore,
        }
    }
}

/// The message identifiers a bounded cleanup visits: from `start` down to
/// just above `end`, newest first.
pub fn messages_between(start: i32, end: i32) -> (r: Vec<i32>)
    ensures
        r@.len() == if start > end {
            start - end
        } else {
            0int
        },
        forall|i: int| 0 <= i < r@.len() ==> r@[i] == start - i,
{
    let mut r: Vec<i32> = Vec::new();
    let mut id = start;
    while id > end
        invariant
            end <= id <= start || (id == start && start <= end),
            r@.len() == start - id,
            forall|i: int| 0 <= i < r@.len() ==> r@[i] == start - i,
        decreases id - end,
    {
        r.push(id);
        id = id - 1;
    }
    r
}

} // verus!
