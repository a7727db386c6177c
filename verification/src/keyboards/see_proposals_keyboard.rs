//! The keyboard attached to each published proposal: a single vote button.

use vstd::prelude::*;

use crate::keyboards::{callback_button, thumb_up_label, thumb_up_str, Button, ButtonV, Keyboard};

verus! {

/// One button of the published-proposal keyboard.
#[derive(Debug, Clone)]
pub enum SeeProposalsKeyboard {
    ThumbUp,
}

impl SeeProposalsKeyboard {
    /// Names the button a callback's data points at; the vote button is the
    /// only one.
    pub fn new(_text: &str) -> (r: Self)
        ensures
            r is ThumbUp,
    {
        SeeProposalsKeyboard::ThumbUp
    }
}

/// The published-proposal keyboard: one row with the vote button.
pub open spec fn spec_see_proposal_keyboard() -> Seq<Seq<ButtonV>> {
    seq![seq![ButtonV { text: thumb_up_label(), data: thumb_up_label() }]]
}

fn see_proposal_keyboard() -> (kb: Keyboard)
    ensures
        kb@ == spec_see_proposal_keyboard(),
{
    let mut row: Vec<Button> = Vec::new();
    row.push(callback_button(thumb_up_str(), thumb_up_str()));
    let mut rows: Vec<Vec<Button>> = Vec::new();
    rows.push(row);
    let kb = Keyboard { rows };
    proof {
        assert(kb@[0] =~= spec_see_proposal_keyboard()[0]);
        assert(kb@ =~= spec_see_proposal_keyboard());
    }
    kb
}

/// The keyboard sent with each published proposal.
pub fn new_see_proporsal_keyboard() -> (kb: Keyboard)
    ensures
        kb@ == spec_see_proposal_keyboard(),
{
    see_proposal_keyboard()
}

} // verus!
