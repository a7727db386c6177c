//! The computing cores of the menu callbacks: parsing a filled draft into
//! a proposal, storing it, recording the main-menu message, rendering a
//! published proposal, and counting a vote.

use vstd::prelude::*;
use vstd::string::StringExecFns;

use crate::fields::DraftField;
use crate::lines::{filled_field, parsed_field, read_field, write_field};
use crate::messages::extract_field;
use crate::numbers::{all_digits, dec_digits, digits_val, parse_u64, u64_to_string};
use crate::storage::{
    MainMenuStorage, Proposal, ProposalStorage, TgMessage, TgMessageStorage, TgProposalStorage,
};

verus! {

/// `p` holds exactly the field values of the draft body `t`, with no votes
/// yet.
pub open spec fn spec_proposal_fields(p: Proposal, t: Seq<char>) -> bool {
    &&& p.title@ == parsed_field(t, DraftField::Title.prefix())
    &&& p.description@ == parsed_field(t, DraftField::Description.prefix())
    &&& p.starting_date@ == parsed_field(t, DraftField::StartingDate.prefix())
    &&& p.expiration_date@ == parsed_field(t, DraftField::ExpirationDate.prefix())
    &&& p.vote == 0
}

/// Parses a filled draft body back into its structured fields, each
/// defaulting to the empty string, with no votes yet.
pub fn parse_proposal(text: &str) -> (p: Proposal)
    ensures
        spec_proposal_fields(p, text@),
{
    Proposal {
        title: extract_field(text, DraftField::Title),
        description: extract_field(text, DraftField::Description),
        starting_date: extract_field(text, DraftField::StartingDate),
        expiration_date: extract_field(text, DraftField::ExpirationDate),
        vote: 0,
    }
}

/// Submit: parses the draft body into a proposal and appends it to the
/// author's list (where the press carries a user name), handing the
/// proposal back.
pub fn submit_proposal(
    store: &mut ProposalStorage,
    user_name: Option<&str>,
    draft_text: &str,
) -> (p: Proposal)
    ensures
        spec_proposal_fields(p, draft_text@),
        match user_name {
            Option::Some(u) => final(store).contents() == old(store).contents().insert(
                u@,
                (if old(store).contents().contains_key(u@) {
                    old(store).contents()[u@]
                } else {
                    Seq::<Proposal>::empty()
                }).push(p),
            ),
            Option::None => final(store).contents() == old(store).contents(),
        },
{
    let p = parse_proposal(draft_text);
    if let Some(u) = user_name {
        let copy = Proposal {
            title: p.title.clone(),
            description: p.description.clone(),
            starting_date: p.starting_date.clone(),
            expiration_date: p.expiration_date.clone(),
            vote: p.vote,
        };
        proof {
            assert(copy == p);
        }
        store.insert(u.to_owned(), copy);
    }
    p
}

/// Records the freshly sent main-menu message for its user, where the
/// update carries a user name.
pub fn record_main_menu(
    storage: &mut MainMenuStorage,
    user_name: Option<&str>,
    message: TgMessage,
)
    ensures
        match user_name {
            Option::Some(u) => final(storage).contents() == old(storage).contents().insert(
                u@,
                message,
            ),
            Option::None => final(storage).contents() == old(storage).contents(),
        },
{
    if let Some(u) = user_name {
        storage.insert(u.to_owned(), message);
    }
}

/// The line prefix of the vote count in a published proposal's text.
pub open spec fn votes_prefix() -> Seq<char> {
    "Votes: "@
}

fn votes_prefix_str() -> (r: &'static str)
    ensures
        r@ == votes_prefix(),
{
    "Votes: "
}

/// The text of a published proposal: its four fields and its vote count,
/// one per line.
pub open spec fn spec_render_proposal(p: Proposal) -> Seq<char> {
    DraftField::Title.prefix() + p.title@ + "\n"@ + DraftField::Description.prefix()
        + p.description@ + "\n"@ + DraftField::StartingDate.prefix() + p.starting_date@ + "\n"@
        + DraftField::ExpirationDate.prefix() + p.expiration_date@ + "\n"@ + votes_prefix()
        + dec_digits(p.vote as nat)
}

/// Renders a published proposal for display.
pub fn render_proposal(p: &Proposal) -> (r: String)
    ensures
        r@ == spec_render_proposal(*p),
{
    let mut r = DraftField::Title.prefix_string();
    r.append(p.title.as_str());
    r.append("\n");
    r.append(DraftField::Description.prefix_string().as_str());
    r.append(p.description.as_str());
    r.append("\n");
    r.append(DraftField::StartingDate.prefix_string().as_str());
    r.append(p.starting_date.as_str());
    r.append("\n");
    r.append(DraftField::ExpirationDate.prefix_string().as_str());
    r.append(p.expiration_date.as_str());
    r.append("\n");
    r.append(votes_prefix_str());
    let votes = u64_to_string(p.vote);
    r.append(votes.as_str());
    r
}

/// One vote: where the text's votes line reads a decimal count whose
/// successor still fits, the same text with the count raised by one;
/// everywhere else — no votes line, junk after the prefix, an overflowing
/// count — the empty string, as the edit then falls through unchanged
/// upstream.
pub fn increment_votes(text: &str) -> (r: String)
    ensures
        ({
            let v = parsed_field(text@, votes_prefix());
            if v.len() > 0 && all_digits(v) && digits_val(v) + 1 <= u64::MAX {
                r@ == filled_field(text@, votes_prefix(), dec_digits(digits_val(v) + 1))
            } else {
                r@ == Seq::<char>::empty()
            }
        }),
{
    let v = read_field(text, votes_prefix_str());
    match parse_u64(v.as_str()) {
        Some(n) => {
            if n == u64::MAX {
                String::new()
            } else {
                let s = u64_to_string(n + 1);
                write_field(text, votes_prefix_str(), s.as_str())
            }
        },
        None => String::new(),
    }
}

} // verus!
