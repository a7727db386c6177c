//! The four fields of a proposal draft.
//!
//! Each field has a canonical button label, a line prefix (`"<Label>: "`)
//! locating its value in the draft body, a fixed keyboard row, and a
//! prompt asking the user for its value.

use vstd::prelude::*;
use vstd::string::StringExecFns;

use crate::lines::{no_newline, starts_with};

verus! {

/// One field of a proposal draft.
#[derive(Clone, Copy, Debug, PartialEq, Eq, Structural)]
pub enum DraftField {
    Title,
    Description,
    StartingDate,
    ExpirationDate,
}

impl DraftField {
    /// The canonical (undecorated) button label of the field.
    pub open spec fn label(self) -> Seq<char> {
        match self {
            DraftField::Title => "Title"@,
            DraftField::Description => "Description"@,
            DraftField::StartingDate => "Starting Date"@,
            DraftField::ExpirationDate => "Expiration Date"@,
        }
    }

    /// The prefix that introduces the field's value on its line of the
    /// draft body.
    pub open spec fn prefix(self) -> Seq<char> {
        self.label() + ": "@
    }

    /// The keyboard row holding the field's button (row 0 holds the menu
    /// buttons, row 5 the submit button).
    pub open spec fn row(self) -> int {
        match self {
            DraftField::Title => 1,
            DraftField::Description => 2,
            DraftField::StartingDate => 3,
            DraftField::ExpirationDate => 4,
        }
    }

    /// The prompt sent when the field's button is pressed.
    pub open spec fn prompt(self) -> Seq<char> {
        match self {
            DraftField::Title => "Enter the proposal Title"@,
            DraftField::Description => "Enter the proposal Description"@,
            DraftField::StartingDate => "Enter the proposal Starting Date"@,
            DraftField::ExpirationDate => "Enter the proposal Expiration Date"@,
        }
    }

    pub fn label_str(self) -> (r: &'static str)
        ensures
            r@ == self.label(),
    {
        match self {
            DraftField::Title => "Title",
            DraftField::Description => "Description",
            DraftField::StartingDate => "Starting Date",
            DraftField::ExpirationDate => "Expiration Date",
        }
    }

    pub fn prefix_string(self) -> (r: String)
        ensures
            r@ == self.prefix(),
    {
        String::from_str(self.label_str()).concat(": ")
    }

    pub fn row_index(self) -> (r: usize)
        ensures
            r as int == self.row(),
    {
        match self {
            DraftField::Title => 1,
            DraftField::Description => 2,
            DraftField::StartingDate => 3,
            DraftField::ExpirationDate => 4,
        }
    }

    pub fn prompt_str(self) -> (r: &'static str)
        ensures
            r@ == self.prompt(),
    {
        match self {
            DraftField::Title => "Enter the proposal Title",
            DraftField::Description => "Enter the proposal Description",
            DraftField::StartingDate => "Enter the proposal Starting Date",
            DraftField::ExpirationDate => "Enter the proposal Expiration Date",
        }
    }
}

/// The field prefixes are single-line, nonempty, and none extends another:
/// the facts every template proof starts from.
pub proof fn lemma_field_prefixes()
    ensures
        forall|f: DraftField| no_newline(#[trigger] f.prefix()),
        forall|f: DraftField| #[trigger] f.prefix().len() > 0,
        forall|f: DraftField, g: DraftField| f != g ==> !starts_with(
            #[trigger] f.prefix(),
            #[trigger] g.prefix(),
        ),
{
    reveal_strlit("Title");
    reveal_strlit("Description");
    reveal_strlit("Starting Date");
    reveal_strlit("Expiration Date");
    reveal_strlit(": ");
    assert forall|f: DraftField| no_newline(#[trigger] f.prefix()) && f.prefix().len() > 0 by {
        let l = f.label();
        assert(no_newline(l)) by {
            match f {
                DraftField::Title => {
                    assert(forall|i: int| 0 <= i < 5 ==> "Title"@[i] != '\n');
                }
                DraftField::Description => {
                    assert(forall|i: int| 0 <= i < 11 ==> "Description"@[i] != '\n');
                }
                DraftField::StartingDate => {
                    assert(forall|i: int| 0 <= i < 13 ==> "Starting Date"@[i] != '\n');
                }
                DraftField::ExpirationDate => {
                    assert(forall|i: int| 0 <= i < 15 ==> "Expiration Date"@[i] != '\n');
                }
            }
        }
        assert forall|i: int| 0 <= i < f.prefix().len() implies f.prefix()[i] != '\n' by {
            if i < l.len() {
                assert(f.prefix()[i] == l[i]);
            } else {
                assert(f.prefix()[i] == ": "@[i - l.len()]);
            }
        }
    }
    assert forall|f: DraftField, g: DraftField| f != g implies !starts_with(
        f.prefix(),
        g.prefix(),
    ) by {
        assert(f.prefix()[0] == f.label()[0]);
        assert(g.prefix()[0] == g.label()[0]);
        if starts_with(f.prefix(), g.prefix()) {
            assert(f.prefix().subrange(0, g.prefix().len() as int)[0] == f.prefix()[0]);
        }
    }
}

} // verus!
