//! The inline keyboard model: buttons, keyboards, the button labels and
//! their decorated ("completed") forms.

pub mod create_new_proposal_keyboard;
pub mod see_proposals_keyboard;


use vstd::prelude::*;
use vstd::string::StringExecFns;

use crate::fields::DraftField;
use crate::lines::str_eq;

verus! {

pub open spec fn main_menu_label() -> Seq<char> {
    "Main Menu"@
}

pub open spec fn close_label() -> Seq<char> {
    "Close"@
}

pub open spec fn submit_proposal_label() -> Seq<char> {
    "Submit Proposal"@
}

pub open spec fn create_a_proposal_label() -> Seq<char> {
    "Create a Proposal"@
}

pub open spec fn see_proposals_label() -> Seq<char> {
    "See Proposals"@
}

pub open spec fn thumb_up_label() -> Seq<char> {
    "\u{1F44D}"@
}

pub fn main_menu_str() -> (r: &'static str)
    ensures
        r@ == main_menu_label(),
{
    "Main Menu"
}

pub fn close_str() -> (r: &'static str)
    ensures
        r@ == close_label(),
{
    "Close"
}

pub fn submit_proposal_str() -> (r: &'static str)
    ensures
        r@ == submit_proposal_label(),
{
    "Submit Proposal"
}

pub fn create_a_proposal_str() -> (r: &'static str)
    ensures
        r@ == create_a_proposal_label(),
{
    "Create a Proposal"
}

pub fn see_proposals_str() -> (r: &'static str)
    ensures
        r@ == see_proposals_label(),
{
    "See Proposals"
}

pub fn thumb_up_str() -> (r: &'static str)
    ensures
        r@ == thumb_up_label(),
{
    "\u{1F44D}"
}

/// The decorated form of a button label: a marker glyph prepended to the
/// labels the bot knows, anything else unchanged.
pub open spec fn spec_add_emoji(t: Seq<char>) -> Seq<char> {
    if t == main_menu_label() {
        "\u{1F3E0} "@ + t
    } else if t == close_label() {
        "\u{274C} "@ + t
    } else if t == DraftField::Title.label() || t == DraftField::Description.label() || t
        == DraftField::StartingDate.label() {
        "\u{2705} "@ + t
    } else if t == DraftField::ExpirationDate.label() || t == submit_proposal_label() {
        "\u{2705}"@ + t
    } else {
        t
    }
}

/// Decorates a button label with its marker glyph.
pub fn add_emoji(text: &str) -> (r: String)
    ensures
        r@ == spec_add_emoji(text@),
{
    if str_eq(text, "Main Menu") {
        String::from_str("\u{1F3E0} ").concat(text)
    } else if str_eq(text, "Close") {
        String::from_str("\u{274C} ").concat(text)
    } else if str_eq(text, "Title") || str_eq(text, "Description") || str_eq(
        text,
        "Starting Date",
    ) {
        String::from_str("\u{2705} ").concat(text)
    } else if str_eq(text, "Expiration Date") || str_eq(text, "Submit Proposal") {
        String::from_str("\u{2705}").concat(text)
    } else {
        text.to_owned()
    }
}

/// The seven button labels are pairwise distinct, and decorating a field
/// label changes it.
pub proof fn lemma_labels_distinct()
    ensures
        main_menu_label() != close_label(),
        forall|f: DraftField| #[trigger] f.label() != main_menu_label(),
        forall|f: DraftField| #[trigger] f.label() != close_label(),
        forall|f: DraftField| #[trigger] f.label() != submit_proposal_label(),
        forall|f: DraftField, g: DraftField| f != g ==> #[trigger] f.label() != #[trigger] g.label(),
        main_menu_label() != submit_proposal_label(),
        close_label() != submit_proposal_label(),
        forall|f: DraftField| #[trigger] spec_add_emoji(f.label()) == (
        if f is ExpirationDate {
            "\u{2705}"@ + f.label()
        } else {
            "\u{2705} "@ + f.label()
        }),
        forall|f: DraftField| #[trigger] spec_add_emoji(f.label()) != f.label(),
        spec_add_emoji(submit_proposal_label()) == "\u{2705}"@ + submit_proposal_label(),
{
    reveal_strlit("Main Menu");
    reveal_strlit("Close");
    reveal_strlit("Submit Proposal");
    reveal_strlit("Title");
    reveal_strlit("Description");
    reveal_strlit("Starting Date");
    reveal_strlit("Expiration Date");
    reveal_strlit("\u{2705}");
    reveal_strlit("\u{2705} ");
    assert("Main Menu"@.len() == 9);
    assert("Close"@.len() == 5);
    assert("Submit Proposal"@.len() == 15);
    assert("Title"@.len() == 5);
    assert("Description"@.len() == 11);
    assert("Starting Date"@.len() == 13);
    assert("Expiration Date"@.len() == 15);
    assert("Close"@[0] == 'C' && "Title"@[0] == 'T');
    assert("Submit Proposal"@[0] == 'S' && "Expiration Date"@[0] == 'E');
    assert("\u{2705}"@.len() == 1 && "\u{2705} "@.len() == 2);
    assert forall|f: DraftField, g: DraftField| f != g implies #[trigger] f.label()
        != #[trigger] g.label() by {
        match f {
            DraftField::Title => {}
            DraftField::Description => {}
            DraftField::StartingDate => {}
            DraftField::ExpirationDate => {}
        }
        match g {
            DraftField::Title => {}
            DraftField::Description => {}
            DraftField::StartingDate => {}
            DraftField::ExpirationDate => {}
        }
    }
    assert forall|f: DraftField| #[trigger] spec_add_emoji(f.label()) != f.label() by {
        match f {
            DraftField::Title => {}
            DraftField::Description => {}
            DraftField::StartingDate => {}
            DraftField::ExpirationDate => {}
        }
    }
}

/// The ghost image of one inline button: its display text and the data it
/// sends back when pressed.
pub struct ButtonV {
    pub text: Seq<char>,
    pub data: Seq<char>,
}

/// One inline button: its display text and the data it sends back when
/// pressed.
#[derive(Debug, Clone)]
pub struct Button {
    pub text: String,
    pub data: String,
}

impl View for Button {
    type V = ButtonV;

    open spec fn view(&self) -> ButtonV {
        ButtonV { text: self.text@, data: self.data@ }
    }
}

/// An inline keyboard: rows of buttons attached to a message.
#[derive(Debug, Clone)]
pub struct Keyboard {
    pub rows: Vec<Vec<Button>>,
}

impl View for Keyboard {
    type V = Seq<Seq<ButtonV>>;

    open spec fn view(&self) -> Seq<Seq<ButtonV>> {
        self.rows@.map_values(|row: Vec<Button>| row@.map_values(|b: Button| b@))
    }
}

/// A button that sends its own label back when pressed.
pub fn callback_button(text: &str, data: &str) -> (b: Button)
    ensures
        b@ == (ButtonV { text: text@, data: data@ }),
{
    Button { text: text.to_owned(), data: data.to_owned() }
}

/// The default keyboard layout: the given actions, three to a row, each as
/// a button that sends its own label.
#[verifier::rlimit(100)]
#[verifier::spinoff_prover]
pub fn create_keyboard(actions: Vec<&str>) -> (kb: Keyboard)
    ensures
        kb@.len() == (actions@.len() + 2) / 3,
        forall|i: int|
            0 <= i < kb@.len() ==> #[trigger] kb@[i].len() == if actions@.len() - 3 * i < 3 {
                actions@.len() - 3 * i
            } else {
                3
            },
        forall|i: int, j: int|
            0 <= i < kb@.len() && 0 <= j < kb@[i].len() ==> #[trigger] kb@[i][j] == (ButtonV {
                text: actions@[3 * i + j]@,
                data: actions@[3 * i + j]@,
            }),
{
    let n = actions.len();
    let mut rows: Vec<Vec<Button>> = Vec::new();
    let mut start: usize = 0;
    while start < n
        invariant
            n == actions@.len(),
            start <= n,
            start % 3 == 0 || start == n,
            rows@.len() == (start + 2) / 3,
            forall|i: int|
                0 <= i < rows@.len() ==> #[trigger] rows@[i]@.len() == if start - 3 * i < 3 {
                    start - 3 * i
                } else {
                    3
                },
            forall|i: int, j: int|
                0 <= i < rows@.len() && 0 <= j < rows@[i]@.len() ==> #[trigger] rows@[i]@[j]@ == (
                ButtonV { text: actions@[3 * i + j]@, data: actions@[3 * i + j]@ }),
        decreases n - start,
    {
        let mut row: Vec<Button> = Vec::new();
        let mut j: usize = 0;
        while j < 3 && start + j < n
            invariant
                n == actions@.len(),
                start + j <= n,
                start < n,
                j <= 3,
                row@.len() == j,
                forall|k: int|
                    0 <= k < j ==> #[trigger] row@[k]@ == (ButtonV {
                        text: actions@[start + k]@,
                        data: actions@[start + k]@,
                    }),
            decreases 3 - j,
        {
            let a = actions[start + j];
            row.push(callback_button(a, a));
            j += 1;
        }
        rows.push(row);
        start += j;
    }
    let kb = Keyboard { rows };
    proof {
        assert forall|i: int, j: int|
            0 <= i < kb@.len() && 0 <= j < kb@[i].len() implies #[trigger] kb@[i][j] == (ButtonV {
            text: actions@[3 * i + j]@,
            data: actions@[3 * i + j]@,
        }) by {
            assert(kb@[i] == kb.rows@[i]@.map_values(|b: Button| b@));
        }
    }
    kb
}

/// Rewrites the single button at `(row, 0)` so that it shows `text` and
/// sends `text` back when pressed; leaves the keyboard unchanged when that
/// position does not exist.  No other button is touched.
pub fn set_button(kb: &mut Keyboard, row: usize, text: &str)
    ensures
        row < old(kb)@.len() && old(kb)@[row as int].len() > 0 ==> final(kb)@ == old(kb)@.update(
            row as int,
            old(kb)@[row as int].update(0, ButtonV { text: text@, data: text@ }),
        ),
        !(row < old(kb)@.len() && old(kb)@[row as int].len() > 0) ==> final(kb)@ == old(kb)@,
{
    if row < kb.rows.len() && kb.rows[row].len() > 0 {
        let mut row_vec = kb.rows.remove(row);
        let mut b = row_vec.remove(0);
        b.text = text.to_owned();
        b.data = text.to_owned();
        row_vec.insert(0, b);
        kb.rows.insert(row, row_vec);
        proof {
            let orows = old(kb).rows@;
            let bv = ButtonV { text: text@, data: text@ };
            let target = old(kb)@.update(row as int, old(kb)@[row as int].update(0, bv));
            assert(kb@.len() == target.len());
            assert forall|i: int| 0 <= i < kb@.len() implies kb@[i] == target[i] by {
                if i == row {
                    let rv = kb.rows@[i]@;
                    let or0 = orows[i]@;
                    assert(rv.len() == or0.len());
                    assert forall|j: int| 0 <= j < rv.len() implies kb@[i][j] == target[i][j] by {
                        assert(kb@[i][j] == rv[j]@);
                        if j > 0 {
                            assert(rv[j] == or0[j]);
                            assert(target[i][j] == or0[j]@);
                        }
                    }
                    assert(kb@[i] =~= target[i]);
                } else {
                    assert(kb.rows@[i] == orows[i]);
                }
            }
            assert(kb@ =~= target);
        }
    }
}

/// After one field-completion keyboard update, exactly the button at
/// `(row, 0)` shows the new label; every other button of every row is the
/// very button it was before.
pub proof fn lemma_single_button_mutation(kb: Seq<Seq<ButtonV>>, row: int, b: ButtonV)
    requires
        0 <= row < kb.len(),
        kb[row].len() > 0,
    ensures
        ({
            let kb2 = kb.update(row, kb[row].update(0, b));
            &&& kb2.len() == kb.len()
            &&& forall|i: int| 0 <= i < kb.len() ==> #[trigger] kb2[i].len() == kb[i].len()
            &&& kb2[row][0] == b
            &&& forall|i: int, j: int|
                0 <= i < kb.len() && 0 <= j < kb[i].len() && !(i == row && j == 0)
                    ==> #[trigger] kb2[i][j] == kb[i][j]
        }),
{
}

/// The main menu keyboard: one row with the two top-level actions.
pub fn menu_keyboard() -> (kb: Keyboard)
    ensures
        kb@.len() == 1,
        kb@[0].len() == 2,
        kb@[0][0] == (ButtonV { text: see_proposals_label(), data: see_proposals_label() }),
        kb@[0][1] == (ButtonV {
            text: create_a_proposal_label(),
            data: create_a_proposal_label(),
        }),
{
    let mut actions: Vec<&str> = Vec::new();
    actions.push(see_proposals_str());
    actions.push(create_a_proposal_str());
    create_keyboard(actions)
}

} // verus!
