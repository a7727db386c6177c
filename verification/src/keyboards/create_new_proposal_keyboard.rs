//! The draft-authoring keyboard: which button a callback's data names, the
//! toggling of a field button between its canonical and decorated label,
//! and the keyboard's fixed six-row layout.

use vstd::prelude::*;
use vstd::string::StringExecFns;

use crate::fields::DraftField;
use crate::keyboards::{
    add_emoji, callback_button, close_label, close_str, lemma_labels_distinct, main_menu_label,
    main_menu_str, spec_add_emoji, submit_proposal_label, submit_proposal_str, Button, ButtonV,
    Keyboard,
};
use crate::lines::str_eq;

verus! {

/// The text `t` is the label `l`, either canonical or decorated.
pub open spec fn matches_label(t: Seq<char>, l: Seq<char>) -> bool {
    t == l || t == spec_add_emoji(l)
}

/// The first field whose canonical or decorated label is `t`, if any.
pub open spec fn matched_field(t: Seq<char>) -> Option<DraftField> {
    if matches_label(t, DraftField::Title.label()) {
        Option::Some(DraftField::Title)
    } else if matches_label(t, DraftField::Description.label()) {
        Option::Some(DraftField::Description)
    } else if matches_label(t, DraftField::StartingDate.label()) {
        Option::Some(DraftField::StartingDate)
    } else if matches_label(t, DraftField::ExpirationDate.label()) {
        Option::Some(DraftField::ExpirationDate)
    } else {
        Option::None
    }
}

/// The text `t` is some button of the draft-authoring keyboard.
pub open spec fn matches_any_button(t: Seq<char>) -> bool {
    matches_label(t, main_menu_label()) || matches_label(t, close_label()) || matched_field(
        t,
    ) is Some || matches_label(t, submit_proposal_label())
}

/// The text `t` is the label `l`, canonical or decorated, decided by
/// comparison.
pub fn matches_label_exec(text: &str, label: &str) -> (r: bool)
    ensures
        r == matches_label(text@, label@),
{
    if str_eq(text, label) {
        true
    } else {
        let d = add_emoji(label);
        str_eq(text, d.as_str())
    }
}

/// One button of the draft-authoring keyboard, as named by a callback's
/// data; field buttons carry the text that named them.
#[derive(Debug, Clone, Copy)]
pub enum CreateNewProposalKeyboard<'a> {
    MainMenu,
    Close,
    Title(&'a str),
    Description(&'a str),
    StartingDate(&'a str),
    ExpirationDate(&'a str),
    SubmitProposal(&'a str),
}

impl<'a> CreateNewProposalKeyboard<'a> {
    /// Names the button whose canonical or decorated label is `text`,
    /// falling back to the main menu for anything unknown.
    pub fn new(text: &'a str) -> (r: Self)
        ensures
            ({
                let t = text@;
                match r {
                    CreateNewProposalKeyboard::MainMenu => matches_label(t, main_menu_label())
                        || !matches_any_button(t),
                    CreateNewProposalKeyboard::Close => !matches_label(t, main_menu_label())
                        && matches_label(t, close_label()),
                    CreateNewProposalKeyboard::Title(s) => s@ == t && !matches_label(
                        t,
                        main_menu_label(),
                    ) && !matches_label(t, close_label()) && matched_field(t) == Option::Some(
                        DraftField::Title,
                    ),
                    CreateNewProposalKeyboard::Description(s) => s@ == t && !matches_label(
                        t,
                        main_menu_label(),
                    ) && !matches_label(t, close_label()) && matched_field(t) == Option::Some(
                        DraftField::Description,
                    ),
                    CreateNewProposalKeyboard::StartingDate(s) => s@ == t && !matches_label(
                        t,
                        main_menu_label(),
                    ) && !matches_label(t, close_label()) && matched_field(t) == Option::Some(
                        DraftField::StartingDate,
                    ),
                    CreateNewProposalKeyboard::ExpirationDate(s) => s@ == t && !matches_label(
                        t,
                        main_menu_label(),
                    ) && !matches_label(t, close_label()) && matched_field(t) == Option::Some(
                        DraftField::ExpirationDate,
                    ),
                    CreateNewProposalKeyboard::SubmitProposal(s) => s@ == t && !matches_label(
                        t,
                        main_menu_label(),
                    ) && !matches_label(t, close_label()) && matched_field(t) is None
                        && matches_label(t, submit_proposal_label()),
                }
            }),
    {
        if matches_label_exec(text, main_menu_str()) {
            Self::MainMenu
        } else if matches_label_exec(text, close_str()) {
            Self::Close
        } else if matches_label_exec(text, DraftField::Title.label_str()) {
            Self::Title(text)
        } else if matches_label_exec(text, DraftField::Description.label_str()) {
            Self::Description(text)
        } else if matches_label_exec(text, DraftField::StartingDate.label_str()) {
            Self::StartingDate(text)
        } else if matches_label_exec(text, DraftField::ExpirationDate.label_str()) {
            Self::ExpirationDate(text)
        } else if matches_label_exec(text, submit_proposal_str()) {
            Self::SubmitProposal(text)
        } else {
            Self::MainMenu
        }
    }

    /// The other form of a field button's label: decorated where the label
    /// shown is still canonical, canonical otherwise.  For the non-field
    /// buttons, the variant's bare name.
    pub fn toggle(&self) -> (r: String)
        ensures
            ({
                match *self {
                    CreateNewProposalKeyboard::Title(s) => r@ == spec_toggle_text(
                        s@,
                        DraftField::Title.label(),
                    ),
                    CreateNewProposalKeyboard::Description(s) => r@ == spec_toggle_text(
                        s@,
                        DraftField::Description.label(),
                    ),
                    CreateNewProposalKeyboard::StartingDate(s) => r@ == spec_toggle_text(
                        s@,
                        DraftField::StartingDate.label(),
                    ),
                    CreateNewProposalKeyboard::ExpirationDate(s) => r@ == spec_toggle_text(
                        s@,
                        DraftField::ExpirationDate.label(),
                    ),
                    CreateNewProposalKeyboard::MainMenu => r@ == "MainMenu"@,
                    CreateNewProposalKeyboard::Close => r@ == "Close"@,
                    CreateNewProposalKeyboard::SubmitProposal(_) => r@ == "SubmitProposal"@,
                }
            }),
    {
        match *self {
            Self::Title(text) => self.toggle_text(text, DraftField::Title.label_str()),
            Self::Description(text) => self.toggle_text(text, DraftField::Description.label_str()),
            Self::StartingDate(text) => self.toggle_text(
                text,
                DraftField::StartingDate.label_str(),
            ),
            Self::ExpirationDate(text) => self.toggle_text(
                text,
                DraftField::ExpirationDate.label_str(),
            ),
            Self::MainMenu => String::from_str("MainMenu"),
            Self::Close => String::from_str("Close"),
            Self::SubmitProposal(_) => String::from_str("SubmitProposal"),
        }
    }

    /// Decorates `default` where `current` still shows it, and returns the
    /// canonical `default` otherwise.
    pub fn toggle_text(&self, current: &str, default: &str) -> (r: String)
        ensures
            r@ == spec_toggle_text(current@, default@),
    {
        if str_eq(current, default) {
            add_emoji(default)
        } else {
            default.to_owned()
        }
    }
}

/// The label a field button toggles to: decorated where the current label
/// is still the canonical one, canonical otherwise.
pub open spec fn spec_toggle_text(current: Seq<char>, default: Seq<char>) -> Seq<char> {
    if current == default {
        spec_add_emoji(default)
    } else {
        default
    }
}

/// The label shows the field as completed (it differs from the canonical
/// label).
pub fn is_decorated(field: DraftField, label: &str) -> (r: bool)
    ensures
        r == (label@ != field.label()),
{
    !str_eq(label, field.label_str())
}

/// Decoration law: decorating a canonical field label always changes it,
/// so a decorated label reads as decorated and a canonical one never does;
/// and toggling a canonical label yields exactly the decorated form.
pub proof fn lemma_decoration(f: DraftField)
    ensures
        spec_add_emoji(f.label()) != f.label(),
        spec_toggle_text(f.label(), f.label()) == spec_add_emoji(f.label()),
{
    lemma_labels_distinct();
}

/// Press identity: a field button names the same field whether it shows
/// its canonical or its decorated label — toggling changes only the
/// rendered text, never what pressing the button does.
pub proof fn lemma_press_identity()
    ensures
        forall|f: DraftField| #[trigger] matched_field(f.label()) == Option::Some(f),
        forall|f: DraftField| #[trigger] matched_field(spec_add_emoji(f.label())) == Option::Some(
            f,
        ),
{
    lemma_labels_distinct();
    reveal_strlit("Title");
    reveal_strlit("Description");
    reveal_strlit("Starting Date");
    reveal_strlit("Expiration Date");
    reveal_strlit("\u{2705}");
    reveal_strlit("\u{2705} ");
    assert("Title"@.len() == 5 && "Description"@.len() == 11 && "Starting Date"@.len() == 13
        && "Expiration Date"@.len() == 15);
    assert("\u{2705}"@.len() == 1 && "\u{2705} "@.len() == 2);
    assert("Title"@[0] == 'T' && "Description"@[0] == 'D' && "Starting Date"@[0] == 'S'
        && "Expiration Date"@[0] == 'E');
    assert("\u{2705}"@[0] == '\u{2705}' && "\u{2705} "@[0] == '\u{2705}');
    // a decorated label starts with the marker glyph, never a letter
    assert forall|f: DraftField, g: DraftField| #[trigger] spec_add_emoji(f.label())
        != #[trigger] g.label() by {
        assert(spec_add_emoji(f.label())[0] == '\u{2705}');
        assert(g.label()[0] != '\u{2705}') by {
            match g {
                DraftField::Title => {}
                DraftField::Description => {}
                DraftField::StartingDate => {}
                DraftField::ExpirationDate => {}
            }
        }
    }
    // the four decorated labels all have different lengths
    assert(spec_add_emoji(DraftField::Title.label()).len() == 7);
    assert(spec_add_emoji(DraftField::Description.label()).len() == 13);
    assert(spec_add_emoji(DraftField::StartingDate.label()).len() == 15);
    assert(spec_add_emoji(DraftField::ExpirationDate.label()).len() == 16);
    assert forall|f: DraftField, g: DraftField| f != g implies #[trigger] spec_add_emoji(f.label())
        != #[trigger] spec_add_emoji(g.label()) by {
        match f {
            DraftField::Title => {
                match g {
                    DraftField::Title => {}
                    DraftField::Description => {}
                    DraftField::StartingDate => {}
                    DraftField::ExpirationDate => {}
                }
            }
            DraftField::Description => {
                match g {
                    DraftField::Title => {}
                    DraftField::Description => {}
                    DraftField::StartingDate => {}
                    DraftField::ExpirationDate => {}
                }
            }
            DraftField::StartingDate => {
                match g {
                    DraftField::Title => {}
                    DraftField::Description => {}
                    DraftField::StartingDate => {}
                    DraftField::ExpirationDate => {}
                }
            }
            DraftField::ExpirationDate => {
                match g {
                    DraftField::Title => {}
                    DraftField::Description => {}
                    DraftField::StartingDate => {}
                    DraftField::ExpirationDate => {}
                }
            }
        }
    }
    assert forall|f: DraftField| #[trigger] matched_field(f.label()) == Option::Some(f)
        && #[trigger] matched_field(spec_add_emoji(f.label())) == Option::Some(f) by {
        match f {
            DraftField::Title => {}
            DraftField::Description => {}
            DraftField::StartingDate => {}
            DraftField::ExpirationDate => {}
        }
    }
}

/// The button at `(row, 0)` of a fresh draft keyboard, for each field row.
pub open spec fn field_button(f: DraftField, done: bool) -> ButtonV {
    if done {
        ButtonV { text: spec_add_emoji(f.label()), data: spec_add_emoji(f.label()) }
    } else {
        ButtonV { text: f.label(), data: f.label() }
    }
}

/// The submit button of the draft keyboard.
pub open spec fn submit_button(done: bool) -> ButtonV {
    if done {
        ButtonV {
            text: spec_add_emoji(submit_proposal_label()),
            data: spec_add_emoji(submit_proposal_label()),
        }
    } else {
        ButtonV { text: submit_proposal_label(), data: submit_proposal_label() }
    }
}

/// The draft-authoring keyboard: a menu row, one row per field (decorated
/// where the flag says the field is done), and a submit row, which shares
/// the expiration date's flag.
pub open spec fn spec_new_proposal_keyboard(
    title: bool,
    description: bool,
    starting_date: bool,
    expiration_date: bool,
) -> Seq<Seq<ButtonV>> {
    seq![
        seq![
            ButtonV { text: spec_add_emoji(main_menu_label()), data: main_menu_label() },
            ButtonV { text: spec_add_emoji(close_label()), data: close_label() },
        ],
        seq![field_button(DraftField::Title, title)],
        seq![field_button(DraftField::Description, description)],
        seq![field_button(DraftField::StartingDate, starting_date)],
        seq![field_button(DraftField::ExpirationDate, expiration_date)],
        seq![submit_button(expiration_date)],
    ]
}

/// Every draft-authoring keyboard has a single button at each field's row,
/// whatever the completion flags: a field-completion transition always
/// finds the button it is to decorate.
pub proof fn lemma_new_proposal_keyboard_has_field_rows(
    title: bool,
    description: bool,
    starting_date: bool,
    expiration_date: bool,
)
    ensures
        spec_new_proposal_keyboard(title, description, starting_date, expiration_date).len() == 6,
        forall|f: DraftField|
            #![auto]
            0 <= f.row() < 6 && spec_new_proposal_keyboard(
                title,
                description,
                starting_date,
                expiration_date,
            )[f.row()].len() == 1,
{
    let kb = spec_new_proposal_keyboard(title, description, starting_date, expiration_date);
    assert(kb[1].len() == 1 && kb[2].len() == 1 && kb[3].len() == 1 && kb[4].len() == 1);
    assert forall|f: DraftField| #![auto] 0 <= f.row() < 6 && kb[f.row()].len() == 1 by {
        match f {
            DraftField::Title => {}
            DraftField::Description => {}
            DraftField::StartingDate => {}
            DraftField::ExpirationDate => {}
        }
    }
}

/// One field row's single button.
fn make_field_button(f: DraftField, done: bool) -> (b: Button)
    ensures
        b@ == field_button(f, done),
{
    if done {
        let d = add_emoji(f.label_str());
        let d2 = d.clone();
        Button { text: d, data: d2 }
    } else {
        Button { text: f.label_str().to_owned(), data: f.label_str().to_owned() }
    }
}

/// Builds the six fixed rows of the draft-authoring keyboard.
fn create_buy_keyboard(
    title: bool,
    description: bool,
    starting_date: bool,
    expiration_date: bool,
) -> (kb: Keyboard)
    ensures
        kb@ == spec_new_proposal_keyboard(title, description, starting_date, expiration_date),
{
    let mut rows: Vec<Vec<Button>> = Vec::new();

    let mut row0: Vec<Button> = Vec::new();
    let mm = add_emoji(main_menu_str());
    row0.push(callback_button(mm.as_str(), main_menu_str()));
    let cl = add_emoji(close_str());
    row0.push(callback_button(cl.as_str(), close_str()));
    rows.push(row0);

    let mut row1: Vec<Button> = Vec::new();
    row1.push(make_field_button(DraftField::Title, title));
    rows.push(row1);

    let mut row2: Vec<Button> = Vec::new();
    row2.push(make_field_button(DraftField::Description, description));
    rows.push(row2);

    let mut row3: Vec<Button> = Vec::new();
    row3.push(make_field_button(DraftField::StartingDate, starting_date));
    rows.push(row3);

    let mut row4: Vec<Button> = Vec::new();
    row4.push(make_field_button(DraftField::ExpirationDate, expiration_date));
    rows.push(row4);

    let mut row5: Vec<Button> = Vec::new();
    if expiration_date {
        let d = add_emoji(submit_proposal_str());
        let d2 = d.clone();
        row5.push(Button { text: d, data: d2 });
    } else {
        row5.push(callback_button(submit_proposal_str(), submit_proposal_str()));
    }
    rows.push(row5);

    let kb = Keyboard { rows };
    proof {
        let target = spec_new_proposal_keyboard(title, description, starting_date, expiration_date);
        assert forall|i: int| 0 <= i < kb@.len() implies kb@[i] == target[i] by {
            assert(kb@[i] == kb.rows@[i]@.map_values(|b: Button| b@));
            assert(kb@[i] =~= target[i]);
        }
        assert(kb@ =~= target);
    }
    kb
}

/// The draft-authoring keyboard with the given completion flags.
pub fn new_proporsal_keyboard(
    title: bool,
    description: bool,
    starting_date: bool,
    expiration_date: bool,
) -> (kb: Keyboard)
    ensures
        kb@ == spec_new_proposal_keyboard(title, description, starting_date, expiration_date),
{
    create_buy_keyboard(title, description, starting_date, expiration_date)
}

} // verus!
