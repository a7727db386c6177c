//! The dialogue state machine: the per-chat conversation states, the
//! field-prompt transition, and what one free-text reply does to the
//! stored draft.

use vstd::prelude::*;
use vstd::string::StringExecFns;

use crate::fields::DraftField;
use crate::keyboards::{add_emoji, set_button, spec_add_emoji, ButtonV, Keyboard};
use crate::lines::filled_field;
use crate::messages::parse_message;
use crate::storage::{ProposalMenuStorage, TgMessage, TgMessageStorage};

verus! {

/// The per-chat conversation state.  `StartTitlePrompt` is the initial
/// (idle) state; each `…Received` state waits for the free-text value of
/// one field.
#[derive(Clone, Copy, Debug, Default, PartialEq, Eq, Structural)]
pub enum DialogueState {
    #[default]
    StartTitlePrompt,
    TitleReceived,
    DescriptionReceived,
    StartingDateReceived,
    ExpirationDateReceived,
}

/// The state that waits for `f`'s value.
pub open spec fn spec_field_state(f: DraftField) -> DialogueState {
    match f {
        DraftField::Title => DialogueState::TitleReceived,
        DraftField::Description => DialogueState::DescriptionReceived,
        DraftField::StartingDate => DialogueState::StartingDateReceived,
        DraftField::ExpirationDate => DialogueState::ExpirationDateReceived,
    }
}

/// The field whose value the state waits for, if any.
pub open spec fn spec_awaited_field(s: DialogueState) -> Option<DraftField> {
    match s {
        DialogueState::StartTitlePrompt => Option::None,
        DialogueState::TitleReceived => Option::Some(DraftField::Title),
        DialogueState::DescriptionReceived => Option::Some(DraftField::Description),
        DialogueState::StartingDateReceived => Option::Some(DraftField::StartingDate),
        DialogueState::ExpirationDateReceived => Option::Some(DraftField::ExpirationDate),
    }
}

pub fn field_state(f: DraftField) -> (s: DialogueState)
    ensures
        s == spec_field_state(f),
{
    match f {
        DraftField::Title => DialogueState::TitleReceived,
        DraftField::Description => DialogueState::DescriptionReceived,
        DraftField::StartingDate => DialogueState::StartingDateReceived,
        DraftField::ExpirationDate => DialogueState::ExpirationDateReceived,
    }
}

pub fn awaited_field(s: &DialogueState) -> (f: Option<DraftField>)
    ensures
        f == spec_awaited_field(*s),
{
    match s {
        DialogueState::StartTitlePrompt => None,
        DialogueState::TitleReceived => Some(DraftField::Title),
        DialogueState::DescriptionReceived => Some(DraftField::Description),
        DialogueState::StartingDateReceived => Some(DraftField::StartingDate),
        DialogueState::ExpirationDateReceived => Some(DraftField::ExpirationDate),
    }
}

/// State linearity: each field button arms exactly its own `…Received`
/// state — the map from field to state is injective, never idle, and the
/// armed state waits for exactly the field that armed it.
pub proof fn lemma_state_linearity()
    ensures
        forall|f: DraftField| spec_awaited_field(#[trigger] spec_field_state(f)) == Option::Some(f),
        forall|f: DraftField, g: DraftField|
            f != g ==> #[trigger] spec_field_state(f) != #[trigger] spec_field_state(g),
        forall|f: DraftField| #[trigger] spec_field_state(f) != DialogueState::StartTitlePrompt,
{
}

/// The draft keyboard after completing `f`: the button at `(f.row(), 0)`
/// decorated, every other button untouched; the keyboard unchanged where
/// that position does not exist.
pub open spec fn spec_decorated_keyboard(kb: Seq<Seq<ButtonV>>, f: DraftField) -> Seq<
    Seq<ButtonV>,
> {
    if f.row() < kb.len() && kb[f.row()].len() > 0 {
        kb.update(
            f.row(),
            kb[f.row()].update(
                0,
                ButtonV { text: spec_add_emoji(f.label()), data: spec_add_emoji(f.label()) },
            ),
        )
    } else {
        kb
    }
}

/// Completing a field never changes the keyboard's shape: the row count
/// and every row's length stay as they were.  With
/// `lemma_new_proposal_keyboard_has_field_rows` this keeps every field's
/// button in reach however many fields have been completed before.
pub proof fn lemma_decorated_keyboard_keeps_shape(kb: Seq<Seq<ButtonV>>, f: DraftField)
    ensures
        spec_decorated_keyboard(kb, f).len() == kb.len(),
        forall|i: int|
            0 <= i < kb.len() ==> #[trigger] spec_decorated_keyboard(kb, f)[i].len()
                == kb[i].len(),
{
}

/// Single-button mutation: the keyboard a field-completion transition
/// leaves behind differs from the stored one in exactly the completed
/// field's button, which now shows the decorated label; every other button
/// of every row is the very button it was before.
pub proof fn lemma_reply_changes_one_button(kb: Seq<Seq<ButtonV>>, f: DraftField)
    requires
        f.row() < kb.len(),
        kb[f.row()].len() > 0,
    ensures
        ({
            let kb2 = spec_decorated_keyboard(kb, f);
            &&& kb2.len() == kb.len()
            &&& forall|i: int| 0 <= i < kb.len() ==> #[trigger] kb2[i].len() == kb[i].len()
            &&& kb2[f.row()][0].text == spec_add_emoji(f.label())
            &&& kb2[f.row()][0].data == spec_add_emoji(f.label())
            &&& forall|i: int, j: int|
                0 <= i < kb.len() && 0 <= j < kb[i].len() && !(i == f.row() && j == 0)
                    ==> #[trigger] kb2[i][j] == kb[i][j]
        }),
{
    crate::keyboards::lemma_single_button_mutation(
        kb,
        f.row(),
        ButtonV { text: spec_add_emoji(f.label()), data: spec_add_emoji(f.label()) },
    );
}

/// What the engine decides to do with one inbound reply while a field's
/// value is awaited.
pub enum FieldReplyOutcome {
    /// The reply was not plain text: ask for plain text and stay in the
    /// same state.
    AskPlainText,
    /// No draft is on record for the key: log and change nothing.
    MissingDraft,
    /// The stored draft carries no keyboard: fail as a transport error,
    /// changing nothing.
    MissingKeyboard,
    /// Edit the draft message in place and leave the conversation.
    EditDraft {
        /// The captured draft's chat: the edit targets the very message
        /// identity the conversation was initialized with.
        chat_id: i64,
        /// The captured draft's message: the other half of that identity.
        message_id: i32,
        /// The draft body with the field's value filled in.
        text: String,
        /// The draft keyboard with the field's button decorated.
        keyboard: Keyboard,
        /// The chat the reply arrived in, where the cleanup sweep runs.
        reply_chat_id: i64,
        /// The reply message, where the cleanup of prompt and reply starts.
        reply_id: i32,
    },
}

/// Applies one inbound reply to the conversation awaiting `field`'s value:
/// a non-text reply asks for plain text; with no stored draft nothing
/// happens; otherwise the stored draft body gets the reply as `field`'s
/// value, the field's button is decorated, and the draft message is edited
/// in place.  The edit targets the message identity captured when the
/// conversation was armed — the stored draft's own chat and message —
/// whatever chat the reply arrived in; only the cleanup sweep follows the
/// reply.
pub fn receive_field_reply(
    registry: &ProposalMenuStorage,
    key: &str,
    field: DraftField,
    reply_chat_id: i64,
    reply_message_id: i32,
    reply_text: Option<&str>,
) -> (r: FieldReplyOutcome)
    ensures
        ({
            let c = registry.contents();
            match r {
                FieldReplyOutcome::AskPlainText => reply_text is None,
                FieldReplyOutcome::MissingDraft => reply_text is Some && !c.contains_key(key@),
                FieldReplyOutcome::MissingKeyboard => reply_text is Some && c.contains_key(key@)
                    && c[key@].keyboard is None,
                FieldReplyOutcome::EditDraft {
                    chat_id,
                    message_id,
                    text,
                    keyboard,
                    reply_chat_id: rchat,
                    reply_id,
                } => {
                    &&& reply_text matches Option::Some(v)
                    &&& c.contains_key(key@)
                    &&& c[key@].keyboard matches Option::Some(kb)
                    &&& chat_id == c[key@].chat_id
                    &&& message_id == c[key@].message_id
                    &&& rchat == reply_chat_id
                    &&& reply_id == reply_message_id
                    &&& reply_text matches Option::Some(v) ==> text@ == filled_field(
                        c[key@].text@,
                        field.prefix(),
                        v@,
                    )
                    &&& c[key@].keyboard matches Option::Some(kb) ==> keyboard@
                        == spec_decorated_keyboard(kb@, field)
                },
            }
        }),
{
    let text = match reply_text {
        Some(t) => t,
        None => {
            return FieldReplyOutcome::AskPlainText;
        },
    };
    let menu = match registry.get(key.to_owned()) {
        Some(m) => m,
        None => {
            return FieldReplyOutcome::MissingDraft;
        },
    };
    let keyboard = match menu.keyboard {
        Some(kb) => kb,
        None => {
            return FieldReplyOutcome::MissingKeyboard;
        },
    };
    let new_body = match field {
        DraftField::Title => parse_message(menu.text.as_str(), Some(text), None, None, None),
        DraftField::Description => parse_message(menu.text.as_str(), None, Some(text), None, None),
        DraftField::StartingDate => parse_message(menu.text.as_str(), None, None, Some(text), None),
        DraftField::ExpirationDate => parse_message(
            menu.text.as_str(),
            None,
            None,
            None,
            Some(text),
        ),
    };
    let mut new_keyboard = keyboard;
    let decorated = add_emoji(field.label_str());
    set_button(&mut new_keyboard, field.row_index(), decorated.as_str());
    FieldReplyOutcome::EditDraft {
        chat_id: menu.chat_id,
        message_id: menu.message_id,
        text: new_body,
        keyboard: new_keyboard,
        reply_chat_id,
        reply_id: reply_message_id,
    }
}

/// The conversation state after one reply: an in-place edit ends the
/// conversation (back to idle); every other outcome leaves the state as it
/// was.
pub fn reply_next_state(current: &DialogueState, outcome: &FieldReplyOutcome) -> (s: Option<
    DialogueState,
>)
    ensures
        match outcome {
            FieldReplyOutcome::EditDraft { .. } => s is None,
            _ => s == Option::Some(*current),
        },
{
    match outcome {
        FieldReplyOutcome::EditDraft { .. } => None,
        _ => Some(*current),
    }
}

/// One field button pressed: records the pressed message as the user's
/// open draft (where the press carries a user name) and arms the field's
/// state, handing back the field's prompt.
pub fn handle_proposal_fields(
    registry: &mut ProposalMenuStorage,
    user_name: Option<&str>,
    message: TgMessage,
    field: DraftField,
) -> (r: (String, DialogueState))
    ensures
        r.0@ == field.prompt(),
        r.1 == spec_field_state(field),
        match user_name {
            Option::Some(u) => final(registry).contents() == old(registry).contents().insert(
                u@,
                message,
            ),
            Option::None => final(registry).contents() == old(registry).contents(),
        },
{
    if let Some(u) = user_name {
        registry.insert(u.to_owned(), message);
    }
    (field.prompt_str().to_owned(), field_state(field))
}

} // verus!
