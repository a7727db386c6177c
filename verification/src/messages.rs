//! Message bodies: the welcome text, the draft template, and the template
//! engine that fills and reads the draft's fields.

use vstd::prelude::*;
use vstd::string::StringExecFns;

use crate::fields::{lemma_field_prefixes, DraftField};
use crate::lines::{
    filled_field, has_field, lemma_has_field_filled, lemma_not_prefix_first_char,
    lemma_parse_filled_other, lemma_parse_filled_same, lemma_read_line, lemma_skip_line,
    no_newline, parsed_field, read_field, starts_with, write_field,
};

verus! {

/// The welcome text shown with the main menu.
pub open spec fn welcome_text() -> Seq<char> {
    "ZuzaRule: Crowdsourced Governance at Your Fingertips\nOur platform is where community consensus builds the foundation of collaboration\nStay updated, propose changes, and have a direct hand in sculpting the environment you participate in, all within your Telegram group\nEmbrace the power of collective decision making with ZuzaRule"@
}

/// The empty draft template: a header line, then one line per field with a
/// blank value.
pub open spec fn proposal_template() -> Seq<char> {
    "Create your proposal below:\nTitle: \nDescription: \nStarting Date: \nExpiration Date: \n"@
}

pub fn get_welcome_message() -> (r: String)
    ensures
        r@ == welcome_text(),
{
    String::from_str(
        "ZuzaRule: Crowdsourced Governance at Your Fingertips\nOur platform is where community consensus builds the foundation of collaboration\nStay updated, propose changes, and have a direct hand in sculpting the environment you participate in, all within your Telegram group\nEmbrace the power of collective decision making with ZuzaRule",
    )
}

pub fn get_new_proposal_message() -> (r: String)
    ensures
        r@ == proposal_template(),
{
    String::from_str(
        "Create your proposal below:\nTitle: \nDescription: \nStarting Date: \nExpiration Date: \n",
    )
}

/// `s` with `f`'s value replaced by `v` where one is supplied, `s` itself
/// where none is.
pub open spec fn filled_opt(s: Seq<char>, f: DraftField, v: Option<Seq<char>>) -> Seq<char> {
    match v {
        Option::Some(x) => filled_field(s, f.prefix(), x),
        Option::None => s,
    }
}

/// The body that results from filling each supplied field value into `m`,
/// in field order.
pub open spec fn spec_parse_message(
    m: Seq<char>,
    title: Option<Seq<char>>,
    description: Option<Seq<char>>,
    starting_date: Option<Seq<char>>,
    expiration_date: Option<Seq<char>>,
) -> Seq<char> {
    filled_opt(
        filled_opt(
            filled_opt(filled_opt(m, DraftField::Title, title), DraftField::Description, description),
            DraftField::StartingDate,
            starting_date,
        ),
        DraftField::ExpirationDate,
        expiration_date,
    )
}

/// Fills the supplied field values into the draft body `msg`, leaving the
/// other lines untouched.
pub fn parse_message(
    msg: &str,
    title: Option<&str>,
    description: Option<&str>,
    starting_date: Option<&str>,
    expiration_date: Option<&str>,
) -> (r: String)
    ensures
        r@ == spec_parse_message(
            msg@,
            title.deep_view(),
            description.deep_view(),
            starting_date.deep_view(),
            expiration_date.deep_view(),
        ),
{
    let mut m = msg.to_owned();
    if let Some(v) = title {
        let p = DraftField::Title.prefix_string();
        m = write_field(m.as_str(), p.as_str(), v);
    }
    if let Some(v) = description {
        let p = DraftField::Description.prefix_string();
        m = write_field(m.as_str(), p.as_str(), v);
    }
    if let Some(v) = starting_date {
        let p = DraftField::StartingDate.prefix_string();
        m = write_field(m.as_str(), p.as_str(), v);
    }
    if let Some(v) = expiration_date {
        let p = DraftField::ExpirationDate.prefix_string();
        m = write_field(m.as_str(), p.as_str(), v);
    }
    m
}

/// Reads the current value of `field` out of a draft body.
pub fn extract_field(text: &str, field: DraftField) -> (r: String)
    ensures
        r@ == parsed_field(text@, field.prefix()),
{
    let p = field.prefix_string();
    read_field(text, p.as_str())
}

/// Every field is present in the empty template, with an empty value.
pub proof fn lemma_template_fields()
    ensures
        forall|f: DraftField| has_field(proposal_template(), #[trigger] f.prefix()),
        forall|f: DraftField|
            parsed_field(proposal_template(), #[trigger] f.prefix()) == Seq::<char>::empty(),
{
    let t = proposal_template();
    reveal_strlit(
        "Create your proposal below:\nTitle: \nDescription: \nStarting Date: \nExpiration Date: \n",
    );
    reveal_strlit("Title");
    reveal_strlit("Description");
    reveal_strlit("Starting Date");
    reveal_strlit("Expiration Date");
    reveal_strlit(": ");
    lemma_field_prefixes();
    let pt = DraftField::Title.prefix();
    let pd = DraftField::Description.prefix();
    let ps = DraftField::StartingDate.prefix();
    let pe = DraftField::ExpirationDate.prefix();
    assert(t.len() == 84);
    assert(forall|i: int| 0 <= i < 27 ==> t[i] != '\n');
    assert(t[27] == '\n');
    assert(forall|i: int| 28 <= i < 35 ==> t[i] != '\n');
    assert(t[35] == '\n');
    assert(forall|i: int| 36 <= i < 49 ==> t[i] != '\n');
    assert(t[49] == '\n');
    assert(forall|i: int| 50 <= i < 65 ==> t[i] != '\n');
    assert(t[65] == '\n');
    assert(forall|i: int| 66 <= i < 83 ==> t[i] != '\n');
    assert(t[83] == '\n');
    let r1 = t.subrange(28, 84);
    let r2 = t.subrange(36, 84);
    let r3 = t.subrange(50, 84);
    let r4 = t.subrange(66, 84);
    assert(pt[0] == "Title"@[0] && pd[0] == "Description"@[0] && ps[0] == "Starting Date"@[0]
        && pe[0] == "Expiration Date"@[0]);
    // how each prefix sits on its own line
    assert(r1.subrange(0, 7) =~= pt) by {
        assert forall|i: int| 0 <= i < 7 implies r1[i] == pt[i] by {
            assert(r1[i] == t[28 + i]);
            if i < 5 {
                assert(pt[i] == "Title"@[i]);
            } else {
                assert(pt[i] == ": "@[i - 5]);
            }
        }
    }
    assert(starts_with(r1, pt));
    assert(r2.subrange(0, 13) =~= pd) by {
        assert forall|i: int| 0 <= i < 13 implies r2[i] == pd[i] by {
            assert(r2[i] == t[36 + i]);
            if i < 11 {
                assert(pd[i] == "Description"@[i]);
            } else {
                assert(pd[i] == ": "@[i - 11]);
            }
        }
    }
    assert(starts_with(r2, pd));
    assert(r3.subrange(0, 15) =~= ps) by {
        assert forall|i: int| 0 <= i < 15 implies r3[i] == ps[i] by {
            assert(r3[i] == t[50 + i]);
            if i < 13 {
                assert(ps[i] == "Starting Date"@[i]);
            } else {
                assert(ps[i] == ": "@[i - 13]);
            }
        }
    }
    assert(starts_with(r3, ps));
    assert(r4.subrange(0, 17) =~= pe) by {
        assert forall|i: int| 0 <= i < 17 implies r4[i] == pe[i] by {
            assert(r4[i] == t[66 + i]);
            if i < 15 {
                assert(pe[i] == "Expiration Date"@[i]);
            } else {
                assert(pe[i] == ": "@[i - 15]);
            }
        }
    }
    assert(starts_with(r4, pe));
    // walk to the Title line
    lemma_not_prefix_first_char(t, pt);
    lemma_skip_line(t, 27, pt);
    lemma_read_line(r1, pt, 7);
    assert(r1.subrange(7, 7) =~= Seq::<char>::empty());
    // walk to the Description line
    lemma_not_prefix_first_char(t, pd);
    lemma_skip_line(t, 27, pd);
    lemma_not_prefix_first_char(r1, pd);
    lemma_skip_line(r1, 7, pd);
    assert(r1.subrange(8, 56) =~= r2);
    lemma_read_line(r2, pd, 13);
    assert(r2.subrange(13, 13) =~= Seq::<char>::empty());
    // walk to the Starting Date line
    lemma_not_prefix_first_char(t, ps);
    lemma_skip_line(t, 27, ps);
    lemma_not_prefix_first_char(r1, ps);
    lemma_skip_line(r1, 7, ps);
    lemma_not_prefix_first_char(r2, ps);
    lemma_skip_line(r2, 13, ps);
    assert(r2.subrange(14, 48) =~= r3);
    lemma_read_line(r3, ps, 15);
    assert(r3.subrange(15, 15) =~= Seq::<char>::empty());
    // walk to the Expiration Date line
    lemma_not_prefix_first_char(t, pe);
    lemma_skip_line(t, 27, pe);
    lemma_not_prefix_first_char(r1, pe);
    lemma_skip_line(r1, 7, pe);
    lemma_not_prefix_first_char(r2, pe);
    lemma_skip_line(r2, 13, pe);
    lemma_not_prefix_first_char(r3, pe);
    lemma_skip_line(r3, 15, pe);
    assert(r3.subrange(16, 34) =~= r4);
    lemma_read_line(r4, pe, 17);
    assert(r4.subrange(17, 17) =~= Seq::<char>::empty());
    assert forall|f: DraftField| has_field(proposal_template(), #[trigger] f.prefix())
        && parsed_field(proposal_template(), f.prefix()) == Seq::<char>::empty() by {
        match f {
            DraftField::Title => {}
            DraftField::Description => {}
            DraftField::StartingDate => {}
            DraftField::ExpirationDate => {}
        }
    }
}

/// The value read back for `f` after a sequence of fills, where `v` was
/// the value filled for `f` itself (or nothing).
pub open spec fn round_trip_value(v: Option<Seq<char>>) -> Seq<char> {
    match v {
        Option::Some(x) => x,
        Option::None => Seq::<char>::empty(),
    }
}

/// A supplied value contains no line break.
pub open spec fn single_line_opt(v: Option<Seq<char>>) -> bool {
    match v {
        Option::Some(x) => no_newline(x),
        Option::None => true,
    }
}

/// Round trip: filling any subset of single-line field values into the
/// empty template and reading each field back yields exactly the supplied
/// values; fields that were not supplied read back as the empty string.
pub proof fn lemma_template_round_trip(
    title: Option<Seq<char>>,
    description: Option<Seq<char>>,
    starting_date: Option<Seq<char>>,
    expiration_date: Option<Seq<char>>,
)
    requires
        single_line_opt(title),
        single_line_opt(description),
        single_line_opt(starting_date),
        single_line_opt(expiration_date),
    ensures
        ({
            let m = spec_parse_message(
                proposal_template(),
                title,
                description,
                starting_date,
                expiration_date,
            );
            &&& parsed_field(m, DraftField::Title.prefix()) == round_trip_value(title)
            &&& parsed_field(m, DraftField::Description.prefix()) == round_trip_value(description)
            &&& parsed_field(m, DraftField::StartingDate.prefix()) == round_trip_value(
                starting_date,
            )
            &&& parsed_field(m, DraftField::ExpirationDate.prefix()) == round_trip_value(
                expiration_date,
            )
        }),
{
    lemma_field_prefixes();
    lemma_template_fields();
    let m0 = proposal_template();
    let m1 = filled_opt(m0, DraftField::Title, title);
    let m2 = filled_opt(m1, DraftField::Description, description);
    let m3 = filled_opt(m2, DraftField::StartingDate, starting_date);
    let m4 = filled_opt(m3, DraftField::ExpirationDate, expiration_date);
    let pt = DraftField::Title.prefix();
    let pd = DraftField::Description.prefix();
    let ps = DraftField::StartingDate.prefix();
    let pe = DraftField::ExpirationDate.prefix();
    // fill the Title
    if let Some(x) = title {
        lemma_parse_filled_same(m0, pt, x);
        lemma_parse_filled_other(m0, pt, pd, x);
        lemma_parse_filled_other(m0, pt, ps, x);
        lemma_parse_filled_other(m0, pt, pe, x);
        lemma_has_field_filled(m0, pt, pd, x);
        lemma_has_field_filled(m0, pt, ps, x);
        lemma_has_field_filled(m0, pt, pe, x);
    }
    assert(parsed_field(m1, pt) == round_trip_value(title));
    assert(parsed_field(m1, pd) == Seq::<char>::empty());
    assert(parsed_field(m1, ps) == Seq::<char>::empty());
    assert(parsed_field(m1, pe) == Seq::<char>::empty());
    assert(has_field(m1, pd) && has_field(m1, ps) && has_field(m1, pe));
    // fill the Description
    if let Some(x) = description {
        lemma_parse_filled_same(m1, pd, x);
        lemma_parse_filled_other(m1, pd, pt, x);
        lemma_parse_filled_other(m1, pd, ps, x);
        lemma_parse_filled_other(m1, pd, pe, x);
        lemma_has_field_filled(m1, pd, ps, x);
        lemma_has_field_filled(m1, pd, pe, x);
    }
    assert(parsed_field(m2, pt) == round_trip_value(title));
    assert(parsed_field(m2, pd) == round_trip_value(description));
    assert(parsed_field(m2, ps) == Seq::<char>::empty());
    assert(parsed_field(m2, pe) == Seq::<char>::empty());
    assert(has_field(m2, ps) && has_field(m2, pe));
    // fill the Starting Date
    if let Some(x) = starting_date {
        lemma_parse_filled_same(m2, ps, x);
        lemma_parse_filled_other(m2, ps, pt, x);
        lemma_parse_filled_other(m2, ps, pd, x);
        lemma_parse_filled_other(m2, ps, pe, x);
        lemma_has_field_filled(m2, ps, pe, x);
    }
    assert(parsed_field(m3, pt) == round_trip_value(title));
    assert(parsed_field(m3, pd) == round_trip_value(description));
    assert(parsed_field(m3, ps) == round_trip_value(starting_date));
    assert(parsed_field(m3, pe) == Seq::<char>::empty());
    assert(has_field(m3, pe));
    // fill the Expiration Date
    if let Some(x) = expiration_date {
        lemma_parse_filled_same(m3, pe, x);
        lemma_parse_filled_other(m3, pe, pt, x);
        lemma_parse_filled_other(m3, pe, pd, x);
        lemma_parse_filled_other(m3, pe, ps, x);
    }
    assert(parsed_field(m4, pt) == round_trip_value(title));
    assert(parsed_field(m4, pd) == round_trip_value(description));
    assert(parsed_field(m4, ps) == round_trip_value(starting_date));
    assert(parsed_field(m4, pe) == round_trip_value(expiration_date));
}

} // verus!
