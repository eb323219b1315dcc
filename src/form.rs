//! The form that collects an embed's title and description.

use vstd::prelude::*;

use crate::artifact::{text_of, Artifact, Failure, TITLE_LIMIT};
use crate::text::same_text;

verus! {

/// How a text field is drawn.
#[derive(Clone, Copy, Debug, PartialEq, Eq, Hash, Structural)]
pub enum FieldStyle {
    SingleLine,
    Paragraph,
}

/// One text field of a form.
#[derive(Clone, Copy, Debug, PartialEq, Eq)]
pub struct FormField {
    /// What the submission carries back beside the field's text.
    pub id: &'static str,
    pub label: &'static str,
    pub style: FieldStyle,
    pub required: bool,
    pub max_length: Option<usize>,
}

/// A form shown to the user.
#[derive(Clone, Debug, PartialEq, Eq)]
pub struct Form {
    pub heading: &'static str,
    pub fields: Vec<FormField>,
}

/// One field of a submitted form, as the platform hands it over.
#[derive(Clone, Debug, PartialEq, Eq)]
pub struct FieldValue {
    pub id: String,
    pub value: Option<String>,
}

/// What came back after the form was shown.
#[derive(Clone, Debug, PartialEq, Eq)]
pub enum FormEvent {
    Submitted(Vec<FieldValue>),
    /// No submission came within the wait.
    TimedOut,
}

/// The id of the title field.
pub open spec fn title_id() -> Seq<char> {
    "title"@
}

/// The id of the description field.
pub open spec fn description_id() -> Seq<char> {
    "description"@
}

/// The text submitted for the field `id`: that of its last occurrence, if it
/// is there and not empty.
pub open spec fn submitted_text(fields: Seq<FieldValue>, id: Seq<char>) -> Option<Seq<char>>
    decreases fields.len(),
{
    if fields.len() == 0 {
        None
    } else if fields.last().id@ == id {
        match fields.last().value {
            Some(v) => if v@.len() > 0 {
                Some(v@)
            } else {
                None
            },
            None => None,
        }
    } else {
        submitted_text(fields.drop_last(), id)
    }
}

/// The form that asks for an embed's title and description, both optional.
pub fn form() -> (r: Form)
    ensures
        r.heading@ == "Embed Wizard"@,
        r.fields@.len() == 2,
        r.fields@[0].id@ == title_id(),
        r.fields@[0].label@ == "Title"@,
        r.fields@[0].style == FieldStyle::SingleLine,
        !r.fields@[0].required,
        r.fields@[0].max_length == Some(TITLE_LIMIT),
        r.fields@[1].id@ == description_id(),
        r.fields@[1].label@ == "Description"@,
        r.fields@[1].style == FieldStyle::Paragraph,
        !r.fields@[1].required,
        r.fields@[1].max_length is None,
{
    let fields = vec![
        FormField {
            id: "title",
            label: "Title",
            style: FieldStyle::SingleLine,
            required: false,
            max_length: Some(TITLE_LIMIT),
        },
        FormField {
            id: "description",
            label: "Description",
            style: FieldStyle::Paragraph,
            required: false,
            max_length: None,
        },
    ];
    Form { heading: "Embed Wizard", fields }
}

/// The value of `field` if it is there and not empty.
fn present_text(field: &FieldValue) -> (r: Option<String>)
    ensures
        text_of(r) == submitted_text(seq![*field], field.id@),
{
    proof {
        assert(seq![*field].drop_last().len() == 0);
    }
    match &field.value {
        Some(v) => if v.as_str().unicode_len() > 0 {
            Some(v.clone())
        } else {
            None
        },
        None => None,
    }
}

/// The embed that a form submission starts, or the end of the conversation if
/// none came. Empty fields count as absent; whether the embed can be sent is
/// left to whoever sends it.
pub fn collect_form(event: FormEvent) -> (r: Result<Artifact, Failure>)
    ensures
        event is TimedOut ==> r == Err::<Artifact, Failure>(Failure::FormTimedOut),
        event matches FormEvent::Submitted(fields) ==> {
            &&& r matches Ok(a)
            &&& text_of(a.title) == submitted_text(fields@, title_id())
            &&& text_of(a.description) == submitted_text(fields@, description_id())
            &&& a.url is None
            &&& a.color is None
        },
{
    match event {
        FormEvent::TimedOut => Err(Failure::FormTimedOut),
        FormEvent::Submitted(fields) => {
            let mut title: Option<String> = None;
            let mut description: Option<String> = None;
            let mut i: usize = 0;
            while i < fields.len()
                invariant
                    i <= fields@.len(),
                    text_of(title) == submitted_text(fields@.subrange(0, i as int), title_id()),
                    text_of(description) == submitted_text(
                        fields@.subrange(0, i as int),
                        description_id(),
                    ),
                decreases fields@.len() - i,
            {
                let ghost seen = fields@.subrange(0, i + 1);
                proof {
                    assert(seen.drop_last() =~= fields@.subrange(0, i as int));
                    assert(seen.last() == fields@[i as int]);
                    reveal_strlit("title");
                    reveal_strlit("description");
                    assert(title_id().len() != description_id().len());
                }
                let f = &fields[i];
                if same_text(f.id.as_str(), "title") {
                    title = present_text(f);
                } else if same_text(f.id.as_str(), "description") {
                    description = present_text(f);
                }
                i += 1;
            }
            proof {
                assert(fields@.subrange(0, fields@.len() as int) =~= fields@);
            }
            Ok(Artifact { title, description, url: None, color: None })
        },
    }
}

} // verus!
