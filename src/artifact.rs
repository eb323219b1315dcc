//! The embed being composed, and the ways composing it can fail.

use vstd::prelude::*;

use crate::catalog::ColorKey;

verus! {

/// The most characters an embed's title can hold.
pub const TITLE_LIMIT: usize = 256;

/// The most characters an embed's description can hold.
pub const DESCRIPTION_LIMIT: usize = 4096;

/// A rich message under construction.
///
/// An address makes sense only beside a title, and an embed can be sent only
/// once it has a title or a description, each within its length limit.
#[derive(Clone, Debug, PartialEq, Eq)]
pub struct Artifact {
    pub title: Option<String>,
    pub description: Option<String>,
    pub url: Option<String>,
    pub color: Option<ColorKey>,
}

impl Artifact {
    /// Whether the embed holds enough to be sent.
    pub open spec fn is_complete(&self) -> bool {
        self.title is Some || self.description is Some
    }

    /// An embed with nothing in it.
    pub fn new() -> (r: Artifact)
        ensures
            r.title is None,
            r.description is None,
            r.url is None,
            r.color is None,
    {
        Artifact { title: None, description: None, url: None, color: None }
    }
}

/// An option of the embed command, as an error message names it.
#[derive(Clone, Copy, Debug, PartialEq, Eq, Hash, Structural)]
pub enum OptionName {
    Title,
    Description,
    Url,
    Color,
    /// The colour option, named for British English.
    Colour,
    Debug,
}

impl OptionName {
    /// The option's name.
    pub open spec fn text(self) -> Seq<char> {
        match self {
            OptionName::Title => "title"@,
            OptionName::Description => "description"@,
            OptionName::Url => "url"@,
            OptionName::Color => "color"@,
            OptionName::Colour => "colour"@,
            OptionName::Debug => "debug"@,
        }
    }

    /// The option's name.
    pub fn as_str(self) -> (r: &'static str)
        ensures
            r@ == self.text(),
    {
        match self {
            OptionName::Title => "title",
            OptionName::Description => "description",
            OptionName::Url => "url",
            OptionName::Color => "color",
            OptionName::Colour => "colour",
            OptionName::Debug => "debug",
        }
    }
}

/// The text of an optional string.
pub open spec fn text_of(o: Option<String>) -> Option<Seq<char>> {
    match o {
        Some(s) => Some(s@),
        None => None,
    }
}

/// Input that cannot make an embed.
#[derive(Clone, Debug, PartialEq, Eq)]
pub enum ValidationError {
    /// Neither a title nor a description was given.
    MissingTitleAndDescription,
    /// An address was given before any title.
    UrlWithoutTitle,
    /// A colour that the catalogue does not hold.
    UnknownColor(String),
    /// The option should have carried text.
    NotText(OptionName),
    /// The option should have carried a yes or no.
    NotFlag(OptionName),
    /// An option the command does not define.
    UnknownOption(String),
    /// The title is longer than `TITLE_LIMIT` characters.
    TitleTooLong,
    /// The description is longer than `DESCRIPTION_LIMIT` characters.
    DescriptionTooLong,
}

/// An interaction that the colour conversation does not expect.
#[derive(Clone, Debug, PartialEq, Eq)]
pub enum ProtocolError {
    /// A control that is not on the screen.
    UnknownComponent(String),
    /// A kind of control the conversation never shows.
    UnexpectedKind,
    /// A chosen value that is not a colour of the catalogue.
    UnknownColor(String),
    /// A selection that carries no value.
    EmptySelection,
}

/// Why composing an embed ended without one.
#[derive(Clone, Debug, PartialEq, Eq)]
pub enum Failure {
    Invalid(ValidationError),
    /// No reply to the form came within the wait.
    FormTimedOut,
    /// No interaction with the colour prompt came within the wait.
    PromptTimedOut,
    Protocol(ProtocolError),
}

/// The failure of an embed that has neither a title nor a description.
pub open spec fn incomplete() -> Failure {
    Failure::Invalid(ValidationError::MissingTitleAndDescription)
}

/// Hands `artifact` on for sending if it is complete.
pub fn emit(artifact: Artifact) -> (r: Result<Artifact, Failure>)
    ensures
        r is Ok <==> artifact.is_complete(),
        artifact.is_complete() ==> r == Ok::<Artifact, Failure>(artifact),
        !artifact.is_complete() ==> r == Err::<Artifact, Failure>(incomplete()),
{
    if artifact.title.is_some() || artifact.description.is_some() {
        Ok(artifact)
    } else {
        Err(Failure::Invalid(ValidationError::MissingTitleAndDescription))
    }
}

/// Whether an optional text is absent or holds at most `limit` characters.
pub open spec fn fits(text: Option<Seq<char>>, limit: nat) -> bool {
    match text {
        Some(t) => t.len() <= limit,
        None => true,
    }
}

/// Why an embed with this title and description cannot be sent, if it cannot:
/// first a missing title and description, then a title over its limit, then a
/// description over its limit.
pub open spec fn text_validity(title: Option<Seq<char>>, description: Option<Seq<char>>) -> Option<
    Failure,
> {
    if title is None && description is None {
        Some(incomplete())
    } else if !fits(title, TITLE_LIMIT as nat) {
        Some(Failure::Invalid(ValidationError::TitleTooLong))
    } else if !fits(description, DESCRIPTION_LIMIT as nat) {
        Some(Failure::Invalid(ValidationError::DescriptionTooLong))
    } else {
        None
    }
}

/// Why `a` cannot be sent, if it cannot.
pub open spec fn validity(a: Artifact) -> Option<Failure> {
    text_validity(text_of(a.title), text_of(a.description))
}

/// Whether an optional text is absent or holds at most `limit` characters.
fn fits_in(text: &Option<String>, limit: usize) -> (r: bool)
    ensures
        r == fits(text_of(*text), limit as nat),
{
    match text {
        Some(t) => t.as_str().unicode_len() <= limit,
        None => true,
    }
}

/// Why `a` cannot be sent, if it cannot.
pub fn validate(a: &Artifact) -> (r: Option<Failure>)
    ensures
        r == validity(*a),
{
    if a.title.is_none() && a.description.is_none() {
        Some(Failure::Invalid(ValidationError::MissingTitleAndDescription))
    } else if !fits_in(&a.title, TITLE_LIMIT) {
        Some(Failure::Invalid(ValidationError::TitleTooLong))
    } else if !fits_in(&a.description, DESCRIPTION_LIMIT) {
        Some(Failure::Invalid(ValidationError::DescriptionTooLong))
    } else {
        None
    }
}

/// `head`, then `middle`, then `tail`.
fn framed(head: &str, middle: &str, tail: &str) -> (r: String)
    ensures
        r@ == head@ + middle@ + tail@,
{
    let mut s = String::from_str(head);
    s.append(middle);
    s.append(tail);
    s
}

impl Failure {
    /// The text shown to the user for this failure.
    pub open spec fn message_text(&self) -> Seq<char> {
        match self {
            Failure::Invalid(e) => match e {
                ValidationError::MissingTitleAndDescription =>
                    "Embed must have at least a title or description"@,
                ValidationError::UrlWithoutTitle => "Embed must have title to have URL"@,
                ValidationError::UnknownColor(c) => "Got an unexpected color: "@ + c@ + ""@,
                ValidationError::NotText(n) => "Expected value of option `"@ + n.text()
                    + "` to be a string"@,
                ValidationError::NotFlag(n) => "Expected value of option `"@ + n.text()
                    + "` to be a boolean"@,
                ValidationError::UnknownOption(n) =>
                    "Received unknown or unimplemented option `"@ + n@ + "`"@,
                ValidationError::TitleTooLong => "Embed title must be at most 256 characters"@,
                ValidationError::DescriptionTooLong =>
                    "Embed description must be at most 4096 characters"@,
            },
            Failure::FormTimedOut => "Ran out of time for modal to submit"@,
            Failure::PromptTimedOut => "Ran out of time waiting for a response"@,
            Failure::Protocol(e) => match e {
                ProtocolError::UnknownComponent(id) => "Got unknown component ID `"@ + id@ + "`"@,
                ProtocolError::UnexpectedKind =>
                    "Expected component kind to be `StringSelect` or `Button`"@,
                ProtocolError::UnknownColor(v) => "Received unexpected color `"@ + v@ + "`"@,
                ProtocolError::EmptySelection => "Received a selection without a value"@,
            },
        }
    }

    /// The text shown to the user for this failure.
    pub fn message(&self) -> (r: String)
        ensures
            r@ == self.message_text(),
    {
        match self {
            Failure::Invalid(e) => match e {
                ValidationError::MissingTitleAndDescription => String::from_str(
                    "Embed must have at least a title or description",
                ),
                ValidationError::UrlWithoutTitle => String::from_str(
                    "Embed must have title to have URL",
                ),
                ValidationError::UnknownColor(c) => framed(
                    "Got an unexpected color: ",
                    c.as_str(),
                    "",
                ),
                ValidationError::NotText(n) => framed(
                    "Expected value of option `",
                    n.as_str(),
                    "` to be a string",
                ),
                ValidationError::NotFlag(n) => framed(
                    "Expected value of option `",
                    n.as_str(),
                    "` to be a boolean",
                ),
                ValidationError::UnknownOption(n) => framed(
                    "Received unknown or unimplemented option `",
                    n.as_str(),
                    "`",
                ),
                ValidationError::TitleTooLong => String::from_str(
                    "Embed title must be at most 256 characters",
                ),
                ValidationError::DescriptionTooLong => String::from_str(
                    "Embed description must be at most 4096 characters",
                ),
            },
            Failure::FormTimedOut => String::from_str("Ran out of time for modal to submit"),
            Failure::PromptTimedOut => String::from_str("Ran out of time waiting for a response"),
            Failure::Protocol(e) => match e {
                ProtocolError::UnknownComponent(id) => framed(
                    "Got unknown component ID `",
                    id.as_str(),
                    "`",
                ),
                ProtocolError::UnexpectedKind => String::from_str(
                    "Expected component kind to be `StringSelect` or `Button`",
                ),
                ProtocolError::UnknownColor(v) => framed(
                    "Received unexpected color `",
                    v.as_str(),
                    "`",
                ),
                ProtocolError::EmptySelection => String::from_str(
                    "Received a selection without a value",
                ),
            },
        }
    }
}

} // verus!
