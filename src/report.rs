//! What the user is shown when a command fails.

use vstd::prelude::*;

use crate::artifact::{text_of, Artifact};
use crate::catalog::ColorKey;

verus! {

/// How a command invocation went wrong.
#[derive(Clone, Debug, PartialEq, Eq)]
pub enum CommandFailure {
    /// The command returned an error with this message.
    Error(String),
    /// The command panicked; what it carried is not shown.
    Panic,
    /// Anything else, left to the framework's own handling.
    Other,
}

/// What the user reads after a panic.
pub open spec fn fatal_text() -> Seq<char> {
    "A *fatal* error occured. We can't show you the details, because it might contain sensitive information, but it has been logged for the developers to look at."@
}

/// The embed that reports `failure` privately to the user, or `None` where the
/// framework's own handling applies.
pub fn failure_report(failure: CommandFailure) -> (r: Option<Artifact>)
    ensures
        failure is Error ==> (r matches Some(a) && text_of(a.title) == Some("Error"@)
            && a.description == Some(failure->Error_0) && a.url is None && a.color == Some(
            ColorKey::Red,
        )),
        failure is Panic ==> (r matches Some(a) && text_of(a.title) == Some("Fatal Error"@)
            && text_of(a.description) == Some(fatal_text()) && a.url is None && a.color == Some(
            ColorKey::Red,
        )),
        failure is Other ==> r is None,
{
    match failure {
        CommandFailure::Error(message) => Some(
            Artifact {
                title: Some(String::from_str("Error")),
                description: Some(message),
                url: None,
                color: Some(ColorKey::Red),
            },
        ),
        CommandFailure::Panic => Some(
            Artifact {
                title: Some(String::from_str("Fatal Error")),
                description: Some(
                    String::from_str(
                        "A *fatal* error occured. We can't show you the details, because it might contain sensitive information, but it has been logged for the developers to look at.",
                    ),
                ),
                url: None,
                color: Some(ColorKey::Red),
            },
        ),
        CommandFailure::Other => None,
    }
}

} // verus!
