//! The error type shared by the codecs and by the apply operator.

use vstd::prelude::*;
use vstd::string::*;

verus! {

/// Every failure this library reports to its caller.
#[derive(Debug)]
pub enum ErrorKind {
    /// A codec could not encode a diff or decode a buffer, or a decoded diff
    /// does not fit the value it was to be applied to. The text describes the
    /// cause and is meant for people, not for programs.
    SerializationError(String),
}

/// What `{:?}` prints for a string: the text between double quotes, with
/// quotes, backslashes and unprintable characters escaped.
pub uninterp spec fn debug_quoted(text: Seq<char>) -> Seq<char>;

/// Formats `text` with std's `Debug` implementation for `str`. The contract
/// only gives the outcome a name: the escaping rules are std's and are not
/// restated here.
#[verifier::external_body]
fn debug_format(text: &str) -> (quoted: String)
    ensures
        quoted@ == debug_quoted(text@),
{
    format!("{:?}", text)
}

impl ErrorKind {
    /// The description carried by the error.
    pub open spec fn description(&self) -> Seq<char> {
        match self {
            ErrorKind::SerializationError(text) => text@,
        }
    }

    /// The line shown for this error: a fixed lead followed by the
    /// description as `{:?}` prints it.
    pub open spec fn displayed(&self) -> Seq<char> {
        "Serialization error occurred: "@ + debug_quoted(self.description())
    }

    /// Renders the error for display.
    pub fn to_string(&self) -> (line: String)
        ensures
            line@ == self.displayed(),
    {
        match self {
            ErrorKind::SerializationError(text) => {
                let mut line = "Serialization error occurred: ".to_owned();
                let quoted = debug_format(text.as_str());
                line.append(quoted.as_str());
                line
            },
        }
    }
}

} // verus!
