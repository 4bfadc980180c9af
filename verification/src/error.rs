//! The error type shared by the whole library.

use vstd::prelude::*;
use vstd::string::StringExecFns;

verus! {

/// What can go wrong while a page is put together or a sample is taken.
#[derive(Debug)]
pub enum BlogError {
    /// A template could not be rendered.
    TemplateError(String),
    /// Something that was asked for does not exist.
    MissingContent(String),
    /// Reading from the host failed.
    IOError(String),
}

/// The text that `{:?}` prints for a string: the string in double quotes,
/// with the characters that need it escaped.
pub uninterp spec fn debug_quoted(text: Seq<char>) -> Seq<char>;

/// `format!("{:?}", text)`, std's `Debug` rendering of a `str`.
#[verifier::external_body]
fn debug_text(text: &str) -> (out: String)
    ensures
        out@ == debug_quoted(text@),
{
    format!("{:?}", text)
}

/// The prefix that introduces each kind of error in its message.
pub open spec fn label(error: BlogError) -> Seq<char> {
    match error {
        BlogError::TemplateError(_) => "Template Error: "@,
        BlogError::MissingContent(_) => "Missing content: "@,
        BlogError::IOError(_) => "I/O Error: "@,
    }
}

impl BlogError {
    /// The detail that the error carries.
    pub open spec fn detail(self) -> Seq<char> {
        match self {
            BlogError::TemplateError(text) => text@,
            BlogError::MissingContent(text) => text@,
            BlogError::IOError(text) => text@,
        }
    }

    /// The message shown for the error: its label, then its detail in quotes.
    pub open spec fn spec_message(self) -> Seq<char> {
        label(self) + debug_quoted(self.detail())
    }

    /// The detail that the error carries.
    pub fn text(&self) -> (text: &str)
        ensures
            text@ == self.detail(),
    {
        match self {
            BlogError::TemplateError(text) => text.as_str(),
            BlogError::MissingContent(text) => text.as_str(),
            BlogError::IOError(text) => text.as_str(),
        }
    }

    /// The error's label, followed by `quoted`.
    pub fn labelled(&self, quoted: &str) -> (out: String)
        ensures
            out@ == label(*self) + quoted@,
    {
        let head = match self {
            BlogError::TemplateError(_) => "Template Error: ",
            BlogError::MissingContent(_) => "Missing content: ",
            BlogError::IOError(_) => "I/O Error: ",
        };
        String::from_str(head).concat(quoted)
    }

    /// Renders the error as a line of text.
    pub fn message(&self) -> (out: String)
        ensures
            out@ == self.spec_message(),
    {
        let quoted = debug_text(self.text());
        self.labelled(quoted.as_str())
    }
}

} // verus!
