//! The ways in which a build ends early.

use vstd::prelude::*;

verus! {

/// Why a build was given up.
#[derive(Debug, Clone, PartialEq, Eq)]
pub enum BuildError {
    /// The configuration has no entry under this key.
    MissingKey(String),
    /// A tool ended with a failure status; the field is its command line.
    CommandFailed(String),
    /// The tool's report on the book names no page count that can be read.
    PageCountNotFound,
    /// What was typed at a prompt is no page number; the field is what was typed,
    /// without the white space around it.
    InvalidNumber(String),
    /// The pattern that finds the page count was not accepted.
    InvalidPattern,
    /// The build was told of something that it was not waiting for.
    UnexpectedEvent,
}

/// A `BuildError` with its texts as character sequences.
pub enum BuildErrorView {
    MissingKey(Seq<char>),
    CommandFailed(Seq<char>),
    PageCountNotFound,
    InvalidNumber(Seq<char>),
    InvalidPattern,
    UnexpectedEvent,
}

impl View for BuildError {
    type V = BuildErrorView;

    open spec fn view(&self) -> BuildErrorView {
        match self {
            BuildError::MissingKey(key) => BuildErrorView::MissingKey(key@),
            BuildError::CommandFailed(line) => BuildErrorView::CommandFailed(line@),
            BuildError::PageCountNotFound => BuildErrorView::PageCountNotFound,
            BuildError::InvalidNumber(text) => BuildErrorView::InvalidNumber(text@),
            BuildError::InvalidPattern => BuildErrorView::InvalidPattern,
            BuildError::UnexpectedEvent => BuildErrorView::UnexpectedEvent,
        }
    }
}

/// The sentence that tells a reader of `e`.
pub open spec fn message_text(e: BuildErrorView) -> Seq<char> {
    match e {
        BuildErrorView::MissingKey(key) => "Missing config key: "@ + key,
        BuildErrorView::CommandFailed(line) => "Command failed: "@ + line,
        BuildErrorView::PageCountNotFound => "Could not find page count"@,
        BuildErrorView::InvalidNumber(text) => "Invalid page number: "@ + text,
        BuildErrorView::InvalidPattern => "Invalid page count pattern"@,
        BuildErrorView::UnexpectedEvent => "Unexpected event"@,
    }
}

impl BuildError {
    /// The sentence that tells a reader of this error. It names the key that is
    /// missing, the command that failed or the text that is no number.
    pub fn message(&self) -> (out: String)
        ensures
            out@ == message_text(self@),
    {
        match self {
            BuildError::MissingKey(key) => String::from_str("Missing config key: ").concat(
                key.as_str(),
            ),
            BuildError::CommandFailed(line) => String::from_str("Command failed: ").concat(
                line.as_str(),
            ),
            BuildError::PageCountNotFound => String::from_str("Could not find page count"),
            BuildError::InvalidNumber(text) => String::from_str("Invalid page number: ").concat(
                text.as_str(),
            ),
            BuildError::InvalidPattern => String::from_str("Invalid page count pattern"),
            BuildError::UnexpectedEvent => String::from_str("Unexpected event"),
        }
    }
}

} // verus!
