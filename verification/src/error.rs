//! The error type that every fallible operation of the library returns.

use vstd::prelude::*;
use vstd::string::*;
use crate::text::concat;

verus! {

/// What can go wrong when the `ddev` tool is run on the user's behalf.
#[derive(Clone, Debug, PartialEq, Eq)]
pub enum DdevError {
    /// The tool ran and reported a failure, or the request could not be served.
    CommandFailed(String),
    /// The tool's output was not in the expected shape.
    ParseError(String),
    /// The tool could not be found.
    NotInstalled,
    /// The operating system refused an operation.
    IoError(String),
}

/// A `DdevError` with its texts as character sequences.
pub enum DdevErrorView {
    CommandFailed(Seq<char>),
    ParseError(Seq<char>),
    NotInstalled,
    IoError(Seq<char>),
}

impl View for DdevError {
    type V = DdevErrorView;

    open spec fn view(&self) -> DdevErrorView {
        match self {
            DdevError::CommandFailed(m) => DdevErrorView::CommandFailed(m@),
            DdevError::ParseError(m) => DdevErrorView::ParseError(m@),
            DdevError::NotInstalled => DdevErrorView::NotInstalled,
            DdevError::IoError(m) => DdevErrorView::IoError(m@),
        }
    }
}

/// The text under which an error is shown to the user.
pub open spec fn error_message(e: DdevErrorView) -> Seq<char> {
    match e {
        DdevErrorView::CommandFailed(m) => "DDEV command failed: "@ + m,
        DdevErrorView::ParseError(m) => "Failed to parse DDEV output: "@ + m,
        DdevErrorView::NotInstalled => "DDEV is not installed or not in PATH"@,
        DdevErrorView::IoError(m) => "IO error: "@ + m,
    }
}

impl DdevError {
    /// The text under which this error is shown to the user.
    pub fn message(&self) -> (text: String)
        ensures
            text@ == error_message(self@),
    {
        match self {
            DdevError::CommandFailed(m) => concat("DDEV command failed: ", m.as_str()),
            DdevError::ParseError(m) => concat("Failed to parse DDEV output: ", m.as_str()),
            DdevError::NotInstalled => String::from_str("DDEV is not installed or not in PATH"),
            DdevError::IoError(m) => concat("IO error: ", m.as_str()),
        }
    }
}

} // verus!
