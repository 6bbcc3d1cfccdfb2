//! The ways in which a run can fail.

use vstd::prelude::*;
use crate::text::{chars_of, push_str, string_of};

verus! {

/// A failure, with what is needed to tell the user about it.
#[derive(Clone, Debug, PartialEq, Eq)]
pub enum Failure {
    /// A malformed argument; holds the complaint.
    InvalidArgument(String),
    /// A file that was named does not exist; holds its path.
    FileNotFound(String),
    /// Malformed delimited text; holds the reader's complaint.
    ParseError(String),
    /// A source without columns; holds the complaint.
    SchemaError(String),
    /// A table of this name is in the store already; holds the name.
    DuplicateTable(String),
    /// Tables were to be read from standard input, and nothing was piped.
    MissingStdinData,
    /// The query compiler rejected the query; holds its complaint.
    CompileError(String),
    /// The engine rejected a statement; holds its complaint.
    ExecutionError(String),
    /// Reading or writing failed; holds the complaint.
    IoError(String),
}

/// The mathematical value of an [`Failure`].
pub enum FailureView {
    InvalidArgument(Seq<char>),
    FileNotFound(Seq<char>),
    ParseError(Seq<char>),
    SchemaError(Seq<char>),
    DuplicateTable(Seq<char>),
    MissingStdinData,
    CompileError(Seq<char>),
    ExecutionError(Seq<char>),
    IoError(Seq<char>),
}

impl View for Failure {
    type V = FailureView;

    open spec fn view(&self) -> FailureView {
        match *self {
            Failure::InvalidArgument(m) => FailureView::InvalidArgument(m@),
            Failure::FileNotFound(p) => FailureView::FileNotFound(p@),
            Failure::ParseError(m) => FailureView::ParseError(m@),
            Failure::SchemaError(m) => FailureView::SchemaError(m@),
            Failure::DuplicateTable(n) => FailureView::DuplicateTable(n@),
            Failure::MissingStdinData => FailureView::MissingStdinData,
            Failure::CompileError(m) => FailureView::CompileError(m@),
            Failure::ExecutionError(m) => FailureView::ExecutionError(m@),
            Failure::IoError(m) => FailureView::IoError(m@),
        }
    }
}

impl DeepView for Failure {
    type V = FailureView;

    open spec fn deep_view(&self) -> FailureView {
        self@
    }
}

impl FailureView {
    /// The message for the user.
    pub open spec fn message(self) -> Seq<char> {
        match self {
            FailureView::InvalidArgument(m) => m,
            FailureView::FileNotFound(p) => "File not found: "@ + p,
            FailureView::ParseError(m) => m,
            FailureView::SchemaError(m) => m,
            FailureView::DuplicateTable(n) => "Table already exists: "@ + n,
            FailureView::MissingStdinData => "Stdin tables specified, but no data received from stdin"@,
            FailureView::CompileError(m) => m,
            FailureView::ExecutionError(m) => m,
            FailureView::IoError(m) => m,
        }
    }
}

fn prefixed(prefix: &str, rest: &str) -> (out: String)
    ensures
        out@ == prefix@ + rest@,
{
    let mut out: Vec<char> = chars_of(prefix);
    push_str(&mut out, rest);
    string_of(&out)
}

impl Failure {
    /// The message for the user.
    pub fn message(&self) -> (text: String)
        ensures
            text@ == self@.message(),
    {
        match self {
            Failure::InvalidArgument(m) => m.clone(),
            Failure::FileNotFound(p) => prefixed("File not found: ", p.as_str()),
            Failure::ParseError(m) => m.clone(),
            Failure::SchemaError(m) => m.clone(),
            Failure::DuplicateTable(n) => prefixed("Table already exists: ", n.as_str()),
            Failure::MissingStdinData => "Stdin tables specified, but no data received from stdin".to_owned(),
            Failure::CompileError(m) => m.clone(),
            Failure::ExecutionError(m) => m.clone(),
            Failure::IoError(m) => m.clone(),
        }
    }
}

} // verus!
