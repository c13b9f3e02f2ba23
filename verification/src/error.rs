//! The library's error type.

use vstd::prelude::*;
use vstd::std_specs::convert::FromSpecImpl;
use crate::text::join;

verus! {

/// What a call into this library can fail with.
#[derive(Debug)]
pub enum Error {
    /// A JSON document could not be written or read; the text is the
    /// message of the failure.
    Serde(String),
    /// The backend refused, could not be reached, or answered with something
    /// that could not be read.
    Provider(String),
    /// A tool's own run failed; the text is the tool's.
    Tool(String),
    /// Any other failure, as text.
    String(String),
}

/// An `Error` as plain values.
pub enum ErrorView {
    Serde(Seq<char>),
    Provider(Seq<char>),
    Tool(Seq<char>),
    String(Seq<char>),
}

impl ErrorView {
    /// The text that the error carries, without the name of its kind.
    pub open spec fn detail(self) -> Seq<char> {
        match self {
            ErrorView::Serde(s) => s,
            ErrorView::Provider(s) => s,
            ErrorView::Tool(s) => s,
            ErrorView::String(s) => s,
        }
    }

    /// What the kind of the error is called in its message.
    pub open spec fn label(self) -> Seq<char> {
        match self {
            ErrorView::Serde(_) => "Serde error: "@,
            ErrorView::Provider(_) => "Provider error: "@,
            ErrorView::Tool(_) => "Tool error: "@,
            ErrorView::String(_) => "String error: "@,
        }
    }

    /// The error's message: its kind, then its text.
    pub open spec fn text(self) -> Seq<char> {
        self.label() + self.detail()
    }

    /// The provider error that carries this error's whole message.
    pub open spec fn wrapped(self) -> ErrorView {
        ErrorView::Provider(self.text())
    }
}

impl View for Error {
    type V = ErrorView;

    open spec fn view(&self) -> ErrorView {
        match self {
            Error::Serde(s) => ErrorView::Serde(s@),
            Error::Provider(s) => ErrorView::Provider(s@),
            Error::Tool(s) => ErrorView::Tool(s@),
            Error::String(s) => ErrorView::String(s@),
        }
    }
}

/// A result with both sides as plain values.
pub open spec fn result_view<T: View>(r: Result<T, Error>) -> Result<T::V, ErrorView> {
    match r {
        Ok(value) => Ok(value@),
        Err(e) => Err(e@),
    }
}

impl Error {
    /// Writes the error's message.
    pub fn to_string(&self) -> (message: String)
        ensures
            message@ == self@.text(),
    {
        match self {
            Error::Serde(s) => join("Serde error: ", s.as_str()),
            Error::Provider(s) => join("Provider error: ", s.as_str()),
            Error::Tool(s) => join("Tool error: ", s.as_str()),
            Error::String(s) => join("String error: ", s.as_str()),
        }
    }

    /// Wraps the error's whole message into a provider error, so that a
    /// caller sees one kind of failure for everything that went wrong between
    /// sending a request and reading its answer.
    pub fn into_provider(self) -> (wrapped: Error)
        ensures
            wrapped@ == self@.wrapped(),
    {
        Error::Provider(self.to_string())
    }
}

impl From<String> for Error {
    fn from(s: String) -> (e: Error) {
        Error::String(s)
    }
}

impl FromSpecImpl<String> for Error {
    open spec fn obeys_from_spec() -> bool {
        true
    }

    open spec fn from_spec(s: String) -> Error {
        Error::String(s)
    }
}

} // verus!
