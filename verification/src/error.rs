//! A general error: a message, or the word of another error that caused it.
use std::borrow::Cow;
use vstd::prelude::*;

verus! {

/// An error of the program.
#[derive(Debug)]
pub enum Error {
    /// Another error caused this one. Holds what that error says of itself.
    Source(String),
    /// The error is told by this message.
    Message(Cow<'static, str>),
}

/// What an [`Error`] holds.
pub enum ErrorView {
    Source(Seq<char>),
    Message(Seq<char>),
}

impl View for Error {
    type V = ErrorView;

    open spec fn view(&self) -> ErrorView {
        match self {
            Error::Source(source) => ErrorView::Source(source@),
            Error::Message(message) => ErrorView::Message(message@),
        }
    }
}

impl Error {
    /// The error with this message.
    pub fn new_with_str(message: &'static str) -> (r: Self)
        ensures
            r@ == ErrorView::Message(message@),
    {
        Error::Message(Cow::Borrowed(message))
    }

    /// The error with this message.
    pub fn new_with_string(message: String) -> (r: Self)
        ensures
            r@ == ErrorView::Message(message@),
    {
        Error::Message(Cow::Owned(message))
    }

    /// The error that `source`, the word of another error, has caused.
    pub fn new_with_source(source: String) -> (r: Self)
        ensures
            r@ == ErrorView::Source(source@),
    {
        Error::Source(source)
    }

    /// What the error says of itself. The word of its source is not part of it.
    pub fn to_string(&self) -> (r: String)
        ensures
            r@ == match self@ {
                ErrorView::Message(message) => "RepositoryError, message: "@ + message,
                ErrorView::Source(_) => "RepositoryError, caused by source error"@,
            },
    {
        match self {
            Error::Message(message) => {
                let mut r = String::from_str("RepositoryError, message: ");
                match message {
                    Cow::Borrowed(text) => r.append(text),
                    Cow::Owned(text) => r.append(text.as_str()),
                }
                r
            },
            Error::Source(_) => String::from_str("RepositoryError, caused by source error"),
        }
    }

    /// The word of the error that caused this one, if one did.
    pub fn source(&self) -> (r: Option<&str>)
        ensures
            match self@ {
                ErrorView::Source(source) => r is Some && r->0@ == source,
                ErrorView::Message(_) => r is None,
            },
    {
        match self {
            Error::Message(_) => None,
            Error::Source(source) => Some(source.as_str()),
        }
    }
}

} // verus!
