//! The error taxonomy of handler resolution.

use vstd::prelude::*;

verus! {

/// The mathematical image of an [`Error`] value.
pub enum ErrorView {
    NotFound(Seq<char>),
    InvalidPattern(Seq<char>),
}

/// What can go wrong while resolving a handler.
///
/// `NotFound` carries the identifier that could not be resolved: a
/// candidate path or URL that no pattern handler matched, or an
/// application name absent from the registry. `InvalidPattern` carries
/// the diagnostic for a pattern string that failed to compile; it is
/// raised at construction time, never at match time.
#[derive(Debug, PartialEq, Eq)]
pub enum Error {
    NotFound(String),
    InvalidPattern(String),
}

impl View for Error {
    type V = ErrorView;

    open spec fn view(&self) -> ErrorView {
        match self {
            Error::NotFound(id) => ErrorView::NotFound(id@),
            Error::InvalidPattern(msg) => ErrorView::InvalidPattern(msg@),
        }
    }
}

impl Error {
    /// The identifier or diagnostic the error carries, for presentation.
    pub fn message(&self) -> (r: &String)
        ensures
            (self@ matches ErrorView::NotFound(id) ==> r@ == id),
            (self@ matches ErrorView::InvalidPattern(msg) ==> r@ == msg),
    {
        match self {
            Error::NotFound(id) => id,
            Error::InvalidPattern(msg) => msg,
        }
    }
}

} // verus!
