//! The errors of the library.

use crate::text::join;
use vstd::prelude::*;

verus! {

/// Why an operation failed.
#[derive(Debug)]
pub enum Error {
    /// The node found no route to the destination.
    NoRoutes(String),
    /// Any other failure, in words.
    Other(String),
}

/// An [`Error`] as mathematics sees it.
pub enum ErrorModel {
    NoRoutes(Seq<char>),
    Other(Seq<char>),
}

impl ErrorModel {
    /// The text that a user is shown.
    pub open spec fn text(self) -> Seq<char> {
        match self {
            ErrorModel::NoRoutes(e) => "Could not find any routes: "@ + e,
            ErrorModel::Other(e) => e,
        }
    }
}

impl View for Error {
    type V = ErrorModel;

    open spec fn view(&self) -> ErrorModel {
        match *self {
            Error::NoRoutes(e) => ErrorModel::NoRoutes(e@),
            Error::Other(e) => ErrorModel::Other(e@),
        }
    }
}

impl Error {
    /// The node answered `e` when it was asked for routes.
    pub fn no_routes(e: &str) -> (r: Error)
        ensures
            r@ == ErrorModel::NoRoutes(e@),
    {
        Error::NoRoutes(e.to_string())
    }

    /// A failure described by `e`.
    pub fn other(e: &str) -> (r: Error)
        ensures
            r@ == ErrorModel::Other(e@),
    {
        Error::Other(e.to_string())
    }

    /// A failure described by `context`, followed by its cause.
    pub fn caused(context: &str, cause: &str) -> (r: Error)
        ensures
            r@ == ErrorModel::Other(context@ + cause@),
    {
        Error::Other(join(context, cause))
    }

    /// The text that a user is shown.
    pub fn to_string(&self) -> (r: String)
        ensures
            r@ == self@.text(),
    {
        match self {
            Error::NoRoutes(e) => join("Could not find any routes: ", e.as_str()),
            Error::Other(e) => e.clone(),
        }
    }
}

/// An error holds the words that it was made of, under the kind that it was made as.
pub proof fn errors_hold_their_words(e: &str, cause: &str, a: Error, b: Error, c: Error)
    requires
        call_ensures(Error::no_routes, (e,), a),
        call_ensures(Error::other, (e,), b),
        call_ensures(Error::caused, (e, cause), c),
    ensures
        a matches Error::NoRoutes(words) && words@ == e@,
        b matches Error::Other(words) && words@ == e@,
        c matches Error::Other(words) && words@ == e@ + cause@,
{
}

/// A user is shown the words of an error as they are, behind a heading where no route was
/// found.
pub proof fn errors_are_shown_in_full(e: Error, r: String)
    requires
        call_ensures(Error::to_string, (&e,), r),
    ensures
        match e {
            Error::Other(words) => r@ == words@,
            Error::NoRoutes(words) => r@ == "Could not find any routes: "@ + words@,
        },
{
}

} // verus!
