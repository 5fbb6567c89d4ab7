//! Errors of the library.
use vstd::prelude::*;

use crate::github::GithubClientErrorBody;

verus! {

/// What went wrong in a sprint operation.
#[derive(Debug)]
pub enum Error {
    /// Input from the operator that cannot be used; asking again may help.
    User { description: String },
    /// Settings that are missing or invalid.
    Settings { description: String },
    /// A client that could not be configured.
    Config { description: String },
    /// A response from a remote API that was not expected.
    Api { description: String, status: u16 },
    /// A client error that the issue tracker explained.
    Github { error: GithubClientErrorBody, status: u16 },
    /// A URL that does not parse.
    Url { source: url::ParseError },
    /// Something that the remote side left out, or that should not happen.
    Unknown { description: String },
}

/// What a response's status code says of it.
#[derive(Clone, Copy, Debug, PartialEq, Eq, Structural)]
pub enum ResponseClass {
    /// 2xx: the body holds what was asked for.
    Success,
    /// 4xx: the body explains what the client got wrong.
    ClientError,
    /// Anything else.
    Unexpected,
}

/// Classifies a response by its status code.
pub fn response_class(status: u16) -> (r: ResponseClass)
    ensures
        200 <= status <= 299 ==> r == ResponseClass::Success,
        400 <= status <= 499 ==> r == ResponseClass::ClientError,
        !(200 <= status <= 299 || 400 <= status <= 499) ==> r == ResponseClass::Unexpected,
{
    if 200 <= status && status <= 299 {
        ResponseClass::Success
    } else if 400 <= status && status <= 499 {
        ResponseClass::ClientError
    } else {
        ResponseClass::Unexpected
    }
}

/// The error for a response whose status code was not expected.
pub fn unexpected_status(status: u16) -> (r: Error)
    ensures
        r matches Error::Api { description, status: s } && s == status && description@
            == "Unexpected response status code."@,
{
    Error::Api { description: "Unexpected response status code.".to_owned(), status }
}

} // verus!
