//! Failures that a handler answers by itself.

use crate::error::BAD_REQUEST;
use vstd::prelude::*;

verus! {

/// A request that cannot be served as it stands.
#[derive(Clone, Copy, Debug, PartialEq, Eq, Structural)]
pub enum Error {
    /// No thing is stored under the requested id.
    ThingUnknownId,
    /// No thing is stored under the requested name.
    ThingUnknownName,
    /// A query lacked a required parameter.
    ParameterMissing,
}

impl Error {
    /// The failure in words.
    pub open spec fn text(self) -> Seq<char> {
        match self {
            Error::ThingUnknownId => "There is no Thing associated with the provided id."@,
            Error::ThingUnknownName => "There is no Thing associated with the provided name."@,
            Error::ParameterMissing => "Parameter missing from query."@,
        }
    }

    /// Says the failure in words.
    pub fn message(&self) -> (s: &'static str)
        ensures
            s@ == self.text(),
    {
        match self {
            Error::ThingUnknownId => "There is no Thing associated with the provided id.",
            Error::ThingUnknownName => "There is no Thing associated with the provided name.",
            Error::ParameterMissing => "Parameter missing from query.",
        }
    }

    /// The status code of the response that reports the failure. Each of
    /// them blames the request.
    pub fn status_code(&self) -> (code: u16)
        ensures
            code == BAD_REQUEST,
    {
        match self {
            Error::ThingUnknownName => BAD_REQUEST,
            Error::ThingUnknownId => BAD_REQUEST,
            Error::ParameterMissing => BAD_REQUEST,
        }
    }
}

} // verus!
