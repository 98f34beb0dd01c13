//! The error type shared by the whole library.

use crate::domain::things::text::{is_acceptable, violation, TextViolation};
use crate::domain::things::ThingContent;
use vstd::prelude::*;
use vstd::string::StringExecFns;

verus! {

/// Status code of a response that blames the request.
pub const BAD_REQUEST: u16 = 400;

/// Status code of a response that blames the service.
pub const INTERNAL_SERVER_ERROR: u16 = 500;

/// A required slot of a record.
#[derive(Clone, Copy, Debug, PartialEq, Eq, Structural)]
pub enum Field {
    Id,
    Name,
    CreatedAt,
    UpdatedAt,
}

impl Field {
    /// What is said when the slot is found empty.
    pub open spec fn complaint(self) -> Seq<char> {
        match self {
            Field::Id => "No Uuid provided"@,
            Field::Name => "No name provided"@,
            Field::CreatedAt => "No created_at date provided"@,
            Field::UpdatedAt => "No updated_at date provided"@,
        }
    }

    /// What is said when the slot is found empty.
    pub fn message(&self) -> (s: &'static str)
        ensures
            s@ == self.complaint(),
    {
        match self {
            Field::Id => "No Uuid provided",
            Field::Name => "No name provided",
            Field::CreatedAt => "No created_at date provided",
            Field::UpdatedAt => "No updated_at date provided",
        }
    }
}

/// Everything that can go wrong inside the library.
#[derive(Debug, PartialEq, Eq)]
pub enum Error {
    /// A free-form failure reported by a collaborator.
    Generic(String),
    /// The text offered as a name broke a validation rule.
    ThingNameValidationError { name: String, violation: TextViolation },
    /// The text offered as a description broke a validation rule.
    ThingDescriptionValidationError { description: String, violation: TextViolation },
    /// A builder was finalised while a required slot was empty.
    MissingField(Field),
    /// A timestamp could not be turned into a time-ordered identifier.
    IdentifierGeneration,
    /// No thing is stored under the requested id.
    ThingUnknownId,
    /// No thing is stored under the requested name.
    ThingUnknownName,
    /// A query lacked a required parameter.
    ParameterMissing,
}

impl Error {
    /// The error says that `text` is no name: it echoes the text and names
    /// the first rule that the text breaks.
    pub open spec fn rejects_name(self, text: Seq<char>) -> bool {
        &&& self matches Error::ThingNameValidationError { name, violation: broken }
        &&& name@ == text
        &&& violation(text) == Some(broken)
    }

    /// The error says that `text` is no description: it echoes the text and
    /// names the first rule that the text breaks.
    pub open spec fn rejects_description(self, text: Seq<char>) -> bool {
        &&& self matches Error::ThingDescriptionValidationError { description, violation: broken }
        &&& description@ == text
        &&& violation(text) == Some(broken)
    }

    /// The error is the one that validating `content` gives: it rejects the
    /// name, or else, the name being acceptable, the description.
    pub open spec fn rejects_content(self, content: ThingContent) -> bool {
        if is_acceptable(content.name) {
            content.description matches Some(text) && self.rejects_description(text)
        } else {
            self.rejects_name(content.name)
        }
    }

    /// The error blames the caller: a text that did not validate, an
    /// incomplete builder, or a thing that is not there.
    pub open spec fn blames_request(self) -> bool {
        ||| self is ThingNameValidationError
        ||| self is ThingDescriptionValidationError
        ||| self is MissingField
        ||| self is ThingUnknownId
        ||| self is ThingUnknownName
    }

    /// The error in words.
    pub open spec fn text(self) -> Seq<char> {
        match self {
            Error::Generic(message) => "Generic error: "@ + message@,
            Error::ThingNameValidationError { name, .. } => name@ + " is not a valid thing name."@,
            Error::ThingDescriptionValidationError { description, .. } => description@
                + " is not a valid thing description."@,
            Error::MissingField(field) => "Static error: "@ + field.complaint(),
            Error::IdentifierGeneration => "The timestamp cannot be turned into an identifier."@,
            Error::ThingUnknownId => "There is no Thing associated with the provided id."@,
            Error::ThingUnknownName => "There is no Thing associated with the provided name."@,
            Error::ParameterMissing => "Parameter missing from query."@,
        }
    }

    /// Says the error in words.
    pub fn message(&self) -> (s: String)
        ensures
            s@ == self.text(),
    {
        match self {
            Error::Generic(message) => {
                let mut s = "Generic error: ".to_owned();
                s.append(message.as_str());
                s
            },
            Error::ThingNameValidationError { name, .. } => {
                let mut s = name.clone();
                s.append(" is not a valid thing name.");
                s
            },
            Error::ThingDescriptionValidationError { description, .. } => {
                let mut s = description.clone();
                s.append(" is not a valid thing description.");
                s
            },
            Error::MissingField(field) => {
                let mut s = "Static error: ".to_owned();
                s.append(field.message());
                s
            },
            Error::IdentifierGeneration => {
                "The timestamp cannot be turned into an identifier.".to_owned()
            },
            Error::ThingUnknownId => {
                "There is no Thing associated with the provided id.".to_owned()
            },
            Error::ThingUnknownName => {
                "There is no Thing associated with the provided name.".to_owned()
            },
            Error::ParameterMissing => "Parameter missing from query.".to_owned(),
        }
    }

    /// The status code of the response that reports the error:
    /// [`BAD_REQUEST`] where the request is to blame, otherwise
    /// [`INTERNAL_SERVER_ERROR`].
    pub fn status_code(&self) -> (code: u16)
        ensures
            code == if self.blames_request() {
                BAD_REQUEST
            } else {
                INTERNAL_SERVER_ERROR
            },
    {
        match self {
            Error::ThingNameValidationError { .. } => BAD_REQUEST,
            Error::ThingDescriptionValidationError { .. } => BAD_REQUEST,
            Error::MissingField(_) => BAD_REQUEST,
            Error::ThingUnknownId => BAD_REQUEST,
            Error::ThingUnknownName => BAD_REQUEST,
            _ => INTERNAL_SERVER_ERROR,
        }
    }
}

} // verus!
