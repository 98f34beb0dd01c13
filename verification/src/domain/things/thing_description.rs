//! The description of a thing.

use crate::domain::things::text::{is_acceptable, is_white_space, validate};
use crate::error::Error;
use vstd::pervasive::unreached;
use vstd::prelude::*;

verus! {

/// A description that passed validation. The only ways to obtain one are
/// [`ThingDescription::parse`] and the default value, so every
/// `ThingDescription` holds an acceptable text.
///
/// Descriptions follow the same rules as names, and are a type of their own
/// all the same: a description cannot stand where a name is wanted, nor a
/// name where a description is.
#[derive(Debug, PartialEq, Eq)]
pub struct ThingDescription(String);

impl View for ThingDescription {
    type V = Seq<char>;

    closed spec fn view(&self) -> Seq<char> {
        self.0@
    }
}

impl ThingDescription {
    #[verifier::type_invariant]
    spec fn holds_acceptable_text(&self) -> bool {
        is_acceptable(self.0@)
    }

    /// Validates `description` and wraps it unchanged, or reports the rule
    /// it broke together with the rejected text.
    pub fn parse(description: &str) -> (r: Result<ThingDescription, Error>)
        ensures
            match r {
                Ok(parsed) => is_acceptable(description@) && parsed@ == description@,
                Err(e) => e.rejects_description(description@),
            },
    {
        match validate(description) {
            None => Ok(ThingDescription(description.to_owned())),
            Some(broken) => Err(
                Error::ThingDescriptionValidationError {
                    description: description.to_owned(),
                    violation: broken,
                },
            ),
        }
    }

    /// The validated text.
    pub fn as_ref(&self) -> (s: &str)
        ensures
            s@ == self@,
            is_acceptable(s@),
    {
        proof {
            use_type_invariant(self);
        }
        self.0.as_str()
    }
}

impl Clone for ThingDescription {
    fn clone(&self) -> (r: Self)
        ensures
            r == *self,
    {
        proof {
            use_type_invariant(self);
        }
        ThingDescription(self.0.clone())
    }
}

impl Default for ThingDescription {
    /// The description used where none was given: `No description provided...`.
    fn default() -> (r: Self)
        ensures
            r@ == "No description provided..."@,
    {
        let text = "No description provided...";
        proof {
            reveal_strlit("No description provided...");
            assert(!is_white_space(text@[0]));
        }
        match validate(text) {
            None => ThingDescription(text.to_owned()),
            Some(_) => unreached(),
        }
    }
}

} // verus!
