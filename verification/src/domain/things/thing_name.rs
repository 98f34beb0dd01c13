//! The name of a thing.

use crate::domain::things::text::{is_acceptable, is_white_space, validate};
use crate::error::Error;
use vstd::pervasive::unreached;
use vstd::prelude::*;

verus! {

/// A name that passed validation. The only ways to obtain one are
/// [`ThingName::parse`] and the default value, so every `ThingName` holds an
/// acceptable text.
///
/// Names follow the same rules as descriptions, and are a type of their own
/// all the same: a name cannot stand where a description is wanted, nor a
/// description where a name is.
#[derive(Debug, PartialEq, Eq)]
pub struct ThingName(String);

impl View for ThingName {
    type V = Seq<char>;

    closed spec fn view(&self) -> Seq<char> {
        self.0@
    }
}

impl ThingName {
    #[verifier::type_invariant]
    spec fn holds_acceptable_text(&self) -> bool {
        is_acceptable(self.0@)
    }

    /// Validates `name` and wraps it unchanged, or reports the rule it broke
    /// together with the rejected text.
    pub fn parse(name: &str) -> (r: Result<ThingName, Error>)
        ensures
            match r {
                Ok(parsed) => is_acceptable(name@) && parsed@ == name@,
                Err(e) => e.rejects_name(name@),
            },
    {
        match validate(name) {
            None => Ok(ThingName(name.to_owned())),
            Some(broken) => Err(
                Error::ThingNameValidationError { name: name.to_owned(), violation: broken },
            ),
        }
    }

    /// The validated text.
    pub fn as_ref(&self) -> (s: &str)
        ensures
            s@ == self@,
            is_acceptable(s@),
    {
        proof {
            use_type_invariant(self);
        }
        self.0.as_str()
    }
}

impl Clone for ThingName {
    fn clone(&self) -> (r: Self)
        ensures
            r == *self,
    {
        proof {
            use_type_invariant(self);
        }
        ThingName(self.0.clone())
    }
}

impl Default for ThingName {
    /// The name used where none was chosen: `No Name`.
    fn default() -> (r: Self)
        ensures
            r@ == "No Name"@,
    {
        let text = "No Name";
        proof {
            reveal_strlit("No Name");
            assert(!is_white_space(text@[0]));
        }
        match validate(text) {
            None => ThingName(text.to_owned()),
            Some(_) => unreached(),
        }
    }
}

} // verus!
