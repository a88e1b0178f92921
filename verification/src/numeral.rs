//! JSON numbers that are carried through without being computed with.

use crate::json::{json_model, Json, JsonNumber};
use serde_json::Value;
use vstd::prelude::*;

verus! {

/// A JSON number, kept exactly as the service wrote it.
///
/// The client only passes such numbers on, so it never needs to round them
/// into a machine type; a caller that wants to compute takes the document
/// from [`Numeral::as_json`].
#[derive(Debug, PartialEq)]
pub struct Numeral {
    value: Value,
}

impl View for Numeral {
    type V = JsonNumber;

    closed spec fn view(&self) -> JsonNumber {
        json_model(self.value)->Number_0
    }
}

impl Clone for Numeral {
    fn clone(&self) -> (copy: Self)
        ensures
            copy@ == self@,
    {
        proof {
            use_type_invariant(self);
        }
        Numeral { value: self.value.clone() }
    }
}

impl Numeral {
    #[verifier::type_invariant]
    spec fn is_number(self) -> bool {
        json_model(self.value) is Number
    }

    /// Takes a copy of `value` if it is a number.
    pub fn from_json(value: &Value) -> (numeral: Option<Numeral>)
        ensures
            match numeral {
                Some(numeral) => json_model(*value) == Json::Number(numeral@),
                None => !(json_model(*value) is Number),
            },
    {
        if value.is_number() {
            Some(Numeral { value: value.clone() })
        } else {
            None
        }
    }

    /// The number as a JSON document.
    pub fn as_json(&self) -> (value: &Value)
        ensures
            json_model(*value) == Json::Number(self@),
    {
        proof {
            use_type_invariant(self);
        }
        &self.value
    }
}

} // verus!
