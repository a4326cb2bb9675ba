//! Sampling parameters: real numbers as JSON carries them.
use crate::json::{same_float, same_number, Json, JsonView, NumberView};
use crate::json_text::{copy_number, number_model, number_to_float};
use serde_json::Number;
use vstd::prelude::*;

verus! {

/// A finite real number, held as the JSON float that it is written as.
pub struct Real {
    number: Number,
}

impl View for Real {
    type V = Seq<char>;

    closed spec fn view(&self) -> Seq<char> {
        number_model(self.number)->Float_0
    }
}

impl Real {
    #[verifier::type_invariant]
    closed spec fn is_float(self) -> bool {
        number_model(self.number) is Float
    }

    /// The real of a JSON number; an integer becomes the nearest float.
    pub fn new(number: &Number) -> (r: Real)
        ensures
            r@ == number_model(*number).as_float(),
    {
        let number = number_to_float(number);
        Real { number }
    }

    pub fn copy(&self) -> (r: Real)
        ensures
            r@ == self@,
    {
        proof {
            use_type_invariant(self);
        }
        let number = copy_number(&self.number);
        Real { number }
    }

    /// The JSON number that the real is written as.
    pub fn json(&self) -> (r: Json)
        ensures
            r@ == JsonView::Number(NumberView::Float(self@)),
    {
        broadcast use crate::json::lemma_model;

        proof {
            use_type_invariant(self);
        }
        Json::Number(copy_number(&self.number))
    }

    /// Whether two reals are the same number.
    pub fn same(&self, other: &Real) -> (r: bool)
        ensures
            r == same_float(self@, other@),
    {
        proof {
            use_type_invariant(self);
            use_type_invariant(other);
        }
        same_number(&self.number, &other.number)
    }
}

/// The view of an optional real.
pub open spec fn real_view(value: Option<Real>) -> Option<Seq<char>> {
    match value {
        Some(value) => Some(value@),
        None => None,
    }
}

pub fn copy_real(value: &Option<Real>) -> (r: Option<Real>)
    ensures
        real_view(r) == real_view(*value),
{
    match value {
        Some(value) => Some(value.copy()),
        None => None,
    }
}

} // verus!
