//! A circle, given by its centerpoint and a radius in kilometers, to which
//! some calls can be restricted.

use crate::coordinate::{lemma_coordinate_has_one_comma, Coordinate, CoordinateView};
use crate::decimal::{
    commas, is_decimal, is_decimal_text, lemma_decimal_has_no_comma, lemma_occurrences_add,
    lemma_occurrences_of_one,
};
use vstd::prelude::*;
use vstd::string::*;

verus! {

/// A circle made of a centerpoint, which is a coordinate, and a radius in
/// kilometers. The radius is held in decimal notation, like the numbers of a
/// coordinate.
#[derive(Debug, Clone)]
pub struct Circle<'a> {
    /// The coordinates of the centerpoint
    pub centerpoint: &'a Coordinate,
    /// The radius in kilometers
    pub radius: String,
}

/// What a `Circle` stands for.
pub struct CircleView {
    pub centerpoint: CoordinateView,
    pub radius: Seq<char>,
}

impl CircleView {
    /// The circle as `<latitude>,<longitude>,<radius>`.
    pub open spec fn text(self) -> Seq<char> {
        self.centerpoint.text() + seq![','] + self.radius
    }
}

impl CircleView {
    /// The centerpoint is well-formed and the radius is in decimal notation.
    pub open spec fn well_formed(self) -> bool {
        self.centerpoint.well_formed() && is_decimal(self.radius)
    }
}

/// The text of a well-formed circle holds exactly two commas, so it reads as
/// three numbers.
pub proof fn lemma_circle_has_two_commas(circle: CircleView)
    requires
        circle.well_formed(),
    ensures
        commas(circle.text()) == 2,
{
    lemma_coordinate_has_one_comma(circle.centerpoint);
    lemma_decimal_has_no_comma(circle.radius);
    lemma_occurrences_of_one(',', ',');
    lemma_occurrences_add(circle.centerpoint.text(), seq![','], ',');
    lemma_occurrences_add(circle.centerpoint.text() + seq![','], circle.radius, ',');
}

impl View for Circle<'_> {
    type V = CircleView;

    open spec fn view(&self) -> CircleView {
        CircleView { centerpoint: self.centerpoint@, radius: self.radius@ }
    }
}

impl Circle<'_> {
    /// Whether the numbers of the centerpoint and the radius are in decimal
    /// notation.
    pub fn is_well_formed(&self) -> (result: bool)
        ensures
            result == self@.well_formed(),
    {
        self.centerpoint.is_well_formed() && is_decimal_text(self.radius.as_str())
    }

    /// Returns the circle as a string in the form
    /// `"<latitude>,<longitude>,<radius>"`.
    pub fn to_string(&self) -> (result: String)
        ensures
            result@ == self@.text(),
    {
        proof {
            reveal_strlit(",");
            assert(","@ == seq![',']);
        }
        let mut result = self.centerpoint.to_string();
        result.append(",");
        result.append(self.radius.as_str());
        result
    }
}

} // verus!
