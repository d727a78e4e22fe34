//! A point on the globe, the building block of circles, bounding boxes and
//! polygons. In a query string it reads `<latitude>,<longitude>`.

use crate::decimal::{
    commas, is_decimal, is_decimal_text, lemma_decimal_has_no_comma, lemma_occurrences_add,
    lemma_occurrences_of_one,
};
use vstd::prelude::*;
use vstd::string::*;

verus! {

/// Geographical coordinates. Each number is held in decimal notation, written
/// out the way it goes into a query string (`50.12345`, `-3`).
#[derive(Debug, Clone)]
pub struct Coordinate {
    /// The latitude in degrees
    pub latitude: String,
    /// The longitude in degrees
    pub longitude: String,
}

/// What a `Coordinate` stands for: the text of its two numbers.
pub struct CoordinateView {
    pub latitude: Seq<char>,
    pub longitude: Seq<char>,
}

impl CoordinateView {
    /// The coordinate as `<latitude>,<longitude>`.
    pub open spec fn text(self) -> Seq<char> {
        self.latitude + seq![','] + self.longitude
    }
}

impl CoordinateView {
    /// Both numbers are in decimal notation.
    pub open spec fn well_formed(self) -> bool {
        is_decimal(self.latitude) && is_decimal(self.longitude)
    }
}

/// The text of a well-formed coordinate holds exactly one comma: the one
/// between its two numbers.
pub proof fn lemma_coordinate_has_one_comma(coordinate: CoordinateView)
    requires
        coordinate.well_formed(),
    ensures
        commas(coordinate.text()) == 1,
{
    lemma_decimal_has_no_comma(coordinate.latitude);
    lemma_decimal_has_no_comma(coordinate.longitude);
    lemma_occurrences_of_one(',', ',');
    lemma_occurrences_add(coordinate.latitude, seq![','], ',');
    lemma_occurrences_add(coordinate.latitude + seq![','], coordinate.longitude, ',');
}

impl View for Coordinate {
    type V = CoordinateView;

    open spec fn view(&self) -> CoordinateView {
        CoordinateView { latitude: self.latitude@, longitude: self.longitude@ }
    }
}

impl Coordinate {
    /// Whether both numbers are in decimal notation.
    pub fn is_well_formed(&self) -> (result: bool)
        ensures
            result == self@.well_formed(),
    {
        is_decimal_text(self.latitude.as_str()) && is_decimal_text(self.longitude.as_str())
    }

    /// Returns the coordinate as a string in the form `"<latitude>,<longitude>"`.
    pub fn to_string(&self) -> (result: String)
        ensures
            result@ == self@.text(),
    {
        proof {
            reveal_strlit(",");
            assert(","@ == seq![',']);
        }
        let mut result = self.latitude.clone();
        result.append(",");
        result.append(self.longitude.as_str());
        result
    }
}

} // verus!
