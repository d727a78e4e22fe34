//! A rectangle given by two coordinates, its southwestern and its
//! northeastern corner, to which some calls can be restricted.

use crate::coordinate::{lemma_coordinate_has_one_comma, Coordinate, CoordinateView};
use crate::decimal::{commas, lemma_occurrences_add, lemma_occurrences_of_one};
use vstd::prelude::*;
use vstd::string::*;

verus! {

/// A rectangle defined by the coordinate of its southwestern point and the
/// coordinate of its northeastern point.
#[derive(Debug)]
pub struct BoundingBox<'a> {
    /// Coordinates of the southwestern point
    pub south_west: &'a Coordinate,
    /// Coordinates of the northeastern point
    pub north_east: &'a Coordinate,
}

/// What a `BoundingBox` stands for.
pub struct BoundingBoxView {
    pub south_west: CoordinateView,
    pub north_east: CoordinateView,
}

impl BoundingBoxView {
    /// The box as four numbers: the southwestern corner, then the
    /// northeastern one.
    pub open spec fn text(self) -> Seq<char> {
        self.south_west.latitude + seq![','] + self.south_west.longitude + seq![',']
            + self.north_east.latitude + seq![','] + self.north_east.longitude
    }
}

/// A bounding box reads as its southwestern corner, a comma, and its
/// northeastern corner, each corner written as a coordinate is.
pub proof fn lemma_box_is_two_corners(bounding_box: BoundingBoxView)
    ensures
        bounding_box.text() == bounding_box.south_west.text() + seq![',']
            + bounding_box.north_east.text(),
{
}

impl BoundingBoxView {
    /// Both corners are well-formed.
    pub open spec fn well_formed(self) -> bool {
        self.south_west.well_formed() && self.north_east.well_formed()
    }
}

/// The text of a well-formed bounding box holds exactly three commas, so it
/// reads as four numbers.
pub proof fn lemma_box_has_three_commas(bounding_box: BoundingBoxView)
    requires
        bounding_box.well_formed(),
    ensures
        commas(bounding_box.text()) == 3,
{
    lemma_box_is_two_corners(bounding_box);
    lemma_coordinate_has_one_comma(bounding_box.south_west);
    lemma_coordinate_has_one_comma(bounding_box.north_east);
    lemma_occurrences_of_one(',', ',');
    lemma_occurrences_add(bounding_box.south_west.text(), seq![','], ',');
    lemma_occurrences_add(
        bounding_box.south_west.text() + seq![','],
        bounding_box.north_east.text(),
        ',',
    );
}

impl View for BoundingBox<'_> {
    type V = BoundingBoxView;

    open spec fn view(&self) -> BoundingBoxView {
        BoundingBoxView { south_west: self.south_west@, north_east: self.north_east@ }
    }
}

impl BoundingBox<'_> {
    /// Whether the numbers of both corners are in decimal notation.
    pub fn is_well_formed(&self) -> (result: bool)
        ensures
            result == self@.well_formed(),
    {
        self.south_west.is_well_formed() && self.north_east.is_well_formed()
    }

    /// Returns the bounding box as a string in the form
    /// `"<south_west.latitude>,<south_west.longitude>,<north_east.latitude>,<north_east.longitude>"`.
    pub fn to_string(&self) -> (result: String)
        ensures
            result@ == self@.text(),
    {
        proof {
            reveal_strlit(",");
            assert(","@ == seq![',']);
        }
        let mut result = self.south_west.to_string();
        result.append(",");
        let north_east = self.north_east.to_string();
        result.append(north_east.as_str());
        result
    }
}

} // verus!
