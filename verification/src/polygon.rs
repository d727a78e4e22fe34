//! A polygon, given by its corners in order, to which some calls can be
//! restricted.

use crate::coordinate::{lemma_coordinate_has_one_comma, Coordinate, CoordinateView};
use crate::decimal::{commas, lemma_occurrences_add, lemma_occurrences_of_one};
use crate::query::comma_joined;
use vstd::prelude::*;
use vstd::string::*;

verus! {

/// A polygon defined by at least 3 coordinates. The service takes up to 25
/// of them.
#[derive(Debug, Clone)]
pub struct Polygon<'a> {
    /// The corners of the polygon, in order
    pub coordinates: Vec<&'a Coordinate>,
}

/// What a `Polygon` stands for: its corners in order.
pub struct PolygonView {
    pub coordinates: Seq<CoordinateView>,
}

impl PolygonView {
    /// The corners in order, with the first one once more at the end.
    pub open spec fn ring(self) -> Seq<CoordinateView>
        recommends
            self.coordinates.len() > 0,
    {
        self.coordinates.push(self.coordinates[0])
    }

    /// The text of each point of the ring.
    pub open spec fn ring_texts(self) -> Seq<Seq<char>>
        recommends
            self.coordinates.len() > 0,
    {
        Seq::new(self.ring().len(), |i: int| self.ring()[i].text())
    }

    /// The points of the ring, joined with commas.
    pub open spec fn text(self) -> Seq<char>
        recommends
            self.coordinates.len() > 0,
    {
        comma_joined(self.ring_texts())
    }
}

/// A polygon of N corners reads as N + 1 points joined with commas: its
/// corners in order, and the first corner once more as the last point.
pub proof fn lemma_polygon_closes_the_ring(polygon: PolygonView)
    requires
        polygon.coordinates.len() > 0,
    ensures
        polygon.text() == comma_joined(polygon.ring_texts()),
        polygon.ring_texts().len() == polygon.coordinates.len() + 1,
        polygon.ring_texts().last() == polygon.ring_texts().first(),
        forall|i: int|
            0 <= i < polygon.coordinates.len() ==> polygon.ring_texts()[i]
                == polygon.coordinates[i].text(),
{
}

impl PolygonView {
    /// There is a corner, and every corner is well-formed.
    pub open spec fn well_formed(self) -> bool {
        &&& self.coordinates.len() > 0
        &&& forall|i: int|
            0 <= i < self.coordinates.len() ==> (#[trigger] self.coordinates[i]).well_formed()
    }
}

/// Parts that hold one comma each, joined with commas, hold one comma for
/// each part and one between each two neighbours.
pub proof fn lemma_commas_of_joined_points(parts: Seq<Seq<char>>)
    requires
        parts.len() > 0,
        forall|i: int| 0 <= i < parts.len() ==> commas(#[trigger] parts[i]) == 1,
    ensures
        commas(comma_joined(parts)) == 2 * parts.len() - 1,
    decreases parts.len(),
{
    if parts.len() > 1 {
        let front = parts.drop_last();
        assert forall|i: int| 0 <= i < front.len() implies commas(#[trigger] front[i]) == 1 by {
            assert(front[i] == parts[i]);
        }
        lemma_commas_of_joined_points(front);
        lemma_occurrences_of_one(',', ',');
        lemma_occurrences_add(comma_joined(front), seq![','], ',');
        lemma_occurrences_add(comma_joined(front) + seq![','], parts.last(), ',');
    }
}

/// The text of a well-formed polygon of N corners holds exactly 2N + 1
/// commas, so it reads as the numbers of N + 1 points.
pub proof fn lemma_polygon_commas(polygon: PolygonView)
    requires
        polygon.well_formed(),
    ensures
        commas(polygon.text()) == 2 * polygon.coordinates.len() + 1,
{
    let parts = polygon.ring_texts();
    assert forall|i: int| 0 <= i < parts.len() implies commas(#[trigger] parts[i]) == 1 by {
        if i < polygon.coordinates.len() {
            assert(polygon.ring()[i] == polygon.coordinates[i]);
        } else {
            assert(polygon.ring()[i] == polygon.coordinates[0]);
        }
        lemma_coordinate_has_one_comma(polygon.ring()[i]);
    }
    lemma_commas_of_joined_points(parts);
}

impl View for Polygon<'_> {
    type V = PolygonView;

    open spec fn view(&self) -> PolygonView {
        PolygonView {
            coordinates: Seq::new(self.coordinates@.len(), |i: int| self.coordinates@[i]@),
        }
    }
}

impl Polygon<'_> {
    /// Whether there is a corner, and the numbers of every corner are in
    /// decimal notation.
    pub fn is_well_formed(&self) -> (result: bool)
        ensures
            result == self@.well_formed(),
    {
        if self.coordinates.len() == 0 {
            return false;
        }
        let mut i: usize = 0;
        while i < self.coordinates.len()
            invariant
                i <= self.coordinates@.len(),
                self.coordinates@.len() > 0,
                forall|j: int| 0 <= j < i ==> (#[trigger] self@.coordinates[j]).well_formed(),
            decreases self.coordinates@.len() - i,
        {
            if !self.coordinates[i].is_well_formed() {
                assert(!self@.coordinates[i as int].well_formed());
                return false;
            }
            i = i + 1;
        }
        true
    }

    /// Returns all the coordinates of the polygon separated with commas. The
    /// first coordinate comes once more as the last element, which closes the
    /// ring as the service asks.
    pub fn to_string(&self) -> (result: String)
        requires
            self.coordinates@.len() > 0,
        ensures
            result@ == self@.text(),
    {
        proof {
            reveal_strlit(",");
            assert(","@ == seq![',']);
        }
        let ghost points = self@.ring_texts();
        let mut result = String::new();
        let mut i: usize = 0;
        while i < self.coordinates.len()
            invariant
                i <= self.coordinates@.len(),
                self.coordinates@.len() > 0,
                ","@ == seq![','],
                points == self@.ring_texts(),
                i == 0 ==> result@ == Seq::<char>::empty(),
                i > 0 ==> result@ == comma_joined(points.take(i as int)) + seq![','],
            decreases self.coordinates@.len() - i,
        {
            let item = self.coordinates[i].to_string();
            proof {
                assert(points.take(i + 1).drop_last() == points.take(i as int));
                assert(points.take(i + 1).last() == item@);
            }
            result.append(item.as_str());
            result.append(",");
            i = i + 1;
        }
        let first = self.coordinates[0].to_string();
        proof {
            assert(points.drop_last() == points.take(i as int));
            assert(points.last() == first@);
        }
        result.append(first.as_str());
        result
    }
}

} // verus!
