//! The optional parameters of each endpoint. A field that is `None` is left
//! out of the query string.

use crate::bounding_box::{BoundingBox, BoundingBoxView};
use crate::circle::{Circle, CircleView};
use crate::coordinate::{Coordinate, CoordinateView};
use crate::polygon::{Polygon, PolygonView};
use crate::query::{bool_text, comma_joined, optional_text, texts};
use vstd::prelude::*;

verus! {

/// The optional parameters for the `convert_to_3wa` calls.
#[derive(Debug)]
pub struct ConvertTo3WAOptions<'a> {
    /// language of the returned 3 words
    pub language: Option<&'a str>,
    /// format of the returned payload. Either `"json"` or `"geojson"`
    pub format: Option<&'a str>,
    /// locale to specify a variant of a language
    pub locale: Option<&'a str>,
}

/// What `ConvertTo3WAOptions` stands for.
pub struct ConvertTo3WAOptionsView {
    pub language: Option<Seq<char>>,
    pub format: Option<Seq<char>>,
    pub locale: Option<Seq<char>>,
}

impl ConvertTo3WAOptionsView {
    /// No parameter is given.
    pub open spec fn is_empty(self) -> bool {
        self.language is None && self.format is None && self.locale is None
    }
}

impl View for ConvertTo3WAOptions<'_> {
    type V = ConvertTo3WAOptionsView;

    open spec fn view(&self) -> ConvertTo3WAOptionsView {
        ConvertTo3WAOptionsView {
            language: optional_text(self.language),
            format: optional_text(self.format),
            locale: optional_text(self.locale),
        }
    }
}

impl Default for ConvertTo3WAOptions<'_> {
    fn default() -> (result: Self)
        ensures
            result@.is_empty(),
    {
        ConvertTo3WAOptions { language: None, format: None, locale: None }
    }
}

/// The optional parameters for the `convert_to_coordinates` calls.
#[derive(Debug)]
pub struct ConvertToCoordinatesOptions<'a> {
    /// format of the returned payload. Either `"json"` or `"geojson"`
    pub format: Option<&'a str>,
    /// locale to specify a variant of a language
    pub locale: Option<&'a str>,
}

/// What `ConvertToCoordinatesOptions` stands for.
pub struct ConvertToCoordinatesOptionsView {
    pub format: Option<Seq<char>>,
    pub locale: Option<Seq<char>>,
}

impl ConvertToCoordinatesOptionsView {
    /// No parameter is given.
    pub open spec fn is_empty(self) -> bool {
        self.format is None && self.locale is None
    }
}

impl View for ConvertToCoordinatesOptions<'_> {
    type V = ConvertToCoordinatesOptionsView;

    open spec fn view(&self) -> ConvertToCoordinatesOptionsView {
        ConvertToCoordinatesOptionsView {
            format: optional_text(self.format),
            locale: optional_text(self.locale),
        }
    }
}

impl Default for ConvertToCoordinatesOptions<'_> {
    fn default() -> (result: Self)
        ensures
            result@.is_empty(),
    {
        ConvertToCoordinatesOptions { format: None, locale: None }
    }
}

/// The optional parameters for the `autosuggest` calls.
pub struct AutoSuggestOptions<'a> {
    /// a point by whose distance the suggestions are ordered
    pub focus_coordinates: Option<&'a Coordinate>,
    /// restricts the suggestions to a circle
    pub circle: Option<&'a Circle<'a>>,
    /// restricts the suggestions to countries, each an ISO 3166-1 alpha-2 code
    pub countries: Option<&'a Vec<&'a str>>,
    /// restricts the suggestions to a rectangle
    pub bounding_box: Option<&'a BoundingBox<'a>>,
    /// restricts the suggestions to a polygon
    pub polygon: Option<&'a Polygon<'a>>,
    /// language of the suggested addresses
    pub language: Option<&'a str>,
    /// whether suggestions on land come before those at sea
    pub prefer_land: Option<bool>,
    /// locale to specify a variant of a language
    pub locale: Option<&'a str>,
}

/// What `AutoSuggestOptions` stands for.
pub struct AutoSuggestOptionsView {
    pub focus_coordinates: Option<CoordinateView>,
    pub circle: Option<CircleView>,
    pub countries: Option<Seq<Seq<char>>>,
    pub bounding_box: Option<BoundingBoxView>,
    pub polygon: Option<PolygonView>,
    pub language: Option<Seq<char>>,
    pub prefer_land: Option<bool>,
    pub locale: Option<Seq<char>>,
}

impl AutoSuggestOptionsView {
    /// No parameter is given.
    pub open spec fn is_empty(self) -> bool {
        &&& self.focus_coordinates is None
        &&& self.circle is None
        &&& self.countries is None
        &&& self.bounding_box is None
        &&& self.polygon is None
        &&& self.language is None
        &&& self.prefer_land is None
        &&& self.locale is None
    }

    /// A polygon, where one is given, has a corner.
    pub open spec fn polygon_has_corner(self) -> bool {
        self.polygon matches Some(polygon) ==> polygon.coordinates.len() > 0
    }

    /// The value of `focus`, if there is one.
    pub open spec fn focus_text(self) -> Option<Seq<char>> {
        match self.focus_coordinates {
            Some(coordinate) => Some(coordinate.text()),
            None => None,
        }
    }

    /// The value of `clip-to-circle`, if there is one.
    pub open spec fn circle_text(self) -> Option<Seq<char>> {
        match self.circle {
            Some(circle) => Some(circle.text()),
            None => None,
        }
    }

    /// The value of `clip-to-country`, if there is one: the country codes,
    /// joined with commas.
    pub open spec fn countries_text(self) -> Option<Seq<char>> {
        match self.countries {
            Some(countries) => Some(comma_joined(countries)),
            None => None,
        }
    }

    /// The value of `clip-to-bounding-box`, if there is one.
    pub open spec fn bounding_box_text(self) -> Option<Seq<char>> {
        match self.bounding_box {
            Some(bounding_box) => Some(bounding_box.text()),
            None => None,
        }
    }

    /// The value of `clip-to-polygon`, if there is one.
    pub open spec fn polygon_text(self) -> Option<Seq<char>> {
        match self.polygon {
            Some(polygon) => Some(polygon.text()),
            None => None,
        }
    }

    /// The value of `prefer-land`, if there is one.
    pub open spec fn prefer_land_text(self) -> Option<Seq<char>> {
        match self.prefer_land {
            Some(flag) => Some(bool_text(flag)),
            None => None,
        }
    }
}

impl View for AutoSuggestOptions<'_> {
    type V = AutoSuggestOptionsView;

    open spec fn view(&self) -> AutoSuggestOptionsView {
        AutoSuggestOptionsView {
            focus_coordinates: match self.focus_coordinates {
                Some(coordinate) => Some(coordinate@),
                None => None,
            },
            circle: match self.circle {
                Some(circle) => Some(circle@),
                None => None,
            },
            countries: match self.countries {
                Some(countries) => Some(texts(countries@)),
                None => None,
            },
            bounding_box: match self.bounding_box {
                Some(bounding_box) => Some(bounding_box@),
                None => None,
            },
            polygon: match self.polygon {
                Some(polygon) => Some(polygon@),
                None => None,
            },
            language: optional_text(self.language),
            prefer_land: self.prefer_land,
            locale: optional_text(self.locale),
        }
    }
}

impl Default for AutoSuggestOptions<'_> {
    fn default() -> (result: Self)
        ensures
            result@.is_empty(),
    {
        AutoSuggestOptions {
            focus_coordinates: None,
            circle: None,
            countries: None,
            bounding_box: None,
            polygon: None,
            language: None,
            prefer_land: None,
            locale: None,
        }
    }
}

/// The optional parameters for the `grid_section` calls.
pub struct GridSectionOptions<'a> {
    /// format of the returned payload. Either `"json"` or `"geojson"`
    pub format: Option<&'a str>,
}

/// What `GridSectionOptions` stands for.
pub struct GridSectionOptionsView {
    pub format: Option<Seq<char>>,
}

impl GridSectionOptionsView {
    /// No parameter is given.
    pub open spec fn is_empty(self) -> bool {
        self.format is None
    }
}

impl View for GridSectionOptions<'_> {
    type V = GridSectionOptionsView;

    open spec fn view(&self) -> GridSectionOptionsView {
        GridSectionOptionsView { format: optional_text(self.format) }
    }
}

impl Default for GridSectionOptions<'_> {
    fn default() -> (result: Self)
        ensures
            result@.is_empty(),
    {
        GridSectionOptions { format: None }
    }
}

} // verus!
