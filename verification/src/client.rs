//! The client: its configuration, and the URL of each request it can make.
//!
//! The client itself sends nothing. Each `*_url` method gives the address to
//! `GET`; what comes back is judged by the functions of [`crate::response`].

use crate::bounding_box::{BoundingBox, BoundingBoxView};
use crate::coordinate::{Coordinate, CoordinateView};
use crate::options::{
    AutoSuggestOptions, AutoSuggestOptionsView, ConvertTo3WAOptions, ConvertTo3WAOptionsView,
    ConvertToCoordinatesOptions, ConvertToCoordinatesOptionsView, GridSectionOptions,
    GridSectionOptionsView,
};
use crate::query::{bool_to_str, join_with_commas, parse_optional, parse_url, with_optional};
use vstd::prelude::*;
use vstd::string::*;

verus! {

/// The host of the what3words API.
pub const W3WHOST: &'static str = "https://api.what3words.com/v3";

/// The configuration of a client of the what3words API.
#[derive(Debug)]
pub struct W3WClient {
    /// Your W3W API key
    pub api_key: String,
    /// The W3W host, which defaults to the what3words API endpoint. It can be
    /// changed should you run a W3W endpoint locally.
    pub host: String,
}

/// What a `W3WClient` stands for.
pub struct W3WClientView {
    pub api_key: Seq<char>,
    pub host: Seq<char>,
}

impl View for W3WClient {
    type V = W3WClientView;

    open spec fn view(&self) -> W3WClientView {
        W3WClientView { api_key: self.api_key@, host: self.host@ }
    }
}

impl W3WClientView {
    /// The `convert-to-3wa` request with its required parameters.
    pub open spec fn convert_to_3wa_base(self, coordinates: CoordinateView) -> Seq<char> {
        self.host + "/convert-to-3wa?key="@ + self.api_key + "&coordinates="@ + coordinates.text()
    }

    /// The `convert-to-3wa` request: the required parameters, then each
    /// optional parameter that is present.
    pub open spec fn convert_to_3wa_url(
        self,
        coordinates: CoordinateView,
        options: ConvertTo3WAOptionsView,
    ) -> Seq<char> {
        let url = self.convert_to_3wa_base(coordinates);
        let url = with_optional(url, "language"@, options.language);
        let url = with_optional(url, "format"@, options.format);
        with_optional(url, "locale"@, options.locale)
    }

    /// The `convert-to-coordinates` request with its required parameters.
    pub open spec fn convert_to_coordinates_base(self, three_words: Seq<char>) -> Seq<char> {
        self.host + "/convert-to-coordinates?words="@ + three_words + "&key="@ + self.api_key
    }

    /// The `convert-to-coordinates` request: the required parameters, then
    /// each optional parameter that is present.
    pub open spec fn convert_to_coordinates_url(
        self,
        three_words: Seq<char>,
        options: ConvertToCoordinatesOptionsView,
    ) -> Seq<char> {
        let url = self.convert_to_coordinates_base(three_words);
        let url = with_optional(url, "format"@, options.format);
        with_optional(url, "locale"@, options.locale)
    }

    /// The `available-languages` request.
    pub open spec fn available_languages_url(self) -> Seq<char> {
        self.host + "/available-languages?key="@ + self.api_key
    }

    /// The `autosuggest` request with its required parameters.
    pub open spec fn autosuggest_base(self, input: Seq<char>) -> Seq<char> {
        self.host + "/autosuggest?key="@ + self.api_key + "&input="@ + input
    }

    /// The `autosuggest` request: the required parameters, then each optional
    /// parameter that is present.
    pub open spec fn autosuggest_url(self, input: Seq<char>, options: AutoSuggestOptionsView) -> Seq<char> {
        let url = self.autosuggest_base(input);
        let url = with_optional(url, "focus"@, options.focus_text());
        let url = with_optional(url, "clip-to-circle"@, options.circle_text());
        let url = with_optional(url, "clip-to-country"@, options.countries_text());
        let url = with_optional(url, "clip-to-bounding-box"@, options.bounding_box_text());
        let url = with_optional(url, "clip-to-polygon"@, options.polygon_text());
        let url = with_optional(url, "language"@, options.language);
        let url = with_optional(url, "prefer-land"@, options.prefer_land_text());
        with_optional(url, "locale"@, options.locale)
    }

    /// The `grid-section` request with its required parameters.
    pub open spec fn grid_section_base(self, bounding_box: BoundingBoxView) -> Seq<char> {
        self.host + "/grid-section?bounding-box="@ + bounding_box.text() + "&key="@ + self.api_key
    }

    /// The `grid-section` request: the required parameters, then the optional
    /// parameter if it is present.
    pub open spec fn grid_section_url(
        self,
        bounding_box: BoundingBoxView,
        options: GridSectionOptionsView,
    ) -> Seq<char> {
        with_optional(self.grid_section_base(bounding_box), "format"@, options.format)
    }
}

/// With no optional parameter given, the `convert-to-3wa` request is its
/// required parameters and nothing more.
pub proof fn lemma_convert_to_3wa_without_options(
    client: W3WClientView,
    coordinates: CoordinateView,
    options: ConvertTo3WAOptionsView,
)
    requires
        options.is_empty(),
    ensures
        client.convert_to_3wa_url(coordinates, options) == client.convert_to_3wa_base(coordinates),
{
}

/// With no optional parameter given, the `convert-to-coordinates` request is
/// its required parameters and nothing more.
pub proof fn lemma_convert_to_coordinates_without_options(
    client: W3WClientView,
    three_words: Seq<char>,
    options: ConvertToCoordinatesOptionsView,
)
    requires
        options.is_empty(),
    ensures
        client.convert_to_coordinates_url(three_words, options)
            == client.convert_to_coordinates_base(three_words),
{
}

/// With no optional parameter given, the `autosuggest` request is its
/// required parameters and nothing more.
pub proof fn lemma_autosuggest_without_options(
    client: W3WClientView,
    input: Seq<char>,
    options: AutoSuggestOptionsView,
)
    requires
        options.is_empty(),
    ensures
        client.autosuggest_url(input, options) == client.autosuggest_base(input),
{
}

/// With no optional parameter given, the `grid-section` request is its
/// required parameters and nothing more.
pub proof fn lemma_grid_section_without_options(
    client: W3WClientView,
    bounding_box: BoundingBoxView,
    options: GridSectionOptionsView,
)
    requires
        options.is_empty(),
    ensures
        client.grid_section_url(bounding_box, options) == client.grid_section_base(bounding_box),
{
}

impl W3WClient {
    /// Creates a client with the provided API key, for the what3words host.
    pub fn new(api_key: &str) -> (result: Self)
        ensures
            result@.api_key == api_key@,
            result@.host == W3WHOST@,
    {
        W3WClient { api_key: api_key.to_owned(), host: W3WHOST.to_owned() }
    }

    /// The URL that converts a coordinate to a 3 word address.
    pub fn convert_to_3wa_url(
        &self,
        coordinates: &Coordinate,
        options: &ConvertTo3WAOptions,
    ) -> (url: String)
        ensures
            url@ == self@.convert_to_3wa_url(coordinates@, options@),
    {
        let mut url = self.host.clone();
        url.append("/convert-to-3wa?key=");
        url.append(self.api_key.as_str());
        url.append("&coordinates=");
        let point = coordinates.to_string();
        url.append(point.as_str());
        let url = parse_optional(url, "language", options.language);
        let url = parse_optional(url, "format", options.format);
        parse_optional(url, "locale", options.locale)
    }

    /// The URL that converts a 3 word address to a coordinate.
    pub fn convert_to_coordinates_url(
        &self,
        three_words: &str,
        options: &ConvertToCoordinatesOptions,
    ) -> (url: String)
        ensures
            url@ == self@.convert_to_coordinates_url(three_words@, options@),
    {
        let mut url = self.host.clone();
        url.append("/convert-to-coordinates?words=");
        url.append(three_words);
        url.append("&key=");
        url.append(self.api_key.as_str());
        let url = parse_optional(url, "format", options.format);
        parse_optional(url, "locale", options.locale)
    }

    /// The URL that lists all available languages and locales.
    pub fn available_languages_url(&self) -> (url: String)
        ensures
            url@ == self@.available_languages_url(),
    {
        let mut url = self.host.clone();
        url.append("/available-languages?key=");
        url.append(self.api_key.as_str());
        url
    }

    /// The URL that suggests 3 word addresses for an incomplete input.
    pub fn autosuggest_url(&self, input: &str, options: &AutoSuggestOptions) -> (url: String)
        requires
            options@.polygon_has_corner(),
        ensures
            url@ == self@.autosuggest_url(input@, options@),
    {
        let mut url = self.host.clone();
        url.append("/autosuggest?key=");
        url.append(self.api_key.as_str());
        url.append("&input=");
        url.append(input);
        if let Some(focus_coordinates) = options.focus_coordinates {
            let value = focus_coordinates.to_string();
            url = parse_url(url, "focus", value.as_str());
        }
        if let Some(circle) = options.circle {
            let value = circle.to_string();
            url = parse_url(url, "clip-to-circle", value.as_str());
        }
        if let Some(countries) = options.countries {
            let value = join_with_commas(countries);
            url = parse_url(url, "clip-to-country", value.as_str());
        }
        if let Some(bounding_box) = options.bounding_box {
            let value = bounding_box.to_string();
            url = parse_url(url, "clip-to-bounding-box", value.as_str());
        }
        if let Some(polygon) = options.polygon {
            let value = polygon.to_string();
            url = parse_url(url, "clip-to-polygon", value.as_str());
        }
        if let Some(language) = options.language {
            url = parse_url(url, "language", language);
        }
        if let Some(prefer_land) = options.prefer_land {
            url = parse_url(url, "prefer-land", bool_to_str(prefer_land));
        }
        if let Some(locale) = options.locale {
            url = parse_url(url, "locale", locale);
        }
        url
    }

    /// The URL that lists the squares in a rectangle.
    pub fn grid_section_url(
        &self,
        bounding_box: &BoundingBox,
        options: &GridSectionOptions,
    ) -> (url: String)
        ensures
            url@ == self@.grid_section_url(bounding_box@, options@),
    {
        let mut url = self.host.clone();
        url.append("/grid-section?bounding-box=");
        let value = bounding_box.to_string();
        url.append(value.as_str());
        url.append("&key=");
        url.append(self.api_key.as_str());
        parse_optional(url, "format", options.format)
    }
}

} // verus!
