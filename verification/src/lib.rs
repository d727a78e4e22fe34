//! Client-side logic for the what3words geocoding web service, which maps
//! coordinates to three-word addresses and back.
//!
//! The library builds the URL of each request and judges what comes back:
//! the status code, the JSON body, and the fields read out of it. It sends
//! nothing itself. A caller `GET`s the URL that a `*_url` method of
//! [`W3WClient`] returns, and hands status and body to the functions of
//! [`response`].

pub mod bounding_box;
pub mod circle;
pub mod client;
pub mod coordinate;
pub mod decimal;
pub mod json;
pub mod options;
pub mod polygon;
pub mod query;
pub mod response;

pub use bounding_box::BoundingBox;
pub use circle::Circle;
pub use client::{W3WClient, W3WHOST};
pub use coordinate::Coordinate;
pub use json::Json;
pub use options::{
    AutoSuggestOptions, ConvertTo3WAOptions, ConvertToCoordinatesOptions, GridSectionOptions,
};
pub use polygon::Polygon;
pub use response::{Response, W3WError};
