//! What comes back from the service: the status check, the decoding of the
//! body, and the fields that are read out of it.

use crate::coordinate::{Coordinate, CoordinateView};
use crate::decimal::{is_decimal, is_decimal_text};
use crate::json::{json_document, Json, JsonView};
use vstd::prelude::*;
use vstd::string::*;

verus! {

/// A response of the service as it came: its HTTP status code, its headers
/// and its body.
#[derive(Debug, Clone, PartialEq, Eq)]
pub struct Response {
    /// The status code
    pub status: u16,
    /// The headers in the order in which they came, each with its name and
    /// the bytes of its value
    pub headers: Vec<(String, Vec<u8>)>,
    /// The bytes of the body
    pub body: Vec<u8>,
}

/// Why a call gave no result.
#[derive(Debug, PartialEq)]
pub enum W3WError {
    /// The status of the response is not a success. The response is handed
    /// on as it came.
    RequestFailed(Response),
    /// The body of the response is not a JSON text.
    MalformedBody,
    /// The document lacks a field that was to be read.
    MissingField,
    /// A field that was to be read is there, with a value of another type.
    WrongType,
}

/// The status codes of success: 200 to 299.
pub open spec fn is_success(status: u16) -> bool {
    200 <= status <= 299
}

/// The 3 word address in the answer to `convert-to-3wa`: the field `words`,
/// which is to be a string.
pub open spec fn words_of(json: JsonView) -> Result<Seq<char>, W3WError> {
    match json.member("words"@) {
        None => Err(W3WError::MissingField),
        Some(JsonView::Text(words)) => Ok(words),
        Some(_) => Err(W3WError::WrongType),
    }
}

/// The number in the field `name` of the object `coordinates`, which is to
/// be a number in decimal notation.
pub open spec fn number_of(coordinates: JsonView, name: Seq<char>) -> Result<Seq<char>, W3WError> {
    match coordinates.member(name) {
        None => Err(W3WError::MissingField),
        Some(JsonView::Number(Some(number))) => if is_decimal(number) {
            Ok(number)
        } else {
            Err(W3WError::WrongType)
        },
        Some(_) => Err(W3WError::WrongType),
    }
}

/// The coordinate in the answer to `convert-to-coordinates`: the numbers
/// `lat` and `lng` of the field `coordinates`, each in decimal notation. Of
/// two failures the one of `lat` is reported.
pub open spec fn coordinate_of(json: JsonView) -> Result<CoordinateView, W3WError> {
    match json.member("coordinates"@) {
        None => Err(W3WError::MissingField),
        Some(coordinates) => match number_of(coordinates, "lat"@) {
            Err(error) => Err(error),
            Ok(latitude) => match number_of(coordinates, "lng"@) {
                Err(error) => Err(error),
                Ok(longitude) => Ok(CoordinateView { latitude, longitude }),
            },
        },
    }
}

/// Checks the status code of a response. A response with a status other than
/// 200 to 299 is an error, and is returned as it came.
pub fn check_status_code(response: Response) -> (result: Result<Response, Response>)
    ensures
        is_success(response.status) ==> result == Ok::<Response, Response>(response),
        !is_success(response.status) ==> result == Err::<Response, Response>(response),
{
    if 200 <= response.status && response.status <= 299 {
        Ok(response)
    } else {
        Err(response)
    }
}

/// Decodes the JSON body of a response whose status was checked. A failed
/// request stays one; a body that is no JSON text is an error of its own.
pub fn get_json(resp: Result<Response, Response>) -> (result: Result<Json, W3WError>)
    ensures
        match resp {
            Err(response) => result == Err::<Json, W3WError>(W3WError::RequestFailed(response)),
            Ok(response) => match json_document(response.body@) {
                Some(document) => result matches Ok(json) && json@ == document,
                None => result == Err::<Json, W3WError>(W3WError::MalformedBody),
            },
        },
{
    match resp {
        Err(response) => Err(W3WError::RequestFailed(response)),
        Ok(response) => match Json::parse(response.body.as_slice()) {
            Some(json) => Ok(json),
            None => Err(W3WError::MalformedBody),
        },
    }
}

/// Reads the 3 word address out of the answer to `convert-to-3wa`.
pub fn words(json: &Json) -> (result: Result<String, W3WError>)
    ensures
        match result {
            Ok(text) => words_of(json@) == Ok::<Seq<char>, W3WError>(text@),
            Err(error) => words_of(json@) == Err::<Seq<char>, W3WError>(error),
        },
{
    match json.get("words") {
        None => Err(W3WError::MissingField),
        Some(Json::Text(text)) => Ok(text.clone()),
        Some(_) => Err(W3WError::WrongType),
    }
}

/// Reads the number in the field `name` of `coordinates`.
fn number(coordinates: &Json, name: &str) -> (result: Result<String, W3WError>)
    ensures
        match result {
            Ok(text) => number_of(coordinates@, name@) == Ok::<Seq<char>, W3WError>(text@),
            Err(error) => number_of(coordinates@, name@) == Err::<Seq<char>, W3WError>(error),
        },
{
    match coordinates.get(name) {
        None => Err(W3WError::MissingField),
        Some(Json::Number(Some(text))) => if is_decimal_text(text.as_str()) {
            Ok(text.clone())
        } else {
            Err(W3WError::WrongType)
        },
        Some(_) => Err(W3WError::WrongType),
    }
}

/// Reads the coordinate out of the answer to `convert-to-coordinates`. A
/// coordinate that is returned is well-formed.
pub fn coordinate(json: &Json) -> (result: Result<Coordinate, W3WError>)
    ensures
        match result {
            Ok(point) => coordinate_of(json@) == Ok::<CoordinateView, W3WError>(point@),
            Err(error) => coordinate_of(json@) == Err::<CoordinateView, W3WError>(error),
        },
        result matches Ok(point) ==> point@.well_formed(),
{
    match json.get("coordinates") {
        None => Err(W3WError::MissingField),
        Some(coordinates) => {
            let latitude = match number(coordinates, "lat") {
                Ok(text) => text,
                Err(error) => { return Err(error); },
            };
            let longitude = match number(coordinates, "lng") {
                Ok(text) => text,
                Err(error) => { return Err(error); },
            };
            Ok(Coordinate { latitude, longitude })
        },
    }
}

} // verus!
