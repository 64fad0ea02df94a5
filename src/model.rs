//! The provider's payloads and the two-pass decoding of a response body.
use vstd::prelude::*;
use crate::json::{get, json_read, member, read_json, get_in, text_member, text_of, number_of, Json};
use crate::number::{int_value, milli_value, parse_i32, parse_milli};

verus! {

/// Position of a city, in thousandths of a degree.
pub struct Coords {
    pub lon: i64,
    pub lat: i64,
}

/// Atmospheric conditions; temperatures in thousandths of a kelvin, pressure
/// in thousandths of its unit, humidity in percent.
pub struct Conditions {
    pub temp: i64,
    pub humidity: i32,
    pub pressure: i64,
    pub temp_min: i64,
    pub temp_max: i64,
}

/// Wind speed in thousandths of a metre per second; direction in thousandths
/// of a degree clockwise from north.
pub struct Wind {
    pub speed: i64,
    pub deg: i64,
}

/// One successful report.
pub struct Weather {
    pub name: String,
    pub coords: Coords,
    pub conditions: Conditions,
    pub wind: Wind,
}

/// A failure that the provider reports in its own envelope.
pub struct ApiError {
    pub code: i32,
    pub message: String,
}

/// A decoded body: a report, or the provider's error.
pub enum ApiResponse {
    Weather(Weather),
    Error(ApiError),
}

/// A body that matches neither payload; it keeps the body for diagnosis.
pub struct DecodeError {
    pub body: String,
}

/// Magnitude that every fixed-point field stays below.
pub open spec fn in_range(v: i64) -> bool {
    -1_000_000_000_000_000 < v < 1_000_000_000_000_000
}

impl Wind {
    pub open spec fn wf(&self) -> bool {
        in_range(self.speed) && in_range(self.deg)
    }
}

impl Weather {
    /// Every fixed-point field within the range that decoding gives.
    pub open spec fn wf(&self) -> bool {
        &&& in_range(self.coords.lon)
        &&& in_range(self.coords.lat)
        &&& in_range(self.conditions.temp)
        &&& in_range(self.conditions.pressure)
        &&& in_range(self.conditions.temp_min)
        &&& in_range(self.conditions.temp_max)
        &&& self.wind.wf()
    }
}

/// Thousandths of a JSON number.
pub open spec fn milli_of(j: Option<Json>) -> Option<int> {
    match number_of(j) {
        Some(t) => milli_value(t),
        None => None,
    }
}

/// An `i32` written as decimal text.
pub open spec fn i32_of(t: Seq<char>) -> Option<int> {
    match int_value(t) {
        Some(v) => if i32::MIN <= v <= i32::MAX {
            Some(v)
        } else {
            None
        },
        None => None,
    }
}

/// An `i32` held by a JSON number.
pub open spec fn int_of(j: Option<Json>) -> Option<int> {
    match number_of(j) {
        Some(t) => i32_of(t),
        None => None,
    }
}

/// Whether a document has the report's shape: `name`, `coord`, `main`, `wind`.
pub open spec fn is_weather(doc: Json) -> bool {
    let coord = get(doc, "coord"@);
    let main = get(doc, "main"@);
    let wind = get(doc, "wind"@);
    &&& text_of(get(doc, "name"@)) is Some
    &&& milli_of(get_in(coord, "lon"@)) is Some
    &&& milli_of(get_in(coord, "lat"@)) is Some
    &&& milli_of(get_in(main, "temp"@)) is Some
    &&& int_of(get_in(main, "humidity"@)) is Some
    &&& milli_of(get_in(main, "pressure"@)) is Some
    &&& milli_of(get_in(main, "temp_min"@)) is Some
    &&& milli_of(get_in(main, "temp_max"@)) is Some
    &&& milli_of(get_in(wind, "speed"@)) is Some
    &&& milli_of(get_in(wind, "deg"@)) is Some
}

/// Whether `w` holds what a document of the report's shape says.
pub open spec fn weather_from(doc: Json, w: Weather) -> bool {
    let coord = get(doc, "coord"@);
    let main = get(doc, "main"@);
    let wind = get(doc, "wind"@);
    &&& text_of(get(doc, "name"@)) == Some(w.name@)
    &&& milli_of(get_in(coord, "lon"@)) == Some(w.coords.lon as int)
    &&& milli_of(get_in(coord, "lat"@)) == Some(w.coords.lat as int)
    &&& milli_of(get_in(main, "temp"@)) == Some(w.conditions.temp as int)
    &&& int_of(get_in(main, "humidity"@)) == Some(w.conditions.humidity as int)
    &&& milli_of(get_in(main, "pressure"@)) == Some(w.conditions.pressure as int)
    &&& milli_of(get_in(main, "temp_min"@)) == Some(w.conditions.temp_min as int)
    &&& milli_of(get_in(main, "temp_max"@)) == Some(w.conditions.temp_max as int)
    &&& milli_of(get_in(wind, "speed"@)) == Some(w.wind.speed as int)
    &&& milli_of(get_in(wind, "deg"@)) == Some(w.wind.deg as int)
}

/// Whether a document has the error's shape: `cod` as integer text, and `message`.
pub open spec fn is_error(doc: Json) -> bool {
    &&& match text_of(get(doc, "cod"@)) {
        Some(t) => i32_of(t) is Some,
        None => false,
    }
    &&& text_of(get(doc, "message"@)) is Some
}

/// Whether `e` holds what a document of the error's shape says.
pub open spec fn error_from(doc: Json, e: ApiError) -> bool {
    &&& match text_of(get(doc, "cod"@)) {
        Some(t) => i32_of(t) == Some(e.code as int),
        None => false,
    }
    &&& text_of(get(doc, "message"@)) == Some(e.message@)
}

/// The outcome of decoding a document: the report where its shape fits,
/// else the error where that shape fits, else the failure with the body.
pub open spec fn response_from(doc: Json, body: Seq<char>, r: Result<ApiResponse, DecodeError>) -> bool {
    match r {
        Ok(ApiResponse::Weather(w)) => is_weather(doc) && weather_from(doc, w) && w.wf(),
        Ok(ApiResponse::Error(e)) => !is_weather(doc) && is_error(doc) && error_from(doc, e),
        Err(d) => !is_weather(doc) && !is_error(doc) && d.body@ == body,
    }
}

/// The outcome of decoding a body: as `response_from` on its document, or
/// the failure with the body where it is no JSON at all.
pub open spec fn body_response(body: Seq<char>, r: Result<ApiResponse, DecodeError>) -> bool {
    match json_read(body) {
        Some(doc) => response_from(doc, body, r),
        None => r matches Err(d) && d.body@ == body,
    }
}

/// Thousandths of the number member `key`.
fn milli_member(j: Option<&Json>, key: &str) -> (r: Option<i64>)
    ensures
        match j {
            Some(v) => match r {
                Some(x) => milli_of(get(*v, key@)) == Some(x as int) && in_range(x),
                None => milli_of(get(*v, key@)) is None,
            },
            None => r is None,
        },
{
    match j {
        Some(v) => {
            let m = member(v, key);
            match m {
                Some(Json::Number(t)) => {
                    let x = parse_milli(t.as_str());
                    assert(number_of(get(*v, key@)) == Some(t@));
                    x
                },
                _ => None,
            }
        },
        None => None,
    }
}

/// Copies a `Weather` out of a document of the report's shape.
pub fn decode_weather(doc: &Json) -> (r: Option<Weather>)
    ensures
        match r {
            Some(w) => weather_from(*doc, w) && w.wf(),
            None => !is_weather(*doc),
        },
{
    let name = match text_member(doc, "name") {
        Some(s) => s,
        None => return None,
    };
    let coord = member(doc, "coord");
    let main = member(doc, "main");
    let wind = member(doc, "wind");
    let lon = match milli_member(coord, "lon") {
        Some(x) => x,
        None => return None,
    };
    let lat = match milli_member(coord, "lat") {
        Some(x) => x,
        None => return None,
    };
    let temp = match milli_member(main, "temp") {
        Some(x) => x,
        None => return None,
    };
    let humidity = match main {
        Some(m) => match member(m, "humidity") {
            Some(Json::Number(t)) => match parse_i32(t.as_str()) {
                Some(h) => h,
                None => return None,
            },
            _ => return None,
        },
        None => return None,
    };
    let pressure = match milli_member(main, "pressure") {
        Some(x) => x,
        None => return None,
    };
    let temp_min = match milli_member(main, "temp_min") {
        Some(x) => x,
        None => return None,
    };
    let temp_max = match milli_member(main, "temp_max") {
        Some(x) => x,
        None => return None,
    };
    let speed = match milli_member(wind, "speed") {
        Some(x) => x,
        None => return None,
    };
    let deg = match milli_member(wind, "deg") {
        Some(x) => x,
        None => return None,
    };
    Some(
        Weather {
            name,
            coords: Coords { lon, lat },
            conditions: Conditions { temp, humidity, pressure, temp_min, temp_max },
            wind: Wind { speed, deg },
        },
    )
}

/// Copies an `ApiError` out of a document of the error's shape; `cod` is
/// integer text.
pub fn decode_error(doc: &Json) -> (r: Option<ApiError>)
    ensures
        match r {
            Some(e) => error_from(*doc, e),
            None => !is_error(*doc),
        },
{
    let code = match member(doc, "cod") {
        Some(Json::Str(t)) => match parse_i32(t.as_str()) {
            Some(c) => c,
            None => return None,
        },
        _ => return None,
    };
    let message = match text_member(doc, "message") {
        Some(s) => s,
        None => return None,
    };
    Some(ApiError { code, message })
}

/// Decodes a document: as a report first, then as the provider's error;
/// where neither shape fits, the failure keeps `body`.
pub fn response_of(doc: &Json, body: &str) -> (r: Result<ApiResponse, DecodeError>)
    ensures
        response_from(*doc, body@, r),
{
    match decode_weather(doc) {
        Some(w) => Ok(ApiResponse::Weather(w)),
        None => match decode_error(doc) {
            Some(e) => Ok(ApiResponse::Error(e)),
            None => Err(DecodeError { body: String::from_str(body) }),
        },
    }
}

/// Decodes a response body; text that is no JSON fails like a body of
/// neither shape.
pub fn parse_response(body: &str) -> (r: Result<ApiResponse, DecodeError>)
    ensures
        body_response(body@, r),
{
    match read_json(body) {
        Some(doc) => response_of(&doc, body),
        None => Err(DecodeError { body: String::from_str(body) }),
    }
}

} // verus!
