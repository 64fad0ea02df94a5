//! What one request comes to: the text to show, or the error to report.
use vstd::prelude::*;
use crate::json::{get, json_read, text_of};
use crate::model::{body_response, error_from, i32_of, is_error, is_weather, parse_response, weather_from, ApiResponse, DecodeError};
use crate::present::{int_text, summary_text};

verus! {

/// `r` is what a decoded response is shown as: the summary of a report, or
/// the line that reports the provider's error or the undecodable body.
pub open spec fn reports(resp: Result<ApiResponse, DecodeError>, r: Result<String, String>) -> bool {
    match (resp, r) {
        (Ok(ApiResponse::Weather(w)), Ok(t)) => t@ == summary_text(w),
        (Ok(ApiResponse::Error(e)), Err(t)) => t@ == int_text(e.code as int) + ": "@ + e.message@,
        (Err(d), Err(t)) => t@ == "bad response from server: "@ + d.body@,
        _ => false,
    }
}

/// The text for a decoded response: `Ok` with the summary of a report,
/// `Err` with `<code>: <message>` or with the undecodable body.
pub fn report(resp: &Result<ApiResponse, DecodeError>) -> (r: Result<String, String>)
    requires
        match resp {
            Ok(ApiResponse::Weather(w)) => w.wf(),
            _ => true,
        },
    ensures
        reports(*resp, r),
{
    match resp {
        Ok(ApiResponse::Weather(w)) => Ok(w.summary()),
        Ok(ApiResponse::Error(e)) => Err(e.text()),
        Err(d) => {
            let mut t = String::from_str("bad response from server: ");
            t.append(d.body.as_str());
            Err(t)
        },
    }
}

/// Decodes a response body and gives the text for it.
pub fn report_body(body: &str) -> (r: Result<String, String>)
    ensures
        exists|resp: Result<ApiResponse, DecodeError>| body_response(body@, resp) && reports(resp, r),
{
    let resp = parse_response(body);
    let r = report(&resp);
    assert(body_response(body@, resp) && reports(resp, r));
    r
}

/// Decoding tries the report's shape first, then the error's: a document of
/// the report's shape gives that report; one of the error's shape alone gives
/// that error, its code the integer that the `cod` text denotes; anything
/// else, text that is no JSON included, fails and keeps the body.
pub proof fn lemma_decode_cases(body: Seq<char>, r: Result<ApiResponse, DecodeError>)
    requires
        body_response(body, r),
    ensures
        match json_read(body) {
            Some(doc) => {
                &&& is_weather(doc) ==> (r matches Ok(ApiResponse::Weather(w)) && weather_from(doc, w))
                &&& !is_weather(doc) && is_error(doc) ==> (r matches Ok(ApiResponse::Error(e))
                    && text_of(get(doc, "cod"@)) matches Some(t) && i32_of(t) == Some(e.code as int)
                    && text_of(get(doc, "message"@)) == Some(e.message@))
                &&& !is_weather(doc) && !is_error(doc) ==> (r matches Err(d) && d.body@ == body)
            },
            None => r matches Err(d) && d.body@ == body,
        },
{
    match json_read(body) {
        Some(doc) => {
            if !is_weather(doc) && is_error(doc) {
                assert(r matches Ok(ApiResponse::Error(e)) && error_from(doc, e));
            }
        },
        None => {},
    }
}

} // verus!
