//! The request side of the WeatherAPI.com client: the forecast URL, the
//! verdict on the HTTP status line, and the error type that a failed
//! forecast request reports.

use reqwless::response::StatusCode;
use vstd::prelude::*;

verus! {

/// Network or HTTP failure reported by reqwless.
#[verifier::external_type_specification]
#[verifier::external_body]
pub struct ExHttpError(reqwless::Error);

/// Deserialisation failure reported by serde_json.
#[verifier::external_type_specification]
#[verifier::external_body]
pub struct ExJsonError(serde_json::Error);

/// reqwless' HTTP status code: a public `u16` newtype.
#[verifier::external_type_specification]
pub struct ExStatusCode(StatusCode);

/// `reqwless::response::StatusCode::is_successful` is `(200..=299).contains(&self.0)`
/// in the reqwless source: it holds exactly for the 2xx codes.
pub assume_specification[ StatusCode::is_successful ](status: &StatusCode) -> (ok: bool)
    ensures
        ok == (200 <= status.0 && status.0 <= 299),
;

/// The forecast endpoint (Montreal, one day, no air quality, no alerts); the
/// API key is appended to it.
pub const FORECAST_ENDPOINT: &'static str =
    "https://api.weatherapi.com/v1/forecast.json?q=Montreal&days=1&aqi=no&alerts=no&key=";

/// Why a forecast could not be obtained.
#[derive(Debug)]
pub enum WeatherError {
    /// Network or HTTP failure.
    Http(reqwless::Error),
    /// The service answered with a status other than 2xx.
    HttpStatus(StatusCode),
    /// The body was not a forecast document.
    Json(serde_json::Error),
}

impl From<reqwless::Error> for WeatherError {
    fn from(e: reqwless::Error) -> (r: Self) {
        WeatherError::Http(e)
    }
}

impl vstd::std_specs::convert::FromSpecImpl<reqwless::Error> for WeatherError {
    open spec fn obeys_from_spec() -> bool {
        true
    }

    open spec fn from_spec(e: reqwless::Error) -> Self {
        WeatherError::Http(e)
    }
}

impl From<serde_json::Error> for WeatherError {
    fn from(e: serde_json::Error) -> (r: Self) {
        WeatherError::Json(e)
    }
}

impl vstd::std_specs::convert::FromSpecImpl<serde_json::Error> for WeatherError {
    open spec fn obeys_from_spec() -> bool {
        true
    }

    open spec fn from_spec(e: serde_json::Error) -> Self {
        WeatherError::Json(e)
    }
}

/// Whether an HTTP status code reports success (the 2xx class).
pub open spec fn is_success_status(code: u16) -> bool {
    200 <= code <= 299
}

/// The URL of the forecast request for `api_key`: the endpoint followed by
/// the key.
pub fn forecast_url(api_key: &str) -> (url: String)
    ensures
        url@ == FORECAST_ENDPOINT@ + api_key@,
{
    let mut url = String::from_str(FORECAST_ENDPOINT);
    url.append(api_key);
    url
}

/// The verdict on the status of the forecast response: `Ok` for a 2xx
/// status, otherwise `WeatherError::HttpStatus` carrying that status.
pub fn check_status(status: StatusCode) -> (res: Result<(), WeatherError>)
    ensures
        res is Ok <==> (200 <= status.0 && status.0 <= 299),
        res is Err ==> res == Err::<(), WeatherError>(WeatherError::HttpStatus(status)),
        res is Ok <==> is_success_status(status.0),
{
    if !status.is_successful() {
        return Err(WeatherError::HttpStatus(status));
    }
    Ok(())
}

/// Only the 2xx class reports success: informational (1xx), redirection
/// (3xx), client error (4xx, such as 403 for a refused key) and server error
/// (5xx) statuses are all failures.
pub proof fn lemma_only_2xx_is_success(code: u16)
    ensures
        is_success_status(code) <==> (200 <= code && code <= 299),
        code < 200 ==> !is_success_status(code),
        300 <= code ==> !is_success_status(code),
{
}

/// The key can be read back from the forecast URL: it is exactly what
/// follows the endpoint.
pub proof fn lemma_forecast_url_ends_with_key(url: Seq<char>, api_key: Seq<char>)
    requires
        url == FORECAST_ENDPOINT@ + api_key,
    ensures
        url.subrange(0, FORECAST_ENDPOINT@.len() as int) == FORECAST_ENDPOINT@,
        url.subrange(FORECAST_ENDPOINT@.len() as int, url.len() as int) == api_key,
{
    assert(url.subrange(0, FORECAST_ENDPOINT@.len() as int) =~= FORECAST_ENDPOINT@);
    assert(url.subrange(FORECAST_ENDPOINT@.len() as int, url.len() as int) =~= api_key);
}

} // verus!
