//! Where the weather comes from: choosing a provider, interpreting its
//! answers, and deciding when a failed fetch is tried again.
use vstd::prelude::*;
use vstd::string::StringExecFns;
use crate::text::{contains_seq, owned, str_contains};
use crate::pattern::{regex_matches, three_or_four_alphanumerics};
use crate::model::WeatherReport;

pub mod noaa_awc;
pub mod open_meteo;
pub mod owm_models;

verus! {

/// The service that a report is fetched from.
#[derive(PartialEq, Eq, Structural, Clone, Copy, Debug)]
pub enum WeatherApiProvider {
    OpenMeteo,
    NoaaAwc,
}

/// Why a report could not be fetched.
#[derive(Debug)]
pub enum WeatherApiError {
    /// An error that the service itself reported.
    ApiError(String),
    /// Any other failure, with its message.
    Other(String),
}

/// What a `WeatherApiError` holds.
pub enum ErrorView {
    ApiError(Seq<char>),
    Other(Seq<char>),
}

impl View for WeatherApiError {
    type V = ErrorView;

    open spec fn view(&self) -> ErrorView {
        match self {
            WeatherApiError::ApiError(m) => ErrorView::ApiError(m@),
            WeatherApiError::Other(m) => ErrorView::Other(m@),
        }
    }
}

/// The message shown for an error.
pub open spec fn error_text(e: ErrorView) -> Seq<char> {
    match e {
        ErrorView::ApiError(m) => "API Error: "@ + m,
        ErrorView::Other(m) => "Other Error: "@ + m,
    }
}

impl WeatherApiError {
    /// The message shown for this error.
    pub fn message(&self) -> (s: String)
        ensures
            s@ == error_text(self@),
    {
        let mut s = String::new();
        match self {
            WeatherApiError::ApiError(m) => {
                s.append("API Error: ");
                s.append(m.as_str());
            },
            WeatherApiError::Other(m) => {
                s.append("Other Error: ");
                s.append(m.as_str());
            },
        }
        s
    }
}

/// Whether `location` is taken for an aviation identifier: it matches the
/// aviation pattern and not the zip-code pattern, that is, it is three or
/// four ASCII letters or digits.
pub open spec fn looks_like_aviation_id(location: Seq<char>) -> bool {
    three_or_four_alphanumerics(location)
}

/// Whether a location names an aviation station (ICAO or FAA identifier)
/// rather than a zip code.
pub fn is_aviation_location(location: &str) -> (b: bool)
    ensures
        b == looks_like_aviation_id(location@),
{
    let aviation = regex_matches("^[a-zA-Z0-9]{3,4}$", location);
    let zip = regex_matches("^\\d{5}$", location);
    match (aviation, zip) {
        (Some(true), Some(true)) => false,
        (Some(true), _) => true,
        _ => false,
    }
}

/// The provider that actually serves a request: an aviation identifier is
/// sent to NOAA's Aviation Weather Center even when Open-Meteo was asked for.
pub open spec fn routed_provider(requested: WeatherApiProvider, aviation_id: bool) -> WeatherApiProvider {
    if requested == WeatherApiProvider::OpenMeteo && aviation_id {
        WeatherApiProvider::NoaaAwc
    } else {
        requested
    }
}

/// Decides `routed_provider`, given whether the location is an aviation
/// identifier.
pub fn route_provider(requested: WeatherApiProvider, aviation_id: bool) -> (p: WeatherApiProvider)
    ensures
        p == routed_provider(requested, aviation_id),
{
    match requested {
        WeatherApiProvider::OpenMeteo if aviation_id => WeatherApiProvider::NoaaAwc,
        p => p,
    }
}

/// The provider that serves a request for `location`.
pub fn select_provider(location: &str, requested: WeatherApiProvider) -> (p: WeatherApiProvider)
    ensures
        p == routed_provider(requested, looks_like_aviation_id(location@)),
{
    let aviation = is_aviation_location(location);
    route_provider(requested, aviation)
}

/// How many times a report is fetched at most.
pub const MAX_ATTEMPTS: u32 = 3;

/// What to do after an attempt to fetch a report.
#[derive(PartialEq, Eq, Structural, Clone, Copy, Debug)]
pub enum FetchStep {
    /// Hand the outcome to the caller.
    Finish,
    /// Wait a second and try again.
    RetryAfterPause,
}

/// Whether an error is one that trying again cannot mend: an unknown
/// location or a missing feature.
pub open spec fn is_final_error(e: ErrorView) -> bool {
    contains_seq(error_text(e), "No location found"@) || contains_seq(
        error_text(e),
        "not implemented"@,
    )
}

/// The step after attempt number `attempts` (counting from one) ended with
/// `outcome`: a report is handed over at once; an error is retried while
/// fewer than `MAX_ATTEMPTS` attempts have been made and trying again can
/// help.
pub open spec fn step_after(attempts: u32, outcome_ok: bool, error: ErrorView) -> FetchStep {
    if !outcome_ok && attempts < MAX_ATTEMPTS && !is_final_error(error) {
        FetchStep::RetryAfterPause
    } else {
        FetchStep::Finish
    }
}

/// Decides `is_final_error`.
pub fn error_is_final(e: &WeatherApiError) -> (b: bool)
    ensures
        b == is_final_error(e@),
{
    let m = e.message();
    str_contains(m.as_str(), "No location found") || str_contains(m.as_str(), "not implemented")
}

/// Decides what follows attempt number `attempts` of fetching a report.
pub fn next_fetch_step(attempts: u32, outcome: &Result<WeatherReport, WeatherApiError>) -> (step: FetchStep)
    ensures
        step == match outcome {
            Ok(_) => FetchStep::Finish,
            Err(e) => step_after(attempts, false, e@),
        },
        step == FetchStep::RetryAfterPause ==> attempts < MAX_ATTEMPTS,
{
    match outcome {
        Ok(_) => FetchStep::Finish,
        Err(e) => {
            if attempts < MAX_ATTEMPTS && !error_is_final(e) {
                FetchStep::RetryAfterPause
            } else {
                FetchStep::Finish
            }
        },
    }
}

/// What the IP geolocation service's answer means: its failure message, or
/// the zip code it located.
pub open spec fn ip_location_result(
    status: Option<Seq<char>>,
    message: Option<Seq<char>>,
    zip: Option<Seq<char>>,
) -> Result<Seq<char>, Seq<char>> {
    if status == Some("fail"@) {
        Err(
            "Failed to get location from IP: "@ + match message {
                Some(m) => m,
                None => "Unknown error"@,
            },
        )
    } else {
        match zip {
            Some(z) => Ok(z),
            None => Err("Could not find zip code in IP-API response."@),
        }
    }
}

/// Reads the zip code out of the IP geolocation service's answer, given its
/// `status`, `message` and `zip` fields (each present only when it is a
/// string).
pub fn location_from_ip_answer(
    status: Option<&str>,
    message: Option<&str>,
    zip: Option<&str>,
) -> (r: Result<String, String>)
    ensures
        match r {
            Ok(z) => Ok::<Seq<char>, Seq<char>>(z@),
            Err(m) => Err(m@),
        } == ip_location_result(
            match status {
                Some(s) => Some(s@),
                None => None,
            },
            match message {
                Some(s) => Some(s@),
                None => None,
            },
            match zip {
                Some(s) => Some(s@),
                None => None,
            },
        ),
{
    let failed = match status {
        Some(s) => crate::text::str_equal(s, "fail"),
        None => false,
    };
    if failed {
        let mut m = String::new();
        m.append("Failed to get location from IP: ");
        match message {
            Some(msg) => m.append(msg),
            None => m.append("Unknown error"),
        }
        return Err(m);
    }
    match zip {
        Some(z) => Ok(owned(z)),
        None => Err(owned("Could not find zip code in IP-API response.")),
    }
}

} // verus!
