//! Errors emitted by the MetroHero API client, and the mapping from upstream
//! HTTP outcomes to this closed taxonomy.
use vstd::prelude::*;

verus! {

/// Errors relating to communication with the MetroHero API.
#[derive(Debug, PartialEq, Eq, Structural, Clone, Copy)]
pub enum MetroHeroError {
    /// Transport failure: the HTTP exchange itself failed (connect, timeout, TLS).
    HttpError,
    /// The response body did not match the expected schema.
    ParseError,
    /// Generic upstream rejection (HTTP 400) with no endpoint-specific meaning.
    InvalidRequest,
    /// A station code or name could not be resolved, or the upstream rejected a
    /// station identifier embedded in a request.
    InvalidStation,
    /// The upstream rejected a train identifier embedded in a request.
    InvalidTrainId,
    /// The upstream rejected a station pair as forming no valid itinerary.
    InvalidItinerary,
    /// The API key was rejected (HTTP 401).
    AuthenticationError,
    /// The upstream throttled the request (HTTP 503).
    RateLimited,
    /// The upstream answered with a status outside the documented set; the call
    /// is aborted rather than guessing a mapping.
    UnexpectedStatus,
}

impl MetroHeroError {
    /// The fixed human-readable message for each error kind.
    pub open spec fn spec_message(self) -> Seq<char> {
        match self {
            MetroHeroError::HttpError => "Error while communicating with MetroHero API"@,
            MetroHeroError::ParseError => "Error while parsing data from MetroHero API"@,
            MetroHeroError::InvalidRequest => "Request to MetroHero API was invalid"@,
            MetroHeroError::InvalidStation => "Provided station code or name is invalid"@,
            MetroHeroError::InvalidTrainId => "Provided Train ID is not valid"@,
            MetroHeroError::InvalidItinerary => "Provided itinerary is invalid"@,
            MetroHeroError::AuthenticationError => "Provided MetroHero API key is invalid"@,
            MetroHeroError::RateLimited => "Too many requests, limit is: 10/s and 50k/24hr"@,
            MetroHeroError::UnexpectedStatus => "Unexpected status received from the MetroHero API"@,
        }
    }

    /// The fixed human-readable message for this error.
    pub fn message(&self) -> (r: &'static str)
        ensures
            r@ == self.spec_message(),
    {
        match self {
            MetroHeroError::HttpError => "Error while communicating with MetroHero API",
            MetroHeroError::ParseError => "Error while parsing data from MetroHero API",
            MetroHeroError::InvalidRequest => "Request to MetroHero API was invalid",
            MetroHeroError::InvalidStation => "Provided station code or name is invalid",
            MetroHeroError::InvalidTrainId => "Provided Train ID is not valid",
            MetroHeroError::InvalidItinerary => "Provided itinerary is invalid",
            MetroHeroError::AuthenticationError => "Provided MetroHero API key is invalid",
            MetroHeroError::RateLimited => "Too many requests, limit is: 10/s and 50k/24hr",
            MetroHeroError::UnexpectedStatus => "Unexpected status received from the MetroHero API",
        }
    }
}

impl From<reqwest::Error> for MetroHeroError {
    /// Any transport-level failure is a `HttpError`.
    fn from(_e: reqwest::Error) -> (r: Self) {
        MetroHeroError::HttpError
    }
}

impl vstd::std_specs::convert::FromSpecImpl<reqwest::Error> for MetroHeroError {
    open spec fn obeys_from_spec() -> bool {
        true
    }

    open spec fn from_spec(_e: reqwest::Error) -> Self {
        MetroHeroError::HttpError
    }
}

impl From<serde_json::Error> for MetroHeroError {
    /// Any JSON deserialization failure is a `ParseError`.
    fn from(_e: serde_json::Error) -> (r: Self) {
        MetroHeroError::ParseError
    }
}

impl vstd::std_specs::convert::FromSpecImpl<serde_json::Error> for MetroHeroError {
    open spec fn obeys_from_spec() -> bool {
        true
    }

    open spec fn from_spec(_e: serde_json::Error) -> Self {
        MetroHeroError::ParseError
    }
}

/// The generic mapping from an upstream HTTP status to an error kind:
/// `None` for 200, a specific kind for 400, 401 and 503, and the fatal
/// `UnexpectedStatus` for everything else.
pub open spec fn spec_error_for_status(status: u16) -> Option<MetroHeroError> {
    if status == 200 {
        None
    } else if status == 400 {
        Some(MetroHeroError::InvalidRequest)
    } else if status == 401 {
        Some(MetroHeroError::AuthenticationError)
    } else if status == 503 {
        Some(MetroHeroError::RateLimited)
    } else {
        Some(MetroHeroError::UnexpectedStatus)
    }
}

/// Map an upstream HTTP status to the generic error taxonomy.
pub fn error_for_status(status: u16) -> (r: Option<MetroHeroError>)
    ensures
        r == spec_error_for_status(status),
{
    if status == 200 {
        None
    } else if status == 400 {
        Some(MetroHeroError::InvalidRequest)
    } else if status == 401 {
        Some(MetroHeroError::AuthenticationError)
    } else if status == 503 {
        Some(MetroHeroError::RateLimited)
    } else {
        Some(MetroHeroError::UnexpectedStatus)
    }
}

/// Endpoint-specific remap for station-scoped endpoints: a generic upstream
/// rejection there can only mean the station identifier was invalid.
pub open spec fn spec_remap_station_scoped(e: MetroHeroError) -> MetroHeroError {
    if e == MetroHeroError::InvalidRequest {
        MetroHeroError::InvalidStation
    } else {
        e
    }
}

/// Remap a generic rejection from a station-scoped endpoint to `InvalidStation`.
pub fn remap_station_scoped(e: MetroHeroError) -> (r: MetroHeroError)
    ensures
        r == spec_remap_station_scoped(e),
{
    if e == MetroHeroError::InvalidRequest {
        MetroHeroError::InvalidStation
    } else {
        e
    }
}

/// Endpoint-specific remap for trip-info lookups: a generic upstream rejection
/// there means the station pair forms no valid itinerary.
pub open spec fn spec_remap_trip(e: MetroHeroError) -> MetroHeroError {
    if e == MetroHeroError::InvalidRequest {
        MetroHeroError::InvalidItinerary
    } else {
        e
    }
}

/// Remap a generic rejection from the trip-info endpoint to `InvalidItinerary`.
pub fn remap_trip(e: MetroHeroError) -> (r: MetroHeroError)
    ensures
        r == spec_remap_trip(e),
{
    if e == MetroHeroError::InvalidRequest {
        MetroHeroError::InvalidItinerary
    } else {
        e
    }
}

/// Endpoint-specific remap for the by-train-id report lookup: a generic
/// upstream rejection there can only mean the train id was unknown.
pub open spec fn spec_remap_train_report(e: MetroHeroError) -> MetroHeroError {
    if e == MetroHeroError::InvalidRequest {
        MetroHeroError::InvalidTrainId
    } else {
        e
    }
}

/// Remap a generic rejection from the by-train-id report endpoint to
/// `InvalidTrainId`.
pub fn remap_train_report(e: MetroHeroError) -> (r: MetroHeroError)
    ensures
        r == spec_remap_train_report(e),
{
    if e == MetroHeroError::InvalidRequest {
        MetroHeroError::InvalidTrainId
    } else {
        e
    }
}

/// A 400 from a station-scoped endpoint yields `InvalidStation`, a 400 from the
/// by-train-id report endpoint yields `InvalidTrainId`, and a 400 from the
/// trip-info endpoint yields `InvalidItinerary` - never the generic
/// `InvalidRequest`.
pub proof fn lemma_endpoint_remaps_of_400()
    ensures
        spec_remap_station_scoped(spec_error_for_status(400).unwrap())
            == MetroHeroError::InvalidStation,
        spec_remap_train_report(spec_error_for_status(400).unwrap())
            == MetroHeroError::InvalidTrainId,
        spec_remap_trip(spec_error_for_status(400).unwrap())
            == MetroHeroError::InvalidItinerary,
{
}

/// A 401 yields `AuthenticationError` and a 503 yields `RateLimited`,
/// regardless of endpoint: the generic mapping produces them, and no
/// endpoint-specific remap changes them.
pub proof fn lemma_auth_and_rate_limit_uniform(e: MetroHeroError)
    ensures
        spec_error_for_status(401) == Some(MetroHeroError::AuthenticationError),
        spec_error_for_status(503) == Some(MetroHeroError::RateLimited),
        e == MetroHeroError::AuthenticationError ==> spec_remap_station_scoped(e) == e
            && spec_remap_train_report(e) == e && spec_remap_trip(e) == e,
        e == MetroHeroError::RateLimited ==> spec_remap_station_scoped(e) == e
            && spec_remap_train_report(e) == e && spec_remap_trip(e) == e,
{
}

} // verus!
