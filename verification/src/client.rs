//! The API gateway: a client for requesting data from the MetroHero API.
//!
//! Each operation builds the request path for an already-resolved identifier,
//! performs one blocking GET, maps the HTTP outcome into the error taxonomy
//! (with the endpoint-specific remaps of generic rejections), and parses a
//! successful body into its typed payload.
use vstd::prelude::*;
use vstd::string::*;

use reqwest::blocking::Client;

use crate::errors::{
    error_for_status, remap_station_scoped, remap_train_report, remap_trip, MetroHeroError,
};
use crate::json::{spec_parsed_json, Json};
use crate::parse::{
    spec_obj_vals_station_reports, spec_obj_vals_train_predictions, spec_obj_vals_train_reports,
    spec_parse_pred_seq, spec_parse_station_tags, spec_parse_system_metrics_response,
    spec_parse_train_tags, spec_parse_trip_info, spec_parse_tweet_seq, spec_pred_arr_of,
    station_reports_from_json_str, train_predictions_from_json_str, train_reports_from_json_str,
};
use crate::schemas::{
    view_vec, StationReports, StationTags, SystemMetricsResponse, TrainPrediction,
    TrainPredictions, TrainReports, TrainTags, TripInfo, Tweet,
};
use crate::stations::StationCode;

verus! {

/// `reqwest`'s blocking client handle, opaque to the verifier.
#[verifier::external_type_specification]
#[verifier::external_body]
pub struct ExClient(Client);

/// `reqwest`'s error type; carried through, never inspected.
#[verifier::external_type_specification]
#[verifier::external_body]
pub struct ExReqwestError(reqwest::Error);

/// Whether every character of an API key can stand in an HTTP header value:
/// visible ASCII only.
pub open spec fn spec_valid_api_key(s: Seq<char>) -> bool {
    forall|i: int| 0 <= i < s.len() ==> 33 <= (#[trigger] s[i]) as int <= 126
}

/// Relies on `reqwest::blocking::ClientBuilder`: builds a blocking client
/// that sends the given key in the `apiKey` header and asks for JSON, with
/// TLS 1.2 as the minimum version. The key is visible ASCII, so building the
/// header cannot fail; if the TLS backend itself cannot be initialized, the
/// process aborts.
#[verifier::external_body]
fn build_client(api_key: &str, https_only: bool) -> Client
    requires
        spec_valid_api_key(api_key@),
{
    let mut headers = reqwest::header::HeaderMap::new();
    let key_value = reqwest::header::HeaderValue::from_str(api_key).unwrap();
    headers.insert("apiKey", key_value);
    let accept = reqwest::header::HeaderValue::from_static("application/json");
    headers.insert(reqwest::header::ACCEPT, accept);
    Client::builder()
        .default_headers(headers)
        .https_only(https_only)
        .min_tls_version(reqwest::tls::Version::TLS_1_2)
        .build()
        .unwrap()
}

/// Relies on `reqwest::blocking::Client::get` and `send`, and on
/// `Response::status` and `text`: one blocking GET exchange, yielding the
/// status code and body text of whatever the server answered, or the
/// transport error.
#[verifier::external_body]
fn http_get(client: &Client, url: &str) -> Result<(u16, String), reqwest::Error> {
    let response = client.get(url).send()?;
    let status = response.status().as_u16();
    let body = response.text()?;
    Ok((status, body))
}

/// The request path for a trip-info fetch between two stations.
pub open spec fn spec_trip_path(from: StationCode, to: StationCode) -> Seq<char> {
    "/metrorail/trips/"@ + from.spec_code_str() + "/"@ + to.spec_code_str()
}

/// Build the request path for a trip-info fetch.
pub fn trip_path(from: &StationCode, to: &StationCode) -> (r: String)
    ensures
        r@ == spec_trip_path(*from, *to),
{
    let mut path = String::from_str("/metrorail/trips/");
    path.append(from.code_str());
    path.append("/");
    path.append(to.code_str());
    path
}

/// The request path for the by-train-id report fetch.
pub open spec fn spec_train_report_path(train_id: Seq<char>) -> Seq<char> {
    "/metrorail/trains/"@ + train_id + "/tags"@
}

/// Build the request path for a by-train-id report fetch.
pub fn train_report_path(train_id: &str) -> (r: String)
    ensures
        r@ == spec_train_report_path(train_id@),
{
    let mut path = String::from_str("/metrorail/trains/");
    path.append(train_id);
    path.append("/tags");
    path
}

/// The request path for a station-scoped train-prediction fetch, asking for
/// scheduled predictions alongside live ones.
pub open spec fn spec_station_predictions_path(c: StationCode) -> Seq<char> {
    "/metrorail/stations/"@ + c.spec_code_str() + "/trains?includeScheduledPredictions=true"@
}

/// Build the request path for a station-scoped train-prediction fetch.
pub fn station_predictions_path(c: &StationCode) -> (r: String)
    ensures
        r@ == spec_station_predictions_path(*c),
{
    let mut path = String::from_str("/metrorail/stations/");
    path.append(c.code_str());
    path.append("/trains?includeScheduledPredictions=true");
    path
}

/// The request path for a station-scoped report fetch.
pub open spec fn spec_station_report_path(c: StationCode) -> Seq<char> {
    "/metrorail/stations/"@ + c.spec_code_str() + "/tags"@
}

/// Build the request path for a station-scoped report fetch.
pub fn station_report_path(c: &StationCode) -> (r: String)
    ensures
        r@ == spec_station_report_path(*c),
{
    let mut path = String::from_str("/metrorail/stations/");
    path.append(c.code_str());
    path.append("/tags");
    path
}

/// A client for requesting data from the MetroHero API. It holds only the
/// HTTP client handle and the base URL; both are read-only after
/// construction, and every operation is one independent blocking call.
pub struct MetroHeroClient {
    http_client: Client,
    api_url_base: String,
}

impl MetroHeroClient {
    /// The base URL this client targets: every request path is appended to
    /// it, and it never changes after construction.
    pub closed spec fn spec_base_url(self) -> Seq<char> {
        self.api_url_base@
    }

    /// Instantiate a new client for the production MetroHero endpoint,
    /// enforcing HTTPS. The key must be visible ASCII, as anything else
    /// cannot stand in an HTTP header.
    pub fn new(api_key: String) -> (r: Self)
        requires
            spec_valid_api_key(api_key@),
        ensures
            r.spec_base_url() == "https://dcmetrohero.com/api/v1"@,
    {
        let client = build_client(api_key.as_str(), true);
        MetroHeroClient {
            http_client: client,
            api_url_base: String::from_str("https://dcmetrohero.com/api/v1"),
        }
    }

    /// Instantiate a client against a caller-chosen base URL without the
    /// HTTPS requirement, for exercising the gateway against a local server.
    pub fn with_base_url(api_key: String, base_url: String) -> (r: Self)
        requires
            spec_valid_api_key(api_key@),
        ensures
            r.spec_base_url() == base_url@,
    {
        let client = build_client(api_key.as_str(), false);
        MetroHeroClient { http_client: client, api_url_base: base_url }
    }

    /// Send one GET request to the MetroHero API and map the HTTP outcome:
    /// the body on 200, and otherwise exactly the error the status table
    /// prescribes, or `HttpError` for a transport failure.
    fn send_request(&self, path: &str) -> (r: Result<String, MetroHeroError>)
        ensures
            r matches Err(e) ==> (e == MetroHeroError::HttpError || e
                == MetroHeroError::InvalidRequest || e == MetroHeroError::AuthenticationError || e
                == MetroHeroError::RateLimited || e == MetroHeroError::UnexpectedStatus),
    {
        let mut url = self.api_url_base.clone();
        url.append(path);
        match http_get(&self.http_client, url.as_str()) {
            Err(e) => Err(MetroHeroError::from(e)),
            Ok((status, body)) => match error_for_status(status) {
                None => Ok(body),
                Some(e) => Err(e),
            },
        }
    }

    /// Gets real-time system-wide metrics, broken down by line and direction
    /// of travel. On success the payload is exactly a parsed upstream
    /// document; the error, when one comes, is from the generic status table.
    pub fn get_system_metrics(&self) -> (r: Result<SystemMetricsResponse, MetroHeroError>)
        ensures
            r matches Ok(m) ==> exists|body: Seq<char>|
                (#[trigger] spec_parsed_json(body)) matches Some(j)
                    && spec_parse_system_metrics_response(j) == Some(m@),
            r matches Err(e) ==> (e == MetroHeroError::HttpError || e == MetroHeroError::ParseError
                || e == MetroHeroError::InvalidRequest || e == MetroHeroError::AuthenticationError
                || e == MetroHeroError::RateLimited || e == MetroHeroError::UnexpectedStatus),
    {
        match self.send_request("/metrorail/metrics") {
            Ok(body) => SystemMetricsResponse::from_json_str(body.as_str()),
            Err(e) => Err(e),
        }
    }

    /// Gets real-time trip information for an already-resolved station pair.
    /// A generic upstream rejection here means the pair forms no valid
    /// itinerary, so it surfaces as `InvalidItinerary` - never as
    /// `InvalidStation` or the generic `InvalidRequest`.
    pub fn get_trip_info(
        &self,
        from_station_code: &StationCode,
        to_station_code: &StationCode,
    ) -> (r: Result<TripInfo, MetroHeroError>)
        ensures
            r matches Ok(t) ==> exists|body: Seq<char>|
                (#[trigger] spec_parsed_json(body)) matches Some(j) && spec_parse_trip_info(j)
                    == Some(t@),
            r matches Err(e) ==> (e == MetroHeroError::HttpError || e == MetroHeroError::ParseError
                || e == MetroHeroError::InvalidItinerary || e
                == MetroHeroError::AuthenticationError || e == MetroHeroError::RateLimited || e
                == MetroHeroError::UnexpectedStatus),
    {
        let path = trip_path(from_station_code, to_station_code);
        match self.send_request(path.as_str()) {
            Ok(body) => TripInfo::from_json_str(body.as_str()),
            Err(e) => Err(remap_trip(e)),
        }
    }

    /// Gets the last half hour of Metrorail-related tweets.
    pub fn get_tweets(&self) -> (r: Result<Vec<Tweet>, MetroHeroError>)
        ensures
            r matches Ok(v) ==> exists|body: Seq<char>|
                (#[trigger] spec_parsed_json(body)) matches Some(Json::Arr(a))
                    && spec_parse_tweet_seq(a) == Some(view_vec(v)),
            r matches Err(e) ==> (e == MetroHeroError::HttpError || e == MetroHeroError::ParseError
                || e == MetroHeroError::InvalidRequest || e == MetroHeroError::AuthenticationError
                || e == MetroHeroError::RateLimited || e == MetroHeroError::UnexpectedStatus),
    {
        match self.send_request("/metrorail/tweets") {
            Ok(body) => Tweet::vec_from_json_str(body.as_str()),
            Err(e) => Err(e),
        }
    }

    /// Gets real-time train predictions for the entire Metrorail system; the
    /// upstream documents no ordering for them, and none is assumed.
    pub fn get_train_positions(&self) -> (r: Result<Vec<TrainPrediction>, MetroHeroError>)
        ensures
            r matches Ok(v) ==> exists|body: Seq<char>|
                (#[trigger] spec_parsed_json(body)) matches Some(Json::Arr(a))
                    && spec_parse_pred_seq(a) == Some(view_vec(v)),
            r matches Err(e) ==> (e == MetroHeroError::HttpError || e == MetroHeroError::ParseError
                || e == MetroHeroError::InvalidRequest || e == MetroHeroError::AuthenticationError
                || e == MetroHeroError::RateLimited || e == MetroHeroError::UnexpectedStatus),
    {
        match self.send_request("/metrorail/trains") {
            Ok(body) => TrainPrediction::vec_from_json_str(body.as_str()),
            Err(e) => Err(e),
        }
    }

    /// Gets real-time rider reports, referred to as tags, for all trains.
    pub fn get_train_reports(&self) -> (r: Result<TrainReports, MetroHeroError>)
        ensures
            r matches Ok(es) ==> exists|body: Seq<char>|
                (#[trigger] spec_parsed_json(body)) matches Some(Json::Obj(m))
                    && spec_obj_vals_train_reports(m) && (forall|a: int, b: int|
                    0 <= a < b < es@.len() ==> (#[trigger] es@[a]).0@ != (
                #[trigger] es@[b]).0@) && (forall|a: int|
                    0 <= a < es@.len() ==> m.contains_key((#[trigger] es@[a]).0@) && spec_parse_train_tags(
                        m[es@[a].0@],
                    ) == Some((es@[a].1)@)) && (forall|k: Seq<char>|
                    #[trigger] m.contains_key(k) ==> exists|a: int|
                        0 <= a < es@.len() && (#[trigger] es@[a]).0@ == k),
            r matches Err(e) ==> (e == MetroHeroError::HttpError || e == MetroHeroError::ParseError
                || e == MetroHeroError::InvalidRequest || e == MetroHeroError::AuthenticationError
                || e == MetroHeroError::RateLimited || e == MetroHeroError::UnexpectedStatus),
    {
        match self.send_request("/metrorail/trains/tags") {
            Ok(body) => train_reports_from_json_str(body.as_str()),
            Err(e) => Err(e),
        }
    }

    /// Gets real-time rider reports about a particular train. A generic
    /// upstream rejection here can only mean the train id was unknown, so it
    /// surfaces as `InvalidTrainId` - never as the generic `InvalidRequest`.
    pub fn get_train_report(&self, train_id: String) -> (r: Result<TrainTags, MetroHeroError>)
        ensures
            r matches Err(e) ==> (e == MetroHeroError::HttpError || e == MetroHeroError::ParseError
                || e == MetroHeroError::InvalidTrainId || e == MetroHeroError::AuthenticationError
                || e == MetroHeroError::RateLimited || e == MetroHeroError::UnexpectedStatus),
    {
        let path = train_report_path(train_id.as_str());
        match self.send_request(path.as_str()) {
            Ok(body) => TrainTags::from_json_str(body.as_str()),
            Err(e) => Err(remap_train_report(e)),
        }
    }

    /// Gets real-time and scheduled train predictions for all stations.
    pub fn get_train_predictions(&self) -> (r: Result<TrainPredictions, MetroHeroError>)
        ensures
            r matches Ok(es) ==> exists|body: Seq<char>|
                (#[trigger] spec_parsed_json(body)) matches Some(Json::Obj(m))
                    && spec_obj_vals_train_predictions(m) && (forall|a: int, b: int|
                    0 <= a < b < es@.len() ==> (#[trigger] es@[a]).0@ != (
                #[trigger] es@[b]).0@) && (forall|a: int|
                    0 <= a < es@.len() ==> m.contains_key((#[trigger] es@[a]).0@) && spec_pred_arr_of(
                        m[es@[a].0@],
                    ) == Some(view_vec(es@[a].1))) && (forall|k: Seq<char>|
                    #[trigger] m.contains_key(k) ==> exists|a: int|
                        0 <= a < es@.len() && (#[trigger] es@[a]).0@ == k),
            r matches Err(e) ==> (e == MetroHeroError::HttpError || e == MetroHeroError::ParseError
                || e == MetroHeroError::InvalidRequest || e == MetroHeroError::AuthenticationError
                || e == MetroHeroError::RateLimited || e == MetroHeroError::UnexpectedStatus),
    {
        match self.send_request("/metrorail/stations/trains") {
            Ok(body) => train_predictions_from_json_str(body.as_str()),
            Err(e) => Err(e),
        }
    }

    /// Gets real-time and scheduled train predictions for a particular
    /// station. On success the rows are exactly the upstream payload in
    /// upstream order, which the upstream guarantees to be ascending by
    /// minutes away; nothing is re-sorted. A generic upstream rejection here
    /// can only mean the station identifier was invalid, so it surfaces as
    /// `InvalidStation` - never as the generic `InvalidRequest`.
    pub fn get_station_train_predictions(&self, station_code: &StationCode) -> (r: Result<
        Vec<TrainPrediction>,
        MetroHeroError,
    >)
        ensures
            r matches Ok(v) ==> exists|body: Seq<char>|
                (#[trigger] spec_parsed_json(body)) matches Some(Json::Arr(a))
                    && spec_parse_pred_seq(a) == Some(view_vec(v)),
            r matches Err(e) ==> (e == MetroHeroError::HttpError || e == MetroHeroError::ParseError
                || e == MetroHeroError::InvalidStation || e == MetroHeroError::AuthenticationError
                || e == MetroHeroError::RateLimited || e == MetroHeroError::UnexpectedStatus),
    {
        let path = station_predictions_path(station_code);
        match self.send_request(path.as_str()) {
            Ok(body) => TrainPrediction::vec_from_json_str(body.as_str()),
            Err(e) => Err(remap_station_scoped(e)),
        }
    }

    /// Gets real-time rider reports, referred to as tags, for all stations.
    pub fn get_station_reports(&self) -> (r: Result<StationReports, MetroHeroError>)
        ensures
            r matches Ok(es) ==> exists|body: Seq<char>|
                (#[trigger] spec_parsed_json(body)) matches Some(Json::Obj(m))
                    && spec_obj_vals_station_reports(m) && (forall|a: int, b: int|
                    0 <= a < b < es@.len() ==> (#[trigger] es@[a]).0@ != (
                #[trigger] es@[b]).0@) && (forall|a: int|
                    0 <= a < es@.len() ==> m.contains_key((#[trigger] es@[a]).0@) && spec_parse_station_tags(
                        m[es@[a].0@],
                    ) == Some((es@[a].1)@)) && (forall|k: Seq<char>|
                    #[trigger] m.contains_key(k) ==> exists|a: int|
                        0 <= a < es@.len() && (#[trigger] es@[a]).0@ == k),
            r matches Err(e) ==> (e == MetroHeroError::HttpError || e == MetroHeroError::ParseError
                || e == MetroHeroError::InvalidRequest || e == MetroHeroError::AuthenticationError
                || e == MetroHeroError::RateLimited || e == MetroHeroError::UnexpectedStatus),
    {
        match self.send_request("/metrorail/stations/tags") {
            Ok(body) => station_reports_from_json_str(body.as_str()),
            Err(e) => Err(e),
        }
    }

    /// Gets real-time rider reports about a particular station. A generic
    /// upstream rejection here can only mean the station code was invalid, so
    /// it surfaces as `InvalidStation` - never as the generic
    /// `InvalidRequest`.
    pub fn get_station_report(&self, station_code: &StationCode) -> (r: Result<
        StationTags,
        MetroHeroError,
    >)
        ensures
            r matches Err(e) ==> (e == MetroHeroError::HttpError || e == MetroHeroError::ParseError
                || e == MetroHeroError::InvalidStation || e == MetroHeroError::AuthenticationError
                || e == MetroHeroError::RateLimited || e == MetroHeroError::UnexpectedStatus),
    {
        let path = station_report_path(station_code);
        match self.send_request(path.as_str()) {
            Ok(body) => StationTags::from_json_str(body.as_str()),
            Err(e) => Err(remap_station_scoped(e)),
        }
    }
}

} // verus!
