// The gateway's observable behaviour is the request path it asks for and the
// mapping from the HTTP outcome to the error taxonomy; both are exercised
// here directly, since the test harness offers no network, loopback included.
use metrohero_rs::client::{
    station_predictions_path, station_report_path, train_report_path, trip_path,
};
use metrohero_rs::errors::{
    error_for_status, remap_station_scoped, remap_train_report, remap_trip,
};
use metrohero_rs::parse::{station_reports_from_json_str, train_predictions_from_json_str};
use metrohero_rs::schemas::{StationTags, SystemMetricsResponse, Tweet};
use metrohero_rs::{MetroHeroClient, MetroHeroError, StationCode, TrainPrediction, TripInfo};

fn gw_pred_json(train_id: &str, line: &str, min: &str, minutes_away: &str) -> String {
    let mut s = String::new();
    s.push_str(&format!(
        r#"{{"trainId":"{train_id}","realTrainId":"{train_id}R","Car":"8","#
    ));
    s.push_str(r#""Destination":"Glenmont","DestinationCode":"B11","#);
    s.push_str(&format!(
        r#""DestinationName":"Glenmont","Group":"1","Line":"{line}","#
    ));
    s.push_str(&format!(
        r#""LocationCode":"K04","LocationName":"Ballston-MU","Min":"{min}","#
    ));
    s.push_str(&format!(
        r#""minutesAway":{minutes_away},"maxMinutesAway":{minutes_away},"directionNumber":1,"#
    ));
    s.push_str(r#""isScheduled":false,"numPositiveTags":1,"numNegativeTags":0,"#);
    s.push_str(r#""trackNumber":2,"currentStationCode":"K05","#);
    s.push_str(r#""currentStationName":"East Falls Church","secondsSinceLastMoved":10,"#);
    s.push_str(r#""isCurrentlyHoldingOrSlow":false,"secondsOffSchedule":-45,"#);
    s.push_str(r#""isNotOnRevenueTrack":false,"isKeyedDown":false,"wasKeyedDown":false,"#);
    s.push_str(r#""observedDate":"2022-07-01T12:00:00Z"}"#);
    s
}

fn gw_station_preds_json() -> String {
    format!(
        "[{},{},{}]",
        gw_pred_json("301", "OR", "ARR", "0.5"),
        gw_pred_json("302", "SV", "4", "4.5"),
        gw_pred_json("303", "OR", "6", "6")
    )
}

fn gw_trip_json() -> String {
    let mut s = String::new();
    s.push_str(r#"{"fromStationName":"Court House","fromStationCode":"K01","#);
    s.push_str(r#""toStationName":"Clarendon","toStationCode":"K02","#);
    s.push_str(r#""tripStationCodes":["K01","K02"],"#);
    s.push_str(r#""lineCodes":["OR","SV"],"expectedRideTime":2.0,"#);
    s.push_str(r#""predictedRideTime":2.5,"timeSinceLastTrain":1.0,"#);
    s.push_str(&format!(
        r#""fromStationTrainStatuses":{},"#,
        gw_station_preds_json()
    ));
    s.push_str(r#""date":"2022-07-01 12:00:00"}"#);
    s
}

fn gw_station_tags_json() -> String {
    let mut s = String::new();
    s.push_str(r#"{"numTagsByType":{"FRIENDLY_OR_HELPFUL_STAFF":1,"UNCOMFORTABLE_TEMPS":2,"#);
    s.push_str(r#""AMPLE_SECURITY":0,"BROKEN_ELEVATOR":1,"BROKEN_ESCALATOR":3,"CROWDED":4,"#);
    s.push_str(r#""EMPTY":0,"FREE_HAND_SANITIZER_AVAILABLE":0,"FREE_MASKS_AVAILABLE":0,"#);
    s.push_str(r#""LONG_WAITING_TIME":2,"NEEDS_WORK":1,"NO_FREE_HAND_SANITIZER":0,"#);
    s.push_str(r#""NO_FREE_MASKS":0,"POSTED_TIMES_INACCURATE":1,"SMOKE_OR_FIRE":0,"#);
    s.push_str(r#""UNFRIENDLY_OR_UNHELPFUL_STAFF":1},"numPositiveTags":1,"numNegativeTags":12}"#);
    s
}

fn gw_direction_metrics_json(line: &str, direction_number: i64) -> String {
    let mut s = String::new();
    s.push_str(&format!(
        r#"{{"lineCode":"{line}","directionNumber":{direction_number},"direction":"East","#
    ));
    s.push_str(r#""towardsStationName":"Glenmont","date":"2022-07-01 12:00:00","#);
    s.push_str(r#""numTrains":10,"numCars":68,"numEightCarTrains":4,"numDelayedTrains":1,"#);
    s.push_str(r#""expectedNumTrains":11}"#);
    s
}

fn gw_line_metrics_json(line: &str) -> String {
    let mut s = String::new();
    s.push_str(&format!(r#"{{"lineCode":"{line}","serviceGaps":[],"#));
    s.push_str(&format!(
        r#""directionMetricsByDirection":{{"1":{},"2":{}}},"#,
        gw_direction_metrics_json(line, 1),
        gw_direction_metrics_json(line, 2)
    ));
    s.push_str(r#""date":"2022-07-01 12:00:00","numTrains":20,"numCars":136,"#);
    s.push_str(r#""numEightCarTrains":8,"numDelayedTrains":2,"expectedNumTrains":22}"#);
    s
}

fn gw_system_metrics_json() -> String {
    let mut s = String::new();
    s.push_str(&format!(
        r#"{{"lineMetricsByLine":{{"RD":{},"#,
        gw_line_metrics_json("RD")
    ));
    s.push_str(&format!(
        r#""OR":{},"SV":{},"#,
        gw_line_metrics_json("OR"),
        gw_line_metrics_json("SV")
    ));
    s.push_str(&format!(
        r#""BL":{},"YL":{},"#,
        gw_line_metrics_json("BL"),
        gw_line_metrics_json("YL")
    ));
    s.push_str(&format!(
        r#""GR":{}}},"date":"2022-07-01 12:00:00"}}"#,
        gw_line_metrics_json("GR")
    ));
    s
}

fn gw_tweets_json() -> String {
    let mut s = String::new();
    s.push_str(r#"[{"twitterId":123456789,"twitterIdString":"123456789","userId":42,"#);
    s.push_str(r#""text":"All clear","stationCodes":[],"lineCodes":[],"keywords":[],"#);
    s.push_str(r#""url":"https://example.invalid/1","date":"2022-07-01 12:00:00"}]"#);
    s
}

#[test]
fn test_get_station_train_predictions_invalid() {
    // The fetch for the sentinel station asks this exact path; a 400 from the
    // station-scoped endpoint surfaces as InvalidStation.
    assert_eq!(
        station_predictions_path(&StationCode::UNKNOWN),
        "/metrorail/stations/UNKNOWN/trains?includeScheduledPredictions=true"
    );
    let err = remap_station_scoped(error_for_status(400).unwrap());
    assert_eq!(err, MetroHeroError::InvalidStation);
}

#[test]
fn test_get_tripinfo() {
    assert_eq!(
        trip_path(&StationCode::K01, &StationCode::K02),
        "/metrorail/trips/K01/K02"
    );
    TripInfo::from_json_str(&gw_trip_json()).unwrap();
}

#[test]
fn test_get_tripinfo_invalid() {
    assert_eq!(
        trip_path(&StationCode::UNKNOWN, &StationCode::UNKNOWN),
        "/metrorail/trips/UNKNOWN/UNKNOWN"
    );
    // A 400 from the trip-info endpoint surfaces as InvalidItinerary - never
    // as InvalidStation or the generic InvalidRequest.
    let error = remap_trip(error_for_status(400).unwrap());
    assert_eq!(error, MetroHeroError::InvalidItinerary);
    assert_ne!(error, MetroHeroError::InvalidStation);
    assert_ne!(error, MetroHeroError::InvalidRequest);
}

#[test]
fn test_get_system_metrics() {
    SystemMetricsResponse::from_json_str(&gw_system_metrics_json()).unwrap();
}

#[test]
fn test_get_tweets() {
    Tweet::vec_from_json_str(&gw_tweets_json()).unwrap();
}

#[test]
fn test_get_train_positions() {
    TrainPrediction::vec_from_json_str(&gw_station_preds_json()).unwrap();
}

#[test]
fn test_get_train_report_invalid() {
    assert_eq!(train_report_path("123"), "/metrorail/trains/123/tags");
    // A 400 from the by-train-id report endpoint surfaces as InvalidTrainId.
    let error = remap_train_report(error_for_status(400).unwrap());
    assert_eq!(error, MetroHeroError::InvalidTrainId);
}

#[test]
fn test_get_train_predictions() {
    let body = format!(
        "{{\"A01\":[{}],\"K05\":{}}}",
        gw_pred_json("101", "RD", "BRD", "0"),
        gw_station_preds_json()
    );
    train_predictions_from_json_str(&body).unwrap();
}

#[test]
fn test_get_station_train_predictions() {
    assert_eq!(
        station_predictions_path(&StationCode::K01),
        "/metrorail/stations/K01/trains?includeScheduledPredictions=true"
    );
    TrainPrediction::vec_from_json_str(&gw_station_preds_json()).unwrap();
}

#[test]
fn test_get_station_reports() {
    let body = format!(
        "{{\"K01\":{},\"K05\":{}}}",
        gw_station_tags_json(),
        gw_station_tags_json()
    );
    station_reports_from_json_str(&body).unwrap();
}

#[test]
fn test_get_station_report() {
    assert_eq!(station_report_path(&StationCode::K05), "/metrorail/stations/K05/tags");
    StationTags::from_json_str(&gw_station_tags_json()).unwrap();
}

#[test]
fn test_get_station_report_invalid() {
    assert_eq!(
        station_report_path(&StationCode::UNKNOWN),
        "/metrorail/stations/UNKNOWN/tags"
    );
    let err = remap_station_scoped(error_for_status(400).unwrap());
    assert_eq!(err, MetroHeroError::InvalidStation);
}

#[test]
fn transport_failures_surface_as_http_errors() {
    // Nothing can be reached from here, so the exchange itself fails and the
    // gateway reports the transport error kind.
    let client = MetroHeroClient::with_base_url(
        String::from("METROHERO_API_KEY"),
        String::from("http://127.0.0.1:9"),
    );
    assert_eq!(client.get_tweets().unwrap_err(), MetroHeroError::HttpError);
}

#[test]
fn end_to_end_gmu_departures() {
    // Resolving the alias "GMU" yields Virginia Square; the fetch for it asks
    // the station-scoped path for K03, and the payload's three departures
    // come back in upstream order, with minute counts formatted as "<n>m"
    // and arrival sentinels kept unmodified.
    let station = StationCode::resolve("GMU").unwrap();
    assert_eq!(station, StationCode::K03);
    assert_eq!(
        station_predictions_path(&station),
        "/metrorail/stations/K03/trains?includeScheduledPredictions=true"
    );
    let departures = TrainPrediction::vec_from_json_str(&gw_station_preds_json()).unwrap();
    assert_eq!(departures.len(), 3);
    let ids: Vec<&str> = departures.iter().map(|p| p.train_id.as_str()).collect();
    assert_eq!(ids, vec!["301", "302", "303"]);
    let etas: Vec<String> = departures.iter().map(|p| p.eta_minutes()).collect();
    assert_eq!(etas, vec!["ARR", "4m", "6m"]);
}
