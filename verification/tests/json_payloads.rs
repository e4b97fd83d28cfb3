use metrohero_rs::parse::{
    station_reports_from_json_str, train_predictions_from_json_str, train_reports_from_json_str,
};
use metrohero_rs::render::{
    station_reports_to_json_string, train_predictions_to_json_string, train_reports_to_json_string,
};
use metrohero_rs::schemas::Tweet;
use metrohero_rs::schemas::{StationTags, SystemMetricsResponse, TrainTags};
use metrohero_rs::{MetroHeroError, StationCode, TrainPrediction, TripInfo};

fn strip_nulls(v: serde_json::Value) -> serde_json::Value {
    match v {
        serde_json::Value::Object(m) => serde_json::Value::Object(
            m.into_iter()
                .filter(|(_, x)| !x.is_null())
                .map(|(k, x)| (k, strip_nulls(x)))
                .collect(),
        ),
        serde_json::Value::Array(a) => {
            serde_json::Value::Array(a.into_iter().map(strip_nulls).collect())
        }
        x => x,
    }
}

fn normalized(text: &str) -> serde_json::Value {
    strip_nulls(serde_json::from_str(text).unwrap())
}

fn assert_equivalent(fixture: &str, rendered: &str) {
    assert_eq!(normalized(fixture), normalized(rendered));
}

fn pred_json(train_id: &str, line: &str, min: &str, minutes_away: Option<f64>) -> String {
    let away = match minutes_away {
        Some(m) => format!("{m}"),
        None => String::from("null"),
    };
    let mut s = String::new();
    s.push_str(&format!(
        r#"{{"trainId":"{train_id}","realTrainId":"{train_id}R","Car":"8","#
    ));
    s.push_str(r#""Destination":"Glenmont","DestinationCode":"B11","#);
    s.push_str(&format!(
        r#""DestinationName":"Glenmont","Group":"1","Line":"{line}","#
    ));
    s.push_str(&format!(
        r#""LocationCode":"K04","LocationName":"Ballston-MU","Min":"{min}","#
    ));
    s.push_str(&format!(
        r#""minutesAway":{away},"maxMinutesAway":{away},"directionNumber":1,"#
    ));
    s.push_str(r#""isScheduled":false,"numPositiveTags":1,"numNegativeTags":0,"#);
    s.push_str(r#""trackNumber":2,"currentStationCode":"K05","#);
    s.push_str(r#""currentStationName":"East Falls Church","PreviousStationCode":"K06","#);
    s.push_str(r#""previousStationName":"West Falls Church-VT/UVA","#);
    s.push_str(r#""secondsSinceLastMoved":10,"isCurrentlyHoldingOrSlow":false,"#);
    s.push_str(r#""secondsOffSchedule":-45,"trainSpeed":25,"isNotOnRevenueTrack":false,"#);
    s.push_str(r#""isKeyedDown":false,"wasKeyedDown":false,"distanceFromNextStation":1200,"#);
    s.push_str(r#""lat":38.9,"lon":-77.1,"direction":1,"areDoorsOpenOnLeft":false,"#);
    s.push_str(r#""areDoorsOpenOnRight":true,"observedDate":"2022-07-01T12:00:00Z"}"#);
    s
}

fn station_preds_json() -> String {
    format!(
        "[{},{},{}]",
        pred_json("301", "OR", "ARR", Some(0.5)),
        pred_json("302", "SV", "4", Some(4.5)),
        pred_json("303", "OR", "6", Some(6.0))
    )
}

fn tweets_json() -> String {
    let mut s = String::new();
    s.push_str(r#"[{"twitterId":123456789,"twitterIdString":"123456789","userId":42,"#);
    s.push_str(r#""text":"Delays on the \"Orange\" line\nexpect crowding \\ backslash","#);
    s.push_str(r#""stationCodes":["K04","K05"],"lineCodes":["OR"],"#);
    s.push_str(r#""keywords":["delay"],"url":"https://example.invalid/1","#);
    s.push_str(r#""date":"2022-07-01 12:00:00"},"#);
    s.push_str(r#"{"twitterId":987654321,"twitterIdString":"987654321","userId":7,"#);
    s.push_str(r#""text":"All clear","stationCodes":[],"lineCodes":[],"keywords":[],"#);
    s.push_str(r#""url":"https://example.invalid/2","date":"2022-07-01 12:05:00"}]"#);
    s
}

fn trip_json() -> String {
    let mut s = String::new();
    s.push_str(r#"{"fromStationName":"Virginia Square-GMU","fromStationCode":"K03","#);
    s.push_str(r#""toStationName":"McPherson Square","toStationCode":"C02","#);
    s.push_str(r#""tripStationCodes":["K03","K02","K01","C05","C04","C03","C02"],"#);
    s.push_str(r#""lineCodes":["OR","SV"],"expectedRideTime":14.0,"#);
    s.push_str(r#""predictedRideTime":16.5,"timeSinceLastTrain":2.25,"#);
    s.push_str(&format!(r#""fromStationTrainStatuses":{},"#, station_preds_json()));
    s.push_str(r#""date":"2022-07-01 12:00:00","timeUntilNextTrain":3.5,"#);
    s.push_str(r#""metroAlerts":[{"description":"Orange Line: single tracking","#);
    s.push_str(r#""stationCodes":["K03"],"lineCodes":["OR"],"#);
    s.push_str(r#""keywords":["single tracking"],"date":"2022-07-01 11:00:00"}],"#);
    s.push_str(r#""metroAlertKeywords":["single tracking"]}"#);
    s
}

fn station_tags_json() -> String {
    let mut s = String::new();
    s.push_str(r#"{"numTagsByType":{"FRIENDLY_OR_HELPFUL_STAFF":1,"UNCOMFORTABLE_TEMPS":2,"#);
    s.push_str(r#""AMPLE_SECURITY":0,"BROKEN_ELEVATOR":1,"BROKEN_ESCALATOR":3,"CROWDED":4,"#);
    s.push_str(r#""EMPTY":0,"FREE_HAND_SANITIZER_AVAILABLE":0,"FREE_MASKS_AVAILABLE":0,"#);
    s.push_str(r#""LONG_WAITING_TIME":2,"NEEDS_WORK":1,"NO_FREE_HAND_SANITIZER":0,"#);
    s.push_str(r#""NO_FREE_MASKS":0,"POSTED_TIMES_INACCURATE":1,"SMOKE_OR_FIRE":0,"#);
    s.push_str(r#""UNFRIENDLY_OR_UNHELPFUL_STAFF":1},"numPositiveTags":1,"numNegativeTags":12}"#);
    s
}

fn train_tags_json() -> String {
    let mut s = String::new();
    s.push_str(r#"{"numTagsByType":{"BAD_OPERATOR":0,"ISOLATED_CARS":0,"NEW_TRAIN":2,"#);
    s.push_str(r#""BROKEN_INTERCOM":0,"CROWDED":1,"DISRUPTIVE_PASSENGER":0,"EMPTY":0,"#);
    s.push_str(r#""GOOD_OPERATOR":1,"GOOD_RIDE":3,"NEEDS_WORK":0,"RECENTLY_OFFLOADED":0,"#);
    s.push_str(r#""UNCOMFORTABLE_RIDE":0,"UNCOMFORTABLE_TEMPS":1,"WRONG_DESTINATION":0,"#);
    s.push_str(r#""WRONG_NUM_CARS":0},"numPositiveTags":6,"numNegativeTags":2}"#);
    s
}

fn direction_metrics_json(line: &str, direction_number: i64) -> String {
    let towards = if direction_number == 1 { "Glenmont" } else { "Shady Grove" };
    let direction = if direction_number == 1 { "Eastbound" } else { "Westbound" };
    let mut s = String::new();
    s.push_str(&format!(
        r#"{{"lineCode":"{line}","directionNumber":{direction_number},"direction":"{direction}","#
    ));
    s.push_str(&format!(
        r#""towardsStationName":"{towards}","date":"2022-07-01 12:00:00","#
    ));
    s.push_str(r#""numTrains":10,"numCars":68,"numEightCarTrains":4,"numDelayedTrains":1,"#);
    s.push_str(r#""expectedNumTrains":11,"averageTrainDelay":30,"medianTrainDelay":20,"#);
    s.push_str(r#""minimumTrainDelay":-15,"maximumTrainDelay":240,"#);
    s.push_str(r#""averageMinimumHeadways":6.0,"averageTrainFrequency":6.8,"#);
    s.push_str(r#""expectedTrainFrequency":6.0,"averagePlatformWaitTime":3.4,"#);
    s.push_str(r#""expectedPlatformWaitTime":3.0,"trainFrequencyStatus":"OK","#);
    s.push_str(r#""platformWaitTimeTrendStatus":"NEUTRAL","averageHeadwayAdherence":0.85,"#);
    s.push_str(r#""averageScheduleAdherence":0.9,"standardDeviationTrainFrequency":1.2,"#);
    s.push_str(r#""expectedStandardDeviationTrainFrequency":1.0}"#);
    s
}

fn line_metrics_json(line: &str) -> String {
    let mut s = String::new();
    s.push_str(&format!(r#"{{"lineCode":"{line}","serviceGaps":[{{"lineCode":"{line}","#));
    s.push_str(r#""directionNumber":1,"direction":"Eastbound","fromStationCode":"K04","#);
    s.push_str(r#""fromStationName":"Ballston-MU","toStationCode":"K05","#);
    s.push_str(r#""toStationName":"East Falls Church","fromTrainId":"301","#);
    s.push_str(r#""toTrainId":"302","timeBetweenTrains":14.5,"#);
    s.push_str(r#""scheduledTimeBetweenTrains":6.0,"observedDate":"2022-07-01 12:00:00"}],"#);
    s.push_str(&format!(
        r#""directionMetricsByDirection":{{"1":{},"2":{}}},"#,
        direction_metrics_json(line, 1),
        direction_metrics_json(line, 2)
    ));
    s.push_str(r#""date":"2022-07-01 12:00:00","numTrains":20,"numCars":136,"#);
    s.push_str(r#""numEightCarTrains":8,"numDelayedTrains":2,"expectedNumTrains":22,"#);
    s.push_str(r#""averageTrainDelay":25}"#);
    s
}

fn system_metrics_json() -> String {
    let mut s = String::new();
    s.push_str(&format!(r#"{{"lineMetricsByLine":{{"RD":{},"#, line_metrics_json("RD")));
    s.push_str(&format!(r#""OR":{},"SV":{},"#, line_metrics_json("OR"), line_metrics_json("SV")));
    s.push_str(&format!(r#""BL":{},"YL":{},"#, line_metrics_json("BL"), line_metrics_json("YL")));
    s.push_str(&format!(r#""GR":{}}},"date":"2022-07-01 12:00:00"}}"#, line_metrics_json("GR")));
    s
}

fn global_train_predictions_json() -> String {
    format!(
        "{{\"A01\":[{}],\"K05\":{}}}",
        pred_json("101", "RD", "BRD", Some(0.0)),
        station_preds_json()
    )
}

#[test]
fn tripinfo_round_trip() {
    let fixture = trip_json();
    let trip = TripInfo::from_json_str(&fixture).unwrap();
    assert_eq!(trip.from_station_code, StationCode::K03);
    assert_eq!(trip.to_station_code, StationCode::C02);
    assert_eq!(trip.from_station_train_statuses.len(), 3);
    assert_eq!(trip.expected_ride_time, "14.0");
    assert!(trip.tweets.is_none());
    assert_equivalent(&fixture, &trip.to_json_string());
}

#[test]
fn station_predictions_round_trip() {
    let fixture = station_preds_json();
    let preds = TrainPrediction::vec_from_json_str(&fixture).unwrap();
    assert_eq!(preds.len(), 3);
    assert_equivalent(&fixture, &TrainPrediction::vec_to_json_string(&preds));
}

#[test]
fn station_predictions_preserve_upstream_order() {
    // The upstream orders station-scoped predictions ascending by minutes
    // away; parsing must keep exactly that order, with no re-sorting.
    let preds = TrainPrediction::vec_from_json_str(&station_preds_json()).unwrap();
    let ids: Vec<&str> = preds.iter().map(|p| p.train_id.as_str()).collect();
    assert_eq!(ids, vec!["301", "302", "303"]);
    let minutes: Vec<f64> = preds
        .iter()
        .map(|p| p.minutes_away.as_ref().unwrap().parse::<f64>().unwrap())
        .collect();
    assert_eq!(minutes, vec![0.5, 4.5, 6.0]);
    assert!(minutes.windows(2).all(|w| w[0] <= w[1]));
}

#[test]
fn eta_tokens_format_minute_counts_and_keep_sentinels() {
    let preds = TrainPrediction::vec_from_json_str(&station_preds_json()).unwrap();
    let etas: Vec<String> = preds.iter().map(|p| p.eta_minutes()).collect();
    assert_eq!(etas, vec!["ARR", "4m", "6m"]);
    let more = TrainPrediction::vec_from_json_str(&format!(
        "[{},{},{}]",
        pred_json("1", "RD", "BRD", Some(0.0)),
        pred_json("2", "RD", "?", None),
        pred_json("3", "RD", "12:05", Some(1.0))
    ))
    .unwrap();
    assert_eq!(more[0].eta_minutes(), "BRD");
    assert_eq!(more[1].eta_minutes(), "?");
    assert_eq!(more[2].eta_minutes(), "12:05");
}

#[test]
fn tweets_round_trip_with_escaped_text() {
    let fixture = tweets_json();
    let tweets = Tweet::vec_from_json_str(&fixture).unwrap();
    assert_eq!(tweets.len(), 2);
    assert_eq!(
        tweets[0].text,
        "Delays on the \"Orange\" line\nexpect crowding \\ backslash"
    );
    assert_equivalent(&fixture, &Tweet::vec_to_json_string(&tweets));
}

#[test]
fn station_tags_round_trip() {
    let fixture = station_tags_json();
    let tags = StationTags::from_json_str(&fixture).unwrap();
    assert_eq!(tags.num_negative_tags, 12);
    assert_eq!(tags.num_tags_by_type.crowded, 4);
    assert_equivalent(&fixture, &tags.to_json_string());
}

#[test]
fn train_tags_round_trip() {
    let fixture = train_tags_json();
    let tags = TrainTags::from_json_str(&fixture).unwrap();
    assert_eq!(tags.num_positive_tags, 6);
    assert_eq!(tags.num_tags_by_type.good_ride, 3);
    assert_equivalent(&fixture, &tags.to_json_string());
}

#[test]
fn system_metrics_round_trip() {
    let fixture = system_metrics_json();
    let metrics = SystemMetricsResponse::from_json_str(&fixture).unwrap();
    assert_eq!(metrics.line_metrics_by_line.rd.num_trains, 20);
    assert_eq!(
        metrics.line_metrics_by_line.or.direction_metrics_by_direction.d1.minimum_train_delay,
        Some(-15)
    );
    assert_eq!(metrics.line_metrics_by_line.sv.average_minimum_headways, None);
    assert_equivalent(&fixture, &metrics.to_json_string());
}

#[test]
fn test_get_global_train_predictions() {
    let fixture = global_train_predictions_json();
    let preds = train_predictions_from_json_str(&fixture).unwrap();
    assert_eq!(preds.len(), 2);
    assert_equivalent(&fixture, &train_predictions_to_json_string(&preds));
}

#[test]
fn test_parse_global_station_reports() {
    let fixture = format!(
        "{{\"K01\":{},\"K05\":{}}}",
        station_tags_json(),
        station_tags_json()
    );
    let reports = station_reports_from_json_str(&fixture).unwrap();
    assert_eq!(reports.len(), 2);
    assert_equivalent(&fixture, &station_reports_to_json_string(&reports));
}

#[test]
fn global_train_reports_round_trip() {
    let fixture = format!(
        "{{\"123\":{},\"456\":{}}}",
        train_tags_json(),
        train_tags_json()
    );
    let reports = train_reports_from_json_str(&fixture).unwrap();
    assert_eq!(reports.len(), 2);
    assert_equivalent(&fixture, &train_reports_to_json_string(&reports));
}

#[test]
fn malformed_payloads_are_parse_errors() {
    assert_eq!(
        TripInfo::from_json_str("not json at all").unwrap_err(),
        MetroHeroError::ParseError
    );
    assert_eq!(TripInfo::from_json_str("[]").unwrap_err(), MetroHeroError::ParseError);
    // A required field with the wrong type is a schema mismatch.
    let bad = trip_json().replace(r#""expectedRideTime":14.0"#, r#""expectedRideTime":"soon""#);
    assert_eq!(TripInfo::from_json_str(&bad).unwrap_err(), MetroHeroError::ParseError);
    // A missing required field is a schema mismatch.
    let missing = trip_json().replace(r#""fromStationName":"Virginia Square-GMU","#, "");
    assert_eq!(
        TripInfo::from_json_str(&missing).unwrap_err(),
        MetroHeroError::ParseError
    );
    assert_eq!(
        TrainPrediction::vec_from_json_str("{}").unwrap_err(),
        MetroHeroError::ParseError
    );
    assert_eq!(
        train_reports_from_json_str("[1,2]").unwrap_err(),
        MetroHeroError::ParseError
    );
}

#[test]
fn explicit_null_optionals_read_as_absent() {
    let with_nulls = trip_json().replace(
        r#""timeUntilNextTrain":3.5,"#,
        r#""timeUntilNextTrain":null,"tweets":null,"#,
    );
    let trip = TripInfo::from_json_str(&with_nulls).unwrap();
    assert!(trip.time_until_next_train.is_none());
    assert!(trip.tweets.is_none());
    // Rendering writes absent optionals as null, which reads back as absent.
    let again = TripInfo::from_json_str(&trip.to_json_string()).unwrap();
    assert!(again.time_until_next_train.is_none());
}

#[test]
fn unrecognized_codes_in_payloads_read_as_sentinels() {
    let odd = station_preds_json()
        .replace(r#""currentStationCode":"K05""#, r#""currentStationCode":"ZZZ""#)
        .replace(r#""Line":"OR""#, r#""Line":"??""#);
    let preds = TrainPrediction::vec_from_json_str(&odd).unwrap();
    assert_eq!(preds[0].current_station_code, StationCode::UNKNOWN);
    assert_eq!(preds[0].line, metrohero_rs::LineCode::NonRevenue);
}
