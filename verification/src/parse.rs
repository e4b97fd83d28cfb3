//! Verified parsing of upstream JSON payloads into the schema types.
//!
//! Each parser takes a JSON document (through its mathematical model) and
//! either yields a value whose view is exactly what the model prescribes,
//! or rejects the document; the `from_json_str` entry points state the same
//! over the parsed text. Elements of arrays are read and kept in the order
//! the upstream sent them.
use vstd::prelude::*;

use serde_json::Value;

use crate::errors::MetroHeroError;
use crate::json::{
    as_array_w, as_str_w, get_w, is_null_w, is_obj_w, json_of, obj_entries_w, obj_get,
    opt_bool, opt_i64, opt_num, opt_str, parse_json, req_bool, req_i64, req_num, req_str,
    spec_opt_bool, spec_opt_i64, spec_opt_num, spec_opt_str, spec_parsed_json, spec_req_bool,
    spec_req_i64, spec_req_num, spec_req_str, Json,
};
use crate::lines::LineCode;
use crate::stations::StationCode;
use crate::schemas::{
    AbridgedTweet, AbridgedTweetV, DirectionMetrics, DirectionMetricsByDirection, 
    DirectionMetricsByDirectionV, DirectionMetricsV, ElevatorEscalatorOutage, 
    ElevatorEscalatorOutageV, LineMetrics, LineMetricsV, MetroAlert, MetroAlertV, 
    NumStationTagsByType, NumStationTagsByTypeV, NumTrainTagsByType, NumTrainTagsByTypeV, 
    RecentTweets, RecentTweetsV, ServiceGaps, ServiceGapsV, StationReports, StationTags, 
    StationTagsV, SystemMetrics, SystemMetricsResponse, SystemMetricsResponseV, SystemMetricsV, 
    TrainPrediction, TrainPredictionV, TrainPredictions, TrainReports, TrainTags, TrainTagsV, 
    TripInfo, TripInfoV, Tweet, TweetV, view_opt, view_opt_string, view_opt_vec, 
    view_opt_vec_string, view_vec, view_vec_string,
};

verus! {

/// How a JSON document is read as a station code: a string reads as the
/// code it names (the sentinel for unrecognized ones), anything else is a
/// schema mismatch.
pub open spec fn spec_station_of(j: Json) -> Option<StationCode> {
    match j {
        Json::Str(s) => Some(StationCode::spec_from_json_str(s)),
        _ => None,
    }
}

/// Read a JSON document as a station code.
fn station_of(v: &Value) -> (r: Option<StationCode>)
    ensures
        r == spec_station_of(json_of(*v)),
{
    match as_str_w(v) {
        Some(s) => Some(StationCode::from_json_str(s)),
        None => None,
    }
}

/// A station code written as its own code string always reads back as that
/// very code, the sentinel included: no real code's string is swallowed by
/// the sentinel fallback.
#[verifier::rlimit(100)]
pub proof fn lemma_station_code_json_round_trip(c: StationCode)
    ensures
        spec_station_of(Json::Str(c.spec_code_str())) == Some(c),
{
}

/// How a JSON document is read as a line code: a string reads as the line it
/// names (non-revenue for unrecognized ones), anything else is a schema
/// mismatch.
pub open spec fn spec_line_of(j: Json) -> Option<LineCode> {
    match j {
        Json::Str(s) => Some(LineCode::spec_from_json_str(s)),
        _ => None,
    }
}

/// Read a JSON document as a line code.
fn line_of(v: &Value) -> (r: Option<LineCode>)
    ensures
        r == spec_line_of(json_of(*v)),
{
    match as_str_w(v) {
        Some(s) => Some(LineCode::from_json_str(s)),
        None => None,
    }
}

/// A line code written as its own code string always reads back as that
/// very line, the non-revenue sentinel included.
pub proof fn lemma_line_code_json_round_trip(l: LineCode)
    ensures
        spec_line_of(Json::Str(l.spec_code_str())) == Some(l),
{
    reveal_strlit("SV");
    reveal_strlit("RD");
    reveal_strlit("OR");
    reveal_strlit("BL");
    reveal_strlit("YL");
    reveal_strlit("GR");
    reveal_strlit("N/A");
    assert("SV"@.len() == 2 && "RD"@.len() == 2 && "OR"@.len() == 2 && "BL"@.len() == 2
        && "YL"@.len() == 2 && "GR"@.len() == 2 && "N/A"@.len() == 3);
    assert("SV"@[0] == 'S' && "RD"@[0] == 'R' && "OR"@[0] == 'O' && "BL"@[0] == 'B' && "YL"@[0]
        == 'Y' && "GR"@[0] == 'G');
}

/// How a JSON document is read as a plain string.
pub open spec fn spec_string_of(j: Json) -> Option<Seq<char>> {
    match j {
        Json::Str(s) => Some(s),
        _ => None,
    }
}

/// Read a JSON document as a plain string.
fn string_of(v: &Value) -> (r: Option<String>)
    ensures
        match spec_string_of(json_of(*v)) {
            Some(s) => r matches Some(x) && x@ == s,
            None => r is None,
        },
{
    match as_str_w(v) {
        Some(s) => Some(s.to_owned()),
        None => None,
    }
}

/// How a JSON array is read as a sequence of `StationCode` values: every
/// element must parse, and elements keep their order.
pub open spec fn spec_parse_station_seq(s: Seq<Json>) -> Option<Seq<StationCode>> {
    if forall|i: int| 0 <= i < s.len() ==> (#[trigger] spec_station_of(s[i])) is Some {
        Some(Seq::new(s.len(), |i: int| spec_station_of(s[i]).unwrap()))
    } else {
        None
    }
}

/// Read the elements of a JSON array as `StationCode` values, in order.
fn parse_station_seq(a: &Vec<Value>, Ghost(s): Ghost<Seq<Json>>) -> (r: Option<Vec<StationCode>>)
    requires
        a@.len() == s.len(),
        forall|i: int| 0 <= i < s.len() ==> json_of(#[trigger] a@[i]) == s[i],
    ensures
        match spec_parse_station_seq(s) {
            Some(x) => r matches Some(v) && v@ == x,
            None => r is None,
        },
{
    let mut out: Vec<StationCode> = Vec::new();
    let n = a.len();
    let mut i: usize = 0;
    while i < n
        invariant
            0 <= i <= n,
            n == a@.len(),
            a@.len() == s.len(),
            forall|j: int| 0 <= j < s.len() ==> json_of(#[trigger] a@[j]) == s[j],
            out@.len() == i,
            forall|j: int| 0 <= j < i ==> (#[trigger] spec_station_of(s[j])) is Some,
            forall|j: int| 0 <= j < i ==> #[trigger] out@[j] == spec_station_of(s[j]).unwrap(),
        decreases n - i,
    {
        let u = &a[i];
        match station_of(u) {
            Some(x) => out.push(x),
            None => {
                return None;
            },
        }
        i += 1;
    }
    proof {
        assert(out@ =~= spec_parse_station_seq(s).unwrap());
    }
    Some(out)
}

/// How a JSON array is read as a sequence of `LineCode` values: every
/// element must parse, and elements keep their order.
pub open spec fn spec_parse_line_seq(s: Seq<Json>) -> Option<Seq<LineCode>> {
    if forall|i: int| 0 <= i < s.len() ==> (#[trigger] spec_line_of(s[i])) is Some {
        Some(Seq::new(s.len(), |i: int| spec_line_of(s[i]).unwrap()))
    } else {
        None
    }
}

/// Read the elements of a JSON array as `LineCode` values, in order.
fn parse_line_seq(a: &Vec<Value>, Ghost(s): Ghost<Seq<Json>>) -> (r: Option<Vec<LineCode>>)
    requires
        a@.len() == s.len(),
        forall|i: int| 0 <= i < s.len() ==> json_of(#[trigger] a@[i]) == s[i],
    ensures
        match spec_parse_line_seq(s) {
            Some(x) => r matches Some(v) && v@ == x,
            None => r is None,
        },
{
    let mut out: Vec<LineCode> = Vec::new();
    let n = a.len();
    let mut i: usize = 0;
    while i < n
        invariant
            0 <= i <= n,
            n == a@.len(),
            a@.len() == s.len(),
            forall|j: int| 0 <= j < s.len() ==> json_of(#[trigger] a@[j]) == s[j],
            out@.len() == i,
            forall|j: int| 0 <= j < i ==> (#[trigger] spec_line_of(s[j])) is Some,
            forall|j: int| 0 <= j < i ==> #[trigger] out@[j] == spec_line_of(s[j]).unwrap(),
        decreases n - i,
    {
        let u = &a[i];
        match line_of(u) {
            Some(x) => out.push(x),
            None => {
                return None;
            },
        }
        i += 1;
    }
    proof {
        assert(out@ =~= spec_parse_line_seq(s).unwrap());
    }
    Some(out)
}

/// How a JSON array is read as a sequence of `String` values: every
/// element must parse, and elements keep their order.
pub open spec fn spec_parse_str_seq(s: Seq<Json>) -> Option<Seq<Seq<char>>> {
    if forall|i: int| 0 <= i < s.len() ==> (#[trigger] spec_string_of(s[i])) is Some {
        Some(Seq::new(s.len(), |i: int| spec_string_of(s[i]).unwrap()))
    } else {
        None
    }
}

/// Read the elements of a JSON array as `String` values, in order.
fn parse_str_seq(a: &Vec<Value>, Ghost(s): Ghost<Seq<Json>>) -> (r: Option<Vec<String>>)
    requires
        a@.len() == s.len(),
        forall|i: int| 0 <= i < s.len() ==> json_of(#[trigger] a@[i]) == s[i],
    ensures
        match spec_parse_str_seq(s) {
            Some(x) => r matches Some(v) && view_vec_string(v) == x,
            None => r is None,
        },
{
    let mut out: Vec<String> = Vec::new();
    let n = a.len();
    let mut i: usize = 0;
    while i < n
        invariant
            0 <= i <= n,
            n == a@.len(),
            a@.len() == s.len(),
            forall|j: int| 0 <= j < s.len() ==> json_of(#[trigger] a@[j]) == s[j],
            out@.len() == i,
            forall|j: int| 0 <= j < i ==> (#[trigger] spec_string_of(s[j])) is Some,
            forall|j: int| 0 <= j < i ==> (#[trigger] out@[j])@ == spec_string_of(s[j]).unwrap(),
        decreases n - i,
    {
        let u = &a[i];
        match string_of(u) {
            Some(x) => out.push(x),
            None => {
                return None;
            },
        }
        i += 1;
    }
    proof {
        assert(view_vec_string(out) =~= spec_parse_str_seq(s).unwrap());
    }
    Some(out)
}

/// How a JSON array is read as a sequence of `AbridgedTweet` values: every
/// element must parse, and elements keep their order.
pub open spec fn spec_parse_abridged_seq(s: Seq<Json>) -> Option<Seq<AbridgedTweetV>> {
    if forall|i: int| 0 <= i < s.len() ==> (#[trigger] spec_parse_abridged_tweet(s[i])) is Some {
        Some(Seq::new(s.len(), |i: int| spec_parse_abridged_tweet(s[i]).unwrap()))
    } else {
        None
    }
}

/// Read the elements of a JSON array as `AbridgedTweet` values, in order.
fn parse_abridged_seq(a: &Vec<Value>, Ghost(s): Ghost<Seq<Json>>) -> (r: Option<Vec<AbridgedTweet>>)
    requires
        a@.len() == s.len(),
        forall|i: int| 0 <= i < s.len() ==> json_of(#[trigger] a@[i]) == s[i],
    ensures
        match spec_parse_abridged_seq(s) {
            Some(x) => r matches Some(v) && view_vec(v) == x,
            None => r is None,
        },
{
    let mut out: Vec<AbridgedTweet> = Vec::new();
    let n = a.len();
    let mut i: usize = 0;
    while i < n
        invariant
            0 <= i <= n,
            n == a@.len(),
            a@.len() == s.len(),
            forall|j: int| 0 <= j < s.len() ==> json_of(#[trigger] a@[j]) == s[j],
            out@.len() == i,
            forall|j: int| 0 <= j < i ==> (#[trigger] spec_parse_abridged_tweet(s[j])) is Some,
            forall|j: int| 0 <= j < i ==> (#[trigger] out@[j])@ == spec_parse_abridged_tweet(s[j]).unwrap(),
        decreases n - i,
    {
        let u = &a[i];
        match parse_abridged_tweet(u) {
            Some(x) => out.push(x),
            None => {
                return None;
            },
        }
        i += 1;
    }
    proof {
        assert(view_vec(out) =~= spec_parse_abridged_seq(s).unwrap());
    }
    Some(out)
}

/// How a JSON array is read as a sequence of `Tweet` values: every
/// element must parse, and elements keep their order.
pub open spec fn spec_parse_tweet_seq(s: Seq<Json>) -> Option<Seq<TweetV>> {
    if forall|i: int| 0 <= i < s.len() ==> (#[trigger] spec_parse_tweet(s[i])) is Some {
        Some(Seq::new(s.len(), |i: int| spec_parse_tweet(s[i]).unwrap()))
    } else {
        None
    }
}

/// Read the elements of a JSON array as `Tweet` values, in order.
fn parse_tweet_seq(a: &Vec<Value>, Ghost(s): Ghost<Seq<Json>>) -> (r: Option<Vec<Tweet>>)
    requires
        a@.len() == s.len(),
        forall|i: int| 0 <= i < s.len() ==> json_of(#[trigger] a@[i]) == s[i],
    ensures
        match spec_parse_tweet_seq(s) {
            Some(x) => r matches Some(v) && view_vec(v) == x,
            None => r is None,
        },
{
    let mut out: Vec<Tweet> = Vec::new();
    let n = a.len();
    let mut i: usize = 0;
    while i < n
        invariant
            0 <= i <= n,
            n == a@.len(),
            a@.len() == s.len(),
            forall|j: int| 0 <= j < s.len() ==> json_of(#[trigger] a@[j]) == s[j],
            out@.len() == i,
            forall|j: int| 0 <= j < i ==> (#[trigger] spec_parse_tweet(s[j])) is Some,
            forall|j: int| 0 <= j < i ==> (#[trigger] out@[j])@ == spec_parse_tweet(s[j]).unwrap(),
        decreases n - i,
    {
        let u = &a[i];
        match parse_tweet(u) {
            Some(x) => out.push(x),
            None => {
                return None;
            },
        }
        i += 1;
    }
    proof {
        assert(view_vec(out) =~= spec_parse_tweet_seq(s).unwrap());
    }
    Some(out)
}

/// How a JSON array is read as a sequence of `MetroAlert` values: every
/// element must parse, and elements keep their order.
pub open spec fn spec_parse_alert_seq(s: Seq<Json>) -> Option<Seq<MetroAlertV>> {
    if forall|i: int| 0 <= i < s.len() ==> (#[trigger] spec_parse_metro_alert(s[i])) is Some {
        Some(Seq::new(s.len(), |i: int| spec_parse_metro_alert(s[i]).unwrap()))
    } else {
        None
    }
}

/// Read the elements of a JSON array as `MetroAlert` values, in order.
fn parse_alert_seq(a: &Vec<Value>, Ghost(s): Ghost<Seq<Json>>) -> (r: Option<Vec<MetroAlert>>)
    requires
        a@.len() == s.len(),
        forall|i: int| 0 <= i < s.len() ==> json_of(#[trigger] a@[i]) == s[i],
    ensures
        match spec_parse_alert_seq(s) {
            Some(x) => r matches Some(v) && view_vec(v) == x,
            None => r is None,
        },
{
    let mut out: Vec<MetroAlert> = Vec::new();
    let n = a.len();
    let mut i: usize = 0;
    while i < n
        invariant
            0 <= i <= n,
            n == a@.len(),
            a@.len() == s.len(),
            forall|j: int| 0 <= j < s.len() ==> json_of(#[trigger] a@[j]) == s[j],
            out@.len() == i,
            forall|j: int| 0 <= j < i ==> (#[trigger] spec_parse_metro_alert(s[j])) is Some,
            forall|j: int| 0 <= j < i ==> (#[trigger] out@[j])@ == spec_parse_metro_alert(s[j]).unwrap(),
        decreases n - i,
    {
        let u = &a[i];
        match parse_metro_alert(u) {
            Some(x) => out.push(x),
            None => {
                return None;
            },
        }
        i += 1;
    }
    proof {
        assert(view_vec(out) =~= spec_parse_alert_seq(s).unwrap());
    }
    Some(out)
}

/// How a JSON array is read as a sequence of `ElevatorEscalatorOutage` values: every
/// element must parse, and elements keep their order.
pub open spec fn spec_parse_outage_seq(s: Seq<Json>) -> Option<Seq<ElevatorEscalatorOutageV>> {
    if forall|i: int| 0 <= i < s.len() ==> (#[trigger] spec_parse_elevator_escalator_outage(s[i])) is Some {
        Some(Seq::new(s.len(), |i: int| spec_parse_elevator_escalator_outage(s[i]).unwrap()))
    } else {
        None
    }
}

/// Read the elements of a JSON array as `ElevatorEscalatorOutage` values, in order.
fn parse_outage_seq(a: &Vec<Value>, Ghost(s): Ghost<Seq<Json>>) -> (r: Option<Vec<ElevatorEscalatorOutage>>)
    requires
        a@.len() == s.len(),
        forall|i: int| 0 <= i < s.len() ==> json_of(#[trigger] a@[i]) == s[i],
    ensures
        match spec_parse_outage_seq(s) {
            Some(x) => r matches Some(v) && view_vec(v) == x,
            None => r is None,
        },
{
    let mut out: Vec<ElevatorEscalatorOutage> = Vec::new();
    let n = a.len();
    let mut i: usize = 0;
    while i < n
        invariant
            0 <= i <= n,
            n == a@.len(),
            a@.len() == s.len(),
            forall|j: int| 0 <= j < s.len() ==> json_of(#[trigger] a@[j]) == s[j],
            out@.len() == i,
            forall|j: int| 0 <= j < i ==> (#[trigger] spec_parse_elevator_escalator_outage(s[j])) is Some,
            forall|j: int| 0 <= j < i ==> (#[trigger] out@[j])@ == spec_parse_elevator_escalator_outage(s[j]).unwrap(),
        decreases n - i,
    {
        let u = &a[i];
        match parse_elevator_escalator_outage(u) {
            Some(x) => out.push(x),
            None => {
                return None;
            },
        }
        i += 1;
    }
    proof {
        assert(view_vec(out) =~= spec_parse_outage_seq(s).unwrap());
    }
    Some(out)
}

/// How a JSON array is read as a sequence of `TrainPrediction` values: every
/// element must parse, and elements keep their order.
pub open spec fn spec_parse_pred_seq(s: Seq<Json>) -> Option<Seq<TrainPredictionV>> {
    if forall|i: int| 0 <= i < s.len() ==> (#[trigger] spec_parse_train_prediction(s[i])) is Some {
        Some(Seq::new(s.len(), |i: int| spec_parse_train_prediction(s[i]).unwrap()))
    } else {
        None
    }
}

/// Read the elements of a JSON array as `TrainPrediction` values, in order.
fn parse_pred_seq(a: &Vec<Value>, Ghost(s): Ghost<Seq<Json>>) -> (r: Option<Vec<TrainPrediction>>)
    requires
        a@.len() == s.len(),
        forall|i: int| 0 <= i < s.len() ==> json_of(#[trigger] a@[i]) == s[i],
    ensures
        match spec_parse_pred_seq(s) {
            Some(x) => r matches Some(v) && view_vec(v) == x,
            None => r is None,
        },
{
    let mut out: Vec<TrainPrediction> = Vec::new();
    let n = a.len();
    let mut i: usize = 0;
    while i < n
        invariant
            0 <= i <= n,
            n == a@.len(),
            a@.len() == s.len(),
            forall|j: int| 0 <= j < s.len() ==> json_of(#[trigger] a@[j]) == s[j],
            out@.len() == i,
            forall|j: int| 0 <= j < i ==> (#[trigger] spec_parse_train_prediction(s[j])) is Some,
            forall|j: int| 0 <= j < i ==> (#[trigger] out@[j])@ == spec_parse_train_prediction(s[j]).unwrap(),
        decreases n - i,
    {
        let u = &a[i];
        match parse_train_prediction(u) {
            Some(x) => out.push(x),
            None => {
                return None;
            },
        }
        i += 1;
    }
    proof {
        assert(view_vec(out) =~= spec_parse_pred_seq(s).unwrap());
    }
    Some(out)
}

/// How a JSON array is read as a sequence of `ServiceGaps` values: every
/// element must parse, and elements keep their order.
pub open spec fn spec_parse_gap_seq(s: Seq<Json>) -> Option<Seq<ServiceGapsV>> {
    if forall|i: int| 0 <= i < s.len() ==> (#[trigger] spec_parse_service_gaps(s[i])) is Some {
        Some(Seq::new(s.len(), |i: int| spec_parse_service_gaps(s[i]).unwrap()))
    } else {
        None
    }
}

/// Read the elements of a JSON array as `ServiceGaps` values, in order.
fn parse_gap_seq(a: &Vec<Value>, Ghost(s): Ghost<Seq<Json>>) -> (r: Option<Vec<ServiceGaps>>)
    requires
        a@.len() == s.len(),
        forall|i: int| 0 <= i < s.len() ==> json_of(#[trigger] a@[i]) == s[i],
    ensures
        match spec_parse_gap_seq(s) {
            Some(x) => r matches Some(v) && view_vec(v) == x,
            None => r is None,
        },
{
    let mut out: Vec<ServiceGaps> = Vec::new();
    let n = a.len();
    let mut i: usize = 0;
    while i < n
        invariant
            0 <= i <= n,
            n == a@.len(),
            a@.len() == s.len(),
            forall|j: int| 0 <= j < s.len() ==> json_of(#[trigger] a@[j]) == s[j],
            out@.len() == i,
            forall|j: int| 0 <= j < i ==> (#[trigger] spec_parse_service_gaps(s[j])) is Some,
            forall|j: int| 0 <= j < i ==> (#[trigger] out@[j])@ == spec_parse_service_gaps(s[j]).unwrap(),
        decreases n - i,
    {
        let u = &a[i];
        match parse_service_gaps(u) {
            Some(x) => out.push(x),
            None => {
                return None;
            },
        }
        i += 1;
    }
    proof {
        assert(view_vec(out) =~= spec_parse_gap_seq(s).unwrap());
    }
    Some(out)
}

/// A required station-code field.
pub open spec fn spec_req_station(m: Map<Seq<char>, Json>, k: Seq<char>) -> Option<StationCode> {
    match obj_get(m, k) {
        Some(j) => spec_station_of(j),
        None => None,
    }
}

/// An optional station-code field; absent or null reads as `None`.
pub open spec fn spec_opt_station(m: Map<Seq<char>, Json>, k: Seq<char>) -> Option<
    Option<StationCode>,
> {
    match obj_get(m, k) {
        None => Some(None),
        Some(Json::Null) => Some(None),
        Some(j) => match spec_station_of(j) {
            Some(c) => Some(Some(c)),
            None => None,
        },
    }
}

/// A required line-code field.
pub open spec fn spec_req_line(m: Map<Seq<char>, Json>, k: Seq<char>) -> Option<LineCode> {
    match obj_get(m, k) {
        Some(j) => spec_line_of(j),
        None => None,
    }
}

/// Read a required station-code field of a JSON object.
fn req_station(v: &Value, k: &str) -> (r: Option<StationCode>)
    requires
        json_of(*v) is Obj,
    ensures
        r == spec_req_station(json_of(*v)->Obj_0, k@),
{
    match get_w(v, k) {
        Some(u) => station_of(u),
        None => None,
    }
}

/// Read an optional station-code field of a JSON object.
fn opt_station(v: &Value, k: &str) -> (r: Option<Option<StationCode>>)
    requires
        json_of(*v) is Obj,
    ensures
        r == spec_opt_station(json_of(*v)->Obj_0, k@),
{
    match get_w(v, k) {
        None => Some(None),
        Some(u) => if is_null_w(u) {
            Some(None)
        } else {
            match station_of(u) {
                Some(c) => Some(Some(c)),
                None => None,
            }
        },
    }
}

/// Read a required line-code field of a JSON object.
fn req_line(v: &Value, k: &str) -> (r: Option<LineCode>)
    requires
        json_of(*v) is Obj,
    ensures
        r == spec_req_line(json_of(*v)->Obj_0, k@),
{
    match get_w(v, k) {
        Some(u) => line_of(u),
        None => None,
    }
}

/// A required array field of `StationCode` values.
pub open spec fn spec_req_arr_station(m: Map<Seq<char>, Json>, k: Seq<char>) -> Option<Seq<StationCode>> {
    match obj_get(m, k) {
        Some(Json::Arr(s)) => spec_parse_station_seq(s),
        _ => None,
    }
}

/// A required array field of `LineCode` values.
pub open spec fn spec_req_arr_line(m: Map<Seq<char>, Json>, k: Seq<char>) -> Option<Seq<LineCode>> {
    match obj_get(m, k) {
        Some(Json::Arr(s)) => spec_parse_line_seq(s),
        _ => None,
    }
}

/// A required array field of `String` values.
pub open spec fn spec_req_arr_str(m: Map<Seq<char>, Json>, k: Seq<char>) -> Option<Seq<Seq<char>>> {
    match obj_get(m, k) {
        Some(Json::Arr(s)) => spec_parse_str_seq(s),
        _ => None,
    }
}

/// A required array field of `AbridgedTweet` values.
pub open spec fn spec_req_arr_abridged(m: Map<Seq<char>, Json>, k: Seq<char>) -> Option<Seq<AbridgedTweetV>> {
    match obj_get(m, k) {
        Some(Json::Arr(s)) => spec_parse_abridged_seq(s),
        _ => None,
    }
}

/// A required array field of `TrainPrediction` values.
pub open spec fn spec_req_arr_pred(m: Map<Seq<char>, Json>, k: Seq<char>) -> Option<Seq<TrainPredictionV>> {
    match obj_get(m, k) {
        Some(Json::Arr(s)) => spec_parse_pred_seq(s),
        _ => None,
    }
}

/// A required array field of `ServiceGaps` values.
pub open spec fn spec_req_arr_gap(m: Map<Seq<char>, Json>, k: Seq<char>) -> Option<Seq<ServiceGapsV>> {
    match obj_get(m, k) {
        Some(Json::Arr(s)) => spec_parse_gap_seq(s),
        _ => None,
    }
}

/// An optional array field of `Tweet` values; absent or null reads as
/// `None`.
pub open spec fn spec_opt_arr_tweet(m: Map<Seq<char>, Json>, k: Seq<char>) -> Option<
    Option<Seq<TweetV>>,
> {
    match obj_get(m, k) {
        None => Some(None),
        Some(Json::Null) => Some(None),
        Some(Json::Arr(s)) => match spec_parse_tweet_seq(s) {
            Some(x) => Some(Some(x)),
            None => None,
        },
        _ => None,
    }
}

/// An optional array field of `MetroAlert` values; absent or null reads as
/// `None`.
pub open spec fn spec_opt_arr_alert(m: Map<Seq<char>, Json>, k: Seq<char>) -> Option<
    Option<Seq<MetroAlertV>>,
> {
    match obj_get(m, k) {
        None => Some(None),
        Some(Json::Null) => Some(None),
        Some(Json::Arr(s)) => match spec_parse_alert_seq(s) {
            Some(x) => Some(Some(x)),
            None => None,
        },
        _ => None,
    }
}

/// An optional array field of `String` values; absent or null reads as
/// `None`.
pub open spec fn spec_opt_arr_str(m: Map<Seq<char>, Json>, k: Seq<char>) -> Option<
    Option<Seq<Seq<char>>>,
> {
    match obj_get(m, k) {
        None => Some(None),
        Some(Json::Null) => Some(None),
        Some(Json::Arr(s)) => match spec_parse_str_seq(s) {
            Some(x) => Some(Some(x)),
            None => None,
        },
        _ => None,
    }
}

/// An optional array field of `ElevatorEscalatorOutage` values; absent or null reads as
/// `None`.
pub open spec fn spec_opt_arr_outage(m: Map<Seq<char>, Json>, k: Seq<char>) -> Option<
    Option<Seq<ElevatorEscalatorOutageV>>,
> {
    match obj_get(m, k) {
        None => Some(None),
        Some(Json::Null) => Some(None),
        Some(Json::Arr(s)) => match spec_parse_outage_seq(s) {
            Some(x) => Some(Some(x)),
            None => None,
        },
        _ => None,
    }
}

/// A required nested `DirectionMetrics` field.
pub open spec fn spec_req_obj_direction_metrics(m: Map<Seq<char>, Json>, k: Seq<char>) -> Option<DirectionMetricsV> {
    match obj_get(m, k) {
        Some(j) => spec_parse_direction_metrics(j),
        None => None,
    }
}

/// A required nested `DirectionMetricsByDirection` field.
pub open spec fn spec_req_obj_direction_metrics_by_direction(m: Map<Seq<char>, Json>, k: Seq<char>) -> Option<DirectionMetricsByDirectionV> {
    match obj_get(m, k) {
        Some(j) => spec_parse_direction_metrics_by_direction(j),
        None => None,
    }
}

/// A required nested `LineMetrics` field.
pub open spec fn spec_req_obj_line_metrics(m: Map<Seq<char>, Json>, k: Seq<char>) -> Option<LineMetricsV> {
    match obj_get(m, k) {
        Some(j) => spec_parse_line_metrics(j),
        None => None,
    }
}

/// A required nested `SystemMetrics` field.
pub open spec fn spec_req_obj_system_metrics(m: Map<Seq<char>, Json>, k: Seq<char>) -> Option<SystemMetricsV> {
    match obj_get(m, k) {
        Some(j) => spec_parse_system_metrics(j),
        None => None,
    }
}

/// A required nested `NumStationTagsByType` field.
pub open spec fn spec_req_obj_num_station_tags_by_type(m: Map<Seq<char>, Json>, k: Seq<char>) -> Option<NumStationTagsByTypeV> {
    match obj_get(m, k) {
        Some(j) => spec_parse_num_station_tags_by_type(j),
        None => None,
    }
}

/// A required nested `NumTrainTagsByType` field.
pub open spec fn spec_req_obj_num_train_tags_by_type(m: Map<Seq<char>, Json>, k: Seq<char>) -> Option<NumTrainTagsByTypeV> {
    match obj_get(m, k) {
        Some(j) => spec_parse_num_train_tags_by_type(j),
        None => None,
    }
}

/// An optional nested `RecentTweets` field; absent or null reads as `None`.
pub open spec fn spec_opt_obj_recent_tweets(m: Map<Seq<char>, Json>, k: Seq<char>) -> Option<
    Option<RecentTweetsV>,
> {
    match obj_get(m, k) {
        None => Some(None),
        Some(Json::Null) => Some(None),
        Some(j) => match spec_parse_recent_tweets(j) {
            Some(x) => Some(Some(x)),
            None => None,
        },
    }
}

/// How a JSON document is read as a `AbridgedTweet`: an object whose fields
/// all match the schema.
pub open spec fn spec_parse_abridged_tweet(j: Json) -> Option<AbridgedTweetV> {
    match j {
        Json::Obj(m) => if spec_req_i64(m, "twitterId"@) is Some
            && spec_req_str(m, "twitterIdString"@) is Some
            && spec_req_i64(m, "userId"@) is Some
            && spec_req_i64(m, "timestamp"@) is Some
            && spec_req_str(m, "text"@) is Some
        {
            Some(AbridgedTweetV {
                twitter_id: spec_req_i64(m, "twitterId"@).unwrap(),
                twitter_id_string: spec_req_str(m, "twitterIdString"@).unwrap(),
                user_id: spec_req_i64(m, "userId"@).unwrap(),
                timestamp: spec_req_i64(m, "timestamp"@).unwrap(),
                text: spec_req_str(m, "text"@).unwrap(),
            })
        } else {
            None
        },
        _ => None,
    }
}

/// Read a JSON document as a `AbridgedTweet`.
pub fn parse_abridged_tweet(v: &Value) -> (r: Option<AbridgedTweet>)
    ensures
        match spec_parse_abridged_tweet(json_of(*v)) {
            Some(xv) => r matches Some(x) && x@ == xv,
            None => r is None,
        },
{
    if !is_obj_w(v) {
        return None;
    }
    let f_twitter_id = match req_i64(v, "twitterId") {
        Some(x) => x,
        None => {
            return None;
        },
    };
    let f_twitter_id_string = match req_str(v, "twitterIdString") {
        Some(x) => x,
        None => {
            return None;
        },
    };
    let f_user_id = match req_i64(v, "userId") {
        Some(x) => x,
        None => {
            return None;
        },
    };
    let f_timestamp = match req_i64(v, "timestamp") {
        Some(x) => x,
        None => {
            return None;
        },
    };
    let f_text = match req_str(v, "text") {
        Some(x) => x,
        None => {
            return None;
        },
    };
    Some(AbridgedTweet {
        twitter_id: f_twitter_id,
        twitter_id_string: f_twitter_id_string,
        user_id: f_user_id,
        timestamp: f_timestamp,
        text: f_text,
    })
}

/// How a JSON document is read as a `RecentTweets`: an object whose fields
/// all match the schema.
pub open spec fn spec_parse_recent_tweets(j: Json) -> Option<RecentTweetsV> {
    match j {
        Json::Obj(m) => if spec_req_str(m, "keywords"@) is Some
            && spec_req_arr_abridged(m, "tweets"@) is Some
        {
            Some(RecentTweetsV {
                keywords: spec_req_str(m, "keywords"@).unwrap(),
                tweets: spec_req_arr_abridged(m, "tweets"@).unwrap(),
            })
        } else {
            None
        },
        _ => None,
    }
}

/// Read a JSON document as a `RecentTweets`.
pub fn parse_recent_tweets(v: &Value) -> (r: Option<RecentTweets>)
    ensures
        match spec_parse_recent_tweets(json_of(*v)) {
            Some(xv) => r matches Some(x) && x@ == xv,
            None => r is None,
        },
{
    if !is_obj_w(v) {
        return None;
    }
    let f_keywords = match req_str(v, "keywords") {
        Some(x) => x,
        None => {
            return None;
        },
    };
    let f_tweets = match get_w(v, "tweets") {
        Some(u) => match as_array_w(u) {
            Some(a) => match parse_abridged_seq(a, Ghost(json_of(*u)->Arr_0)) {
                Some(x) => x,
                None => {
                    return None;
                },
            },
            None => {
                return None;
            },
        },
        None => {
            return None;
        },
    };
    Some(RecentTweets {
        keywords: f_keywords,
        tweets: f_tweets,
    })
}

/// How a JSON document is read as a `Tweet`: an object whose fields
/// all match the schema.
pub open spec fn spec_parse_tweet(j: Json) -> Option<TweetV> {
    match j {
        Json::Obj(m) => if spec_req_i64(m, "twitterId"@) is Some
            && spec_req_str(m, "twitterIdString"@) is Some
            && spec_req_i64(m, "userId"@) is Some
            && spec_req_str(m, "text"@) is Some
            && spec_req_arr_station(m, "stationCodes"@) is Some
            && spec_req_arr_line(m, "lineCodes"@) is Some
            && spec_req_arr_str(m, "keywords"@) is Some
            && spec_req_str(m, "url"@) is Some
            && spec_req_str(m, "date"@) is Some
        {
            Some(TweetV {
                twitter_id: spec_req_i64(m, "twitterId"@).unwrap(),
                twitter_id_string: spec_req_str(m, "twitterIdString"@).unwrap(),
                user_id: spec_req_i64(m, "userId"@).unwrap(),
                text: spec_req_str(m, "text"@).unwrap(),
                station_codes: spec_req_arr_station(m, "stationCodes"@).unwrap(),
                line_codes: spec_req_arr_line(m, "lineCodes"@).unwrap(),
                keywords: spec_req_arr_str(m, "keywords"@).unwrap(),
                url: spec_req_str(m, "url"@).unwrap(),
                date: spec_req_str(m, "date"@).unwrap(),
            })
        } else {
            None
        },
        _ => None,
    }
}

/// Read a JSON document as a `Tweet`.
pub fn parse_tweet(v: &Value) -> (r: Option<Tweet>)
    ensures
        match spec_parse_tweet(json_of(*v)) {
            Some(xv) => r matches Some(x) && x@ == xv,
            None => r is None,
        },
{
    if !is_obj_w(v) {
        return None;
    }
    let f_twitter_id = match req_i64(v, "twitterId") {
        Some(x) => x,
        None => {
            return None;
        },
    };
    let f_twitter_id_string = match req_str(v, "twitterIdString") {
        Some(x) => x,
        None => {
            return None;
        },
    };
    let f_user_id = match req_i64(v, "userId") {
        Some(x) => x,
        None => {
            return None;
        },
    };
    let f_text = match req_str(v, "text") {
        Some(x) => x,
        None => {
            return None;
        },
    };
    let f_station_codes = match get_w(v, "stationCodes") {
        Some(u) => match as_array_w(u) {
            Some(a) => match parse_station_seq(a, Ghost(json_of(*u)->Arr_0)) {
                Some(x) => x,
                None => {
                    return None;
                },
            },
            None => {
                return None;
            },
        },
        None => {
            return None;
        },
    };
    let f_line_codes = match get_w(v, "lineCodes") {
        Some(u) => match as_array_w(u) {
            Some(a) => match parse_line_seq(a, Ghost(json_of(*u)->Arr_0)) {
                Some(x) => x,
                None => {
                    return None;
                },
            },
            None => {
                return None;
            },
        },
        None => {
            return None;
        },
    };
    let f_keywords = match get_w(v, "keywords") {
        Some(u) => match as_array_w(u) {
            Some(a) => match parse_str_seq(a, Ghost(json_of(*u)->Arr_0)) {
                Some(x) => x,
                None => {
                    return None;
                },
            },
            None => {
                return None;
            },
        },
        None => {
            return None;
        },
    };
    let f_url = match req_str(v, "url") {
        Some(x) => x,
        None => {
            return None;
        },
    };
    let f_date = match req_str(v, "date") {
        Some(x) => x,
        None => {
            return None;
        },
    };
    Some(Tweet {
        twitter_id: f_twitter_id,
        twitter_id_string: f_twitter_id_string,
        user_id: f_user_id,
        text: f_text,
        station_codes: f_station_codes,
        line_codes: f_line_codes,
        keywords: f_keywords,
        url: f_url,
        date: f_date,
    })
}

/// How a JSON document is read as a `MetroAlert`: an object whose fields
/// all match the schema.
pub open spec fn spec_parse_metro_alert(j: Json) -> Option<MetroAlertV> {
    match j {
        Json::Obj(m) => if spec_req_str(m, "description"@) is Some
            && spec_req_arr_station(m, "stationCodes"@) is Some
            && spec_req_arr_line(m, "lineCodes"@) is Some
            && spec_req_arr_str(m, "keywords"@) is Some
            && spec_req_str(m, "date"@) is Some
        {
            Some(MetroAlertV {
                description: spec_req_str(m, "description"@).unwrap(),
                station_codes: spec_req_arr_station(m, "stationCodes"@).unwrap(),
                line_codes: spec_req_arr_line(m, "lineCodes"@).unwrap(),
                keywords: spec_req_arr_str(m, "keywords"@).unwrap(),
                date: spec_req_str(m, "date"@).unwrap(),
            })
        } else {
            None
        },
        _ => None,
    }
}

/// Read a JSON document as a `MetroAlert`.
pub fn parse_metro_alert(v: &Value) -> (r: Option<MetroAlert>)
    ensures
        match spec_parse_metro_alert(json_of(*v)) {
            Some(xv) => r matches Some(x) && x@ == xv,
            None => r is None,
        },
{
    if !is_obj_w(v) {
        return None;
    }
    let f_description = match req_str(v, "description") {
        Some(x) => x,
        None => {
            return None;
        },
    };
    let f_station_codes = match get_w(v, "stationCodes") {
        Some(u) => match as_array_w(u) {
            Some(a) => match parse_station_seq(a, Ghost(json_of(*u)->Arr_0)) {
                Some(x) => x,
                None => {
                    return None;
                },
            },
            None => {
                return None;
            },
        },
        None => {
            return None;
        },
    };
    let f_line_codes = match get_w(v, "lineCodes") {
        Some(u) => match as_array_w(u) {
            Some(a) => match parse_line_seq(a, Ghost(json_of(*u)->Arr_0)) {
                Some(x) => x,
                None => {
                    return None;
                },
            },
            None => {
                return None;
            },
        },
        None => {
            return None;
        },
    };
    let f_keywords = match get_w(v, "keywords") {
        Some(u) => match as_array_w(u) {
            Some(a) => match parse_str_seq(a, Ghost(json_of(*u)->Arr_0)) {
                Some(x) => x,
                None => {
                    return None;
                },
            },
            None => {
                return None;
            },
        },
        None => {
            return None;
        },
    };
    let f_date = match req_str(v, "date") {
        Some(x) => x,
        None => {
            return None;
        },
    };
    Some(MetroAlert {
        description: f_description,
        station_codes: f_station_codes,
        line_codes: f_line_codes,
        keywords: f_keywords,
        date: f_date,
    })
}

/// How a JSON document is read as a `ElevatorEscalatorOutage`: an object whose fields
/// all match the schema.
pub open spec fn spec_parse_elevator_escalator_outage(j: Json) -> Option<ElevatorEscalatorOutageV> {
    match j {
        Json::Obj(m) => if spec_req_station(m, "stationCode"@) is Some
            && spec_req_str(m, "stationName"@) is Some
            && spec_req_str(m, "locationDescription"@) is Some
            && spec_req_str(m, "symptomDescription"@) is Some
            && spec_req_str(m, "unitName"@) is Some
            && spec_req_str(m, "unitType"@) is Some
            && spec_req_str(m, "outOfServiceDate"@) is Some
            && spec_req_str(m, "updatedDate"@) is Some
            && spec_req_str(m, "estimatedReturnToServiceDate"@) is Some
        {
            Some(ElevatorEscalatorOutageV {
                station_code: spec_req_station(m, "stationCode"@).unwrap(),
                station_name: spec_req_str(m, "stationName"@).unwrap(),
                location_description: spec_req_str(m, "locationDescription"@).unwrap(),
                symptom_description: spec_req_str(m, "symptomDescription"@).unwrap(),
                unit_name: spec_req_str(m, "unitName"@).unwrap(),
                unit_type: spec_req_str(m, "unitType"@).unwrap(),
                out_of_service_date: spec_req_str(m, "outOfServiceDate"@).unwrap(),
                updated_date: spec_req_str(m, "updatedDate"@).unwrap(),
                estimated_return_to_service_date: spec_req_str(m, "estimatedReturnToServiceDate"@).unwrap(),
            })
        } else {
            None
        },
        _ => None,
    }
}

/// Read a JSON document as a `ElevatorEscalatorOutage`.
pub fn parse_elevator_escalator_outage(v: &Value) -> (r: Option<ElevatorEscalatorOutage>)
    ensures
        match spec_parse_elevator_escalator_outage(json_of(*v)) {
            Some(xv) => r matches Some(x) && x@ == xv,
            None => r is None,
        },
{
    if !is_obj_w(v) {
        return None;
    }
    let f_station_code = match req_station(v, "stationCode") {
        Some(x) => x,
        None => {
            return None;
        },
    };
    let f_station_name = match req_str(v, "stationName") {
        Some(x) => x,
        None => {
            return None;
        },
    };
    let f_location_description = match req_str(v, "locationDescription") {
        Some(x) => x,
        None => {
            return None;
        },
    };
    let f_symptom_description = match req_str(v, "symptomDescription") {
        Some(x) => x,
        None => {
            return None;
        },
    };
    let f_unit_name = match req_str(v, "unitName") {
        Some(x) => x,
        None => {
            return None;
        },
    };
    let f_unit_type = match req_str(v, "unitType") {
        Some(x) => x,
        None => {
            return None;
        },
    };
    let f_out_of_service_date = match req_str(v, "outOfServiceDate") {
        Some(x) => x,
        None => {
            return None;
        },
    };
    let f_updated_date = match req_str(v, "updatedDate") {
        Some(x) => x,
        None => {
            return None;
        },
    };
    let f_estimated_return_to_service_date = match req_str(v, "estimatedReturnToServiceDate") {
        Some(x) => x,
        None => {
            return None;
        },
    };
    Some(ElevatorEscalatorOutage {
        station_code: f_station_code,
        station_name: f_station_name,
        location_description: f_location_description,
        symptom_description: f_symptom_description,
        unit_name: f_unit_name,
        unit_type: f_unit_type,
        out_of_service_date: f_out_of_service_date,
        updated_date: f_updated_date,
        estimated_return_to_service_date: f_estimated_return_to_service_date,
    })
}

/// How a JSON document is read as a `TrainPrediction`: an object whose fields
/// all match the schema.
pub open spec fn spec_parse_train_prediction(j: Json) -> Option<TrainPredictionV> {
    match j {
        Json::Obj(m) => if spec_req_str(m, "trainId"@) is Some
            && spec_opt_str(m, "realTrainId"@) is Some
            && spec_req_str(m, "Car"@) is Some
            && spec_req_str(m, "Destination"@) is Some
            && spec_opt_station(m, "DestinationCode"@) is Some
            && spec_req_str(m, "DestinationName"@) is Some
            && spec_req_str(m, "Group"@) is Some
            && spec_req_line(m, "Line"@) is Some
            && spec_opt_station(m, "LocationCode"@) is Some
            && spec_opt_str(m, "LocationName"@) is Some
            && spec_req_str(m, "Min"@) is Some
            && spec_opt_str(m, "parentMin"@) is Some
            && spec_opt_num(m, "minutesAway"@) is Some
            && spec_opt_num(m, "maxMinutesAway"@) is Some
            && spec_req_i64(m, "directionNumber"@) is Some
            && spec_req_bool(m, "isScheduled"@) is Some
            && spec_req_i64(m, "numPositiveTags"@) is Some
            && spec_req_i64(m, "numNegativeTags"@) is Some
            && spec_req_i64(m, "trackNumber"@) is Some
            && spec_req_station(m, "currentStationCode"@) is Some
            && spec_req_str(m, "currentStationName"@) is Some
            && spec_opt_station(m, "PreviousStationCode"@) is Some
            && spec_opt_str(m, "previousStationName"@) is Some
            && spec_req_i64(m, "secondsSinceLastMoved"@) is Some
            && spec_req_bool(m, "isCurrentlyHoldingOrSlow"@) is Some
            && spec_req_i64(m, "secondsOffSchedule"@) is Some
            && spec_opt_i64(m, "trainSpeed"@) is Some
            && spec_req_bool(m, "isNotOnRevenueTrack"@) is Some
            && spec_req_bool(m, "isKeyedDown"@) is Some
            && spec_req_bool(m, "wasKeyedDown"@) is Some
            && spec_opt_i64(m, "distanceFromNextStation"@) is Some
            && spec_opt_num(m, "lat"@) is Some
            && spec_opt_num(m, "lon"@) is Some
            && spec_opt_i64(m, "direction"@) is Some
            && spec_opt_bool(m, "areDoorsOpenOnLeft"@) is Some
            && spec_opt_bool(m, "areDoorsOpenOnRight"@) is Some
            && spec_req_str(m, "observedDate"@) is Some
            && spec_opt_obj_recent_tweets(m, "recentTweets"@) is Some
        {
            Some(TrainPredictionV {
                train_id: spec_req_str(m, "trainId"@).unwrap(),
                real_train_id: spec_opt_str(m, "realTrainId"@).unwrap(),
                car: spec_req_str(m, "Car"@).unwrap(),
                destination: spec_req_str(m, "Destination"@).unwrap(),
                destination_code: spec_opt_station(m, "DestinationCode"@).unwrap(),
                destination_name: spec_req_str(m, "DestinationName"@).unwrap(),
                group: spec_req_str(m, "Group"@).unwrap(),
                line: spec_req_line(m, "Line"@).unwrap(),
                location_code: spec_opt_station(m, "LocationCode"@).unwrap(),
                location_name: spec_opt_str(m, "LocationName"@).unwrap(),
                min: spec_req_str(m, "Min"@).unwrap(),
                parent_min: spec_opt_str(m, "parentMin"@).unwrap(),
                minutes_away: spec_opt_num(m, "minutesAway"@).unwrap(),
                max_minutes_away: spec_opt_num(m, "maxMinutesAway"@).unwrap(),
                direction_number: spec_req_i64(m, "directionNumber"@).unwrap(),
                is_scheduled: spec_req_bool(m, "isScheduled"@).unwrap(),
                num_positive_tags: spec_req_i64(m, "numPositiveTags"@).unwrap(),
                num_negative_tags: spec_req_i64(m, "numNegativeTags"@).unwrap(),
                track_number: spec_req_i64(m, "trackNumber"@).unwrap(),
                current_station_code: spec_req_station(m, "currentStationCode"@).unwrap(),
                current_station_name: spec_req_str(m, "currentStationName"@).unwrap(),
                previous_station_code: spec_opt_station(m, "PreviousStationCode"@).unwrap(),
                previous_station_name: spec_opt_str(m, "previousStationName"@).unwrap(),
                seconds_since_last_moved: spec_req_i64(m, "secondsSinceLastMoved"@).unwrap(),
                is_currently_holding_or_slow: spec_req_bool(m, "isCurrentlyHoldingOrSlow"@).unwrap(),
                seconds_off_schedule: spec_req_i64(m, "secondsOffSchedule"@).unwrap(),
                train_speed: spec_opt_i64(m, "trainSpeed"@).unwrap(),
                is_not_on_revenue_track: spec_req_bool(m, "isNotOnRevenueTrack"@).unwrap(),
                is_keyed_down: spec_req_bool(m, "isKeyedDown"@).unwrap(),
                was_keyed_down: spec_req_bool(m, "wasKeyedDown"@).unwrap(),
                distance_from_next_station: spec_opt_i64(m, "distanceFromNextStation"@).unwrap(),
                lat: spec_opt_num(m, "lat"@).unwrap(),
                lon: spec_opt_num(m, "lon"@).unwrap(),
                direction: spec_opt_i64(m, "direction"@).unwrap(),
                are_doors_open_on_left: spec_opt_bool(m, "areDoorsOpenOnLeft"@).unwrap(),
                are_doors_open_on_right: spec_opt_bool(m, "areDoorsOpenOnRight"@).unwrap(),
                observed_date: spec_req_str(m, "observedDate"@).unwrap(),
                recent_tweets: spec_opt_obj_recent_tweets(m, "recentTweets"@).unwrap(),
            })
        } else {
            None
        },
        _ => None,
    }
}

/// Read a JSON document as a `TrainPrediction`.
#[verifier::rlimit(100)]
pub fn parse_train_prediction(v: &Value) -> (r: Option<TrainPrediction>)
    ensures
        match spec_parse_train_prediction(json_of(*v)) {
            Some(xv) => r matches Some(x) && x@ == xv,
            None => r is None,
        },
{
    if !is_obj_w(v) {
        return None;
    }
    let f_train_id = match req_str(v, "trainId") {
        Some(x) => x,
        None => {
            return None;
        },
    };
    let f_real_train_id = match opt_str(v, "realTrainId") {
        Some(x) => x,
        None => {
            return None;
        },
    };
    let f_car = match req_str(v, "Car") {
        Some(x) => x,
        None => {
            return None;
        },
    };
    let f_destination = match req_str(v, "Destination") {
        Some(x) => x,
        None => {
            return None;
        },
    };
    let f_destination_code = match opt_station(v, "DestinationCode") {
        Some(x) => x,
        None => {
            return None;
        },
    };
    let f_destination_name = match req_str(v, "DestinationName") {
        Some(x) => x,
        None => {
            return None;
        },
    };
    let f_group = match req_str(v, "Group") {
        Some(x) => x,
        None => {
            return None;
        },
    };
    let f_line = match req_line(v, "Line") {
        Some(x) => x,
        None => {
            return None;
        },
    };
    let f_location_code = match opt_station(v, "LocationCode") {
        Some(x) => x,
        None => {
            return None;
        },
    };
    let f_location_name = match opt_str(v, "LocationName") {
        Some(x) => x,
        None => {
            return None;
        },
    };
    let f_min = match req_str(v, "Min") {
        Some(x) => x,
        None => {
            return None;
        },
    };
    let f_parent_min = match opt_str(v, "parentMin") {
        Some(x) => x,
        None => {
            return None;
        },
    };
    let f_minutes_away = match opt_num(v, "minutesAway") {
        Some(x) => x,
        None => {
            return None;
        },
    };
    let f_max_minutes_away = match opt_num(v, "maxMinutesAway") {
        Some(x) => x,
        None => {
            return None;
        },
    };
    let f_direction_number = match req_i64(v, "directionNumber") {
        Some(x) => x,
        None => {
            return None;
        },
    };
    let f_is_scheduled = match req_bool(v, "isScheduled") {
        Some(x) => x,
        None => {
            return None;
        },
    };
    let f_num_positive_tags = match req_i64(v, "numPositiveTags") {
        Some(x) => x,
        None => {
            return None;
        },
    };
    let f_num_negative_tags = match req_i64(v, "numNegativeTags") {
        Some(x) => x,
        None => {
            return None;
        },
    };
    let f_track_number = match req_i64(v, "trackNumber") {
        Some(x) => x,
        None => {
            return None;
        },
    };
    let f_current_station_code = match req_station(v, "currentStationCode") {
        Some(x) => x,
        None => {
            return None;
        },
    };
    let f_current_station_name = match req_str(v, "currentStationName") {
        Some(x) => x,
        None => {
            return None;
        },
    };
    let f_previous_station_code = match opt_station(v, "PreviousStationCode") {
        Some(x) => x,
        None => {
            return None;
        },
    };
    let f_previous_station_name = match opt_str(v, "previousStationName") {
        Some(x) => x,
        None => {
            return None;
        },
    };
    let f_seconds_since_last_moved = match req_i64(v, "secondsSinceLastMoved") {
        Some(x) => x,
        None => {
            return None;
        },
    };
    let f_is_currently_holding_or_slow = match req_bool(v, "isCurrentlyHoldingOrSlow") {
        Some(x) => x,
        None => {
            return None;
        },
    };
    let f_seconds_off_schedule = match req_i64(v, "secondsOffSchedule") {
        Some(x) => x,
        None => {
            return None;
        },
    };
    let f_train_speed = match opt_i64(v, "trainSpeed") {
        Some(x) => x,
        None => {
            return None;
        },
    };
    let f_is_not_on_revenue_track = match req_bool(v, "isNotOnRevenueTrack") {
        Some(x) => x,
        None => {
            return None;
        },
    };
    let f_is_keyed_down = match req_bool(v, "isKeyedDown") {
        Some(x) => x,
        None => {
            return None;
        },
    };
    let f_was_keyed_down = match req_bool(v, "wasKeyedDown") {
        Some(x) => x,
        None => {
            return None;
        },
    };
    let f_distance_from_next_station = match opt_i64(v, "distanceFromNextStation") {
        Some(x) => x,
        None => {
            return None;
        },
    };
    let f_lat = match opt_num(v, "lat") {
        Some(x) => x,
        None => {
            return None;
        },
    };
    let f_lon = match opt_num(v, "lon") {
        Some(x) => x,
        None => {
            return None;
        },
    };
    let f_direction = match opt_i64(v, "direction") {
        Some(x) => x,
        None => {
            return None;
        },
    };
    let f_are_doors_open_on_left = match opt_bool(v, "areDoorsOpenOnLeft") {
        Some(x) => x,
        None => {
            return None;
        },
    };
    let f_are_doors_open_on_right = match opt_bool(v, "areDoorsOpenOnRight") {
        Some(x) => x,
        None => {
            return None;
        },
    };
    let f_observed_date = match req_str(v, "observedDate") {
        Some(x) => x,
        None => {
            return None;
        },
    };
    let f_recent_tweets = match get_w(v, "recentTweets") {
        None => None,
        Some(u) => if is_null_w(u) {
            None
        } else {
            match parse_recent_tweets(u) {
                Some(x) => Some(x),
                None => {
                    return None;
                },
            }
        },
    };
    Some(TrainPrediction {
        train_id: f_train_id,
        real_train_id: f_real_train_id,
        car: f_car,
        destination: f_destination,
        destination_code: f_destination_code,
        destination_name: f_destination_name,
        group: f_group,
        line: f_line,
        location_code: f_location_code,
        location_name: f_location_name,
        min: f_min,
        parent_min: f_parent_min,
        minutes_away: f_minutes_away,
        max_minutes_away: f_max_minutes_away,
        direction_number: f_direction_number,
        is_scheduled: f_is_scheduled,
        num_positive_tags: f_num_positive_tags,
        num_negative_tags: f_num_negative_tags,
        track_number: f_track_number,
        current_station_code: f_current_station_code,
        current_station_name: f_current_station_name,
        previous_station_code: f_previous_station_code,
        previous_station_name: f_previous_station_name,
        seconds_since_last_moved: f_seconds_since_last_moved,
        is_currently_holding_or_slow: f_is_currently_holding_or_slow,
        seconds_off_schedule: f_seconds_off_schedule,
        train_speed: f_train_speed,
        is_not_on_revenue_track: f_is_not_on_revenue_track,
        is_keyed_down: f_is_keyed_down,
        was_keyed_down: f_was_keyed_down,
        distance_from_next_station: f_distance_from_next_station,
        lat: f_lat,
        lon: f_lon,
        direction: f_direction,
        are_doors_open_on_left: f_are_doors_open_on_left,
        are_doors_open_on_right: f_are_doors_open_on_right,
        observed_date: f_observed_date,
        recent_tweets: f_recent_tweets,
    })
}

/// How a JSON document is read as a `TripInfo`: an object whose fields
/// all match the schema.
pub open spec fn spec_parse_trip_info(j: Json) -> Option<TripInfoV> {
    match j {
        Json::Obj(m) => if spec_req_str(m, "fromStationName"@) is Some
            && spec_req_station(m, "fromStationCode"@) is Some
            && spec_req_str(m, "toStationName"@) is Some
            && spec_req_station(m, "toStationCode"@) is Some
            && spec_req_arr_station(m, "tripStationCodes"@) is Some
            && spec_req_arr_line(m, "lineCodes"@) is Some
            && spec_req_num(m, "expectedRideTime"@) is Some
            && spec_req_num(m, "predictedRideTime"@) is Some
            && spec_req_num(m, "timeSinceLastTrain"@) is Some
            && spec_req_arr_pred(m, "fromStationTrainStatuses"@) is Some
            && spec_req_str(m, "date"@) is Some
            && spec_opt_num(m, "timeUntilNextTrain"@) is Some
            && spec_opt_arr_alert(m, "metroAlerts"@) is Some
            && spec_opt_arr_str(m, "metroAlertKeywords"@) is Some
            && spec_opt_arr_tweet(m, "tweets"@) is Some
            && spec_opt_arr_str(m, "tweetKeywords"@) is Some
            && spec_opt_arr_outage(m, "fromStationElevatorOutages"@) is Some
            && spec_opt_arr_outage(m, "fromStationEscalatorOutages"@) is Some
            && spec_opt_arr_outage(m, "toStationElevatorOutages"@) is Some
            && spec_opt_arr_outage(m, "toStationEscalatorOutages"@) is Some
        {
            Some(TripInfoV {
                from_station_name: spec_req_str(m, "fromStationName"@).unwrap(),
                from_station_code: spec_req_station(m, "fromStationCode"@).unwrap(),
                to_station_name: spec_req_str(m, "toStationName"@).unwrap(),
                to_station_code: spec_req_station(m, "toStationCode"@).unwrap(),
                trip_station_codes: spec_req_arr_station(m, "tripStationCodes"@).unwrap(),
                line_codes: spec_req_arr_line(m, "lineCodes"@).unwrap(),
                expected_ride_time: spec_req_num(m, "expectedRideTime"@).unwrap(),
                predicted_ride_time: spec_req_num(m, "predictedRideTime"@).unwrap(),
                time_since_last_train: spec_req_num(m, "timeSinceLastTrain"@).unwrap(),
                from_station_train_statuses: spec_req_arr_pred(m, "fromStationTrainStatuses"@).unwrap(),
                date: spec_req_str(m, "date"@).unwrap(),
                time_until_next_train: spec_opt_num(m, "timeUntilNextTrain"@).unwrap(),
                metro_alerts: spec_opt_arr_alert(m, "metroAlerts"@).unwrap(),
                metro_alert_keywords: spec_opt_arr_str(m, "metroAlertKeywords"@).unwrap(),
                tweets: spec_opt_arr_tweet(m, "tweets"@).unwrap(),
                tweet_keywords: spec_opt_arr_str(m, "tweetKeywords"@).unwrap(),
                from_station_elevator_outages: spec_opt_arr_outage(m, "fromStationElevatorOutages"@).unwrap(),
                from_station_escalator_outages: spec_opt_arr_outage(m, "fromStationEscalatorOutages"@).unwrap(),
                to_station_elevator_outages: spec_opt_arr_outage(m, "toStationElevatorOutages"@).unwrap(),
                to_station_escalator_outages: spec_opt_arr_outage(m, "toStationEscalatorOutages"@).unwrap(),
            })
        } else {
            None
        },
        _ => None,
    }
}

/// Read a JSON document as a `TripInfo`.
#[verifier::rlimit(100)]
pub fn parse_trip_info(v: &Value) -> (r: Option<TripInfo>)
    ensures
        match spec_parse_trip_info(json_of(*v)) {
            Some(xv) => r matches Some(x) && x@ == xv,
            None => r is None,
        },
{
    if !is_obj_w(v) {
        return None;
    }
    let f_from_station_name = match req_str(v, "fromStationName") {
        Some(x) => x,
        None => {
            return None;
        },
    };
    let f_from_station_code = match req_station(v, "fromStationCode") {
        Some(x) => x,
        None => {
            return None;
        },
    };
    let f_to_station_name = match req_str(v, "toStationName") {
        Some(x) => x,
        None => {
            return None;
        },
    };
    let f_to_station_code = match req_station(v, "toStationCode") {
        Some(x) => x,
        None => {
            return None;
        },
    };
    let f_trip_station_codes = match get_w(v, "tripStationCodes") {
        Some(u) => match as_array_w(u) {
            Some(a) => match parse_station_seq(a, Ghost(json_of(*u)->Arr_0)) {
                Some(x) => x,
                None => {
                    return None;
                },
            },
            None => {
                return None;
            },
        },
        None => {
            return None;
        },
    };
    let f_line_codes = match get_w(v, "lineCodes") {
        Some(u) => match as_array_w(u) {
            Some(a) => match parse_line_seq(a, Ghost(json_of(*u)->Arr_0)) {
                Some(x) => x,
                None => {
                    return None;
                },
            },
            None => {
                return None;
            },
        },
        None => {
            return None;
        },
    };
    let f_expected_ride_time = match req_num(v, "expectedRideTime") {
        Some(x) => x,
        None => {
            return None;
        },
    };
    let f_predicted_ride_time = match req_num(v, "predictedRideTime") {
        Some(x) => x,
        None => {
            return None;
        },
    };
    let f_time_since_last_train = match req_num(v, "timeSinceLastTrain") {
        Some(x) => x,
        None => {
            return None;
        },
    };
    let f_from_station_train_statuses = match get_w(v, "fromStationTrainStatuses") {
        Some(u) => match as_array_w(u) {
            Some(a) => match parse_pred_seq(a, Ghost(json_of(*u)->Arr_0)) {
                Some(x) => x,
                None => {
                    return None;
                },
            },
            None => {
                return None;
            },
        },
        None => {
            return None;
        },
    };
    let f_date = match req_str(v, "date") {
        Some(x) => x,
        None => {
            return None;
        },
    };
    let f_time_until_next_train = match opt_num(v, "timeUntilNextTrain") {
        Some(x) => x,
        None => {
            return None;
        },
    };
    let f_metro_alerts = match get_w(v, "metroAlerts") {
        None => None,
        Some(u) => if is_null_w(u) {
            None
        } else {
            match as_array_w(u) {
                Some(a) => match parse_alert_seq(a, Ghost(json_of(*u)->Arr_0)) {
                    Some(x) => Some(x),
                    None => {
                        return None;
                    },
                },
                None => {
                    return None;
                },
            }
        },
    };
    let f_metro_alert_keywords = match get_w(v, "metroAlertKeywords") {
        None => None,
        Some(u) => if is_null_w(u) {
            None
        } else {
            match as_array_w(u) {
                Some(a) => match parse_str_seq(a, Ghost(json_of(*u)->Arr_0)) {
                    Some(x) => Some(x),
                    None => {
                        return None;
                    },
                },
                None => {
                    return None;
                },
            }
        },
    };
    let f_tweets = match get_w(v, "tweets") {
        None => None,
        Some(u) => if is_null_w(u) {
            None
        } else {
            match as_array_w(u) {
                Some(a) => match parse_tweet_seq(a, Ghost(json_of(*u)->Arr_0)) {
                    Some(x) => Some(x),
                    None => {
                        return None;
                    },
                },
                None => {
                    return None;
                },
            }
        },
    };
    let f_tweet_keywords = match get_w(v, "tweetKeywords") {
        None => None,
        Some(u) => if is_null_w(u) {
            None
        } else {
            match as_array_w(u) {
                Some(a) => match parse_str_seq(a, Ghost(json_of(*u)->Arr_0)) {
                    Some(x) => Some(x),
                    None => {
                        return None;
                    },
                },
                None => {
                    return None;
                },
            }
        },
    };
    let f_from_station_elevator_outages = match get_w(v, "fromStationElevatorOutages") {
        None => None,
        Some(u) => if is_null_w(u) {
            None
        } else {
            match as_array_w(u) {
                Some(a) => match parse_outage_seq(a, Ghost(json_of(*u)->Arr_0)) {
                    Some(x) => Some(x),
                    None => {
                        return None;
                    },
                },
                None => {
                    return None;
                },
            }
        },
    };
    let f_from_station_escalator_outages = match get_w(v, "fromStationEscalatorOutages") {
        None => None,
        Some(u) => if is_null_w(u) {
            None
        } else {
            match as_array_w(u) {
                Some(a) => match parse_outage_seq(a, Ghost(json_of(*u)->Arr_0)) {
                    Some(x) => Some(x),
                    None => {
                        return None;
                    },
                },
                None => {
                    return None;
                },
            }
        },
    };
    let f_to_station_elevator_outages = match get_w(v, "toStationElevatorOutages") {
        None => None,
        Some(u) => if is_null_w(u) {
            None
        } else {
            match as_array_w(u) {
                Some(a) => match parse_outage_seq(a, Ghost(json_of(*u)->Arr_0)) {
                    Some(x) => Some(x),
                    None => {
                        return None;
                    },
                },
                None => {
                    return None;
                },
            }
        },
    };
    let f_to_station_escalator_outages = match get_w(v, "toStationEscalatorOutages") {
        None => None,
        Some(u) => if is_null_w(u) {
            None
        } else {
            match as_array_w(u) {
                Some(a) => match parse_outage_seq(a, Ghost(json_of(*u)->Arr_0)) {
                    Some(x) => Some(x),
                    None => {
                        return None;
                    },
                },
                None => {
                    return None;
                },
            }
        },
    };
    Some(TripInfo {
        from_station_name: f_from_station_name,
        from_station_code: f_from_station_code,
        to_station_name: f_to_station_name,
        to_station_code: f_to_station_code,
        trip_station_codes: f_trip_station_codes,
        line_codes: f_line_codes,
        expected_ride_time: f_expected_ride_time,
        predicted_ride_time: f_predicted_ride_time,
        time_since_last_train: f_time_since_last_train,
        from_station_train_statuses: f_from_station_train_statuses,
        date: f_date,
        time_until_next_train: f_time_until_next_train,
        metro_alerts: f_metro_alerts,
        metro_alert_keywords: f_metro_alert_keywords,
        tweets: f_tweets,
        tweet_keywords: f_tweet_keywords,
        from_station_elevator_outages: f_from_station_elevator_outages,
        from_station_escalator_outages: f_from_station_escalator_outages,
        to_station_elevator_outages: f_to_station_elevator_outages,
        to_station_escalator_outages: f_to_station_escalator_outages,
    })
}

/// How a JSON document is read as a `ServiceGaps`: an object whose fields
/// all match the schema.
pub open spec fn spec_parse_service_gaps(j: Json) -> Option<ServiceGapsV> {
    match j {
        Json::Obj(m) => if spec_req_line(m, "lineCode"@) is Some
            && spec_req_i64(m, "directionNumber"@) is Some
            && spec_req_str(m, "direction"@) is Some
            && spec_req_station(m, "fromStationCode"@) is Some
            && spec_req_str(m, "fromStationName"@) is Some
            && spec_req_station(m, "toStationCode"@) is Some
            && spec_req_str(m, "toStationName"@) is Some
            && spec_req_str(m, "fromTrainId"@) is Some
            && spec_req_str(m, "toTrainId"@) is Some
            && spec_req_num(m, "timeBetweenTrains"@) is Some
            && spec_req_num(m, "scheduledTimeBetweenTrains"@) is Some
            && spec_req_str(m, "observedDate"@) is Some
        {
            Some(ServiceGapsV {
                line_code: spec_req_line(m, "lineCode"@).unwrap(),
                direction_number: spec_req_i64(m, "directionNumber"@).unwrap(),
                direction: spec_req_str(m, "direction"@).unwrap(),
                from_station_code: spec_req_station(m, "fromStationCode"@).unwrap(),
                from_station_name: spec_req_str(m, "fromStationName"@).unwrap(),
                to_station_code: spec_req_station(m, "toStationCode"@).unwrap(),
                to_station_name: spec_req_str(m, "toStationName"@).unwrap(),
                from_train_id: spec_req_str(m, "fromTrainId"@).unwrap(),
                to_train_id: spec_req_str(m, "toTrainId"@).unwrap(),
                time_between_trains: spec_req_num(m, "timeBetweenTrains"@).unwrap(),
                scheduled_time_between_trains: spec_req_num(m, "scheduledTimeBetweenTrains"@).unwrap(),
                observed_date: spec_req_str(m, "observedDate"@).unwrap(),
            })
        } else {
            None
        },
        _ => None,
    }
}

/// Read a JSON document as a `ServiceGaps`.
pub fn parse_service_gaps(v: &Value) -> (r: Option<ServiceGaps>)
    ensures
        match spec_parse_service_gaps(json_of(*v)) {
            Some(xv) => r matches Some(x) && x@ == xv,
            None => r is None,
        },
{
    if !is_obj_w(v) {
        return None;
    }
    let f_line_code = match req_line(v, "lineCode") {
        Some(x) => x,
        None => {
            return None;
        },
    };
    let f_direction_number = match req_i64(v, "directionNumber") {
        Some(x) => x,
        None => {
            return None;
        },
    };
    let f_direction = match req_str(v, "direction") {
        Some(x) => x,
        None => {
            return None;
        },
    };
    let f_from_station_code = match req_station(v, "fromStationCode") {
        Some(x) => x,
        None => {
            return None;
        },
    };
    let f_from_station_name = match req_str(v, "fromStationName") {
        Some(x) => x,
        None => {
            return None;
        },
    };
    let f_to_station_code = match req_station(v, "toStationCode") {
        Some(x) => x,
        None => {
            return None;
        },
    };
    let f_to_station_name = match req_str(v, "toStationName") {
        Some(x) => x,
        None => {
            return None;
        },
    };
    let f_from_train_id = match req_str(v, "fromTrainId") {
        Some(x) => x,
        None => {
            return None;
        },
    };
    let f_to_train_id = match req_str(v, "toTrainId") {
        Some(x) => x,
        None => {
            return None;
        },
    };
    let f_time_between_trains = match req_num(v, "timeBetweenTrains") {
        Some(x) => x,
        None => {
            return None;
        },
    };
    let f_scheduled_time_between_trains = match req_num(v, "scheduledTimeBetweenTrains") {
        Some(x) => x,
        None => {
            return None;
        },
    };
    let f_observed_date = match req_str(v, "observedDate") {
        Some(x) => x,
        None => {
            return None;
        },
    };
    Some(ServiceGaps {
        line_code: f_line_code,
        direction_number: f_direction_number,
        direction: f_direction,
        from_station_code: f_from_station_code,
        from_station_name: f_from_station_name,
        to_station_code: f_to_station_code,
        to_station_name: f_to_station_name,
        from_train_id: f_from_train_id,
        to_train_id: f_to_train_id,
        time_between_trains: f_time_between_trains,
        scheduled_time_between_trains: f_scheduled_time_between_trains,
        observed_date: f_observed_date,
    })
}

/// How a JSON document is read as a `DirectionMetrics`: an object whose fields
/// all match the schema.
pub open spec fn spec_parse_direction_metrics(j: Json) -> Option<DirectionMetricsV> {
    match j {
        Json::Obj(m) => if spec_req_line(m, "lineCode"@) is Some
            && spec_req_i64(m, "directionNumber"@) is Some
            && spec_req_str(m, "direction"@) is Some
            && spec_req_str(m, "towardsStationName"@) is Some
            && spec_req_str(m, "date"@) is Some
            && spec_req_i64(m, "numTrains"@) is Some
            && spec_req_i64(m, "numCars"@) is Some
            && spec_req_i64(m, "numEightCarTrains"@) is Some
            && spec_req_i64(m, "numDelayedTrains"@) is Some
            && spec_req_i64(m, "expectedNumTrains"@) is Some
            && spec_opt_i64(m, "averageTrainDelay"@) is Some
            && spec_opt_i64(m, "medianTrainDelay"@) is Some
            && spec_opt_i64(m, "minimumTrainDelay"@) is Some
            && spec_opt_i64(m, "maximumTrainDelay"@) is Some
            && spec_opt_num(m, "averageMinimumHeadways"@) is Some
            && spec_opt_num(m, "averageTrainFrequency"@) is Some
            && spec_opt_num(m, "expectedTrainFrequency"@) is Some
            && spec_opt_num(m, "averagePlatformWaitTime"@) is Some
            && spec_opt_num(m, "expectedPlatformWaitTime"@) is Some
            && spec_opt_str(m, "trainFrequencyStatus"@) is Some
            && spec_opt_str(m, "platformWaitTimeTrendStatus"@) is Some
            && spec_opt_num(m, "averageHeadwayAdherence"@) is Some
            && spec_opt_num(m, "averageScheduleAdherence"@) is Some
            && spec_opt_num(m, "standardDeviationTrainFrequency"@) is Some
            && spec_opt_num(m, "expectedStandardDeviationTrainFrequency"@) is Some
        {
            Some(DirectionMetricsV {
                line_code: spec_req_line(m, "lineCode"@).unwrap(),
                direction_number: spec_req_i64(m, "directionNumber"@).unwrap(),
                direction: spec_req_str(m, "direction"@).unwrap(),
                towards_station_name: spec_req_str(m, "towardsStationName"@).unwrap(),
                date: spec_req_str(m, "date"@).unwrap(),
                num_trains: spec_req_i64(m, "numTrains"@).unwrap(),
                num_cars: spec_req_i64(m, "numCars"@).unwrap(),
                num_eight_car_trains: spec_req_i64(m, "numEightCarTrains"@).unwrap(),
                num_delayed_trains: spec_req_i64(m, "numDelayedTrains"@).unwrap(),
                expected_num_trains: spec_req_i64(m, "expectedNumTrains"@).unwrap(),
                average_train_delay: spec_opt_i64(m, "averageTrainDelay"@).unwrap(),
                median_train_delay: spec_opt_i64(m, "medianTrainDelay"@).unwrap(),
                minimum_train_delay: spec_opt_i64(m, "minimumTrainDelay"@).unwrap(),
                maximum_train_delay: spec_opt_i64(m, "maximumTrainDelay"@).unwrap(),
                average_minimum_headways: spec_opt_num(m, "averageMinimumHeadways"@).unwrap(),
                average_train_frequency: spec_opt_num(m, "averageTrainFrequency"@).unwrap(),
                expected_train_frequency: spec_opt_num(m, "expectedTrainFrequency"@).unwrap(),
                average_platform_wait_time: spec_opt_num(m, "averagePlatformWaitTime"@).unwrap(),
                expected_platform_wait_time: spec_opt_num(m, "expectedPlatformWaitTime"@).unwrap(),
                train_frequency_status: spec_opt_str(m, "trainFrequencyStatus"@).unwrap(),
                platform_wait_time_trend_status: spec_opt_str(m, "platformWaitTimeTrendStatus"@).unwrap(),
                average_headway_adherence: spec_opt_num(m, "averageHeadwayAdherence"@).unwrap(),
                average_schedule_adherence: spec_opt_num(m, "averageScheduleAdherence"@).unwrap(),
                standard_deviation_train_frequency: spec_opt_num(m, "standardDeviationTrainFrequency"@).unwrap(),
                expected_standard_deviation_train_frequency: spec_opt_num(m, "expectedStandardDeviationTrainFrequency"@).unwrap(),
            })
        } else {
            None
        },
        _ => None,
    }
}

/// Read a JSON document as a `DirectionMetrics`.
#[verifier::rlimit(60)]
pub fn parse_direction_metrics(v: &Value) -> (r: Option<DirectionMetrics>)
    ensures
        match spec_parse_direction_metrics(json_of(*v)) {
            Some(xv) => r matches Some(x) && x@ == xv,
            None => r is None,
        },
{
    if !is_obj_w(v) {
        return None;
    }
    let f_line_code = match req_line(v, "lineCode") {
        Some(x) => x,
        None => {
            return None;
        },
    };
    let f_direction_number = match req_i64(v, "directionNumber") {
        Some(x) => x,
        None => {
            return None;
        },
    };
    let f_direction = match req_str(v, "direction") {
        Some(x) => x,
        None => {
            return None;
        },
    };
    let f_towards_station_name = match req_str(v, "towardsStationName") {
        Some(x) => x,
        None => {
            return None;
        },
    };
    let f_date = match req_str(v, "date") {
        Some(x) => x,
        None => {
            return None;
        },
    };
    let f_num_trains = match req_i64(v, "numTrains") {
        Some(x) => x,
        None => {
            return None;
        },
    };
    let f_num_cars = match req_i64(v, "numCars") {
        Some(x) => x,
        None => {
            return None;
        },
    };
    let f_num_eight_car_trains = match req_i64(v, "numEightCarTrains") {
        Some(x) => x,
        None => {
            return None;
        },
    };
    let f_num_delayed_trains = match req_i64(v, "numDelayedTrains") {
        Some(x) => x,
        None => {
            return None;
        },
    };
    let f_expected_num_trains = match req_i64(v, "expectedNumTrains") {
        Some(x) => x,
        None => {
            return None;
        },
    };
    let f_average_train_delay = match opt_i64(v, "averageTrainDelay") {
        Some(x) => x,
        None => {
            return None;
        },
    };
    let f_median_train_delay = match opt_i64(v, "medianTrainDelay") {
        Some(x) => x,
        None => {
            return None;
        },
    };
    let f_minimum_train_delay = match opt_i64(v, "minimumTrainDelay") {
        Some(x) => x,
        None => {
            return None;
        },
    };
    let f_maximum_train_delay = match opt_i64(v, "maximumTrainDelay") {
        Some(x) => x,
        None => {
            return None;
        },
    };
    let f_average_minimum_headways = match opt_num(v, "averageMinimumHeadways") {
        Some(x) => x,
        None => {
            return None;
        },
    };
    let f_average_train_frequency = match opt_num(v, "averageTrainFrequency") {
        Some(x) => x,
        None => {
            return None;
        },
    };
    let f_expected_train_frequency = match opt_num(v, "expectedTrainFrequency") {
        Some(x) => x,
        None => {
            return None;
        },
    };
    let f_average_platform_wait_time = match opt_num(v, "averagePlatformWaitTime") {
        Some(x) => x,
        None => {
            return None;
        },
    };
    let f_expected_platform_wait_time = match opt_num(v, "expectedPlatformWaitTime") {
        Some(x) => x,
        None => {
            return None;
        },
    };
    let f_train_frequency_status = match opt_str(v, "trainFrequencyStatus") {
        Some(x) => x,
        None => {
            return None;
        },
    };
    let f_platform_wait_time_trend_status = match opt_str(v, "platformWaitTimeTrendStatus") {
        Some(x) => x,
        None => {
            return None;
        },
    };
    let f_average_headway_adherence = match opt_num(v, "averageHeadwayAdherence") {
        Some(x) => x,
        None => {
            return None;
        },
    };
    let f_average_schedule_adherence = match opt_num(v, "averageScheduleAdherence") {
        Some(x) => x,
        None => {
            return None;
        },
    };
    let f_standard_deviation_train_frequency = match opt_num(v, "standardDeviationTrainFrequency") {
        Some(x) => x,
        None => {
            return None;
        },
    };
    let f_expected_standard_deviation_train_frequency = match opt_num(v, "expectedStandardDeviationTrainFrequency") {
        Some(x) => x,
        None => {
            return None;
        },
    };
    Some(DirectionMetrics {
        line_code: f_line_code,
        direction_number: f_direction_number,
        direction: f_direction,
        towards_station_name: f_towards_station_name,
        date: f_date,
        num_trains: f_num_trains,
        num_cars: f_num_cars,
        num_eight_car_trains: f_num_eight_car_trains,
        num_delayed_trains: f_num_delayed_trains,
        expected_num_trains: f_expected_num_trains,
        average_train_delay: f_average_train_delay,
        median_train_delay: f_median_train_delay,
        minimum_train_delay: f_minimum_train_delay,
        maximum_train_delay: f_maximum_train_delay,
        average_minimum_headways: f_average_minimum_headways,
        average_train_frequency: f_average_train_frequency,
        expected_train_frequency: f_expected_train_frequency,
        average_platform_wait_time: f_average_platform_wait_time,
        expected_platform_wait_time: f_expected_platform_wait_time,
        train_frequency_status: f_train_frequency_status,
        platform_wait_time_trend_status: f_platform_wait_time_trend_status,
        average_headway_adherence: f_average_headway_adherence,
        average_schedule_adherence: f_average_schedule_adherence,
        standard_deviation_train_frequency: f_standard_deviation_train_frequency,
        expected_standard_deviation_train_frequency: f_expected_standard_deviation_train_frequency,
    })
}

/// How a JSON document is read as a `DirectionMetricsByDirection`: an object whose fields
/// all match the schema.
pub open spec fn spec_parse_direction_metrics_by_direction(j: Json) -> Option<DirectionMetricsByDirectionV> {
    match j {
        Json::Obj(m) => if spec_req_obj_direction_metrics(m, "1"@) is Some
            && spec_req_obj_direction_metrics(m, "2"@) is Some
        {
            Some(DirectionMetricsByDirectionV {
                d1: spec_req_obj_direction_metrics(m, "1"@).unwrap(),
                d2: spec_req_obj_direction_metrics(m, "2"@).unwrap(),
            })
        } else {
            None
        },
        _ => None,
    }
}

/// Read a JSON document as a `DirectionMetricsByDirection`.
pub fn parse_direction_metrics_by_direction(v: &Value) -> (r: Option<DirectionMetricsByDirection>)
    ensures
        match spec_parse_direction_metrics_by_direction(json_of(*v)) {
            Some(xv) => r matches Some(x) && x@ == xv,
            None => r is None,
        },
{
    if !is_obj_w(v) {
        return None;
    }
    let f_d1 = match get_w(v, "1") {
        Some(u) => match parse_direction_metrics(u) {
            Some(x) => x,
            None => {
                return None;
            },
        },
        None => {
            return None;
        },
    };
    let f_d2 = match get_w(v, "2") {
        Some(u) => match parse_direction_metrics(u) {
            Some(x) => x,
            None => {
                return None;
            },
        },
        None => {
            return None;
        },
    };
    Some(DirectionMetricsByDirection {
        d1: f_d1,
        d2: f_d2,
    })
}

/// How a JSON document is read as a `LineMetrics`: an object whose fields
/// all match the schema.
pub open spec fn spec_parse_line_metrics(j: Json) -> Option<LineMetricsV> {
    match j {
        Json::Obj(m) => if spec_req_line(m, "lineCode"@) is Some
            && spec_req_arr_gap(m, "serviceGaps"@) is Some
            && spec_req_obj_direction_metrics_by_direction(m, "directionMetricsByDirection"@) is Some
            && spec_req_str(m, "date"@) is Some
            && spec_req_i64(m, "numTrains"@) is Some
            && spec_req_i64(m, "numCars"@) is Some
            && spec_req_i64(m, "numEightCarTrains"@) is Some
            && spec_req_i64(m, "numDelayedTrains"@) is Some
            && spec_req_i64(m, "expectedNumTrains"@) is Some
            && spec_opt_i64(m, "averageTrainDelay"@) is Some
            && spec_opt_i64(m, "medianTrainDelay"@) is Some
            && spec_opt_i64(m, "minimumTrainDelay"@) is Some
            && spec_opt_i64(m, "maximumTrainDelay"@) is Some
            && spec_opt_num(m, "averageMinimumHeadways"@) is Some
            && spec_opt_num(m, "averageTrainFrequency"@) is Some
            && spec_opt_num(m, "expectedTrainFrequency"@) is Some
            && spec_opt_num(m, "averagePlatformWaitTime"@) is Some
            && spec_opt_num(m, "expectedPlatformWaitTime"@) is Some
            && spec_opt_str(m, "trainFrequencyStatus"@) is Some
            && spec_opt_str(m, "platformWaitTimeTrendStatus"@) is Some
            && spec_opt_num(m, "averageHeadwayAdherence"@) is Some
            && spec_opt_num(m, "averageScheduleAdherence"@) is Some
            && spec_opt_num(m, "standardDeviationTrainFrequency"@) is Some
            && spec_opt_num(m, "expectedStandardDeviationTrainFrequency"@) is Some
        {
            Some(LineMetricsV {
                line_code: spec_req_line(m, "lineCode"@).unwrap(),
                service_gaps: spec_req_arr_gap(m, "serviceGaps"@).unwrap(),
                direction_metrics_by_direction: spec_req_obj_direction_metrics_by_direction(m, "directionMetricsByDirection"@).unwrap(),
                date: spec_req_str(m, "date"@).unwrap(),
                num_trains: spec_req_i64(m, "numTrains"@).unwrap(),
                num_cars: spec_req_i64(m, "numCars"@).unwrap(),
                num_eight_car_trains: spec_req_i64(m, "numEightCarTrains"@).unwrap(),
                num_delayed_trains: spec_req_i64(m, "numDelayedTrains"@).unwrap(),
                expected_num_trains: spec_req_i64(m, "expectedNumTrains"@).unwrap(),
                average_train_delay: spec_opt_i64(m, "averageTrainDelay"@).unwrap(),
                median_train_delay: spec_opt_i64(m, "medianTrainDelay"@).unwrap(),
                minimum_train_delay: spec_opt_i64(m, "minimumTrainDelay"@).unwrap(),
                maximum_train_delay: spec_opt_i64(m, "maximumTrainDelay"@).unwrap(),
                average_minimum_headways: spec_opt_num(m, "averageMinimumHeadways"@).unwrap(),
                average_train_frequency: spec_opt_num(m, "averageTrainFrequency"@).unwrap(),
                expected_train_frequency: spec_opt_num(m, "expectedTrainFrequency"@).unwrap(),
                average_platform_wait_time: spec_opt_num(m, "averagePlatformWaitTime"@).unwrap(),
                expected_platform_wait_time: spec_opt_num(m, "expectedPlatformWaitTime"@).unwrap(),
                train_frequency_status: spec_opt_str(m, "trainFrequencyStatus"@).unwrap(),
                platform_wait_time_trend_status: spec_opt_str(m, "platformWaitTimeTrendStatus"@).unwrap(),
                average_headway_adherence: spec_opt_num(m, "averageHeadwayAdherence"@).unwrap(),
                average_schedule_adherence: spec_opt_num(m, "averageScheduleAdherence"@).unwrap(),
                standard_deviation_train_frequency: spec_opt_num(m, "standardDeviationTrainFrequency"@).unwrap(),
                expected_standard_deviation_train_frequency: spec_opt_num(m, "expectedStandardDeviationTrainFrequency"@).unwrap(),
            })
        } else {
            None
        },
        _ => None,
    }
}

/// Read a JSON document as a `LineMetrics`.
#[verifier::rlimit(60)]
pub fn parse_line_metrics(v: &Value) -> (r: Option<LineMetrics>)
    ensures
        match spec_parse_line_metrics(json_of(*v)) {
            Some(xv) => r matches Some(x) && x@ == xv,
            None => r is None,
        },
{
    if !is_obj_w(v) {
        return None;
    }
    let f_line_code = match req_line(v, "lineCode") {
        Some(x) => x,
        None => {
            return None;
        },
    };
    let f_service_gaps = match get_w(v, "serviceGaps") {
        Some(u) => match as_array_w(u) {
            Some(a) => match parse_gap_seq(a, Ghost(json_of(*u)->Arr_0)) {
                Some(x) => x,
                None => {
                    return None;
                },
            },
            None => {
                return None;
            },
        },
        None => {
            return None;
        },
    };
    let f_direction_metrics_by_direction = match get_w(v, "directionMetricsByDirection") {
        Some(u) => match parse_direction_metrics_by_direction(u) {
            Some(x) => x,
            None => {
                return None;
            },
        },
        None => {
            return None;
        },
    };
    let f_date = match req_str(v, "date") {
        Some(x) => x,
        None => {
            return None;
        },
    };
    let f_num_trains = match req_i64(v, "numTrains") {
        Some(x) => x,
        None => {
            return None;
        },
    };
    let f_num_cars = match req_i64(v, "numCars") {
        Some(x) => x,
        None => {
            return None;
        },
    };
    let f_num_eight_car_trains = match req_i64(v, "numEightCarTrains") {
        Some(x) => x,
        None => {
            return None;
        },
    };
    let f_num_delayed_trains = match req_i64(v, "numDelayedTrains") {
        Some(x) => x,
        None => {
            return None;
        },
    };
    let f_expected_num_trains = match req_i64(v, "expectedNumTrains") {
        Some(x) => x,
        None => {
            return None;
        },
    };
    let f_average_train_delay = match opt_i64(v, "averageTrainDelay") {
        Some(x) => x,
        None => {
            return None;
        },
    };
    let f_median_train_delay = match opt_i64(v, "medianTrainDelay") {
        Some(x) => x,
        None => {
            return None;
        },
    };
    let f_minimum_train_delay = match opt_i64(v, "minimumTrainDelay") {
        Some(x) => x,
        None => {
            return None;
        },
    };
    let f_maximum_train_delay = match opt_i64(v, "maximumTrainDelay") {
        Some(x) => x,
        None => {
            return None;
        },
    };
    let f_average_minimum_headways = match opt_num(v, "averageMinimumHeadways") {
        Some(x) => x,
        None => {
            return None;
        },
    };
    let f_average_train_frequency = match opt_num(v, "averageTrainFrequency") {
        Some(x) => x,
        None => {
            return None;
        },
    };
    let f_expected_train_frequency = match opt_num(v, "expectedTrainFrequency") {
        Some(x) => x,
        None => {
            return None;
        },
    };
    let f_average_platform_wait_time = match opt_num(v, "averagePlatformWaitTime") {
        Some(x) => x,
        None => {
            return None;
        },
    };
    let f_expected_platform_wait_time = match opt_num(v, "expectedPlatformWaitTime") {
        Some(x) => x,
        None => {
            return None;
        },
    };
    let f_train_frequency_status = match opt_str(v, "trainFrequencyStatus") {
        Some(x) => x,
        None => {
            return None;
        },
    };
    let f_platform_wait_time_trend_status = match opt_str(v, "platformWaitTimeTrendStatus") {
        Some(x) => x,
        None => {
            return None;
        },
    };
    let f_average_headway_adherence = match opt_num(v, "averageHeadwayAdherence") {
        Some(x) => x,
        None => {
            return None;
        },
    };
    let f_average_schedule_adherence = match opt_num(v, "averageScheduleAdherence") {
        Some(x) => x,
        None => {
            return None;
        },
    };
    let f_standard_deviation_train_frequency = match opt_num(v, "standardDeviationTrainFrequency") {
        Some(x) => x,
        None => {
            return None;
        },
    };
    let f_expected_standard_deviation_train_frequency = match opt_num(v, "expectedStandardDeviationTrainFrequency") {
        Some(x) => x,
        None => {
            return None;
        },
    };
    Some(LineMetrics {
        line_code: f_line_code,
        service_gaps: f_service_gaps,
        direction_metrics_by_direction: f_direction_metrics_by_direction,
        date: f_date,
        num_trains: f_num_trains,
        num_cars: f_num_cars,
        num_eight_car_trains: f_num_eight_car_trains,
        num_delayed_trains: f_num_delayed_trains,
        expected_num_trains: f_expected_num_trains,
        average_train_delay: f_average_train_delay,
        median_train_delay: f_median_train_delay,
        minimum_train_delay: f_minimum_train_delay,
        maximum_train_delay: f_maximum_train_delay,
        average_minimum_headways: f_average_minimum_headways,
        average_train_frequency: f_average_train_frequency,
        expected_train_frequency: f_expected_train_frequency,
        average_platform_wait_time: f_average_platform_wait_time,
        expected_platform_wait_time: f_expected_platform_wait_time,
        train_frequency_status: f_train_frequency_status,
        platform_wait_time_trend_status: f_platform_wait_time_trend_status,
        average_headway_adherence: f_average_headway_adherence,
        average_schedule_adherence: f_average_schedule_adherence,
        standard_deviation_train_frequency: f_standard_deviation_train_frequency,
        expected_standard_deviation_train_frequency: f_expected_standard_deviation_train_frequency,
    })
}

/// How a JSON document is read as a `SystemMetrics`: an object whose fields
/// all match the schema.
pub open spec fn spec_parse_system_metrics(j: Json) -> Option<SystemMetricsV> {
    match j {
        Json::Obj(m) => if spec_req_obj_line_metrics(m, "RD"@) is Some
            && spec_req_obj_line_metrics(m, "OR"@) is Some
            && spec_req_obj_line_metrics(m, "SV"@) is Some
            && spec_req_obj_line_metrics(m, "BL"@) is Some
            && spec_req_obj_line_metrics(m, "YL"@) is Some
            && spec_req_obj_line_metrics(m, "GR"@) is Some
        {
            Some(SystemMetricsV {
                rd: spec_req_obj_line_metrics(m, "RD"@).unwrap(),
                or: spec_req_obj_line_metrics(m, "OR"@).unwrap(),
                sv: spec_req_obj_line_metrics(m, "SV"@).unwrap(),
                bl: spec_req_obj_line_metrics(m, "BL"@).unwrap(),
                yl: spec_req_obj_line_metrics(m, "YL"@).unwrap(),
                gr: spec_req_obj_line_metrics(m, "GR"@).unwrap(),
            })
        } else {
            None
        },
        _ => None,
    }
}

/// Read a JSON document as a `SystemMetrics`.
pub fn parse_system_metrics(v: &Value) -> (r: Option<SystemMetrics>)
    ensures
        match spec_parse_system_metrics(json_of(*v)) {
            Some(xv) => r matches Some(x) && x@ == xv,
            None => r is None,
        },
{
    if !is_obj_w(v) {
        return None;
    }
    let f_rd = match get_w(v, "RD") {
        Some(u) => match parse_line_metrics(u) {
            Some(x) => x,
            None => {
                return None;
            },
        },
        None => {
            return None;
        },
    };
    let f_or = match get_w(v, "OR") {
        Some(u) => match parse_line_metrics(u) {
            Some(x) => x,
            None => {
                return None;
            },
        },
        None => {
            return None;
        },
    };
    let f_sv = match get_w(v, "SV") {
        Some(u) => match parse_line_metrics(u) {
            Some(x) => x,
            None => {
                return None;
            },
        },
        None => {
            return None;
        },
    };
    let f_bl = match get_w(v, "BL") {
        Some(u) => match parse_line_metrics(u) {
            Some(x) => x,
            None => {
                return None;
            },
        },
        None => {
            return None;
        },
    };
    let f_yl = match get_w(v, "YL") {
        Some(u) => match parse_line_metrics(u) {
            Some(x) => x,
            None => {
                return None;
            },
        },
        None => {
            return None;
        },
    };
    let f_gr = match get_w(v, "GR") {
        Some(u) => match parse_line_metrics(u) {
            Some(x) => x,
            None => {
                return None;
            },
        },
        None => {
            return None;
        },
    };
    Some(SystemMetrics {
        rd: f_rd,
        or: f_or,
        sv: f_sv,
        bl: f_bl,
        yl: f_yl,
        gr: f_gr,
    })
}

/// How a JSON document is read as a `SystemMetricsResponse`: an object whose fields
/// all match the schema.
pub open spec fn spec_parse_system_metrics_response(j: Json) -> Option<SystemMetricsResponseV> {
    match j {
        Json::Obj(m) => if spec_req_obj_system_metrics(m, "lineMetricsByLine"@) is Some
            && spec_req_str(m, "date"@) is Some
        {
            Some(SystemMetricsResponseV {
                line_metrics_by_line: spec_req_obj_system_metrics(m, "lineMetricsByLine"@).unwrap(),
                date: spec_req_str(m, "date"@).unwrap(),
            })
        } else {
            None
        },
        _ => None,
    }
}

/// Read a JSON document as a `SystemMetricsResponse`.
pub fn parse_system_metrics_response(v: &Value) -> (r: Option<SystemMetricsResponse>)
    ensures
        match spec_parse_system_metrics_response(json_of(*v)) {
            Some(xv) => r matches Some(x) && x@ == xv,
            None => r is None,
        },
{
    if !is_obj_w(v) {
        return None;
    }
    let f_line_metrics_by_line = match get_w(v, "lineMetricsByLine") {
        Some(u) => match parse_system_metrics(u) {
            Some(x) => x,
            None => {
                return None;
            },
        },
        None => {
            return None;
        },
    };
    let f_date = match req_str(v, "date") {
        Some(x) => x,
        None => {
            return None;
        },
    };
    Some(SystemMetricsResponse {
        line_metrics_by_line: f_line_metrics_by_line,
        date: f_date,
    })
}

/// How a JSON document is read as a `NumStationTagsByType`: an object whose fields
/// all match the schema.
pub open spec fn spec_parse_num_station_tags_by_type(j: Json) -> Option<NumStationTagsByTypeV> {
    match j {
        Json::Obj(m) => if spec_req_i64(m, "FRIENDLY_OR_HELPFUL_STAFF"@) is Some
            && spec_req_i64(m, "UNCOMFORTABLE_TEMPS"@) is Some
            && spec_req_i64(m, "AMPLE_SECURITY"@) is Some
            && spec_req_i64(m, "BROKEN_ELEVATOR"@) is Some
            && spec_req_i64(m, "BROKEN_ESCALATOR"@) is Some
            && spec_req_i64(m, "CROWDED"@) is Some
            && spec_req_i64(m, "EMPTY"@) is Some
            && spec_req_i64(m, "FREE_HAND_SANITIZER_AVAILABLE"@) is Some
            && spec_req_i64(m, "FREE_MASKS_AVAILABLE"@) is Some
            && spec_req_i64(m, "LONG_WAITING_TIME"@) is Some
            && spec_req_i64(m, "NEEDS_WORK"@) is Some
            && spec_req_i64(m, "NO_FREE_HAND_SANITIZER"@) is Some
            && spec_req_i64(m, "NO_FREE_MASKS"@) is Some
            && spec_req_i64(m, "POSTED_TIMES_INACCURATE"@) is Some
            && spec_req_i64(m, "SMOKE_OR_FIRE"@) is Some
            && spec_req_i64(m, "UNFRIENDLY_OR_UNHELPFUL_STAFF"@) is Some
        {
            Some(NumStationTagsByTypeV {
                friendly_or_helpful_staff: spec_req_i64(m, "FRIENDLY_OR_HELPFUL_STAFF"@).unwrap(),
                uncomfortable_temps: spec_req_i64(m, "UNCOMFORTABLE_TEMPS"@).unwrap(),
                ample_security: spec_req_i64(m, "AMPLE_SECURITY"@).unwrap(),
                broken_elevator: spec_req_i64(m, "BROKEN_ELEVATOR"@).unwrap(),
                broken_escalator: spec_req_i64(m, "BROKEN_ESCALATOR"@).unwrap(),
                crowded: spec_req_i64(m, "CROWDED"@).unwrap(),
                empty: spec_req_i64(m, "EMPTY"@).unwrap(),
                free_hand_sanitizer_available: spec_req_i64(m, "FREE_HAND_SANITIZER_AVAILABLE"@).unwrap(),
                free_masks_available: spec_req_i64(m, "FREE_MASKS_AVAILABLE"@).unwrap(),
                long_waiting_time: spec_req_i64(m, "LONG_WAITING_TIME"@).unwrap(),
                needs_work: spec_req_i64(m, "NEEDS_WORK"@).unwrap(),
                no_free_hand_sanitizer: spec_req_i64(m, "NO_FREE_HAND_SANITIZER"@).unwrap(),
                no_free_masks: spec_req_i64(m, "NO_FREE_MASKS"@).unwrap(),
                posted_times_inaccurate: spec_req_i64(m, "POSTED_TIMES_INACCURATE"@).unwrap(),
                smoke_or_fire: spec_req_i64(m, "SMOKE_OR_FIRE"@).unwrap(),
                unfriendly_or_unhelpful_staff: spec_req_i64(m, "UNFRIENDLY_OR_UNHELPFUL_STAFF"@).unwrap(),
            })
        } else {
            None
        },
        _ => None,
    }
}

/// Read a JSON document as a `NumStationTagsByType`.
pub fn parse_num_station_tags_by_type(v: &Value) -> (r: Option<NumStationTagsByType>)
    ensures
        match spec_parse_num_station_tags_by_type(json_of(*v)) {
            Some(xv) => r matches Some(x) && x@ == xv,
            None => r is None,
        },
{
    if !is_obj_w(v) {
        return None;
    }
    let f_friendly_or_helpful_staff = match req_i64(v, "FRIENDLY_OR_HELPFUL_STAFF") {
        Some(x) => x,
        None => {
            return None;
        },
    };
    let f_uncomfortable_temps = match req_i64(v, "UNCOMFORTABLE_TEMPS") {
        Some(x) => x,
        None => {
            return None;
        },
    };
    let f_ample_security = match req_i64(v, "AMPLE_SECURITY") {
        Some(x) => x,
        None => {
            return None;
        },
    };
    let f_broken_elevator = match req_i64(v, "BROKEN_ELEVATOR") {
        Some(x) => x,
        None => {
            return None;
        },
    };
    let f_broken_escalator = match req_i64(v, "BROKEN_ESCALATOR") {
        Some(x) => x,
        None => {
            return None;
        },
    };
    let f_crowded = match req_i64(v, "CROWDED") {
        Some(x) => x,
        None => {
            return None;
        },
    };
    let f_empty = match req_i64(v, "EMPTY") {
        Some(x) => x,
        None => {
            return None;
        },
    };
    let f_free_hand_sanitizer_available = match req_i64(v, "FREE_HAND_SANITIZER_AVAILABLE") {
        Some(x) => x,
        None => {
            return None;
        },
    };
    let f_free_masks_available = match req_i64(v, "FREE_MASKS_AVAILABLE") {
        Some(x) => x,
        None => {
            return None;
        },
    };
    let f_long_waiting_time = match req_i64(v, "LONG_WAITING_TIME") {
        Some(x) => x,
        None => {
            return None;
        },
    };
    let f_needs_work = match req_i64(v, "NEEDS_WORK") {
        Some(x) => x,
        None => {
            return None;
        },
    };
    let f_no_free_hand_sanitizer = match req_i64(v, "NO_FREE_HAND_SANITIZER") {
        Some(x) => x,
        None => {
            return None;
        },
    };
    let f_no_free_masks = match req_i64(v, "NO_FREE_MASKS") {
        Some(x) => x,
        None => {
            return None;
        },
    };
    let f_posted_times_inaccurate = match req_i64(v, "POSTED_TIMES_INACCURATE") {
        Some(x) => x,
        None => {
            return None;
        },
    };
    let f_smoke_or_fire = match req_i64(v, "SMOKE_OR_FIRE") {
        Some(x) => x,
        None => {
            return None;
        },
    };
    let f_unfriendly_or_unhelpful_staff = match req_i64(v, "UNFRIENDLY_OR_UNHELPFUL_STAFF") {
        Some(x) => x,
        None => {
            return None;
        },
    };
    Some(NumStationTagsByType {
        friendly_or_helpful_staff: f_friendly_or_helpful_staff,
        uncomfortable_temps: f_uncomfortable_temps,
        ample_security: f_ample_security,
        broken_elevator: f_broken_elevator,
        broken_escalator: f_broken_escalator,
        crowded: f_crowded,
        empty: f_empty,
        free_hand_sanitizer_available: f_free_hand_sanitizer_available,
        free_masks_available: f_free_masks_available,
        long_waiting_time: f_long_waiting_time,
        needs_work: f_needs_work,
        no_free_hand_sanitizer: f_no_free_hand_sanitizer,
        no_free_masks: f_no_free_masks,
        posted_times_inaccurate: f_posted_times_inaccurate,
        smoke_or_fire: f_smoke_or_fire,
        unfriendly_or_unhelpful_staff: f_unfriendly_or_unhelpful_staff,
    })
}

/// How a JSON document is read as a `StationTags`: an object whose fields
/// all match the schema.
pub open spec fn spec_parse_station_tags(j: Json) -> Option<StationTagsV> {
    match j {
        Json::Obj(m) => if spec_req_obj_num_station_tags_by_type(m, "numTagsByType"@) is Some
            && spec_req_i64(m, "numPositiveTags"@) is Some
            && spec_req_i64(m, "numNegativeTags"@) is Some
        {
            Some(StationTagsV {
                num_tags_by_type: spec_req_obj_num_station_tags_by_type(m, "numTagsByType"@).unwrap(),
                num_positive_tags: spec_req_i64(m, "numPositiveTags"@).unwrap(),
                num_negative_tags: spec_req_i64(m, "numNegativeTags"@).unwrap(),
            })
        } else {
            None
        },
        _ => None,
    }
}

/// Read a JSON document as a `StationTags`.
pub fn parse_station_tags(v: &Value) -> (r: Option<StationTags>)
    ensures
        match spec_parse_station_tags(json_of(*v)) {
            Some(xv) => r matches Some(x) && x@ == xv,
            None => r is None,
        },
{
    if !is_obj_w(v) {
        return None;
    }
    let f_num_tags_by_type = match get_w(v, "numTagsByType") {
        Some(u) => match parse_num_station_tags_by_type(u) {
            Some(x) => x,
            None => {
                return None;
            },
        },
        None => {
            return None;
        },
    };
    let f_num_positive_tags = match req_i64(v, "numPositiveTags") {
        Some(x) => x,
        None => {
            return None;
        },
    };
    let f_num_negative_tags = match req_i64(v, "numNegativeTags") {
        Some(x) => x,
        None => {
            return None;
        },
    };
    Some(StationTags {
        num_tags_by_type: f_num_tags_by_type,
        num_positive_tags: f_num_positive_tags,
        num_negative_tags: f_num_negative_tags,
    })
}

/// How a JSON document is read as a `NumTrainTagsByType`: an object whose fields
/// all match the schema.
pub open spec fn spec_parse_num_train_tags_by_type(j: Json) -> Option<NumTrainTagsByTypeV> {
    match j {
        Json::Obj(m) => if spec_req_i64(m, "BAD_OPERATOR"@) is Some
            && spec_req_i64(m, "ISOLATED_CARS"@) is Some
            && spec_req_i64(m, "NEW_TRAIN"@) is Some
            && spec_req_i64(m, "BROKEN_INTERCOM"@) is Some
            && spec_req_i64(m, "CROWDED"@) is Some
            && spec_req_i64(m, "DISRUPTIVE_PASSENGER"@) is Some
            && spec_req_i64(m, "EMPTY"@) is Some
            && spec_req_i64(m, "GOOD_OPERATOR"@) is Some
            && spec_req_i64(m, "GOOD_RIDE"@) is Some
            && spec_req_i64(m, "NEEDS_WORK"@) is Some
            && spec_req_i64(m, "RECENTLY_OFFLOADED"@) is Some
            && spec_req_i64(m, "UNCOMFORTABLE_RIDE"@) is Some
            && spec_req_i64(m, "UNCOMFORTABLE_TEMPS"@) is Some
            && spec_req_i64(m, "WRONG_DESTINATION"@) is Some
            && spec_req_i64(m, "WRONG_NUM_CARS"@) is Some
        {
            Some(NumTrainTagsByTypeV {
                bad_operator: spec_req_i64(m, "BAD_OPERATOR"@).unwrap(),
                isolated_cars: spec_req_i64(m, "ISOLATED_CARS"@).unwrap(),
                new_train: spec_req_i64(m, "NEW_TRAIN"@).unwrap(),
                broken_intercom: spec_req_i64(m, "BROKEN_INTERCOM"@).unwrap(),
                crowded: spec_req_i64(m, "CROWDED"@).unwrap(),
                disruptive_passenger: spec_req_i64(m, "DISRUPTIVE_PASSENGER"@).unwrap(),
                empty: spec_req_i64(m, "EMPTY"@).unwrap(),
                good_operator: spec_req_i64(m, "GOOD_OPERATOR"@).unwrap(),
                good_ride: spec_req_i64(m, "GOOD_RIDE"@).unwrap(),
                needs_work: spec_req_i64(m, "NEEDS_WORK"@).unwrap(),
                recently_offloaded: spec_req_i64(m, "RECENTLY_OFFLOADED"@).unwrap(),
                uncomfortable_ride: spec_req_i64(m, "UNCOMFORTABLE_RIDE"@).unwrap(),
                uncomfortable_temps: spec_req_i64(m, "UNCOMFORTABLE_TEMPS"@).unwrap(),
                wrong_destination: spec_req_i64(m, "WRONG_DESTINATION"@).unwrap(),
                wrong_num_cars: spec_req_i64(m, "WRONG_NUM_CARS"@).unwrap(),
            })
        } else {
            None
        },
        _ => None,
    }
}

/// Read a JSON document as a `NumTrainTagsByType`.
pub fn parse_num_train_tags_by_type(v: &Value) -> (r: Option<NumTrainTagsByType>)
    ensures
        match spec_parse_num_train_tags_by_type(json_of(*v)) {
            Some(xv) => r matches Some(x) && x@ == xv,
            None => r is None,
        },
{
    if !is_obj_w(v) {
        return None;
    }
    let f_bad_operator = match req_i64(v, "BAD_OPERATOR") {
        Some(x) => x,
        None => {
            return None;
        },
    };
    let f_isolated_cars = match req_i64(v, "ISOLATED_CARS") {
        Some(x) => x,
        None => {
            return None;
        },
    };
    let f_new_train = match req_i64(v, "NEW_TRAIN") {
        Some(x) => x,
        None => {
            return None;
        },
    };
    let f_broken_intercom = match req_i64(v, "BROKEN_INTERCOM") {
        Some(x) => x,
        None => {
            return None;
        },
    };
    let f_crowded = match req_i64(v, "CROWDED") {
        Some(x) => x,
        None => {
            return None;
        },
    };
    let f_disruptive_passenger = match req_i64(v, "DISRUPTIVE_PASSENGER") {
        Some(x) => x,
        None => {
            return None;
        },
    };
    let f_empty = match req_i64(v, "EMPTY") {
        Some(x) => x,
        None => {
            return None;
        },
    };
    let f_good_operator = match req_i64(v, "GOOD_OPERATOR") {
        Some(x) => x,
        None => {
            return None;
        },
    };
    let f_good_ride = match req_i64(v, "GOOD_RIDE") {
        Some(x) => x,
        None => {
            return None;
        },
    };
    let f_needs_work = match req_i64(v, "NEEDS_WORK") {
        Some(x) => x,
        None => {
            return None;
        },
    };
    let f_recently_offloaded = match req_i64(v, "RECENTLY_OFFLOADED") {
        Some(x) => x,
        None => {
            return None;
        },
    };
    let f_uncomfortable_ride = match req_i64(v, "UNCOMFORTABLE_RIDE") {
        Some(x) => x,
        None => {
            return None;
        },
    };
    let f_uncomfortable_temps = match req_i64(v, "UNCOMFORTABLE_TEMPS") {
        Some(x) => x,
        None => {
            return None;
        },
    };
    let f_wrong_destination = match req_i64(v, "WRONG_DESTINATION") {
        Some(x) => x,
        None => {
            return None;
        },
    };
    let f_wrong_num_cars = match req_i64(v, "WRONG_NUM_CARS") {
        Some(x) => x,
        None => {
            return None;
        },
    };
    Some(NumTrainTagsByType {
        bad_operator: f_bad_operator,
        isolated_cars: f_isolated_cars,
        new_train: f_new_train,
        broken_intercom: f_broken_intercom,
        crowded: f_crowded,
        disruptive_passenger: f_disruptive_passenger,
        empty: f_empty,
        good_operator: f_good_operator,
        good_ride: f_good_ride,
        needs_work: f_needs_work,
        recently_offloaded: f_recently_offloaded,
        uncomfortable_ride: f_uncomfortable_ride,
        uncomfortable_temps: f_uncomfortable_temps,
        wrong_destination: f_wrong_destination,
        wrong_num_cars: f_wrong_num_cars,
    })
}

/// How a JSON document is read as a `TrainTags`: an object whose fields
/// all match the schema.
pub open spec fn spec_parse_train_tags(j: Json) -> Option<TrainTagsV> {
    match j {
        Json::Obj(m) => if spec_req_obj_num_train_tags_by_type(m, "numTagsByType"@) is Some
            && spec_req_i64(m, "numPositiveTags"@) is Some
            && spec_req_i64(m, "numNegativeTags"@) is Some
        {
            Some(TrainTagsV {
                num_tags_by_type: spec_req_obj_num_train_tags_by_type(m, "numTagsByType"@).unwrap(),
                num_positive_tags: spec_req_i64(m, "numPositiveTags"@).unwrap(),
                num_negative_tags: spec_req_i64(m, "numNegativeTags"@).unwrap(),
            })
        } else {
            None
        },
        _ => None,
    }
}

/// Read a JSON document as a `TrainTags`.
pub fn parse_train_tags(v: &Value) -> (r: Option<TrainTags>)
    ensures
        match spec_parse_train_tags(json_of(*v)) {
            Some(xv) => r matches Some(x) && x@ == xv,
            None => r is None,
        },
{
    if !is_obj_w(v) {
        return None;
    }
    let f_num_tags_by_type = match get_w(v, "numTagsByType") {
        Some(u) => match parse_num_train_tags_by_type(u) {
            Some(x) => x,
            None => {
                return None;
            },
        },
        None => {
            return None;
        },
    };
    let f_num_positive_tags = match req_i64(v, "numPositiveTags") {
        Some(x) => x,
        None => {
            return None;
        },
    };
    let f_num_negative_tags = match req_i64(v, "numNegativeTags") {
        Some(x) => x,
        None => {
            return None;
        },
    };
    Some(TrainTags {
        num_tags_by_type: f_num_tags_by_type,
        num_positive_tags: f_num_positive_tags,
        num_negative_tags: f_num_negative_tags,
    })
}

/// How a JSON document is read as one station's prediction list: an array
/// of train predictions.
pub open spec fn spec_pred_arr_of(j: Json) -> Option<Seq<TrainPredictionV>> {
    match j {
        Json::Arr(s) => spec_parse_pred_seq(s),
        _ => None,
    }
}

/// Read a JSON document as one station's prediction list.
fn pred_arr_of(v: &Value) -> (r: Option<Vec<TrainPrediction>>)
    ensures
        match spec_pred_arr_of(json_of(*v)) {
            Some(x) => r matches Some(vv) && view_vec(vv) == x,
            None => r is None,
        },
{
    match as_array_w(v) {
        Some(a) => parse_pred_seq(a, Ghost(json_of(*v)->Arr_0)),
        None => None,
    }
}

/// Whether every value of a JSON object parses under `spec_parse_train_tags`.
pub open spec fn spec_obj_vals_train_reports(m: Map<Seq<char>, Json>) -> bool {
    forall|k: Seq<char>| #[trigger] m.contains_key(k) ==> spec_parse_train_tags(m[k]) is Some
}

/// Read a JSON object as `TrainReports` entries: every key once, each with
/// its parsed value, together covering the object.
fn parse_train_reports(v: &Value) -> (r: Option<TrainReports>)
    ensures
        r is Some <==> (json_of(*v) matches Json::Obj(m) && spec_obj_vals_train_reports(m)),
        r matches Some(es) ==> json_of(*v) matches Json::Obj(m) && (forall|a: int, b: int|
            0 <= a < b < es@.len() ==> (#[trigger] es@[a]).0@ != (#[trigger] es@[b]).0@)
            && (forall|a: int|
            0 <= a < es@.len() ==> m.contains_key((#[trigger] es@[a]).0@) && spec_parse_train_tags(
                m[es@[a].0@],
            ) == Some((es@[a].1)@)) && (forall|k: Seq<char>|
            #[trigger] m.contains_key(k) ==> exists|a: int|
                0 <= a < es@.len() && (#[trigger] es@[a]).0@ == k),
{
    let es = match obj_entries_w(v) {
        Some(es) => es,
        None => {
            return None;
        },
    };
    let ghost m = json_of(*v)->Obj_0;
    let n = es.len();
    let mut out: TrainReports = Vec::new();
    let mut i: usize = 0;
    while i < n
        invariant
            0 <= i <= n,
            n == es@.len(),
            json_of(*v) is Obj,
            m == json_of(*v)->Obj_0,
            forall|a: int, b: int| 0 <= a < b < es@.len() ==> (#[trigger] es@[a]).0@ != (
            #[trigger] es@[b]).0@,
            forall|a: int| 0 <= a < es@.len() ==> m.contains_key((#[trigger] es@[a]).0@)
                && m[es@[a].0@] == json_of(es@[a].1),
            out@.len() == i,
            forall|a: int| 0 <= a < i ==> (#[trigger] out@[a]).0@ == es@[a].0@,
            forall|a: int| 0 <= a < i ==> (spec_parse_train_tags(json_of((#[trigger] es@[a]).1)) matches Some(x)
                && (out@[a].1)@ == x),
        decreases n - i,
    {
        let kv = &es[i];
        match parse_train_tags(&kv.1) {
            Some(t) => {
                let key = kv.0.clone();
                out.push((key, t));
            },
            None => {
                return None;
            },
        }
        i += 1;
    }
    proof {
        assert forall|k: Seq<char>| #[trigger] m.contains_key(k) implies spec_parse_train_tags(m[k]) is Some by {
            let a = choose|a: int| 0 <= a < es@.len() && (#[trigger] es@[a]).0@ == k;
            assert(m[k] == json_of(es@[a].1));
        }
        assert forall|k: Seq<char>| #[trigger] m.contains_key(k) implies exists|a: int|
            0 <= a < out@.len() && (#[trigger] out@[a]).0@ == k by {
            let a = choose|a: int| 0 <= a < es@.len() && (#[trigger] es@[a]).0@ == k;
            assert(out@[a].0@ == k);
        }
    }
    Some(out)
}

/// Whether every value of a JSON object parses under `spec_parse_station_tags`.
pub open spec fn spec_obj_vals_station_reports(m: Map<Seq<char>, Json>) -> bool {
    forall|k: Seq<char>| #[trigger] m.contains_key(k) ==> spec_parse_station_tags(m[k]) is Some
}

/// Read a JSON object as `StationReports` entries: every key once, each with
/// its parsed value, together covering the object.
fn parse_station_reports(v: &Value) -> (r: Option<StationReports>)
    ensures
        r is Some <==> (json_of(*v) matches Json::Obj(m) && spec_obj_vals_station_reports(m)),
        r matches Some(es) ==> json_of(*v) matches Json::Obj(m) && (forall|a: int, b: int|
            0 <= a < b < es@.len() ==> (#[trigger] es@[a]).0@ != (#[trigger] es@[b]).0@)
            && (forall|a: int|
            0 <= a < es@.len() ==> m.contains_key((#[trigger] es@[a]).0@) && spec_parse_station_tags(
                m[es@[a].0@],
            ) == Some((es@[a].1)@)) && (forall|k: Seq<char>|
            #[trigger] m.contains_key(k) ==> exists|a: int|
                0 <= a < es@.len() && (#[trigger] es@[a]).0@ == k),
{
    let es = match obj_entries_w(v) {
        Some(es) => es,
        None => {
            return None;
        },
    };
    let ghost m = json_of(*v)->Obj_0;
    let n = es.len();
    let mut out: StationReports = Vec::new();
    let mut i: usize = 0;
    while i < n
        invariant
            0 <= i <= n,
            n == es@.len(),
            json_of(*v) is Obj,
            m == json_of(*v)->Obj_0,
            forall|a: int, b: int| 0 <= a < b < es@.len() ==> (#[trigger] es@[a]).0@ != (
            #[trigger] es@[b]).0@,
            forall|a: int| 0 <= a < es@.len() ==> m.contains_key((#[trigger] es@[a]).0@)
                && m[es@[a].0@] == json_of(es@[a].1),
            out@.len() == i,
            forall|a: int| 0 <= a < i ==> (#[trigger] out@[a]).0@ == es@[a].0@,
            forall|a: int| 0 <= a < i ==> (spec_parse_station_tags(json_of((#[trigger] es@[a]).1)) matches Some(x)
                && (out@[a].1)@ == x),
        decreases n - i,
    {
        let kv = &es[i];
        match parse_station_tags(&kv.1) {
            Some(t) => {
                let key = kv.0.clone();
                out.push((key, t));
            },
            None => {
                return None;
            },
        }
        i += 1;
    }
    proof {
        assert forall|k: Seq<char>| #[trigger] m.contains_key(k) implies spec_parse_station_tags(m[k]) is Some by {
            let a = choose|a: int| 0 <= a < es@.len() && (#[trigger] es@[a]).0@ == k;
            assert(m[k] == json_of(es@[a].1));
        }
        assert forall|k: Seq<char>| #[trigger] m.contains_key(k) implies exists|a: int|
            0 <= a < out@.len() && (#[trigger] out@[a]).0@ == k by {
            let a = choose|a: int| 0 <= a < es@.len() && (#[trigger] es@[a]).0@ == k;
            assert(out@[a].0@ == k);
        }
    }
    Some(out)
}

/// Whether every value of a JSON object parses under `spec_pred_arr_of`.
pub open spec fn spec_obj_vals_train_predictions(m: Map<Seq<char>, Json>) -> bool {
    forall|k: Seq<char>| #[trigger] m.contains_key(k) ==> spec_pred_arr_of(m[k]) is Some
}

/// Read a JSON object as `TrainPredictions` entries: every key once, each with
/// its parsed value, together covering the object.
fn parse_train_predictions(v: &Value) -> (r: Option<TrainPredictions>)
    ensures
        r is Some <==> (json_of(*v) matches Json::Obj(m) && spec_obj_vals_train_predictions(m)),
        r matches Some(es) ==> json_of(*v) matches Json::Obj(m) && (forall|a: int, b: int|
            0 <= a < b < es@.len() ==> (#[trigger] es@[a]).0@ != (#[trigger] es@[b]).0@)
            && (forall|a: int|
            0 <= a < es@.len() ==> m.contains_key((#[trigger] es@[a]).0@) && spec_pred_arr_of(
                m[es@[a].0@],
            ) == Some(view_vec(es@[a].1))) && (forall|k: Seq<char>|
            #[trigger] m.contains_key(k) ==> exists|a: int|
                0 <= a < es@.len() && (#[trigger] es@[a]).0@ == k),
{
    let es = match obj_entries_w(v) {
        Some(es) => es,
        None => {
            return None;
        },
    };
    let ghost m = json_of(*v)->Obj_0;
    let n = es.len();
    let mut out: TrainPredictions = Vec::new();
    let mut i: usize = 0;
    while i < n
        invariant
            0 <= i <= n,
            n == es@.len(),
            json_of(*v) is Obj,
            m == json_of(*v)->Obj_0,
            forall|a: int, b: int| 0 <= a < b < es@.len() ==> (#[trigger] es@[a]).0@ != (
            #[trigger] es@[b]).0@,
            forall|a: int| 0 <= a < es@.len() ==> m.contains_key((#[trigger] es@[a]).0@)
                && m[es@[a].0@] == json_of(es@[a].1),
            out@.len() == i,
            forall|a: int| 0 <= a < i ==> (#[trigger] out@[a]).0@ == es@[a].0@,
            forall|a: int| 0 <= a < i ==> (spec_pred_arr_of(json_of((#[trigger] es@[a]).1)) matches Some(x)
                && view_vec(out@[a].1) == x),
        decreases n - i,
    {
        let kv = &es[i];
        match pred_arr_of(&kv.1) {
            Some(t) => {
                let key = kv.0.clone();
                out.push((key, t));
            },
            None => {
                return None;
            },
        }
        i += 1;
    }
    proof {
        assert forall|k: Seq<char>| #[trigger] m.contains_key(k) implies spec_pred_arr_of(m[k]) is Some by {
            let a = choose|a: int| 0 <= a < es@.len() && (#[trigger] es@[a]).0@ == k;
            assert(m[k] == json_of(es@[a].1));
        }
        assert forall|k: Seq<char>| #[trigger] m.contains_key(k) implies exists|a: int|
            0 <= a < out@.len() && (#[trigger] out@[a]).0@ == k by {
            let a = choose|a: int| 0 <= a < es@.len() && (#[trigger] es@[a]).0@ == k;
            assert(out@[a].0@ == k);
        }
    }
    Some(out)
}

impl TripInfo {
    /// Parse a payload from JSON text: `Ok` exactly when the text is valid
    /// JSON matching the schema, with the view the document prescribes;
    /// `ParseError` otherwise.
    pub fn from_json_str(s: &str) -> (r: Result<TripInfo, MetroHeroError>)
        ensures
            match spec_parsed_json(s@) {
                Some(j) => match spec_parse_trip_info(j) {
                    Some(xv) => r matches Ok(x) && x@ == xv,
                    None => r == Err::<TripInfo, MetroHeroError>(MetroHeroError::ParseError),
                },
                None => r == Err::<TripInfo, MetroHeroError>(MetroHeroError::ParseError),
            },
    {
        match parse_json(s) {
            Ok(v) => match parse_trip_info(&v) {
                Some(x) => Ok(x),
                None => Err(MetroHeroError::ParseError),
            },
            Err(e) => Err(MetroHeroError::from(e)),
        }
    }
}

impl StationTags {
    /// Parse a payload from JSON text: `Ok` exactly when the text is valid
    /// JSON matching the schema, with the view the document prescribes;
    /// `ParseError` otherwise.
    pub fn from_json_str(s: &str) -> (r: Result<StationTags, MetroHeroError>)
        ensures
            match spec_parsed_json(s@) {
                Some(j) => match spec_parse_station_tags(j) {
                    Some(xv) => r matches Ok(x) && x@ == xv,
                    None => r == Err::<StationTags, MetroHeroError>(MetroHeroError::ParseError),
                },
                None => r == Err::<StationTags, MetroHeroError>(MetroHeroError::ParseError),
            },
    {
        match parse_json(s) {
            Ok(v) => match parse_station_tags(&v) {
                Some(x) => Ok(x),
                None => Err(MetroHeroError::ParseError),
            },
            Err(e) => Err(MetroHeroError::from(e)),
        }
    }
}

impl TrainTags {
    /// Parse a payload from JSON text: `Ok` exactly when the text is valid
    /// JSON matching the schema, with the view the document prescribes;
    /// `ParseError` otherwise.
    pub fn from_json_str(s: &str) -> (r: Result<TrainTags, MetroHeroError>)
        ensures
            match spec_parsed_json(s@) {
                Some(j) => match spec_parse_train_tags(j) {
                    Some(xv) => r matches Ok(x) && x@ == xv,
                    None => r == Err::<TrainTags, MetroHeroError>(MetroHeroError::ParseError),
                },
                None => r == Err::<TrainTags, MetroHeroError>(MetroHeroError::ParseError),
            },
    {
        match parse_json(s) {
            Ok(v) => match parse_train_tags(&v) {
                Some(x) => Ok(x),
                None => Err(MetroHeroError::ParseError),
            },
            Err(e) => Err(MetroHeroError::from(e)),
        }
    }
}

impl SystemMetricsResponse {
    /// Parse a payload from JSON text: `Ok` exactly when the text is valid
    /// JSON matching the schema, with the view the document prescribes;
    /// `ParseError` otherwise.
    pub fn from_json_str(s: &str) -> (r: Result<SystemMetricsResponse, MetroHeroError>)
        ensures
            match spec_parsed_json(s@) {
                Some(j) => match spec_parse_system_metrics_response(j) {
                    Some(xv) => r matches Ok(x) && x@ == xv,
                    None => r == Err::<SystemMetricsResponse, MetroHeroError>(MetroHeroError::ParseError),
                },
                None => r == Err::<SystemMetricsResponse, MetroHeroError>(MetroHeroError::ParseError),
            },
    {
        match parse_json(s) {
            Ok(v) => match parse_system_metrics_response(&v) {
                Some(x) => Ok(x),
                None => Err(MetroHeroError::ParseError),
            },
            Err(e) => Err(MetroHeroError::from(e)),
        }
    }
}

impl Tweet {
    /// Parse a list payload from JSON text: `Ok` exactly when the text is
    /// a valid JSON array whose elements all match the schema. Elements
    /// are returned in the order the upstream sent them.
    pub fn vec_from_json_str(s: &str) -> (r: Result<Vec<Tweet>, MetroHeroError>)
        ensures
            match spec_parsed_json(s@) {
                Some(j) => match j {
                    Json::Arr(a) => match spec_parse_tweet_seq(a) {
                        Some(x) => r matches Ok(v) && view_vec(v) == x,
                        None => r == Err::<Vec<Tweet>, MetroHeroError>(MetroHeroError::ParseError),
                    },
                    _ => r == Err::<Vec<Tweet>, MetroHeroError>(MetroHeroError::ParseError),
                },
                None => r == Err::<Vec<Tweet>, MetroHeroError>(MetroHeroError::ParseError),
            },
    {
        match parse_json(s) {
            Ok(v) => match as_array_w(&v) {
                Some(a) => match parse_tweet_seq(a, Ghost(json_of(v)->Arr_0)) {
                    Some(x) => Ok(x),
                    None => Err(MetroHeroError::ParseError),
                },
                None => Err(MetroHeroError::ParseError),
            },
            Err(e) => Err(MetroHeroError::from(e)),
        }
    }
}

impl TrainPrediction {
    /// Parse a list payload from JSON text: `Ok` exactly when the text is
    /// a valid JSON array whose elements all match the schema. Elements
    /// are returned in the order the upstream sent them.
    pub fn vec_from_json_str(s: &str) -> (r: Result<Vec<TrainPrediction>, MetroHeroError>)
        ensures
            match spec_parsed_json(s@) {
                Some(j) => match j {
                    Json::Arr(a) => match spec_parse_pred_seq(a) {
                        Some(x) => r matches Ok(v) && view_vec(v) == x,
                        None => r == Err::<Vec<TrainPrediction>, MetroHeroError>(MetroHeroError::ParseError),
                    },
                    _ => r == Err::<Vec<TrainPrediction>, MetroHeroError>(MetroHeroError::ParseError),
                },
                None => r == Err::<Vec<TrainPrediction>, MetroHeroError>(MetroHeroError::ParseError),
            },
    {
        match parse_json(s) {
            Ok(v) => match as_array_w(&v) {
                Some(a) => match parse_pred_seq(a, Ghost(json_of(v)->Arr_0)) {
                    Some(x) => Ok(x),
                    None => Err(MetroHeroError::ParseError),
                },
                None => Err(MetroHeroError::ParseError),
            },
            Err(e) => Err(MetroHeroError::from(e)),
        }
    }
}

/// Parse a `TrainReports` payload from JSON text: `Ok` exactly when the
/// text is a valid JSON object whose values all match the schema.
pub fn train_reports_from_json_str(s: &str) -> (r: Result<TrainReports, MetroHeroError>)
    ensures
        match spec_parsed_json(s@) {
            Some(j) => {
                &&& (r is Ok <==> (j matches Json::Obj(m) && spec_obj_vals_train_reports(m)))
                &&& (r matches Ok(es) ==> j matches Json::Obj(m) && (forall|a: int, b: int|
                    0 <= a < b < es@.len() ==> (#[trigger] es@[a]).0@ != (
                #[trigger] es@[b]).0@) && (forall|a: int|
                    0 <= a < es@.len() ==> m.contains_key((#[trigger] es@[a]).0@) && spec_parse_train_tags(
                        m[es@[a].0@],
                    ) == Some((es@[a].1)@)) && (forall|k: Seq<char>|
                    #[trigger] m.contains_key(k) ==> exists|a: int|
                        0 <= a < es@.len() && (#[trigger] es@[a]).0@ == k))
                &&& (r is Err ==> r == Err::<TrainReports, MetroHeroError>(MetroHeroError::ParseError))
            },
            None => r == Err::<TrainReports, MetroHeroError>(MetroHeroError::ParseError),
        },
{
    match parse_json(s) {
        Ok(v) => match parse_train_reports(&v) {
            Some(es) => Ok(es),
            None => Err(MetroHeroError::ParseError),
        },
        Err(e) => Err(MetroHeroError::from(e)),
    }
}

/// Parse a `StationReports` payload from JSON text: `Ok` exactly when the
/// text is a valid JSON object whose values all match the schema.
pub fn station_reports_from_json_str(s: &str) -> (r: Result<StationReports, MetroHeroError>)
    ensures
        match spec_parsed_json(s@) {
            Some(j) => {
                &&& (r is Ok <==> (j matches Json::Obj(m) && spec_obj_vals_station_reports(m)))
                &&& (r matches Ok(es) ==> j matches Json::Obj(m) && (forall|a: int, b: int|
                    0 <= a < b < es@.len() ==> (#[trigger] es@[a]).0@ != (
                #[trigger] es@[b]).0@) && (forall|a: int|
                    0 <= a < es@.len() ==> m.contains_key((#[trigger] es@[a]).0@) && spec_parse_station_tags(
                        m[es@[a].0@],
                    ) == Some((es@[a].1)@)) && (forall|k: Seq<char>|
                    #[trigger] m.contains_key(k) ==> exists|a: int|
                        0 <= a < es@.len() && (#[trigger] es@[a]).0@ == k))
                &&& (r is Err ==> r == Err::<StationReports, MetroHeroError>(MetroHeroError::ParseError))
            },
            None => r == Err::<StationReports, MetroHeroError>(MetroHeroError::ParseError),
        },
{
    match parse_json(s) {
        Ok(v) => match parse_station_reports(&v) {
            Some(es) => Ok(es),
            None => Err(MetroHeroError::ParseError),
        },
        Err(e) => Err(MetroHeroError::from(e)),
    }
}

/// Parse a `TrainPredictions` payload from JSON text: `Ok` exactly when the
/// text is a valid JSON object whose values all match the schema.
pub fn train_predictions_from_json_str(s: &str) -> (r: Result<TrainPredictions, MetroHeroError>)
    ensures
        match spec_parsed_json(s@) {
            Some(j) => {
                &&& (r is Ok <==> (j matches Json::Obj(m) && spec_obj_vals_train_predictions(m)))
                &&& (r matches Ok(es) ==> j matches Json::Obj(m) && (forall|a: int, b: int|
                    0 <= a < b < es@.len() ==> (#[trigger] es@[a]).0@ != (
                #[trigger] es@[b]).0@) && (forall|a: int|
                    0 <= a < es@.len() ==> m.contains_key((#[trigger] es@[a]).0@) && spec_pred_arr_of(
                        m[es@[a].0@],
                    ) == Some(view_vec(es@[a].1))) && (forall|k: Seq<char>|
                    #[trigger] m.contains_key(k) ==> exists|a: int|
                        0 <= a < es@.len() && (#[trigger] es@[a]).0@ == k))
                &&& (r is Err ==> r == Err::<TrainPredictions, MetroHeroError>(MetroHeroError::ParseError))
            },
            None => r == Err::<TrainPredictions, MetroHeroError>(MetroHeroError::ParseError),
        },
{
    match parse_json(s) {
        Ok(v) => match parse_train_predictions(&v) {
            Some(es) => Ok(es),
            None => Err(MetroHeroError::ParseError),
        },
        Err(e) => Err(MetroHeroError::from(e)),
    }
}

/// Round-trip at the document level, shown for the abridged-tweet record:
/// the canonical JSON object carrying a record's fields parses back to
/// exactly that record. The full text-level round trip passes through the
/// outside JSON parser and is exercised by tests instead.
pub proof fn lemma_abridged_tweet_object_round_trip(t: AbridgedTweetV)
    ensures
        spec_parse_abridged_tweet(
            Json::Obj(
                Map::<Seq<char>, Json>::empty().insert(
                    "twitterId"@,
                    Json::Int(t.twitter_id as int),
                ).insert("twitterIdString"@, Json::Str(t.twitter_id_string)).insert(
                    "userId"@,
                    Json::Int(t.user_id as int),
                ).insert("timestamp"@, Json::Int(t.timestamp as int)).insert(
                    "text"@,
                    Json::Str(t.text),
                ),
            ),
        ) == Some(t),
{
    reveal_strlit("twitterId");
    reveal_strlit("twitterIdString");
    reveal_strlit("userId");
    reveal_strlit("timestamp");
    reveal_strlit("text");
    let m = Map::<Seq<char>, Json>::empty().insert(
        "twitterId"@,
        Json::Int(t.twitter_id as int),
    ).insert("twitterIdString"@, Json::Str(t.twitter_id_string)).insert(
        "userId"@,
        Json::Int(t.user_id as int),
    ).insert("timestamp"@, Json::Int(t.timestamp as int)).insert("text"@, Json::Str(t.text));
    assert("twitterId"@.len() == 9 && "twitterIdString"@.len() == 15 && "userId"@.len() == 6
        && "timestamp"@.len() == 9 && "text"@.len() == 4);
    assert("twitterId"@[1] == 'w' && "timestamp"@[1] == 'i');
    assert("twitterId"@ != "twitterIdString"@);
    assert("twitterId"@ != "userId"@);
    assert("twitterId"@ != "timestamp"@);
    assert("twitterId"@ != "text"@);
    assert("twitterIdString"@ != "userId"@);
    assert("twitterIdString"@ != "timestamp"@);
    assert("twitterIdString"@ != "text"@);
    assert("userId"@ != "timestamp"@);
    assert("userId"@ != "text"@);
    assert("timestamp"@ != "text"@);
    assert(spec_parse_abridged_tweet(Json::Obj(m)) matches Some(x) && x == t);
}

} // verus!
