//! Verified rendering of the schema types back to JSON text.
//!
//! Every renderer produces exactly the text its specification prescribes,
//! writing each field in a fixed order, string contents with JSON escaping,
//! numbers in their canonical decimal text, and absent optional fields as
//! `null`.
use vstd::prelude::*;
use vstd::string::*;

use crate::jtext::{i64_to_string, render_str_lit, spec_int_text, spec_render_str};
use crate::lines::LineCode;
use crate::stations::StationCode;
use crate::schemas::{
    AbridgedTweet, AbridgedTweetV, DirectionMetrics, DirectionMetricsByDirection, 
    DirectionMetricsByDirectionV, DirectionMetricsV, ElevatorEscalatorOutage, 
    ElevatorEscalatorOutageV, LineMetrics, LineMetricsV, MetroAlert, MetroAlertV, 
    NumStationTagsByType, NumStationTagsByTypeV, NumTrainTagsByType, NumTrainTagsByTypeV, 
    RecentTweets, RecentTweetsV, ServiceGaps, ServiceGapsV, StationReports, StationTags, 
    StationTagsV, SystemMetrics, SystemMetricsResponse, SystemMetricsResponseV, SystemMetricsV, 
    TrainPrediction, TrainPredictionV, TrainPredictions, TrainReports, TrainTags, TrainTagsV, 
    TripInfo, TripInfoV, Tweet, TweetV, view_opt, view_opt_string, view_opt_vec, 
    view_opt_vec_string, view_vec, view_vec_string,
};

verus! {

/// The JSON text of a boolean.
pub open spec fn spec_render_bool(b: bool) -> Seq<char> {
    if b {
        "true"@
    } else {
        "false"@
    }
}

/// Append the JSON text of a boolean.
fn append_bool(out: &mut String, b: bool)
    ensures
        final(out)@ == old(out)@ + spec_render_bool(b),
{
    if b {
        out.append("true");
    } else {
        out.append("false");
    }
}

/// The JSON text of an optional boolean: `null` when absent.
pub open spec fn spec_render_opt_bool(o: Option<bool>) -> Seq<char> {
    match o {
        Some(b) => spec_render_bool(b),
        None => "null"@,
    }
}

/// Append the JSON text of an optional boolean.
fn append_opt_bool(out: &mut String, o: &Option<bool>)
    ensures
        final(out)@ == old(out)@ + spec_render_opt_bool(*o),
{
    match o {
        Some(b) => append_bool(out, *b),
        None => out.append("null"),
    }
}

/// The JSON text of an optional integer: `null` when absent.
pub open spec fn spec_render_opt_i64(o: Option<i64>) -> Seq<char> {
    match o {
        Some(n) => spec_int_text(n as int),
        None => "null"@,
    }
}

/// Append the JSON text of an optional integer.
fn append_opt_i64(out: &mut String, o: &Option<i64>)
    ensures
        final(out)@ == old(out)@ + spec_render_opt_i64(*o),
{
    match o {
        Some(n) => out.append(i64_to_string(*n).as_str()),
        None => out.append("null"),
    }
}

/// The JSON text of an optional number held as its decimal text: `null` when
/// absent.
pub open spec fn spec_render_opt_num(o: Option<Seq<char>>) -> Seq<char> {
    match o {
        Some(t) => t,
        None => "null"@,
    }
}

/// Append the JSON text of an optional number held as its decimal text.
fn append_opt_num(out: &mut String, o: &Option<String>)
    ensures
        final(out)@ == old(out)@ + spec_render_opt_num(view_opt_string(*o)),
{
    match o {
        Some(t) => out.append(t.as_str()),
        None => out.append("null"),
    }
}

/// The JSON text of an optional string: `null` when absent.
pub open spec fn spec_render_opt_str(o: Option<Seq<char>>) -> Seq<char> {
    match o {
        Some(t) => spec_render_str(t),
        None => "null"@,
    }
}

/// Append the JSON text of an optional string.
fn append_opt_str(out: &mut String, o: &Option<String>)
    ensures
        final(out)@ == old(out)@ + spec_render_opt_str(view_opt_string(*o)),
{
    match o {
        Some(t) => out.append(render_str_lit(t.as_str()).as_str()),
        None => out.append("null"),
    }
}

/// The JSON text of a station code: the quoted code string.
pub open spec fn spec_render_station(c: StationCode) -> Seq<char> {
    seq!['"'] + c.spec_code_str() + seq!['"']
}

/// Append the JSON text of a station code.
fn append_station(out: &mut String, c: &StationCode)
    ensures
        final(out)@ == old(out)@ + spec_render_station(*c),
{
    proof { reveal_strlit("\""); assert("\""@ =~= seq!['"']); }
    out.append("\"");
    out.append(c.code_str());
    out.append("\"");
}

/// The JSON text of an optional station code: `null` when absent.
pub open spec fn spec_render_opt_station(o: Option<StationCode>) -> Seq<char> {
    match o {
        Some(c) => spec_render_station(c),
        None => "null"@,
    }
}

/// Append the JSON text of an optional station code.
fn append_opt_station(out: &mut String, o: &Option<StationCode>)
    ensures
        final(out)@ == old(out)@ + spec_render_opt_station(*o),
{
    match o {
        Some(c) => append_station(out, c),
        None => out.append("null"),
    }
}

/// The JSON text of a line code: the quoted code string.
pub open spec fn spec_render_line(c: LineCode) -> Seq<char> {
    seq!['"'] + c.spec_code_str() + seq!['"']
}

/// Append the JSON text of a line code.
fn append_line(out: &mut String, c: &LineCode)
    ensures
        final(out)@ == old(out)@ + spec_render_line(*c),
{
    proof { reveal_strlit("\""); assert("\""@ =~= seq!['"']); }
    out.append("\"");
    out.append(c.code_str());
    out.append("\"");
}

/// The JSON text of the elements of a `StationCode` array, comma separated,
/// in order.
pub open spec fn spec_render_station_elems(s: Seq<StationCode>) -> Seq<char>
    decreases s.len(),
{
    if s.len() == 0 {
        Seq::empty()
    } else if s.len() == 1 {
        spec_render_station(s[0])
    } else {
        spec_render_station_elems(s.drop_last()) + seq![','] + spec_render_station(s.last())
    }
}

/// The JSON text of a `StationCode` array.
pub open spec fn spec_render_station_arr(s: Seq<StationCode>) -> Seq<char> {
    seq!['['] + spec_render_station_elems(s) + seq![']']
}

/// Append the JSON text of a `StationCode` array.
fn append_station_arr(out: &mut String, a: &Vec<StationCode>)
    ensures
        final(out)@ == old(out)@ + spec_render_station_arr(a@),
{
    let ghost s = a@;
    proof { reveal_strlit("["); assert("["@ =~= seq!['[']); }
    proof { reveal_strlit("]"); assert("]"@ =~= seq![']']); }
    proof { reveal_strlit(","); assert(","@ =~= seq![',']); }
    out.append("[");
    let n = a.len();
    let mut i: usize = 0;
    while i < n
        invariant
            0 <= i <= n,
            n == a@.len(),
            s == a@,
            s.len() == n,
            out@ == old(out)@ + seq!['['] + spec_render_station_elems(s.take(i as int)),
            ","@ =~= seq![','],
        decreases n - i,
    {
        if i > 0 {
            out.append(",");
        }
        let u = &a[i];
        append_station(out, u);
        proof {
            assert(s.take(i as int + 1).drop_last() =~= s.take(i as int));
            assert(s.take(i as int + 1).last() == s[i as int]);
        }
        i += 1;
    }
    proof {
        assert(s.take(n as int) =~= s);
    }
    out.append("]");
}

/// The JSON text of the elements of a `LineCode` array, comma separated,
/// in order.
pub open spec fn spec_render_line_elems(s: Seq<LineCode>) -> Seq<char>
    decreases s.len(),
{
    if s.len() == 0 {
        Seq::empty()
    } else if s.len() == 1 {
        spec_render_line(s[0])
    } else {
        spec_render_line_elems(s.drop_last()) + seq![','] + spec_render_line(s.last())
    }
}

/// The JSON text of a `LineCode` array.
pub open spec fn spec_render_line_arr(s: Seq<LineCode>) -> Seq<char> {
    seq!['['] + spec_render_line_elems(s) + seq![']']
}

/// Append the JSON text of a `LineCode` array.
fn append_line_arr(out: &mut String, a: &Vec<LineCode>)
    ensures
        final(out)@ == old(out)@ + spec_render_line_arr(a@),
{
    let ghost s = a@;
    proof { reveal_strlit("["); assert("["@ =~= seq!['[']); }
    proof { reveal_strlit("]"); assert("]"@ =~= seq![']']); }
    proof { reveal_strlit(","); assert(","@ =~= seq![',']); }
    out.append("[");
    let n = a.len();
    let mut i: usize = 0;
    while i < n
        invariant
            0 <= i <= n,
            n == a@.len(),
            s == a@,
            s.len() == n,
            out@ == old(out)@ + seq!['['] + spec_render_line_elems(s.take(i as int)),
            ","@ =~= seq![','],
        decreases n - i,
    {
        if i > 0 {
            out.append(",");
        }
        let u = &a[i];
        append_line(out, u);
        proof {
            assert(s.take(i as int + 1).drop_last() =~= s.take(i as int));
            assert(s.take(i as int + 1).last() == s[i as int]);
        }
        i += 1;
    }
    proof {
        assert(s.take(n as int) =~= s);
    }
    out.append("]");
}

/// The JSON text of the elements of a `String` array, comma separated,
/// in order.
pub open spec fn spec_render_str_elems(s: Seq<Seq<char>>) -> Seq<char>
    decreases s.len(),
{
    if s.len() == 0 {
        Seq::empty()
    } else if s.len() == 1 {
        spec_render_str(s[0])
    } else {
        spec_render_str_elems(s.drop_last()) + seq![','] + spec_render_str(s.last())
    }
}

/// The JSON text of a `String` array.
pub open spec fn spec_render_str_arr(s: Seq<Seq<char>>) -> Seq<char> {
    seq!['['] + spec_render_str_elems(s) + seq![']']
}

/// Append the JSON text of a `String` array.
fn append_str_arr(out: &mut String, a: &Vec<String>)
    ensures
        final(out)@ == old(out)@ + spec_render_str_arr(view_vec_string(*a)),
{
    let ghost s = view_vec_string(*a);
    proof { reveal_strlit("["); assert("["@ =~= seq!['[']); }
    proof { reveal_strlit("]"); assert("]"@ =~= seq![']']); }
    proof { reveal_strlit(","); assert(","@ =~= seq![',']); }
    out.append("[");
    let n = a.len();
    let mut i: usize = 0;
    while i < n
        invariant
            0 <= i <= n,
            n == a@.len(),
            s == view_vec_string(*a),
            s.len() == n,
            out@ == old(out)@ + seq!['['] + spec_render_str_elems(s.take(i as int)),
            ","@ =~= seq![','],
        decreases n - i,
    {
        if i > 0 {
            out.append(",");
        }
        let u = &a[i];
        out.append(render_str_lit(u.as_str()).as_str());
        proof {
            assert(s.take(i as int + 1).drop_last() =~= s.take(i as int));
            assert(s.take(i as int + 1).last() == s[i as int]);
        }
        i += 1;
    }
    proof {
        assert(s.take(n as int) =~= s);
    }
    out.append("]");
}

/// The JSON text of an optional `String` array: `null` when absent.
pub open spec fn spec_render_opt_str_arr(o: Option<Seq<Seq<char>>>) -> Seq<char> {
    match o {
        Some(s) => spec_render_str_arr(s),
        None => "null"@,
    }
}

/// Append the JSON text of an optional `String` array.
fn append_opt_str_arr(out: &mut String, o: &Option<Vec<String>>)
    ensures
        final(out)@ == old(out)@ + spec_render_opt_str_arr(view_opt_vec_string(*o)),
{
    match o {
        Some(a) => append_str_arr(out, a),
        None => out.append("null"),
    }
}

/// The JSON text of the elements of a `AbridgedTweet` array, comma separated,
/// in order.
pub open spec fn spec_render_abridged_elems(s: Seq<AbridgedTweetV>) -> Seq<char>
    decreases s.len(),
{
    if s.len() == 0 {
        Seq::empty()
    } else if s.len() == 1 {
        spec_render_abridged_tweet(s[0])
    } else {
        spec_render_abridged_elems(s.drop_last()) + seq![','] + spec_render_abridged_tweet(s.last())
    }
}

/// The JSON text of a `AbridgedTweet` array.
pub open spec fn spec_render_abridged_arr(s: Seq<AbridgedTweetV>) -> Seq<char> {
    seq!['['] + spec_render_abridged_elems(s) + seq![']']
}

/// Append the JSON text of a `AbridgedTweet` array.
fn append_abridged_arr(out: &mut String, a: &Vec<AbridgedTweet>)
    ensures
        final(out)@ == old(out)@ + spec_render_abridged_arr(view_vec(*a)),
{
    let ghost s = view_vec(*a);
    proof { reveal_strlit("["); assert("["@ =~= seq!['[']); }
    proof { reveal_strlit("]"); assert("]"@ =~= seq![']']); }
    proof { reveal_strlit(","); assert(","@ =~= seq![',']); }
    out.append("[");
    let n = a.len();
    let mut i: usize = 0;
    while i < n
        invariant
            0 <= i <= n,
            n == a@.len(),
            s == view_vec(*a),
            s.len() == n,
            out@ == old(out)@ + seq!['['] + spec_render_abridged_elems(s.take(i as int)),
            ","@ =~= seq![','],
        decreases n - i,
    {
        if i > 0 {
            out.append(",");
        }
        let u = &a[i];
        out.append(render_abridged_tweet(u).as_str());
        proof {
            assert(s.take(i as int + 1).drop_last() =~= s.take(i as int));
            assert(s.take(i as int + 1).last() == s[i as int]);
        }
        i += 1;
    }
    proof {
        assert(s.take(n as int) =~= s);
    }
    out.append("]");
}

/// The JSON text of the elements of a `Tweet` array, comma separated,
/// in order.
pub open spec fn spec_render_tweet_elems(s: Seq<TweetV>) -> Seq<char>
    decreases s.len(),
{
    if s.len() == 0 {
        Seq::empty()
    } else if s.len() == 1 {
        spec_render_tweet(s[0])
    } else {
        spec_render_tweet_elems(s.drop_last()) + seq![','] + spec_render_tweet(s.last())
    }
}

/// The JSON text of a `Tweet` array.
pub open spec fn spec_render_tweet_arr(s: Seq<TweetV>) -> Seq<char> {
    seq!['['] + spec_render_tweet_elems(s) + seq![']']
}

/// Append the JSON text of a `Tweet` array.
fn append_tweet_arr(out: &mut String, a: &Vec<Tweet>)
    ensures
        final(out)@ == old(out)@ + spec_render_tweet_arr(view_vec(*a)),
{
    let ghost s = view_vec(*a);
    proof { reveal_strlit("["); assert("["@ =~= seq!['[']); }
    proof { reveal_strlit("]"); assert("]"@ =~= seq![']']); }
    proof { reveal_strlit(","); assert(","@ =~= seq![',']); }
    out.append("[");
    let n = a.len();
    let mut i: usize = 0;
    while i < n
        invariant
            0 <= i <= n,
            n == a@.len(),
            s == view_vec(*a),
            s.len() == n,
            out@ == old(out)@ + seq!['['] + spec_render_tweet_elems(s.take(i as int)),
            ","@ =~= seq![','],
        decreases n - i,
    {
        if i > 0 {
            out.append(",");
        }
        let u = &a[i];
        out.append(render_tweet(u).as_str());
        proof {
            assert(s.take(i as int + 1).drop_last() =~= s.take(i as int));
            assert(s.take(i as int + 1).last() == s[i as int]);
        }
        i += 1;
    }
    proof {
        assert(s.take(n as int) =~= s);
    }
    out.append("]");
}

/// The JSON text of an optional `Tweet` array: `null` when absent.
pub open spec fn spec_render_opt_tweet_arr(o: Option<Seq<TweetV>>) -> Seq<char> {
    match o {
        Some(s) => spec_render_tweet_arr(s),
        None => "null"@,
    }
}

/// Append the JSON text of an optional `Tweet` array.
fn append_opt_tweet_arr(out: &mut String, o: &Option<Vec<Tweet>>)
    ensures
        final(out)@ == old(out)@ + spec_render_opt_tweet_arr(view_opt_vec(*o)),
{
    match o {
        Some(a) => append_tweet_arr(out, a),
        None => out.append("null"),
    }
}

/// The JSON text of the elements of a `MetroAlert` array, comma separated,
/// in order.
pub open spec fn spec_render_alert_elems(s: Seq<MetroAlertV>) -> Seq<char>
    decreases s.len(),
{
    if s.len() == 0 {
        Seq::empty()
    } else if s.len() == 1 {
        spec_render_metro_alert(s[0])
    } else {
        spec_render_alert_elems(s.drop_last()) + seq![','] + spec_render_metro_alert(s.last())
    }
}

/// The JSON text of a `MetroAlert` array.
pub open spec fn spec_render_alert_arr(s: Seq<MetroAlertV>) -> Seq<char> {
    seq!['['] + spec_render_alert_elems(s) + seq![']']
}

/// Append the JSON text of a `MetroAlert` array.
fn append_alert_arr(out: &mut String, a: &Vec<MetroAlert>)
    ensures
        final(out)@ == old(out)@ + spec_render_alert_arr(view_vec(*a)),
{
    let ghost s = view_vec(*a);
    proof { reveal_strlit("["); assert("["@ =~= seq!['[']); }
    proof { reveal_strlit("]"); assert("]"@ =~= seq![']']); }
    proof { reveal_strlit(","); assert(","@ =~= seq![',']); }
    out.append("[");
    let n = a.len();
    let mut i: usize = 0;
    while i < n
        invariant
            0 <= i <= n,
            n == a@.len(),
            s == view_vec(*a),
            s.len() == n,
            out@ == old(out)@ + seq!['['] + spec_render_alert_elems(s.take(i as int)),
            ","@ =~= seq![','],
        decreases n - i,
    {
        if i > 0 {
            out.append(",");
        }
        let u = &a[i];
        out.append(render_metro_alert(u).as_str());
        proof {
            assert(s.take(i as int + 1).drop_last() =~= s.take(i as int));
            assert(s.take(i as int + 1).last() == s[i as int]);
        }
        i += 1;
    }
    proof {
        assert(s.take(n as int) =~= s);
    }
    out.append("]");
}

/// The JSON text of an optional `MetroAlert` array: `null` when absent.
pub open spec fn spec_render_opt_alert_arr(o: Option<Seq<MetroAlertV>>) -> Seq<char> {
    match o {
        Some(s) => spec_render_alert_arr(s),
        None => "null"@,
    }
}

/// Append the JSON text of an optional `MetroAlert` array.
fn append_opt_alert_arr(out: &mut String, o: &Option<Vec<MetroAlert>>)
    ensures
        final(out)@ == old(out)@ + spec_render_opt_alert_arr(view_opt_vec(*o)),
{
    match o {
        Some(a) => append_alert_arr(out, a),
        None => out.append("null"),
    }
}

/// The JSON text of the elements of a `ElevatorEscalatorOutage` array, comma separated,
/// in order.
pub open spec fn spec_render_outage_elems(s: Seq<ElevatorEscalatorOutageV>) -> Seq<char>
    decreases s.len(),
{
    if s.len() == 0 {
        Seq::empty()
    } else if s.len() == 1 {
        spec_render_elevator_escalator_outage(s[0])
    } else {
        spec_render_outage_elems(s.drop_last()) + seq![','] + spec_render_elevator_escalator_outage(s.last())
    }
}

/// The JSON text of a `ElevatorEscalatorOutage` array.
pub open spec fn spec_render_outage_arr(s: Seq<ElevatorEscalatorOutageV>) -> Seq<char> {
    seq!['['] + spec_render_outage_elems(s) + seq![']']
}

/// Append the JSON text of a `ElevatorEscalatorOutage` array.
fn append_outage_arr(out: &mut String, a: &Vec<ElevatorEscalatorOutage>)
    ensures
        final(out)@ == old(out)@ + spec_render_outage_arr(view_vec(*a)),
{
    let ghost s = view_vec(*a);
    proof { reveal_strlit("["); assert("["@ =~= seq!['[']); }
    proof { reveal_strlit("]"); assert("]"@ =~= seq![']']); }
    proof { reveal_strlit(","); assert(","@ =~= seq![',']); }
    out.append("[");
    let n = a.len();
    let mut i: usize = 0;
    while i < n
        invariant
            0 <= i <= n,
            n == a@.len(),
            s == view_vec(*a),
            s.len() == n,
            out@ == old(out)@ + seq!['['] + spec_render_outage_elems(s.take(i as int)),
            ","@ =~= seq![','],
        decreases n - i,
    {
        if i > 0 {
            out.append(",");
        }
        let u = &a[i];
        out.append(render_elevator_escalator_outage(u).as_str());
        proof {
            assert(s.take(i as int + 1).drop_last() =~= s.take(i as int));
            assert(s.take(i as int + 1).last() == s[i as int]);
        }
        i += 1;
    }
    proof {
        assert(s.take(n as int) =~= s);
    }
    out.append("]");
}

/// The JSON text of an optional `ElevatorEscalatorOutage` array: `null` when absent.
pub open spec fn spec_render_opt_outage_arr(o: Option<Seq<ElevatorEscalatorOutageV>>) -> Seq<char> {
    match o {
        Some(s) => spec_render_outage_arr(s),
        None => "null"@,
    }
}

/// Append the JSON text of an optional `ElevatorEscalatorOutage` array.
fn append_opt_outage_arr(out: &mut String, o: &Option<Vec<ElevatorEscalatorOutage>>)
    ensures
        final(out)@ == old(out)@ + spec_render_opt_outage_arr(view_opt_vec(*o)),
{
    match o {
        Some(a) => append_outage_arr(out, a),
        None => out.append("null"),
    }
}

/// The JSON text of the elements of a `TrainPrediction` array, comma separated,
/// in order.
pub open spec fn spec_render_pred_elems(s: Seq<TrainPredictionV>) -> Seq<char>
    decreases s.len(),
{
    if s.len() == 0 {
        Seq::empty()
    } else if s.len() == 1 {
        spec_render_train_prediction(s[0])
    } else {
        spec_render_pred_elems(s.drop_last()) + seq![','] + spec_render_train_prediction(s.last())
    }
}

/// The JSON text of a `TrainPrediction` array.
pub open spec fn spec_render_pred_arr(s: Seq<TrainPredictionV>) -> Seq<char> {
    seq!['['] + spec_render_pred_elems(s) + seq![']']
}

/// Append the JSON text of a `TrainPrediction` array.
#[verifier::rlimit(100)]
fn append_pred_arr(out: &mut String, a: &Vec<TrainPrediction>)
    ensures
        final(out)@ == old(out)@ + spec_render_pred_arr(view_vec(*a)),
{
    let ghost s = view_vec(*a);
    proof { reveal_strlit("["); assert("["@ =~= seq!['[']); }
    proof { reveal_strlit("]"); assert("]"@ =~= seq![']']); }
    proof { reveal_strlit(","); assert(","@ =~= seq![',']); }
    out.append("[");
    let n = a.len();
    let mut i: usize = 0;
    while i < n
        invariant
            0 <= i <= n,
            n == a@.len(),
            s == view_vec(*a),
            s.len() == n,
            out@ == old(out)@ + seq!['['] + spec_render_pred_elems(s.take(i as int)),
            ","@ =~= seq![','],
        decreases n - i,
    {
        if i > 0 {
            out.append(",");
        }
        let u = &a[i];
        out.append(render_train_prediction(u).as_str());
        proof {
            assert(s.take(i as int + 1).drop_last() =~= s.take(i as int));
            assert(s.take(i as int + 1).last() == s[i as int]);
        }
        i += 1;
    }
    proof {
        assert(s.take(n as int) =~= s);
    }
    out.append("]");
}

/// The JSON text of the elements of a `ServiceGaps` array, comma separated,
/// in order.
pub open spec fn spec_render_gap_elems(s: Seq<ServiceGapsV>) -> Seq<char>
    decreases s.len(),
{
    if s.len() == 0 {
        Seq::empty()
    } else if s.len() == 1 {
        spec_render_service_gaps(s[0])
    } else {
        spec_render_gap_elems(s.drop_last()) + seq![','] + spec_render_service_gaps(s.last())
    }
}

/// The JSON text of a `ServiceGaps` array.
pub open spec fn spec_render_gap_arr(s: Seq<ServiceGapsV>) -> Seq<char> {
    seq!['['] + spec_render_gap_elems(s) + seq![']']
}

/// Append the JSON text of a `ServiceGaps` array.
fn append_gap_arr(out: &mut String, a: &Vec<ServiceGaps>)
    ensures
        final(out)@ == old(out)@ + spec_render_gap_arr(view_vec(*a)),
{
    let ghost s = view_vec(*a);
    proof { reveal_strlit("["); assert("["@ =~= seq!['[']); }
    proof { reveal_strlit("]"); assert("]"@ =~= seq![']']); }
    proof { reveal_strlit(","); assert(","@ =~= seq![',']); }
    out.append("[");
    let n = a.len();
    let mut i: usize = 0;
    while i < n
        invariant
            0 <= i <= n,
            n == a@.len(),
            s == view_vec(*a),
            s.len() == n,
            out@ == old(out)@ + seq!['['] + spec_render_gap_elems(s.take(i as int)),
            ","@ =~= seq![','],
        decreases n - i,
    {
        if i > 0 {
            out.append(",");
        }
        let u = &a[i];
        out.append(render_service_gaps(u).as_str());
        proof {
            assert(s.take(i as int + 1).drop_last() =~= s.take(i as int));
            assert(s.take(i as int + 1).last() == s[i as int]);
        }
        i += 1;
    }
    proof {
        assert(s.take(n as int) =~= s);
    }
    out.append("]");
}



/// The JSON text of a `AbridgedTweet`: its fields in a fixed order.
pub open spec fn spec_render_abridged_tweet(x: AbridgedTweetV) -> Seq<char> {
    "{\"twitterId\":"@ + spec_int_text(x.twitter_id as int)
        + ",\"twitterIdString\":"@ + spec_render_str(x.twitter_id_string)
        + ",\"userId\":"@ + spec_int_text(x.user_id as int)
        + ",\"timestamp\":"@ + spec_int_text(x.timestamp as int)
        + ",\"text\":"@ + spec_render_str(x.text)
        + "}"@
}

/// Render a `AbridgedTweet` to JSON text.
pub fn render_abridged_tweet(x: &AbridgedTweet) -> (r: String)
    ensures
        r@ == spec_render_abridged_tweet(x@),
{
    let mut out = String::from_str("{\"twitterId\":");
    out.append(i64_to_string(x.twitter_id).as_str());
    out.append(",\"twitterIdString\":");
    out.append(render_str_lit(x.twitter_id_string.as_str()).as_str());
    out.append(",\"userId\":");
    out.append(i64_to_string(x.user_id).as_str());
    out.append(",\"timestamp\":");
    out.append(i64_to_string(x.timestamp).as_str());
    out.append(",\"text\":");
    out.append(render_str_lit(x.text.as_str()).as_str());
    out.append("}");
    out
}

/// The JSON text of a `RecentTweets`: its fields in a fixed order.
pub open spec fn spec_render_recent_tweets(x: RecentTweetsV) -> Seq<char> {
    "{\"keywords\":"@ + spec_render_str(x.keywords)
        + ",\"tweets\":"@ + spec_render_abridged_arr(x.tweets)
        + "}"@
}

/// Render a `RecentTweets` to JSON text.
pub fn render_recent_tweets(x: &RecentTweets) -> (r: String)
    ensures
        r@ == spec_render_recent_tweets(x@),
{
    let mut out = String::from_str("{\"keywords\":");
    out.append(render_str_lit(x.keywords.as_str()).as_str());
    out.append(",\"tweets\":");
    append_abridged_arr(&mut out, &x.tweets);
    out.append("}");
    out
}

/// The JSON text of an optional `RecentTweets`: `null` when absent.
pub open spec fn spec_render_opt_recent_tweets(o: Option<RecentTweetsV>) -> Seq<char> {
    match o {
        Some(x) => spec_render_recent_tweets(x),
        None => "null"@,
    }
}

/// Append the JSON text of an optional `RecentTweets`.
fn append_opt_recent_tweets(out: &mut String, o: &Option<RecentTweets>)
    ensures
        final(out)@ == old(out)@ + spec_render_opt_recent_tweets(view_opt(*o)),
{
    match o {
        Some(x) => out.append(render_recent_tweets(x).as_str()),
        None => out.append("null"),
    }
}

/// The JSON text of a `Tweet`: its fields in a fixed order.
pub open spec fn spec_render_tweet(x: TweetV) -> Seq<char> {
    "{\"twitterId\":"@ + spec_int_text(x.twitter_id as int)
        + ",\"twitterIdString\":"@ + spec_render_str(x.twitter_id_string)
        + ",\"userId\":"@ + spec_int_text(x.user_id as int)
        + ",\"text\":"@ + spec_render_str(x.text)
        + ",\"stationCodes\":"@ + spec_render_station_arr(x.station_codes)
        + ",\"lineCodes\":"@ + spec_render_line_arr(x.line_codes)
        + ",\"keywords\":"@ + spec_render_str_arr(x.keywords)
        + ",\"url\":"@ + spec_render_str(x.url)
        + ",\"date\":"@ + spec_render_str(x.date)
        + "}"@
}

/// Render a `Tweet` to JSON text.
pub fn render_tweet(x: &Tweet) -> (r: String)
    ensures
        r@ == spec_render_tweet(x@),
{
    let mut out = String::from_str("{\"twitterId\":");
    out.append(i64_to_string(x.twitter_id).as_str());
    out.append(",\"twitterIdString\":");
    out.append(render_str_lit(x.twitter_id_string.as_str()).as_str());
    out.append(",\"userId\":");
    out.append(i64_to_string(x.user_id).as_str());
    out.append(",\"text\":");
    out.append(render_str_lit(x.text.as_str()).as_str());
    out.append(",\"stationCodes\":");
    append_station_arr(&mut out, &x.station_codes);
    out.append(",\"lineCodes\":");
    append_line_arr(&mut out, &x.line_codes);
    out.append(",\"keywords\":");
    append_str_arr(&mut out, &x.keywords);
    out.append(",\"url\":");
    out.append(render_str_lit(x.url.as_str()).as_str());
    out.append(",\"date\":");
    out.append(render_str_lit(x.date.as_str()).as_str());
    out.append("}");
    out
}

/// The JSON text of a `MetroAlert`: its fields in a fixed order.
pub open spec fn spec_render_metro_alert(x: MetroAlertV) -> Seq<char> {
    "{\"description\":"@ + spec_render_str(x.description)
        + ",\"stationCodes\":"@ + spec_render_station_arr(x.station_codes)
        + ",\"lineCodes\":"@ + spec_render_line_arr(x.line_codes)
        + ",\"keywords\":"@ + spec_render_str_arr(x.keywords)
        + ",\"date\":"@ + spec_render_str(x.date)
        + "}"@
}

/// Render a `MetroAlert` to JSON text.
pub fn render_metro_alert(x: &MetroAlert) -> (r: String)
    ensures
        r@ == spec_render_metro_alert(x@),
{
    let mut out = String::from_str("{\"description\":");
    out.append(render_str_lit(x.description.as_str()).as_str());
    out.append(",\"stationCodes\":");
    append_station_arr(&mut out, &x.station_codes);
    out.append(",\"lineCodes\":");
    append_line_arr(&mut out, &x.line_codes);
    out.append(",\"keywords\":");
    append_str_arr(&mut out, &x.keywords);
    out.append(",\"date\":");
    out.append(render_str_lit(x.date.as_str()).as_str());
    out.append("}");
    out
}

/// The JSON text of a `ElevatorEscalatorOutage`: its fields in a fixed order.
pub open spec fn spec_render_elevator_escalator_outage(x: ElevatorEscalatorOutageV) -> Seq<char> {
    "{\"stationCode\":"@ + spec_render_station(x.station_code)
        + ",\"stationName\":"@ + spec_render_str(x.station_name)
        + ",\"locationDescription\":"@ + spec_render_str(x.location_description)
        + ",\"symptomDescription\":"@ + spec_render_str(x.symptom_description)
        + ",\"unitName\":"@ + spec_render_str(x.unit_name)
        + ",\"unitType\":"@ + spec_render_str(x.unit_type)
        + ",\"outOfServiceDate\":"@ + spec_render_str(x.out_of_service_date)
        + ",\"updatedDate\":"@ + spec_render_str(x.updated_date)
        + ",\"estimatedReturnToServiceDate\":"@ + spec_render_str(x.estimated_return_to_service_date)
        + "}"@
}

/// Render a `ElevatorEscalatorOutage` to JSON text.
pub fn render_elevator_escalator_outage(x: &ElevatorEscalatorOutage) -> (r: String)
    ensures
        r@ == spec_render_elevator_escalator_outage(x@),
{
    let mut out = String::from_str("{\"stationCode\":");
    append_station(&mut out, &x.station_code);
    out.append(",\"stationName\":");
    out.append(render_str_lit(x.station_name.as_str()).as_str());
    out.append(",\"locationDescription\":");
    out.append(render_str_lit(x.location_description.as_str()).as_str());
    out.append(",\"symptomDescription\":");
    out.append(render_str_lit(x.symptom_description.as_str()).as_str());
    out.append(",\"unitName\":");
    out.append(render_str_lit(x.unit_name.as_str()).as_str());
    out.append(",\"unitType\":");
    out.append(render_str_lit(x.unit_type.as_str()).as_str());
    out.append(",\"outOfServiceDate\":");
    out.append(render_str_lit(x.out_of_service_date.as_str()).as_str());
    out.append(",\"updatedDate\":");
    out.append(render_str_lit(x.updated_date.as_str()).as_str());
    out.append(",\"estimatedReturnToServiceDate\":");
    out.append(render_str_lit(x.estimated_return_to_service_date.as_str()).as_str());
    out.append("}");
    out
}

/// The JSON text of a `TrainPrediction`: its fields in a fixed order.
pub open spec fn spec_render_train_prediction(x: TrainPredictionV) -> Seq<char> {
    "{\"trainId\":"@ + spec_render_str(x.train_id)
        + ",\"realTrainId\":"@ + spec_render_opt_str(x.real_train_id)
        + ",\"Car\":"@ + spec_render_str(x.car)
        + ",\"Destination\":"@ + spec_render_str(x.destination)
        + ",\"DestinationCode\":"@ + spec_render_opt_station(x.destination_code)
        + ",\"DestinationName\":"@ + spec_render_str(x.destination_name)
        + ",\"Group\":"@ + spec_render_str(x.group)
        + ",\"Line\":"@ + spec_render_line(x.line)
        + ",\"LocationCode\":"@ + spec_render_opt_station(x.location_code)
        + ",\"LocationName\":"@ + spec_render_opt_str(x.location_name)
        + ",\"Min\":"@ + spec_render_str(x.min)
        + ",\"parentMin\":"@ + spec_render_opt_str(x.parent_min)
        + ",\"minutesAway\":"@ + spec_render_opt_num(x.minutes_away)
        + ",\"maxMinutesAway\":"@ + spec_render_opt_num(x.max_minutes_away)
        + ",\"directionNumber\":"@ + spec_int_text(x.direction_number as int)
        + ",\"isScheduled\":"@ + spec_render_bool(x.is_scheduled)
        + ",\"numPositiveTags\":"@ + spec_int_text(x.num_positive_tags as int)
        + ",\"numNegativeTags\":"@ + spec_int_text(x.num_negative_tags as int)
        + ",\"trackNumber\":"@ + spec_int_text(x.track_number as int)
        + ",\"currentStationCode\":"@ + spec_render_station(x.current_station_code)
        + ",\"currentStationName\":"@ + spec_render_str(x.current_station_name)
        + ",\"PreviousStationCode\":"@ + spec_render_opt_station(x.previous_station_code)
        + ",\"previousStationName\":"@ + spec_render_opt_str(x.previous_station_name)
        + ",\"secondsSinceLastMoved\":"@ + spec_int_text(x.seconds_since_last_moved as int)
        + ",\"isCurrentlyHoldingOrSlow\":"@ + spec_render_bool(x.is_currently_holding_or_slow)
        + ",\"secondsOffSchedule\":"@ + spec_int_text(x.seconds_off_schedule as int)
        + ",\"trainSpeed\":"@ + spec_render_opt_i64(x.train_speed)
        + ",\"isNotOnRevenueTrack\":"@ + spec_render_bool(x.is_not_on_revenue_track)
        + ",\"isKeyedDown\":"@ + spec_render_bool(x.is_keyed_down)
        + ",\"wasKeyedDown\":"@ + spec_render_bool(x.was_keyed_down)
        + ",\"distanceFromNextStation\":"@ + spec_render_opt_i64(x.distance_from_next_station)
        + ",\"lat\":"@ + spec_render_opt_num(x.lat)
        + ",\"lon\":"@ + spec_render_opt_num(x.lon)
        + ",\"direction\":"@ + spec_render_opt_i64(x.direction)
        + ",\"areDoorsOpenOnLeft\":"@ + spec_render_opt_bool(x.are_doors_open_on_left)
        + ",\"areDoorsOpenOnRight\":"@ + spec_render_opt_bool(x.are_doors_open_on_right)
        + ",\"observedDate\":"@ + spec_render_str(x.observed_date)
        + ",\"recentTweets\":"@ + spec_render_opt_recent_tweets(x.recent_tweets)
        + "}"@
}

/// Render a `TrainPrediction` to JSON text.
pub fn render_train_prediction(x: &TrainPrediction) -> (r: String)
    ensures
        r@ == spec_render_train_prediction(x@),
{
    let mut out = String::from_str("{\"trainId\":");
    out.append(render_str_lit(x.train_id.as_str()).as_str());
    out.append(",\"realTrainId\":");
    append_opt_str(&mut out, &x.real_train_id);
    out.append(",\"Car\":");
    out.append(render_str_lit(x.car.as_str()).as_str());
    out.append(",\"Destination\":");
    out.append(render_str_lit(x.destination.as_str()).as_str());
    out.append(",\"DestinationCode\":");
    append_opt_station(&mut out, &x.destination_code);
    out.append(",\"DestinationName\":");
    out.append(render_str_lit(x.destination_name.as_str()).as_str());
    out.append(",\"Group\":");
    out.append(render_str_lit(x.group.as_str()).as_str());
    out.append(",\"Line\":");
    append_line(&mut out, &x.line);
    out.append(",\"LocationCode\":");
    append_opt_station(&mut out, &x.location_code);
    out.append(",\"LocationName\":");
    append_opt_str(&mut out, &x.location_name);
    out.append(",\"Min\":");
    out.append(render_str_lit(x.min.as_str()).as_str());
    out.append(",\"parentMin\":");
    append_opt_str(&mut out, &x.parent_min);
    out.append(",\"minutesAway\":");
    append_opt_num(&mut out, &x.minutes_away);
    out.append(",\"maxMinutesAway\":");
    append_opt_num(&mut out, &x.max_minutes_away);
    out.append(",\"directionNumber\":");
    out.append(i64_to_string(x.direction_number).as_str());
    out.append(",\"isScheduled\":");
    append_bool(&mut out, x.is_scheduled);
    out.append(",\"numPositiveTags\":");
    out.append(i64_to_string(x.num_positive_tags).as_str());
    out.append(",\"numNegativeTags\":");
    out.append(i64_to_string(x.num_negative_tags).as_str());
    out.append(",\"trackNumber\":");
    out.append(i64_to_string(x.track_number).as_str());
    out.append(",\"currentStationCode\":");
    append_station(&mut out, &x.current_station_code);
    out.append(",\"currentStationName\":");
    out.append(render_str_lit(x.current_station_name.as_str()).as_str());
    out.append(",\"PreviousStationCode\":");
    append_opt_station(&mut out, &x.previous_station_code);
    out.append(",\"previousStationName\":");
    append_opt_str(&mut out, &x.previous_station_name);
    out.append(",\"secondsSinceLastMoved\":");
    out.append(i64_to_string(x.seconds_since_last_moved).as_str());
    out.append(",\"isCurrentlyHoldingOrSlow\":");
    append_bool(&mut out, x.is_currently_holding_or_slow);
    out.append(",\"secondsOffSchedule\":");
    out.append(i64_to_string(x.seconds_off_schedule).as_str());
    out.append(",\"trainSpeed\":");
    append_opt_i64(&mut out, &x.train_speed);
    out.append(",\"isNotOnRevenueTrack\":");
    append_bool(&mut out, x.is_not_on_revenue_track);
    out.append(",\"isKeyedDown\":");
    append_bool(&mut out, x.is_keyed_down);
    out.append(",\"wasKeyedDown\":");
    append_bool(&mut out, x.was_keyed_down);
    out.append(",\"distanceFromNextStation\":");
    append_opt_i64(&mut out, &x.distance_from_next_station);
    out.append(",\"lat\":");
    append_opt_num(&mut out, &x.lat);
    out.append(",\"lon\":");
    append_opt_num(&mut out, &x.lon);
    out.append(",\"direction\":");
    append_opt_i64(&mut out, &x.direction);
    out.append(",\"areDoorsOpenOnLeft\":");
    append_opt_bool(&mut out, &x.are_doors_open_on_left);
    out.append(",\"areDoorsOpenOnRight\":");
    append_opt_bool(&mut out, &x.are_doors_open_on_right);
    out.append(",\"observedDate\":");
    out.append(render_str_lit(x.observed_date.as_str()).as_str());
    out.append(",\"recentTweets\":");
    append_opt_recent_tweets(&mut out, &x.recent_tweets);
    out.append("}");
    out
}

/// The JSON text of a `TripInfo`: its fields in a fixed order.
pub open spec fn spec_render_trip_info(x: TripInfoV) -> Seq<char> {
    "{\"fromStationName\":"@ + spec_render_str(x.from_station_name)
        + ",\"fromStationCode\":"@ + spec_render_station(x.from_station_code)
        + ",\"toStationName\":"@ + spec_render_str(x.to_station_name)
        + ",\"toStationCode\":"@ + spec_render_station(x.to_station_code)
        + ",\"tripStationCodes\":"@ + spec_render_station_arr(x.trip_station_codes)
        + ",\"lineCodes\":"@ + spec_render_line_arr(x.line_codes)
        + ",\"expectedRideTime\":"@ + x.expected_ride_time
        + ",\"predictedRideTime\":"@ + x.predicted_ride_time
        + ",\"timeSinceLastTrain\":"@ + x.time_since_last_train
        + ",\"fromStationTrainStatuses\":"@ + spec_render_pred_arr(x.from_station_train_statuses)
        + ",\"date\":"@ + spec_render_str(x.date)
        + ",\"timeUntilNextTrain\":"@ + spec_render_opt_num(x.time_until_next_train)
        + ",\"metroAlerts\":"@ + spec_render_opt_alert_arr(x.metro_alerts)
        + ",\"metroAlertKeywords\":"@ + spec_render_opt_str_arr(x.metro_alert_keywords)
        + ",\"tweets\":"@ + spec_render_opt_tweet_arr(x.tweets)
        + ",\"tweetKeywords\":"@ + spec_render_opt_str_arr(x.tweet_keywords)
        + ",\"fromStationElevatorOutages\":"@ + spec_render_opt_outage_arr(x.from_station_elevator_outages)
        + ",\"fromStationEscalatorOutages\":"@ + spec_render_opt_outage_arr(x.from_station_escalator_outages)
        + ",\"toStationElevatorOutages\":"@ + spec_render_opt_outage_arr(x.to_station_elevator_outages)
        + ",\"toStationEscalatorOutages\":"@ + spec_render_opt_outage_arr(x.to_station_escalator_outages)
        + "}"@
}

/// Render a `TripInfo` to JSON text.
pub fn render_trip_info(x: &TripInfo) -> (r: String)
    ensures
        r@ == spec_render_trip_info(x@),
{
    let mut out = String::from_str("{\"fromStationName\":");
    out.append(render_str_lit(x.from_station_name.as_str()).as_str());
    out.append(",\"fromStationCode\":");
    append_station(&mut out, &x.from_station_code);
    out.append(",\"toStationName\":");
    out.append(render_str_lit(x.to_station_name.as_str()).as_str());
    out.append(",\"toStationCode\":");
    append_station(&mut out, &x.to_station_code);
    out.append(",\"tripStationCodes\":");
    append_station_arr(&mut out, &x.trip_station_codes);
    out.append(",\"lineCodes\":");
    append_line_arr(&mut out, &x.line_codes);
    out.append(",\"expectedRideTime\":");
    out.append(x.expected_ride_time.as_str());
    out.append(",\"predictedRideTime\":");
    out.append(x.predicted_ride_time.as_str());
    out.append(",\"timeSinceLastTrain\":");
    out.append(x.time_since_last_train.as_str());
    out.append(",\"fromStationTrainStatuses\":");
    append_pred_arr(&mut out, &x.from_station_train_statuses);
    out.append(",\"date\":");
    out.append(render_str_lit(x.date.as_str()).as_str());
    out.append(",\"timeUntilNextTrain\":");
    append_opt_num(&mut out, &x.time_until_next_train);
    out.append(",\"metroAlerts\":");
    append_opt_alert_arr(&mut out, &x.metro_alerts);
    out.append(",\"metroAlertKeywords\":");
    append_opt_str_arr(&mut out, &x.metro_alert_keywords);
    out.append(",\"tweets\":");
    append_opt_tweet_arr(&mut out, &x.tweets);
    out.append(",\"tweetKeywords\":");
    append_opt_str_arr(&mut out, &x.tweet_keywords);
    out.append(",\"fromStationElevatorOutages\":");
    append_opt_outage_arr(&mut out, &x.from_station_elevator_outages);
    out.append(",\"fromStationEscalatorOutages\":");
    append_opt_outage_arr(&mut out, &x.from_station_escalator_outages);
    out.append(",\"toStationElevatorOutages\":");
    append_opt_outage_arr(&mut out, &x.to_station_elevator_outages);
    out.append(",\"toStationEscalatorOutages\":");
    append_opt_outage_arr(&mut out, &x.to_station_escalator_outages);
    out.append("}");
    out
}

/// The JSON text of a `ServiceGaps`: its fields in a fixed order.
pub open spec fn spec_render_service_gaps(x: ServiceGapsV) -> Seq<char> {
    "{\"lineCode\":"@ + spec_render_line(x.line_code)
        + ",\"directionNumber\":"@ + spec_int_text(x.direction_number as int)
        + ",\"direction\":"@ + spec_render_str(x.direction)
        + ",\"fromStationCode\":"@ + spec_render_station(x.from_station_code)
        + ",\"fromStationName\":"@ + spec_render_str(x.from_station_name)
        + ",\"toStationCode\":"@ + spec_render_station(x.to_station_code)
        + ",\"toStationName\":"@ + spec_render_str(x.to_station_name)
        + ",\"fromTrainId\":"@ + spec_render_str(x.from_train_id)
        + ",\"toTrainId\":"@ + spec_render_str(x.to_train_id)
        + ",\"timeBetweenTrains\":"@ + x.time_between_trains
        + ",\"scheduledTimeBetweenTrains\":"@ + x.scheduled_time_between_trains
        + ",\"observedDate\":"@ + spec_render_str(x.observed_date)
        + "}"@
}

/// Render a `ServiceGaps` to JSON text.
pub fn render_service_gaps(x: &ServiceGaps) -> (r: String)
    ensures
        r@ == spec_render_service_gaps(x@),
{
    let mut out = String::from_str("{\"lineCode\":");
    append_line(&mut out, &x.line_code);
    out.append(",\"directionNumber\":");
    out.append(i64_to_string(x.direction_number).as_str());
    out.append(",\"direction\":");
    out.append(render_str_lit(x.direction.as_str()).as_str());
    out.append(",\"fromStationCode\":");
    append_station(&mut out, &x.from_station_code);
    out.append(",\"fromStationName\":");
    out.append(render_str_lit(x.from_station_name.as_str()).as_str());
    out.append(",\"toStationCode\":");
    append_station(&mut out, &x.to_station_code);
    out.append(",\"toStationName\":");
    out.append(render_str_lit(x.to_station_name.as_str()).as_str());
    out.append(",\"fromTrainId\":");
    out.append(render_str_lit(x.from_train_id.as_str()).as_str());
    out.append(",\"toTrainId\":");
    out.append(render_str_lit(x.to_train_id.as_str()).as_str());
    out.append(",\"timeBetweenTrains\":");
    out.append(x.time_between_trains.as_str());
    out.append(",\"scheduledTimeBetweenTrains\":");
    out.append(x.scheduled_time_between_trains.as_str());
    out.append(",\"observedDate\":");
    out.append(render_str_lit(x.observed_date.as_str()).as_str());
    out.append("}");
    out
}

/// The JSON text of a `DirectionMetrics`: its fields in a fixed order.
pub open spec fn spec_render_direction_metrics(x: DirectionMetricsV) -> Seq<char> {
    "{\"lineCode\":"@ + spec_render_line(x.line_code)
        + ",\"directionNumber\":"@ + spec_int_text(x.direction_number as int)
        + ",\"direction\":"@ + spec_render_str(x.direction)
        + ",\"towardsStationName\":"@ + spec_render_str(x.towards_station_name)
        + ",\"date\":"@ + spec_render_str(x.date)
        + ",\"numTrains\":"@ + spec_int_text(x.num_trains as int)
        + ",\"numCars\":"@ + spec_int_text(x.num_cars as int)
        + ",\"numEightCarTrains\":"@ + spec_int_text(x.num_eight_car_trains as int)
        + ",\"numDelayedTrains\":"@ + spec_int_text(x.num_delayed_trains as int)
        + ",\"expectedNumTrains\":"@ + spec_int_text(x.expected_num_trains as int)
        + ",\"averageTrainDelay\":"@ + spec_render_opt_i64(x.average_train_delay)
        + ",\"medianTrainDelay\":"@ + spec_render_opt_i64(x.median_train_delay)
        + ",\"minimumTrainDelay\":"@ + spec_render_opt_i64(x.minimum_train_delay)
        + ",\"maximumTrainDelay\":"@ + spec_render_opt_i64(x.maximum_train_delay)
        + ",\"averageMinimumHeadways\":"@ + spec_render_opt_num(x.average_minimum_headways)
        + ",\"averageTrainFrequency\":"@ + spec_render_opt_num(x.average_train_frequency)
        + ",\"expectedTrainFrequency\":"@ + spec_render_opt_num(x.expected_train_frequency)
        + ",\"averagePlatformWaitTime\":"@ + spec_render_opt_num(x.average_platform_wait_time)
        + ",\"expectedPlatformWaitTime\":"@ + spec_render_opt_num(x.expected_platform_wait_time)
        + ",\"trainFrequencyStatus\":"@ + spec_render_opt_str(x.train_frequency_status)
        + ",\"platformWaitTimeTrendStatus\":"@ + spec_render_opt_str(x.platform_wait_time_trend_status)
        + ",\"averageHeadwayAdherence\":"@ + spec_render_opt_num(x.average_headway_adherence)
        + ",\"averageScheduleAdherence\":"@ + spec_render_opt_num(x.average_schedule_adherence)
        + ",\"standardDeviationTrainFrequency\":"@ + spec_render_opt_num(x.standard_deviation_train_frequency)
        + ",\"expectedStandardDeviationTrainFrequency\":"@ + spec_render_opt_num(x.expected_standard_deviation_train_frequency)
        + "}"@
}

/// Render a `DirectionMetrics` to JSON text.
pub fn render_direction_metrics(x: &DirectionMetrics) -> (r: String)
    ensures
        r@ == spec_render_direction_metrics(x@),
{
    let mut out = String::from_str("{\"lineCode\":");
    append_line(&mut out, &x.line_code);
    out.append(",\"directionNumber\":");
    out.append(i64_to_string(x.direction_number).as_str());
    out.append(",\"direction\":");
    out.append(render_str_lit(x.direction.as_str()).as_str());
    out.append(",\"towardsStationName\":");
    out.append(render_str_lit(x.towards_station_name.as_str()).as_str());
    out.append(",\"date\":");
    out.append(render_str_lit(x.date.as_str()).as_str());
    out.append(",\"numTrains\":");
    out.append(i64_to_string(x.num_trains).as_str());
    out.append(",\"numCars\":");
    out.append(i64_to_string(x.num_cars).as_str());
    out.append(",\"numEightCarTrains\":");
    out.append(i64_to_string(x.num_eight_car_trains).as_str());
    out.append(",\"numDelayedTrains\":");
    out.append(i64_to_string(x.num_delayed_trains).as_str());
    out.append(",\"expectedNumTrains\":");
    out.append(i64_to_string(x.expected_num_trains).as_str());
    out.append(",\"averageTrainDelay\":");
    append_opt_i64(&mut out, &x.average_train_delay);
    out.append(",\"medianTrainDelay\":");
    append_opt_i64(&mut out, &x.median_train_delay);
    out.append(",\"minimumTrainDelay\":");
    append_opt_i64(&mut out, &x.minimum_train_delay);
    out.append(",\"maximumTrainDelay\":");
    append_opt_i64(&mut out, &x.maximum_train_delay);
    out.append(",\"averageMinimumHeadways\":");
    append_opt_num(&mut out, &x.average_minimum_headways);
    out.append(",\"averageTrainFrequency\":");
    append_opt_num(&mut out, &x.average_train_frequency);
    out.append(",\"expectedTrainFrequency\":");
    append_opt_num(&mut out, &x.expected_train_frequency);
    out.append(",\"averagePlatformWaitTime\":");
    append_opt_num(&mut out, &x.average_platform_wait_time);
    out.append(",\"expectedPlatformWaitTime\":");
    append_opt_num(&mut out, &x.expected_platform_wait_time);
    out.append(",\"trainFrequencyStatus\":");
    append_opt_str(&mut out, &x.train_frequency_status);
    out.append(",\"platformWaitTimeTrendStatus\":");
    append_opt_str(&mut out, &x.platform_wait_time_trend_status);
    out.append(",\"averageHeadwayAdherence\":");
    append_opt_num(&mut out, &x.average_headway_adherence);
    out.append(",\"averageScheduleAdherence\":");
    append_opt_num(&mut out, &x.average_schedule_adherence);
    out.append(",\"standardDeviationTrainFrequency\":");
    append_opt_num(&mut out, &x.standard_deviation_train_frequency);
    out.append(",\"expectedStandardDeviationTrainFrequency\":");
    append_opt_num(&mut out, &x.expected_standard_deviation_train_frequency);
    out.append("}");
    out
}

/// The JSON text of a `DirectionMetricsByDirection`: its fields in a fixed order.
pub open spec fn spec_render_direction_metrics_by_direction(x: DirectionMetricsByDirectionV) -> Seq<char> {
    "{\"1\":"@ + spec_render_direction_metrics(x.d1)
        + ",\"2\":"@ + spec_render_direction_metrics(x.d2)
        + "}"@
}

/// Render a `DirectionMetricsByDirection` to JSON text.
pub fn render_direction_metrics_by_direction(x: &DirectionMetricsByDirection) -> (r: String)
    ensures
        r@ == spec_render_direction_metrics_by_direction(x@),
{
    let mut out = String::from_str("{\"1\":");
    out.append(render_direction_metrics(&x.d1).as_str());
    out.append(",\"2\":");
    out.append(render_direction_metrics(&x.d2).as_str());
    out.append("}");
    out
}

/// The JSON text of a `LineMetrics`: its fields in a fixed order.
pub open spec fn spec_render_line_metrics(x: LineMetricsV) -> Seq<char> {
    "{\"lineCode\":"@ + spec_render_line(x.line_code)
        + ",\"serviceGaps\":"@ + spec_render_gap_arr(x.service_gaps)
        + ",\"directionMetricsByDirection\":"@ + spec_render_direction_metrics_by_direction(x.direction_metrics_by_direction)
        + ",\"date\":"@ + spec_render_str(x.date)
        + ",\"numTrains\":"@ + spec_int_text(x.num_trains as int)
        + ",\"numCars\":"@ + spec_int_text(x.num_cars as int)
        + ",\"numEightCarTrains\":"@ + spec_int_text(x.num_eight_car_trains as int)
        + ",\"numDelayedTrains\":"@ + spec_int_text(x.num_delayed_trains as int)
        + ",\"expectedNumTrains\":"@ + spec_int_text(x.expected_num_trains as int)
        + ",\"averageTrainDelay\":"@ + spec_render_opt_i64(x.average_train_delay)
        + ",\"medianTrainDelay\":"@ + spec_render_opt_i64(x.median_train_delay)
        + ",\"minimumTrainDelay\":"@ + spec_render_opt_i64(x.minimum_train_delay)
        + ",\"maximumTrainDelay\":"@ + spec_render_opt_i64(x.maximum_train_delay)
        + ",\"averageMinimumHeadways\":"@ + spec_render_opt_num(x.average_minimum_headways)
        + ",\"averageTrainFrequency\":"@ + spec_render_opt_num(x.average_train_frequency)
        + ",\"expectedTrainFrequency\":"@ + spec_render_opt_num(x.expected_train_frequency)
        + ",\"averagePlatformWaitTime\":"@ + spec_render_opt_num(x.average_platform_wait_time)
        + ",\"expectedPlatformWaitTime\":"@ + spec_render_opt_num(x.expected_platform_wait_time)
        + ",\"trainFrequencyStatus\":"@ + spec_render_opt_str(x.train_frequency_status)
        + ",\"platformWaitTimeTrendStatus\":"@ + spec_render_opt_str(x.platform_wait_time_trend_status)
        + ",\"averageHeadwayAdherence\":"@ + spec_render_opt_num(x.average_headway_adherence)
        + ",\"averageScheduleAdherence\":"@ + spec_render_opt_num(x.average_schedule_adherence)
        + ",\"standardDeviationTrainFrequency\":"@ + spec_render_opt_num(x.standard_deviation_train_frequency)
        + ",\"expectedStandardDeviationTrainFrequency\":"@ + spec_render_opt_num(x.expected_standard_deviation_train_frequency)
        + "}"@
}

/// Render a `LineMetrics` to JSON text.
pub fn render_line_metrics(x: &LineMetrics) -> (r: String)
    ensures
        r@ == spec_render_line_metrics(x@),
{
    let mut out = String::from_str("{\"lineCode\":");
    append_line(&mut out, &x.line_code);
    out.append(",\"serviceGaps\":");
    append_gap_arr(&mut out, &x.service_gaps);
    out.append(",\"directionMetricsByDirection\":");
    out.append(render_direction_metrics_by_direction(&x.direction_metrics_by_direction).as_str());
    out.append(",\"date\":");
    out.append(render_str_lit(x.date.as_str()).as_str());
    out.append(",\"numTrains\":");
    out.append(i64_to_string(x.num_trains).as_str());
    out.append(",\"numCars\":");
    out.append(i64_to_string(x.num_cars).as_str());
    out.append(",\"numEightCarTrains\":");
    out.append(i64_to_string(x.num_eight_car_trains).as_str());
    out.append(",\"numDelayedTrains\":");
    out.append(i64_to_string(x.num_delayed_trains).as_str());
    out.append(",\"expectedNumTrains\":");
    out.append(i64_to_string(x.expected_num_trains).as_str());
    out.append(",\"averageTrainDelay\":");
    append_opt_i64(&mut out, &x.average_train_delay);
    out.append(",\"medianTrainDelay\":");
    append_opt_i64(&mut out, &x.median_train_delay);
    out.append(",\"minimumTrainDelay\":");
    append_opt_i64(&mut out, &x.minimum_train_delay);
    out.append(",\"maximumTrainDelay\":");
    append_opt_i64(&mut out, &x.maximum_train_delay);
    out.append(",\"averageMinimumHeadways\":");
    append_opt_num(&mut out, &x.average_minimum_headways);
    out.append(",\"averageTrainFrequency\":");
    append_opt_num(&mut out, &x.average_train_frequency);
    out.append(",\"expectedTrainFrequency\":");
    append_opt_num(&mut out, &x.expected_train_frequency);
    out.append(",\"averagePlatformWaitTime\":");
    append_opt_num(&mut out, &x.average_platform_wait_time);
    out.append(",\"expectedPlatformWaitTime\":");
    append_opt_num(&mut out, &x.expected_platform_wait_time);
    out.append(",\"trainFrequencyStatus\":");
    append_opt_str(&mut out, &x.train_frequency_status);
    out.append(",\"platformWaitTimeTrendStatus\":");
    append_opt_str(&mut out, &x.platform_wait_time_trend_status);
    out.append(",\"averageHeadwayAdherence\":");
    append_opt_num(&mut out, &x.average_headway_adherence);
    out.append(",\"averageScheduleAdherence\":");
    append_opt_num(&mut out, &x.average_schedule_adherence);
    out.append(",\"standardDeviationTrainFrequency\":");
    append_opt_num(&mut out, &x.standard_deviation_train_frequency);
    out.append(",\"expectedStandardDeviationTrainFrequency\":");
    append_opt_num(&mut out, &x.expected_standard_deviation_train_frequency);
    out.append("}");
    out
}

/// The JSON text of a `SystemMetrics`: its fields in a fixed order.
pub open spec fn spec_render_system_metrics(x: SystemMetricsV) -> Seq<char> {
    "{\"RD\":"@ + spec_render_line_metrics(x.rd)
        + ",\"OR\":"@ + spec_render_line_metrics(x.or)
        + ",\"SV\":"@ + spec_render_line_metrics(x.sv)
        + ",\"BL\":"@ + spec_render_line_metrics(x.bl)
        + ",\"YL\":"@ + spec_render_line_metrics(x.yl)
        + ",\"GR\":"@ + spec_render_line_metrics(x.gr)
        + "}"@
}

/// Render a `SystemMetrics` to JSON text.
pub fn render_system_metrics(x: &SystemMetrics) -> (r: String)
    ensures
        r@ == spec_render_system_metrics(x@),
{
    let mut out = String::from_str("{\"RD\":");
    out.append(render_line_metrics(&x.rd).as_str());
    out.append(",\"OR\":");
    out.append(render_line_metrics(&x.or).as_str());
    out.append(",\"SV\":");
    out.append(render_line_metrics(&x.sv).as_str());
    out.append(",\"BL\":");
    out.append(render_line_metrics(&x.bl).as_str());
    out.append(",\"YL\":");
    out.append(render_line_metrics(&x.yl).as_str());
    out.append(",\"GR\":");
    out.append(render_line_metrics(&x.gr).as_str());
    out.append("}");
    out
}

/// The JSON text of a `SystemMetricsResponse`: its fields in a fixed order.
pub open spec fn spec_render_system_metrics_response(x: SystemMetricsResponseV) -> Seq<char> {
    "{\"lineMetricsByLine\":"@ + spec_render_system_metrics(x.line_metrics_by_line)
        + ",\"date\":"@ + spec_render_str(x.date)
        + "}"@
}

/// Render a `SystemMetricsResponse` to JSON text.
pub fn render_system_metrics_response(x: &SystemMetricsResponse) -> (r: String)
    ensures
        r@ == spec_render_system_metrics_response(x@),
{
    let mut out = String::from_str("{\"lineMetricsByLine\":");
    out.append(render_system_metrics(&x.line_metrics_by_line).as_str());
    out.append(",\"date\":");
    out.append(render_str_lit(x.date.as_str()).as_str());
    out.append("}");
    out
}

/// The JSON text of a `NumStationTagsByType`: its fields in a fixed order.
pub open spec fn spec_render_num_station_tags_by_type(x: NumStationTagsByTypeV) -> Seq<char> {
    "{\"FRIENDLY_OR_HELPFUL_STAFF\":"@ + spec_int_text(x.friendly_or_helpful_staff as int)
        + ",\"UNCOMFORTABLE_TEMPS\":"@ + spec_int_text(x.uncomfortable_temps as int)
        + ",\"AMPLE_SECURITY\":"@ + spec_int_text(x.ample_security as int)
        + ",\"BROKEN_ELEVATOR\":"@ + spec_int_text(x.broken_elevator as int)
        + ",\"BROKEN_ESCALATOR\":"@ + spec_int_text(x.broken_escalator as int)
        + ",\"CROWDED\":"@ + spec_int_text(x.crowded as int)
        + ",\"EMPTY\":"@ + spec_int_text(x.empty as int)
        + ",\"FREE_HAND_SANITIZER_AVAILABLE\":"@ + spec_int_text(x.free_hand_sanitizer_available as int)
        + ",\"FREE_MASKS_AVAILABLE\":"@ + spec_int_text(x.free_masks_available as int)
        + ",\"LONG_WAITING_TIME\":"@ + spec_int_text(x.long_waiting_time as int)
        + ",\"NEEDS_WORK\":"@ + spec_int_text(x.needs_work as int)
        + ",\"NO_FREE_HAND_SANITIZER\":"@ + spec_int_text(x.no_free_hand_sanitizer as int)
        + ",\"NO_FREE_MASKS\":"@ + spec_int_text(x.no_free_masks as int)
        + ",\"POSTED_TIMES_INACCURATE\":"@ + spec_int_text(x.posted_times_inaccurate as int)
        + ",\"SMOKE_OR_FIRE\":"@ + spec_int_text(x.smoke_or_fire as int)
        + ",\"UNFRIENDLY_OR_UNHELPFUL_STAFF\":"@ + spec_int_text(x.unfriendly_or_unhelpful_staff as int)
        + "}"@
}

/// Render a `NumStationTagsByType` to JSON text.
pub fn render_num_station_tags_by_type(x: &NumStationTagsByType) -> (r: String)
    ensures
        r@ == spec_render_num_station_tags_by_type(x@),
{
    let mut out = String::from_str("{\"FRIENDLY_OR_HELPFUL_STAFF\":");
    out.append(i64_to_string(x.friendly_or_helpful_staff).as_str());
    out.append(",\"UNCOMFORTABLE_TEMPS\":");
    out.append(i64_to_string(x.uncomfortable_temps).as_str());
    out.append(",\"AMPLE_SECURITY\":");
    out.append(i64_to_string(x.ample_security).as_str());
    out.append(",\"BROKEN_ELEVATOR\":");
    out.append(i64_to_string(x.broken_elevator).as_str());
    out.append(",\"BROKEN_ESCALATOR\":");
    out.append(i64_to_string(x.broken_escalator).as_str());
    out.append(",\"CROWDED\":");
    out.append(i64_to_string(x.crowded).as_str());
    out.append(",\"EMPTY\":");
    out.append(i64_to_string(x.empty).as_str());
    out.append(",\"FREE_HAND_SANITIZER_AVAILABLE\":");
    out.append(i64_to_string(x.free_hand_sanitizer_available).as_str());
    out.append(",\"FREE_MASKS_AVAILABLE\":");
    out.append(i64_to_string(x.free_masks_available).as_str());
    out.append(",\"LONG_WAITING_TIME\":");
    out.append(i64_to_string(x.long_waiting_time).as_str());
    out.append(",\"NEEDS_WORK\":");
    out.append(i64_to_string(x.needs_work).as_str());
    out.append(",\"NO_FREE_HAND_SANITIZER\":");
    out.append(i64_to_string(x.no_free_hand_sanitizer).as_str());
    out.append(",\"NO_FREE_MASKS\":");
    out.append(i64_to_string(x.no_free_masks).as_str());
    out.append(",\"POSTED_TIMES_INACCURATE\":");
    out.append(i64_to_string(x.posted_times_inaccurate).as_str());
    out.append(",\"SMOKE_OR_FIRE\":");
    out.append(i64_to_string(x.smoke_or_fire).as_str());
    out.append(",\"UNFRIENDLY_OR_UNHELPFUL_STAFF\":");
    out.append(i64_to_string(x.unfriendly_or_unhelpful_staff).as_str());
    out.append("}");
    out
}

/// The JSON text of a `StationTags`: its fields in a fixed order.
pub open spec fn spec_render_station_tags(x: StationTagsV) -> Seq<char> {
    "{\"numTagsByType\":"@ + spec_render_num_station_tags_by_type(x.num_tags_by_type)
        + ",\"numPositiveTags\":"@ + spec_int_text(x.num_positive_tags as int)
        + ",\"numNegativeTags\":"@ + spec_int_text(x.num_negative_tags as int)
        + "}"@
}

/// Render a `StationTags` to JSON text.
pub fn render_station_tags(x: &StationTags) -> (r: String)
    ensures
        r@ == spec_render_station_tags(x@),
{
    let mut out = String::from_str("{\"numTagsByType\":");
    out.append(render_num_station_tags_by_type(&x.num_tags_by_type).as_str());
    out.append(",\"numPositiveTags\":");
    out.append(i64_to_string(x.num_positive_tags).as_str());
    out.append(",\"numNegativeTags\":");
    out.append(i64_to_string(x.num_negative_tags).as_str());
    out.append("}");
    out
}

/// The JSON text of a `NumTrainTagsByType`: its fields in a fixed order.
pub open spec fn spec_render_num_train_tags_by_type(x: NumTrainTagsByTypeV) -> Seq<char> {
    "{\"BAD_OPERATOR\":"@ + spec_int_text(x.bad_operator as int)
        + ",\"ISOLATED_CARS\":"@ + spec_int_text(x.isolated_cars as int)
        + ",\"NEW_TRAIN\":"@ + spec_int_text(x.new_train as int)
        + ",\"BROKEN_INTERCOM\":"@ + spec_int_text(x.broken_intercom as int)
        + ",\"CROWDED\":"@ + spec_int_text(x.crowded as int)
        + ",\"DISRUPTIVE_PASSENGER\":"@ + spec_int_text(x.disruptive_passenger as int)
        + ",\"EMPTY\":"@ + spec_int_text(x.empty as int)
        + ",\"GOOD_OPERATOR\":"@ + spec_int_text(x.good_operator as int)
        + ",\"GOOD_RIDE\":"@ + spec_int_text(x.good_ride as int)
        + ",\"NEEDS_WORK\":"@ + spec_int_text(x.needs_work as int)
        + ",\"RECENTLY_OFFLOADED\":"@ + spec_int_text(x.recently_offloaded as int)
        + ",\"UNCOMFORTABLE_RIDE\":"@ + spec_int_text(x.uncomfortable_ride as int)
        + ",\"UNCOMFORTABLE_TEMPS\":"@ + spec_int_text(x.uncomfortable_temps as int)
        + ",\"WRONG_DESTINATION\":"@ + spec_int_text(x.wrong_destination as int)
        + ",\"WRONG_NUM_CARS\":"@ + spec_int_text(x.wrong_num_cars as int)
        + "}"@
}

/// Render a `NumTrainTagsByType` to JSON text.
pub fn render_num_train_tags_by_type(x: &NumTrainTagsByType) -> (r: String)
    ensures
        r@ == spec_render_num_train_tags_by_type(x@),
{
    let mut out = String::from_str("{\"BAD_OPERATOR\":");
    out.append(i64_to_string(x.bad_operator).as_str());
    out.append(",\"ISOLATED_CARS\":");
    out.append(i64_to_string(x.isolated_cars).as_str());
    out.append(",\"NEW_TRAIN\":");
    out.append(i64_to_string(x.new_train).as_str());
    out.append(",\"BROKEN_INTERCOM\":");
    out.append(i64_to_string(x.broken_intercom).as_str());
    out.append(",\"CROWDED\":");
    out.append(i64_to_string(x.crowded).as_str());
    out.append(",\"DISRUPTIVE_PASSENGER\":");
    out.append(i64_to_string(x.disruptive_passenger).as_str());
    out.append(",\"EMPTY\":");
    out.append(i64_to_string(x.empty).as_str());
    out.append(",\"GOOD_OPERATOR\":");
    out.append(i64_to_string(x.good_operator).as_str());
    out.append(",\"GOOD_RIDE\":");
    out.append(i64_to_string(x.good_ride).as_str());
    out.append(",\"NEEDS_WORK\":");
    out.append(i64_to_string(x.needs_work).as_str());
    out.append(",\"RECENTLY_OFFLOADED\":");
    out.append(i64_to_string(x.recently_offloaded).as_str());
    out.append(",\"UNCOMFORTABLE_RIDE\":");
    out.append(i64_to_string(x.uncomfortable_ride).as_str());
    out.append(",\"UNCOMFORTABLE_TEMPS\":");
    out.append(i64_to_string(x.uncomfortable_temps).as_str());
    out.append(",\"WRONG_DESTINATION\":");
    out.append(i64_to_string(x.wrong_destination).as_str());
    out.append(",\"WRONG_NUM_CARS\":");
    out.append(i64_to_string(x.wrong_num_cars).as_str());
    out.append("}");
    out
}

/// The JSON text of a `TrainTags`: its fields in a fixed order.
pub open spec fn spec_render_train_tags(x: TrainTagsV) -> Seq<char> {
    "{\"numTagsByType\":"@ + spec_render_num_train_tags_by_type(x.num_tags_by_type)
        + ",\"numPositiveTags\":"@ + spec_int_text(x.num_positive_tags as int)
        + ",\"numNegativeTags\":"@ + spec_int_text(x.num_negative_tags as int)
        + "}"@
}

/// Render a `TrainTags` to JSON text.
pub fn render_train_tags(x: &TrainTags) -> (r: String)
    ensures
        r@ == spec_render_train_tags(x@),
{
    let mut out = String::from_str("{\"numTagsByType\":");
    out.append(render_num_train_tags_by_type(&x.num_tags_by_type).as_str());
    out.append(",\"numPositiveTags\":");
    out.append(i64_to_string(x.num_positive_tags).as_str());
    out.append(",\"numNegativeTags\":");
    out.append(i64_to_string(x.num_negative_tags).as_str());
    out.append("}");
    out
}

/// The JSON text of the entries of a `TrainReports` object, comma separated,
/// in order.
pub open spec fn spec_render_train_reports_elems(s: Seq<(String, TrainTags)>) -> Seq<char>
    decreases s.len(),
{
    if s.len() == 0 {
        Seq::empty()
    } else if s.len() == 1 {
        spec_render_str(s[0].0@) + seq![':'] + spec_render_train_tags(s[0].1@)
    } else {
        spec_render_train_reports_elems(s.drop_last()) + seq![','] + spec_render_str(s.last().0@)
            + seq![':'] + spec_render_train_tags(s.last().1@)
    }
}

/// The JSON text of a `TrainReports` object.
pub open spec fn spec_render_train_reports(s: Seq<(String, TrainTags)>) -> Seq<char> {
    seq!['{'] + spec_render_train_reports_elems(s) + seq!['}']
}

/// Render a `TrainReports` to JSON text.
#[verifier::rlimit(100)]
pub fn render_train_reports(x: &TrainReports) -> (r: String)
    ensures
        r@ == spec_render_train_reports(x@),
{
    let ghost s = x@;
    proof { reveal_strlit("{"); assert("{"@ =~= seq!['{']); }
    proof { reveal_strlit("}"); assert("}"@ =~= seq!['}']); }
    proof { reveal_strlit(","); assert(","@ =~= seq![',']); }
    proof { reveal_strlit(":"); assert(":"@ =~= seq![':']); }
    let mut out = String::from_str("{");
    let n = x.len();
    let mut i: usize = 0;
    while i < n
        invariant
            0 <= i <= n,
            n == x@.len(),
            s == x@,
            out@ == seq!['{'] + spec_render_train_reports_elems(s.take(i as int)),
            ","@ =~= seq![','],
            ":"@ =~= seq![':'],
        decreases n - i,
    {
        if i > 0 {
            out.append(",");
        }
        let kv = &x[i];
        out.append(render_str_lit(kv.0.as_str()).as_str());
        out.append(":");
        out.append(render_train_tags(&kv.1).as_str());
        proof {
            assert(s.take(i as int + 1).drop_last() =~= s.take(i as int));
            assert(s.take(i as int + 1).last() == s[i as int]);
        }
        i += 1;
    }
    proof {
        assert(s.take(n as int) =~= s);
    }
    out.append("}");
    out
}

/// The JSON text of the entries of a `StationReports` object, comma separated,
/// in order.
pub open spec fn spec_render_station_reports_elems(s: Seq<(String, StationTags)>) -> Seq<char>
    decreases s.len(),
{
    if s.len() == 0 {
        Seq::empty()
    } else if s.len() == 1 {
        spec_render_str(s[0].0@) + seq![':'] + spec_render_station_tags(s[0].1@)
    } else {
        spec_render_station_reports_elems(s.drop_last()) + seq![','] + spec_render_str(s.last().0@)
            + seq![':'] + spec_render_station_tags(s.last().1@)
    }
}

/// The JSON text of a `StationReports` object.
pub open spec fn spec_render_station_reports(s: Seq<(String, StationTags)>) -> Seq<char> {
    seq!['{'] + spec_render_station_reports_elems(s) + seq!['}']
}

/// Render a `StationReports` to JSON text.
#[verifier::rlimit(100)]
pub fn render_station_reports(x: &StationReports) -> (r: String)
    ensures
        r@ == spec_render_station_reports(x@),
{
    let ghost s = x@;
    proof { reveal_strlit("{"); assert("{"@ =~= seq!['{']); }
    proof { reveal_strlit("}"); assert("}"@ =~= seq!['}']); }
    proof { reveal_strlit(","); assert(","@ =~= seq![',']); }
    proof { reveal_strlit(":"); assert(":"@ =~= seq![':']); }
    let mut out = String::from_str("{");
    let n = x.len();
    let mut i: usize = 0;
    while i < n
        invariant
            0 <= i <= n,
            n == x@.len(),
            s == x@,
            out@ == seq!['{'] + spec_render_station_reports_elems(s.take(i as int)),
            ","@ =~= seq![','],
            ":"@ =~= seq![':'],
        decreases n - i,
    {
        if i > 0 {
            out.append(",");
        }
        let kv = &x[i];
        out.append(render_str_lit(kv.0.as_str()).as_str());
        out.append(":");
        out.append(render_station_tags(&kv.1).as_str());
        proof {
            assert(s.take(i as int + 1).drop_last() =~= s.take(i as int));
            assert(s.take(i as int + 1).last() == s[i as int]);
        }
        i += 1;
    }
    proof {
        assert(s.take(n as int) =~= s);
    }
    out.append("}");
    out
}

/// The JSON text of the entries of a `TrainPredictions` object, comma separated,
/// in order.
pub open spec fn spec_render_train_predictions_elems(s: Seq<(String, Vec<TrainPrediction>)>) -> Seq<char>
    decreases s.len(),
{
    if s.len() == 0 {
        Seq::empty()
    } else if s.len() == 1 {
        spec_render_str(s[0].0@) + seq![':'] + spec_render_pred_arr(view_vec(s[0].1))
    } else {
        spec_render_train_predictions_elems(s.drop_last()) + seq![','] + spec_render_str(s.last().0@)
            + seq![':'] + spec_render_pred_arr(view_vec(s.last().1))
    }
}

/// The JSON text of a `TrainPredictions` object.
pub open spec fn spec_render_train_predictions(s: Seq<(String, Vec<TrainPrediction>)>) -> Seq<char> {
    seq!['{'] + spec_render_train_predictions_elems(s) + seq!['}']
}

/// Render a `TrainPredictions` to JSON text.
#[verifier::rlimit(100)]
pub fn render_train_predictions(x: &TrainPredictions) -> (r: String)
    ensures
        r@ == spec_render_train_predictions(x@),
{
    let ghost s = x@;
    proof { reveal_strlit("{"); assert("{"@ =~= seq!['{']); }
    proof { reveal_strlit("}"); assert("}"@ =~= seq!['}']); }
    proof { reveal_strlit(","); assert(","@ =~= seq![',']); }
    proof { reveal_strlit(":"); assert(":"@ =~= seq![':']); }
    let mut out = String::from_str("{");
    let n = x.len();
    let mut i: usize = 0;
    while i < n
        invariant
            0 <= i <= n,
            n == x@.len(),
            s == x@,
            out@ == seq!['{'] + spec_render_train_predictions_elems(s.take(i as int)),
            ","@ =~= seq![','],
            ":"@ =~= seq![':'],
        decreases n - i,
    {
        if i > 0 {
            out.append(",");
        }
        let kv = &x[i];
        out.append(render_str_lit(kv.0.as_str()).as_str());
        out.append(":");
        append_pred_arr(&mut out, &kv.1);
        proof {
            assert(s.take(i as int + 1).drop_last() =~= s.take(i as int));
            assert(s.take(i as int + 1).last() == s[i as int]);
        }
        i += 1;
    }
    proof {
        assert(s.take(n as int) =~= s);
    }
    out.append("}");
    out
}

impl TripInfo {
    /// Render this value to the JSON text its specification prescribes.
    pub fn to_json_string(&self) -> (r: String)
        ensures
            r@ == spec_render_trip_info(self@),
    {
        render_trip_info(self)
    }
}

impl StationTags {
    /// Render this value to the JSON text its specification prescribes.
    pub fn to_json_string(&self) -> (r: String)
        ensures
            r@ == spec_render_station_tags(self@),
    {
        render_station_tags(self)
    }
}

impl TrainTags {
    /// Render this value to the JSON text its specification prescribes.
    pub fn to_json_string(&self) -> (r: String)
        ensures
            r@ == spec_render_train_tags(self@),
    {
        render_train_tags(self)
    }
}

impl SystemMetricsResponse {
    /// Render this value to the JSON text its specification prescribes.
    pub fn to_json_string(&self) -> (r: String)
        ensures
            r@ == spec_render_system_metrics_response(self@),
    {
        render_system_metrics_response(self)
    }
}

impl Tweet {
    /// Render a list of these values to a JSON array, in order.
    pub fn vec_to_json_string(v: &Vec<Tweet>) -> (r: String)
        ensures
            r@ == spec_render_tweet_arr(view_vec(*v)),
    {
        let mut out = String::new();
        append_tweet_arr(&mut out, v);
        out
    }
}

impl TrainPrediction {
    /// Render a list of these values to a JSON array, in order.
    pub fn vec_to_json_string(v: &Vec<TrainPrediction>) -> (r: String)
        ensures
            r@ == spec_render_pred_arr(view_vec(*v)),
    {
        let mut out = String::new();
        append_pred_arr(&mut out, v);
        out
    }
}

/// Render a `TrainReports` to a JSON object.
pub fn train_reports_to_json_string(x: &TrainReports) -> (r: String)
    ensures
        r@ == spec_render_train_reports(x@),
{
    render_train_reports(x)
}

/// Render a `StationReports` to a JSON object.
pub fn station_reports_to_json_string(x: &StationReports) -> (r: String)
    ensures
        r@ == spec_render_station_reports(x@),
{
    render_station_reports(x)
}

/// Render a `TrainPredictions` to a JSON object.
pub fn train_predictions_to_json_string(x: &TrainPredictions) -> (r: String)
    ensures
        r@ == spec_render_train_predictions(x@),
{
    render_train_predictions(x)
}

} // verus!
