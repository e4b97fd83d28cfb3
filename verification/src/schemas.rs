//! Schemas describing data returned by the MetroHero API, with the
//! mathematical view of each type that the parsing and rendering contracts
//! speak of.
//!
//! Numeric fields that the upstream reports as non-integral numbers are
//! carried as the canonical decimal text of the number, so that a payload
//! can be read and written back without loss.
use vstd::prelude::*;
use vstd::string::*;

use crate::lines::LineCode;
use crate::stations::StationCode;
use crate::strutil::{spec_str_contains, str_contains};

verus! {

/// Train reports for all trains, as pairs of train id and report tags.
pub type TrainReports = Vec<(String, TrainTags)>;

/// Train predictions for the entire Metrorail system, as pairs of station
/// id and that station's predictions.
pub type TrainPredictions = Vec<(String, Vec<TrainPrediction>)>;

/// Station reports for the entire Metrorail system, as pairs of station id
/// and that station's report tags.
pub type StationReports = Vec<(String, StationTags)>;

/// The view of an optional owned string.
pub open spec fn view_opt_string(o: Option<String>) -> Option<Seq<char>> {
    match o {
        Some(s) => Some(s@),
        None => None,
    }
}

/// The view of a vector of owned strings.
pub open spec fn view_vec_string(v: Vec<String>) -> Seq<Seq<char>> {
    v@.map(|i: int, s: String| s@)
}

/// The element-wise view of a vector.
pub open spec fn view_vec<T: View>(v: Vec<T>) -> Seq<T::V> {
    v@.map(|i: int, t: T| t@)
}

/// The view of an optional value.
pub open spec fn view_opt<T: View>(o: Option<T>) -> Option<T::V> {
    match o {
        Some(t) => Some(t@),
        None => None,
    }
}

/// The element-wise view of an optional vector.
pub open spec fn view_opt_vec<T: View>(o: Option<Vec<T>>) -> Option<Seq<T::V>> {
    match o {
        Some(v) => Some(view_vec(v)),
        None => None,
    }
}

/// The view of an optional vector of owned strings.
pub open spec fn view_opt_vec_string(o: Option<Vec<String>>) -> Option<Seq<Seq<char>>> {
    match o {
        Some(v) => Some(view_vec_string(v)),
        None => None,
    }
}

/// A truncated tweet returned as a child of a train prediction.
#[derive(Debug, Clone)]
pub struct AbridgedTweet {
    pub twitter_id: i64,
    pub twitter_id_string: String,
    pub user_id: i64,
    pub timestamp: i64,
    pub text: String,
}

/// The mathematical view of [`AbridgedTweet`].
pub struct AbridgedTweetV {
    pub twitter_id: i64,
    pub twitter_id_string: Seq<char>,
    pub user_id: i64,
    pub timestamp: i64,
    pub text: Seq<char>,
}

impl View for AbridgedTweet {
    type V = AbridgedTweetV;

    open spec fn view(&self) -> AbridgedTweetV {
        AbridgedTweetV {
            twitter_id: self.twitter_id,
            twitter_id_string: self.twitter_id_string@,
            user_id: self.user_id,
            timestamp: self.timestamp,
            text: self.text@,
        }
    }
}

/// Recent tweets about a specific train.
#[derive(Debug, Clone)]
pub struct RecentTweets {
    pub keywords: String,
    pub tweets: Vec<AbridgedTweet>,
}

/// The mathematical view of [`RecentTweets`].
pub struct RecentTweetsV {
    pub keywords: Seq<char>,
    pub tweets: Seq<AbridgedTweetV>,
}

impl View for RecentTweets {
    type V = RecentTweetsV;

    open spec fn view(&self) -> RecentTweetsV {
        RecentTweetsV {
            keywords: self.keywords@,
            tweets: view_vec(self.tweets),
        }
    }
}

/// A tweet referencing a Metrorail station, line, or train.
#[derive(Debug, Clone)]
pub struct Tweet {
    pub twitter_id: i64,
    pub twitter_id_string: String,
    pub user_id: i64,
    pub text: String,
    pub station_codes: Vec<StationCode>,
    pub line_codes: Vec<LineCode>,
    pub keywords: Vec<String>,
    pub url: String,
    pub date: String,
}

/// The mathematical view of [`Tweet`].
pub struct TweetV {
    pub twitter_id: i64,
    pub twitter_id_string: Seq<char>,
    pub user_id: i64,
    pub text: Seq<char>,
    pub station_codes: Seq<StationCode>,
    pub line_codes: Seq<LineCode>,
    pub keywords: Seq<Seq<char>>,
    pub url: Seq<char>,
    pub date: Seq<char>,
}

impl View for Tweet {
    type V = TweetV;

    open spec fn view(&self) -> TweetV {
        TweetV {
            twitter_id: self.twitter_id,
            twitter_id_string: self.twitter_id_string@,
            user_id: self.user_id,
            text: self.text@,
            station_codes: self.station_codes@,
            line_codes: self.line_codes@,
            keywords: view_vec_string(self.keywords),
            url: self.url@,
            date: self.date@,
        }
    }
}

/// An alert issued by WMATA.
#[derive(Debug, Clone)]
pub struct MetroAlert {
    pub description: String,
    pub station_codes: Vec<StationCode>,
    pub line_codes: Vec<LineCode>,
    pub keywords: Vec<String>,
    pub date: String,
}

/// The mathematical view of [`MetroAlert`].
pub struct MetroAlertV {
    pub description: Seq<char>,
    pub station_codes: Seq<StationCode>,
    pub line_codes: Seq<LineCode>,
    pub keywords: Seq<Seq<char>>,
    pub date: Seq<char>,
}

impl View for MetroAlert {
    type V = MetroAlertV;

    open spec fn view(&self) -> MetroAlertV {
        MetroAlertV {
            description: self.description@,
            station_codes: self.station_codes@,
            line_codes: self.line_codes@,
            keywords: view_vec_string(self.keywords),
            date: self.date@,
        }
    }
}

/// An escalator or elevator outage reported by WMATA.
#[derive(Debug, Clone)]
pub struct ElevatorEscalatorOutage {
    pub station_code: StationCode,
    pub station_name: String,
    pub location_description: String,
    pub symptom_description: String,
    pub unit_name: String,
    pub unit_type: String,
    pub out_of_service_date: String,
    pub updated_date: String,
    pub estimated_return_to_service_date: String,
}

/// The mathematical view of [`ElevatorEscalatorOutage`].
pub struct ElevatorEscalatorOutageV {
    pub station_code: StationCode,
    pub station_name: Seq<char>,
    pub location_description: Seq<char>,
    pub symptom_description: Seq<char>,
    pub unit_name: Seq<char>,
    pub unit_type: Seq<char>,
    pub out_of_service_date: Seq<char>,
    pub updated_date: Seq<char>,
    pub estimated_return_to_service_date: Seq<char>,
}

impl View for ElevatorEscalatorOutage {
    type V = ElevatorEscalatorOutageV;

    open spec fn view(&self) -> ElevatorEscalatorOutageV {
        ElevatorEscalatorOutageV {
            station_code: self.station_code,
            station_name: self.station_name@,
            location_description: self.location_description@,
            symptom_description: self.symptom_description@,
            unit_name: self.unit_name@,
            unit_type: self.unit_type@,
            out_of_service_date: self.out_of_service_date@,
            updated_date: self.updated_date@,
            estimated_return_to_service_date: self.estimated_return_to_service_date@,
        }
    }
}

/// Predicted arrival information about a Metrorail train.
#[derive(Debug, Clone)]
pub struct TrainPrediction {
    pub train_id: String,
    pub real_train_id: Option<String>,
    pub car: String,
    pub destination: String,
    pub destination_code: Option<StationCode>,
    pub destination_name: String,
    pub group: String,
    pub line: LineCode,
    pub location_code: Option<StationCode>,
    pub location_name: Option<String>,
    pub min: String,
    pub parent_min: Option<String>,
    pub minutes_away: Option<String>,
    pub max_minutes_away: Option<String>,
    pub direction_number: i64,
    pub is_scheduled: bool,
    pub num_positive_tags: i64,
    pub num_negative_tags: i64,
    pub track_number: i64,
    pub current_station_code: StationCode,
    pub current_station_name: String,
    pub previous_station_code: Option<StationCode>,
    pub previous_station_name: Option<String>,
    pub seconds_since_last_moved: i64,
    pub is_currently_holding_or_slow: bool,
    pub seconds_off_schedule: i64,
    pub train_speed: Option<i64>,
    pub is_not_on_revenue_track: bool,
    pub is_keyed_down: bool,
    pub was_keyed_down: bool,
    pub distance_from_next_station: Option<i64>,
    pub lat: Option<String>,
    pub lon: Option<String>,
    pub direction: Option<i64>,
    pub are_doors_open_on_left: Option<bool>,
    pub are_doors_open_on_right: Option<bool>,
    pub observed_date: String,
    pub recent_tweets: Option<RecentTweets>,
}

/// The mathematical view of [`TrainPrediction`].
pub struct TrainPredictionV {
    pub train_id: Seq<char>,
    pub real_train_id: Option<Seq<char>>,
    pub car: Seq<char>,
    pub destination: Seq<char>,
    pub destination_code: Option<StationCode>,
    pub destination_name: Seq<char>,
    pub group: Seq<char>,
    pub line: LineCode,
    pub location_code: Option<StationCode>,
    pub location_name: Option<Seq<char>>,
    pub min: Seq<char>,
    pub parent_min: Option<Seq<char>>,
    pub minutes_away: Option<Seq<char>>,
    pub max_minutes_away: Option<Seq<char>>,
    pub direction_number: i64,
    pub is_scheduled: bool,
    pub num_positive_tags: i64,
    pub num_negative_tags: i64,
    pub track_number: i64,
    pub current_station_code: StationCode,
    pub current_station_name: Seq<char>,
    pub previous_station_code: Option<StationCode>,
    pub previous_station_name: Option<Seq<char>>,
    pub seconds_since_last_moved: i64,
    pub is_currently_holding_or_slow: bool,
    pub seconds_off_schedule: i64,
    pub train_speed: Option<i64>,
    pub is_not_on_revenue_track: bool,
    pub is_keyed_down: bool,
    pub was_keyed_down: bool,
    pub distance_from_next_station: Option<i64>,
    pub lat: Option<Seq<char>>,
    pub lon: Option<Seq<char>>,
    pub direction: Option<i64>,
    pub are_doors_open_on_left: Option<bool>,
    pub are_doors_open_on_right: Option<bool>,
    pub observed_date: Seq<char>,
    pub recent_tweets: Option<RecentTweetsV>,
}

impl View for TrainPrediction {
    type V = TrainPredictionV;

    open spec fn view(&self) -> TrainPredictionV {
        TrainPredictionV {
            train_id: self.train_id@,
            real_train_id: view_opt_string(self.real_train_id),
            car: self.car@,
            destination: self.destination@,
            destination_code: self.destination_code,
            destination_name: self.destination_name@,
            group: self.group@,
            line: self.line,
            location_code: self.location_code,
            location_name: view_opt_string(self.location_name),
            min: self.min@,
            parent_min: view_opt_string(self.parent_min),
            minutes_away: view_opt_string(self.minutes_away),
            max_minutes_away: view_opt_string(self.max_minutes_away),
            direction_number: self.direction_number,
            is_scheduled: self.is_scheduled,
            num_positive_tags: self.num_positive_tags,
            num_negative_tags: self.num_negative_tags,
            track_number: self.track_number,
            current_station_code: self.current_station_code,
            current_station_name: self.current_station_name@,
            previous_station_code: self.previous_station_code,
            previous_station_name: view_opt_string(self.previous_station_name),
            seconds_since_last_moved: self.seconds_since_last_moved,
            is_currently_holding_or_slow: self.is_currently_holding_or_slow,
            seconds_off_schedule: self.seconds_off_schedule,
            train_speed: self.train_speed,
            is_not_on_revenue_track: self.is_not_on_revenue_track,
            is_keyed_down: self.is_keyed_down,
            was_keyed_down: self.was_keyed_down,
            distance_from_next_station: self.distance_from_next_station,
            lat: view_opt_string(self.lat),
            lon: view_opt_string(self.lon),
            direction: self.direction,
            are_doors_open_on_left: self.are_doors_open_on_left,
            are_doors_open_on_right: self.are_doors_open_on_right,
            observed_date: self.observed_date@,
            recent_tweets: view_opt(self.recent_tweets),
        }
    }
}

/// Travel information about a trip between two Metrorail stations.
#[derive(Debug, Clone)]
pub struct TripInfo {
    pub from_station_name: String,
    pub from_station_code: StationCode,
    pub to_station_name: String,
    pub to_station_code: StationCode,
    pub trip_station_codes: Vec<StationCode>,
    pub line_codes: Vec<LineCode>,
    pub expected_ride_time: String,
    pub predicted_ride_time: String,
    pub time_since_last_train: String,
    pub from_station_train_statuses: Vec<TrainPrediction>,
    pub date: String,
    pub time_until_next_train: Option<String>,
    pub metro_alerts: Option<Vec<MetroAlert>>,
    pub metro_alert_keywords: Option<Vec<String>>,
    pub tweets: Option<Vec<Tweet>>,
    pub tweet_keywords: Option<Vec<String>>,
    pub from_station_elevator_outages: Option<Vec<ElevatorEscalatorOutage>>,
    pub from_station_escalator_outages: Option<Vec<ElevatorEscalatorOutage>>,
    pub to_station_elevator_outages: Option<Vec<ElevatorEscalatorOutage>>,
    pub to_station_escalator_outages: Option<Vec<ElevatorEscalatorOutage>>,
}

/// The mathematical view of [`TripInfo`].
pub struct TripInfoV {
    pub from_station_name: Seq<char>,
    pub from_station_code: StationCode,
    pub to_station_name: Seq<char>,
    pub to_station_code: StationCode,
    pub trip_station_codes: Seq<StationCode>,
    pub line_codes: Seq<LineCode>,
    pub expected_ride_time: Seq<char>,
    pub predicted_ride_time: Seq<char>,
    pub time_since_last_train: Seq<char>,
    pub from_station_train_statuses: Seq<TrainPredictionV>,
    pub date: Seq<char>,
    pub time_until_next_train: Option<Seq<char>>,
    pub metro_alerts: Option<Seq<MetroAlertV>>,
    pub metro_alert_keywords: Option<Seq<Seq<char>>>,
    pub tweets: Option<Seq<TweetV>>,
    pub tweet_keywords: Option<Seq<Seq<char>>>,
    pub from_station_elevator_outages: Option<Seq<ElevatorEscalatorOutageV>>,
    pub from_station_escalator_outages: Option<Seq<ElevatorEscalatorOutageV>>,
    pub to_station_elevator_outages: Option<Seq<ElevatorEscalatorOutageV>>,
    pub to_station_escalator_outages: Option<Seq<ElevatorEscalatorOutageV>>,
}

impl View for TripInfo {
    type V = TripInfoV;

    open spec fn view(&self) -> TripInfoV {
        TripInfoV {
            from_station_name: self.from_station_name@,
            from_station_code: self.from_station_code,
            to_station_name: self.to_station_name@,
            to_station_code: self.to_station_code,
            trip_station_codes: self.trip_station_codes@,
            line_codes: self.line_codes@,
            expected_ride_time: self.expected_ride_time@,
            predicted_ride_time: self.predicted_ride_time@,
            time_since_last_train: self.time_since_last_train@,
            from_station_train_statuses: view_vec(self.from_station_train_statuses),
            date: self.date@,
            time_until_next_train: view_opt_string(self.time_until_next_train),
            metro_alerts: view_opt_vec(self.metro_alerts),
            metro_alert_keywords: view_opt_vec_string(self.metro_alert_keywords),
            tweets: view_opt_vec(self.tweets),
            tweet_keywords: view_opt_vec_string(self.tweet_keywords),
            from_station_elevator_outages: view_opt_vec(self.from_station_elevator_outages),
            from_station_escalator_outages: view_opt_vec(self.from_station_escalator_outages),
            to_station_elevator_outages: view_opt_vec(self.to_station_elevator_outages),
            to_station_escalator_outages: view_opt_vec(self.to_station_escalator_outages),
        }
    }
}

/// Service disruption information for a given Metrorail line and direction.
#[derive(Debug, Clone)]
pub struct ServiceGaps {
    pub line_code: LineCode,
    pub direction_number: i64,
    pub direction: String,
    pub from_station_code: StationCode,
    pub from_station_name: String,
    pub to_station_code: StationCode,
    pub to_station_name: String,
    pub from_train_id: String,
    pub to_train_id: String,
    pub time_between_trains: String,
    pub scheduled_time_between_trains: String,
    pub observed_date: String,
}

/// The mathematical view of [`ServiceGaps`].
pub struct ServiceGapsV {
    pub line_code: LineCode,
    pub direction_number: i64,
    pub direction: Seq<char>,
    pub from_station_code: StationCode,
    pub from_station_name: Seq<char>,
    pub to_station_code: StationCode,
    pub to_station_name: Seq<char>,
    pub from_train_id: Seq<char>,
    pub to_train_id: Seq<char>,
    pub time_between_trains: Seq<char>,
    pub scheduled_time_between_trains: Seq<char>,
    pub observed_date: Seq<char>,
}

impl View for ServiceGaps {
    type V = ServiceGapsV;

    open spec fn view(&self) -> ServiceGapsV {
        ServiceGapsV {
            line_code: self.line_code,
            direction_number: self.direction_number,
            direction: self.direction@,
            from_station_code: self.from_station_code,
            from_station_name: self.from_station_name@,
            to_station_code: self.to_station_code,
            to_station_name: self.to_station_name@,
            from_train_id: self.from_train_id@,
            to_train_id: self.to_train_id@,
            time_between_trains: self.time_between_trains@,
            scheduled_time_between_trains: self.scheduled_time_between_trains@,
            observed_date: self.observed_date@,
        }
    }
}

/// Metrics for a specific line and direction of travel.
#[derive(Debug, Clone)]
pub struct DirectionMetrics {
    pub line_code: LineCode,
    pub direction_number: i64,
    pub direction: String,
    pub towards_station_name: String,
    pub date: String,
    pub num_trains: i64,
    pub num_cars: i64,
    pub num_eight_car_trains: i64,
    pub num_delayed_trains: i64,
    pub expected_num_trains: i64,
    pub average_train_delay: Option<i64>,
    pub median_train_delay: Option<i64>,
    pub minimum_train_delay: Option<i64>,
    pub maximum_train_delay: Option<i64>,
    pub average_minimum_headways: Option<String>,
    pub average_train_frequency: Option<String>,
    pub expected_train_frequency: Option<String>,
    pub average_platform_wait_time: Option<String>,
    pub expected_platform_wait_time: Option<String>,
    pub train_frequency_status: Option<String>,
    pub platform_wait_time_trend_status: Option<String>,
    pub average_headway_adherence: Option<String>,
    pub average_schedule_adherence: Option<String>,
    pub standard_deviation_train_frequency: Option<String>,
    pub expected_standard_deviation_train_frequency: Option<String>,
}

/// The mathematical view of [`DirectionMetrics`].
pub struct DirectionMetricsV {
    pub line_code: LineCode,
    pub direction_number: i64,
    pub direction: Seq<char>,
    pub towards_station_name: Seq<char>,
    pub date: Seq<char>,
    pub num_trains: i64,
    pub num_cars: i64,
    pub num_eight_car_trains: i64,
    pub num_delayed_trains: i64,
    pub expected_num_trains: i64,
    pub average_train_delay: Option<i64>,
    pub median_train_delay: Option<i64>,
    pub minimum_train_delay: Option<i64>,
    pub maximum_train_delay: Option<i64>,
    pub average_minimum_headways: Option<Seq<char>>,
    pub average_train_frequency: Option<Seq<char>>,
    pub expected_train_frequency: Option<Seq<char>>,
    pub average_platform_wait_time: Option<Seq<char>>,
    pub expected_platform_wait_time: Option<Seq<char>>,
    pub train_frequency_status: Option<Seq<char>>,
    pub platform_wait_time_trend_status: Option<Seq<char>>,
    pub average_headway_adherence: Option<Seq<char>>,
    pub average_schedule_adherence: Option<Seq<char>>,
    pub standard_deviation_train_frequency: Option<Seq<char>>,
    pub expected_standard_deviation_train_frequency: Option<Seq<char>>,
}

impl View for DirectionMetrics {
    type V = DirectionMetricsV;

    open spec fn view(&self) -> DirectionMetricsV {
        DirectionMetricsV {
            line_code: self.line_code,
            direction_number: self.direction_number,
            direction: self.direction@,
            towards_station_name: self.towards_station_name@,
            date: self.date@,
            num_trains: self.num_trains,
            num_cars: self.num_cars,
            num_eight_car_trains: self.num_eight_car_trains,
            num_delayed_trains: self.num_delayed_trains,
            expected_num_trains: self.expected_num_trains,
            average_train_delay: self.average_train_delay,
            median_train_delay: self.median_train_delay,
            minimum_train_delay: self.minimum_train_delay,
            maximum_train_delay: self.maximum_train_delay,
            average_minimum_headways: view_opt_string(self.average_minimum_headways),
            average_train_frequency: view_opt_string(self.average_train_frequency),
            expected_train_frequency: view_opt_string(self.expected_train_frequency),
            average_platform_wait_time: view_opt_string(self.average_platform_wait_time),
            expected_platform_wait_time: view_opt_string(self.expected_platform_wait_time),
            train_frequency_status: view_opt_string(self.train_frequency_status),
            platform_wait_time_trend_status: view_opt_string(self.platform_wait_time_trend_status),
            average_headway_adherence: view_opt_string(self.average_headway_adherence),
            average_schedule_adherence: view_opt_string(self.average_schedule_adherence),
            standard_deviation_train_frequency: view_opt_string(self.standard_deviation_train_frequency),
            expected_standard_deviation_train_frequency: view_opt_string(self.expected_standard_deviation_train_frequency),
        }
    }
}

/// Per-direction metrics for a Metrorail line.
#[derive(Debug, Clone)]
pub struct DirectionMetricsByDirection {
    pub d1: DirectionMetrics,
    pub d2: DirectionMetrics,
}

/// The mathematical view of [`DirectionMetricsByDirection`].
pub struct DirectionMetricsByDirectionV {
    pub d1: DirectionMetricsV,
    pub d2: DirectionMetricsV,
}

impl View for DirectionMetricsByDirection {
    type V = DirectionMetricsByDirectionV;

    open spec fn view(&self) -> DirectionMetricsByDirectionV {
        DirectionMetricsByDirectionV {
            d1: self.d1@,
            d2: self.d2@,
        }
    }
}

/// Metrics for a specific Metrorail line.
#[derive(Debug, Clone)]
pub struct LineMetrics {
    pub line_code: LineCode,
    pub service_gaps: Vec<ServiceGaps>,
    pub direction_metrics_by_direction: DirectionMetricsByDirection,
    pub date: String,
    pub num_trains: i64,
    pub num_cars: i64,
    pub num_eight_car_trains: i64,
    pub num_delayed_trains: i64,
    pub expected_num_trains: i64,
    pub average_train_delay: Option<i64>,
    pub median_train_delay: Option<i64>,
    pub minimum_train_delay: Option<i64>,
    pub maximum_train_delay: Option<i64>,
    pub average_minimum_headways: Option<String>,
    pub average_train_frequency: Option<String>,
    pub expected_train_frequency: Option<String>,
    pub average_platform_wait_time: Option<String>,
    pub expected_platform_wait_time: Option<String>,
    pub train_frequency_status: Option<String>,
    pub platform_wait_time_trend_status: Option<String>,
    pub average_headway_adherence: Option<String>,
    pub average_schedule_adherence: Option<String>,
    pub standard_deviation_train_frequency: Option<String>,
    pub expected_standard_deviation_train_frequency: Option<String>,
}

/// The mathematical view of [`LineMetrics`].
pub struct LineMetricsV {
    pub line_code: LineCode,
    pub service_gaps: Seq<ServiceGapsV>,
    pub direction_metrics_by_direction: DirectionMetricsByDirectionV,
    pub date: Seq<char>,
    pub num_trains: i64,
    pub num_cars: i64,
    pub num_eight_car_trains: i64,
    pub num_delayed_trains: i64,
    pub expected_num_trains: i64,
    pub average_train_delay: Option<i64>,
    pub median_train_delay: Option<i64>,
    pub minimum_train_delay: Option<i64>,
    pub maximum_train_delay: Option<i64>,
    pub average_minimum_headways: Option<Seq<char>>,
    pub average_train_frequency: Option<Seq<char>>,
    pub expected_train_frequency: Option<Seq<char>>,
    pub average_platform_wait_time: Option<Seq<char>>,
    pub expected_platform_wait_time: Option<Seq<char>>,
    pub train_frequency_status: Option<Seq<char>>,
    pub platform_wait_time_trend_status: Option<Seq<char>>,
    pub average_headway_adherence: Option<Seq<char>>,
    pub average_schedule_adherence: Option<Seq<char>>,
    pub standard_deviation_train_frequency: Option<Seq<char>>,
    pub expected_standard_deviation_train_frequency: Option<Seq<char>>,
}

impl View for LineMetrics {
    type V = LineMetricsV;

    open spec fn view(&self) -> LineMetricsV {
        LineMetricsV {
            line_code: self.line_code,
            service_gaps: view_vec(self.service_gaps),
            direction_metrics_by_direction: self.direction_metrics_by_direction@,
            date: self.date@,
            num_trains: self.num_trains,
            num_cars: self.num_cars,
            num_eight_car_trains: self.num_eight_car_trains,
            num_delayed_trains: self.num_delayed_trains,
            expected_num_trains: self.expected_num_trains,
            average_train_delay: self.average_train_delay,
            median_train_delay: self.median_train_delay,
            minimum_train_delay: self.minimum_train_delay,
            maximum_train_delay: self.maximum_train_delay,
            average_minimum_headways: view_opt_string(self.average_minimum_headways),
            average_train_frequency: view_opt_string(self.average_train_frequency),
            expected_train_frequency: view_opt_string(self.expected_train_frequency),
            average_platform_wait_time: view_opt_string(self.average_platform_wait_time),
            expected_platform_wait_time: view_opt_string(self.expected_platform_wait_time),
            train_frequency_status: view_opt_string(self.train_frequency_status),
            platform_wait_time_trend_status: view_opt_string(self.platform_wait_time_trend_status),
            average_headway_adherence: view_opt_string(self.average_headway_adherence),
            average_schedule_adherence: view_opt_string(self.average_schedule_adherence),
            standard_deviation_train_frequency: view_opt_string(self.standard_deviation_train_frequency),
            expected_standard_deviation_train_frequency: view_opt_string(self.expected_standard_deviation_train_frequency),
        }
    }
}

/// Line-specific metrics by line code.
#[derive(Debug, Clone)]
pub struct SystemMetrics {
    pub rd: LineMetrics,
    pub or: LineMetrics,
    pub sv: LineMetrics,
    pub bl: LineMetrics,
    pub yl: LineMetrics,
    pub gr: LineMetrics,
}

/// The mathematical view of [`SystemMetrics`].
pub struct SystemMetricsV {
    pub rd: LineMetricsV,
    pub or: LineMetricsV,
    pub sv: LineMetricsV,
    pub bl: LineMetricsV,
    pub yl: LineMetricsV,
    pub gr: LineMetricsV,
}

impl View for SystemMetrics {
    type V = SystemMetricsV;

    open spec fn view(&self) -> SystemMetricsV {
        SystemMetricsV {
            rd: self.rd@,
            or: self.or@,
            sv: self.sv@,
            bl: self.bl@,
            yl: self.yl@,
            gr: self.gr@,
        }
    }
}

/// Performance metrics for the overall Metrorail system.
#[derive(Debug, Clone)]
pub struct SystemMetricsResponse {
    pub line_metrics_by_line: SystemMetrics,
    pub date: String,
}

/// The mathematical view of [`SystemMetricsResponse`].
pub struct SystemMetricsResponseV {
    pub line_metrics_by_line: SystemMetricsV,
    pub date: Seq<char>,
}

impl View for SystemMetricsResponse {
    type V = SystemMetricsResponseV;

    open spec fn view(&self) -> SystemMetricsResponseV {
        SystemMetricsResponseV {
            line_metrics_by_line: self.line_metrics_by_line@,
            date: self.date@,
        }
    }
}

/// Counts of rider reports about a Metrorail station, by category.
#[derive(Debug, Clone)]
pub struct NumStationTagsByType {
    pub friendly_or_helpful_staff: i64,
    pub uncomfortable_temps: i64,
    pub ample_security: i64,
    pub broken_elevator: i64,
    pub broken_escalator: i64,
    pub crowded: i64,
    pub empty: i64,
    pub free_hand_sanitizer_available: i64,
    pub free_masks_available: i64,
    pub long_waiting_time: i64,
    pub needs_work: i64,
    pub no_free_hand_sanitizer: i64,
    pub no_free_masks: i64,
    pub posted_times_inaccurate: i64,
    pub smoke_or_fire: i64,
    pub unfriendly_or_unhelpful_staff: i64,
}

/// The mathematical view of [`NumStationTagsByType`].
pub struct NumStationTagsByTypeV {
    pub friendly_or_helpful_staff: i64,
    pub uncomfortable_temps: i64,
    pub ample_security: i64,
    pub broken_elevator: i64,
    pub broken_escalator: i64,
    pub crowded: i64,
    pub empty: i64,
    pub free_hand_sanitizer_available: i64,
    pub free_masks_available: i64,
    pub long_waiting_time: i64,
    pub needs_work: i64,
    pub no_free_hand_sanitizer: i64,
    pub no_free_masks: i64,
    pub posted_times_inaccurate: i64,
    pub smoke_or_fire: i64,
    pub unfriendly_or_unhelpful_staff: i64,
}

impl View for NumStationTagsByType {
    type V = NumStationTagsByTypeV;

    open spec fn view(&self) -> NumStationTagsByTypeV {
        NumStationTagsByTypeV {
            friendly_or_helpful_staff: self.friendly_or_helpful_staff,
            uncomfortable_temps: self.uncomfortable_temps,
            ample_security: self.ample_security,
            broken_elevator: self.broken_elevator,
            broken_escalator: self.broken_escalator,
            crowded: self.crowded,
            empty: self.empty,
            free_hand_sanitizer_available: self.free_hand_sanitizer_available,
            free_masks_available: self.free_masks_available,
            long_waiting_time: self.long_waiting_time,
            needs_work: self.needs_work,
            no_free_hand_sanitizer: self.no_free_hand_sanitizer,
            no_free_masks: self.no_free_masks,
            posted_times_inaccurate: self.posted_times_inaccurate,
            smoke_or_fire: self.smoke_or_fire,
            unfriendly_or_unhelpful_staff: self.unfriendly_or_unhelpful_staff,
        }
    }
}

/// Rider-reported information about a Metrorail station.
#[derive(Debug, Clone)]
pub struct StationTags {
    pub num_tags_by_type: NumStationTagsByType,
    pub num_positive_tags: i64,
    pub num_negative_tags: i64,
}

/// The mathematical view of [`StationTags`].
pub struct StationTagsV {
    pub num_tags_by_type: NumStationTagsByTypeV,
    pub num_positive_tags: i64,
    pub num_negative_tags: i64,
}

impl View for StationTags {
    type V = StationTagsV;

    open spec fn view(&self) -> StationTagsV {
        StationTagsV {
            num_tags_by_type: self.num_tags_by_type@,
            num_positive_tags: self.num_positive_tags,
            num_negative_tags: self.num_negative_tags,
        }
    }
}

/// Counts of rider reports about a Metrorail train, by category.
#[derive(Debug, Clone)]
pub struct NumTrainTagsByType {
    pub bad_operator: i64,
    pub isolated_cars: i64,
    pub new_train: i64,
    pub broken_intercom: i64,
    pub crowded: i64,
    pub disruptive_passenger: i64,
    pub empty: i64,
    pub good_operator: i64,
    pub good_ride: i64,
    pub needs_work: i64,
    pub recently_offloaded: i64,
    pub uncomfortable_ride: i64,
    pub uncomfortable_temps: i64,
    pub wrong_destination: i64,
    pub wrong_num_cars: i64,
}

/// The mathematical view of [`NumTrainTagsByType`].
pub struct NumTrainTagsByTypeV {
    pub bad_operator: i64,
    pub isolated_cars: i64,
    pub new_train: i64,
    pub broken_intercom: i64,
    pub crowded: i64,
    pub disruptive_passenger: i64,
    pub empty: i64,
    pub good_operator: i64,
    pub good_ride: i64,
    pub needs_work: i64,
    pub recently_offloaded: i64,
    pub uncomfortable_ride: i64,
    pub uncomfortable_temps: i64,
    pub wrong_destination: i64,
    pub wrong_num_cars: i64,
}

impl View for NumTrainTagsByType {
    type V = NumTrainTagsByTypeV;

    open spec fn view(&self) -> NumTrainTagsByTypeV {
        NumTrainTagsByTypeV {
            bad_operator: self.bad_operator,
            isolated_cars: self.isolated_cars,
            new_train: self.new_train,
            broken_intercom: self.broken_intercom,
            crowded: self.crowded,
            disruptive_passenger: self.disruptive_passenger,
            empty: self.empty,
            good_operator: self.good_operator,
            good_ride: self.good_ride,
            needs_work: self.needs_work,
            recently_offloaded: self.recently_offloaded,
            uncomfortable_ride: self.uncomfortable_ride,
            uncomfortable_temps: self.uncomfortable_temps,
            wrong_destination: self.wrong_destination,
            wrong_num_cars: self.wrong_num_cars,
        }
    }
}

/// Rider-reported information about a Metrorail train.
#[derive(Debug, Clone)]
pub struct TrainTags {
    pub num_tags_by_type: NumTrainTagsByType,
    pub num_positive_tags: i64,
    pub num_negative_tags: i64,
}

/// The mathematical view of [`TrainTags`].
pub struct TrainTagsV {
    pub num_tags_by_type: NumTrainTagsByTypeV,
    pub num_positive_tags: i64,
    pub num_negative_tags: i64,
}

impl View for TrainTags {
    type V = TrainTagsV;

    open spec fn view(&self) -> TrainTagsV {
        TrainTagsV {
            num_tags_by_type: self.num_tags_by_type@,
            num_positive_tags: self.num_positive_tags,
            num_negative_tags: self.num_negative_tags,
        }
    }
}

impl TrainPrediction {
    /// Whether a raw ETA token is one of the sentinel forms (an arriving,
    /// boarding, or indeterminate train) rather than a minute count.
    pub open spec fn spec_is_sentinel_eta(s: Seq<char>) -> bool {
        ||| spec_str_contains(s, "ARR"@)
        ||| spec_str_contains(s, "BRD"@)
        ||| spec_str_contains(s, "?"@)
        ||| spec_str_contains(s, ":"@)
    }

    /// For a given train ETA token, render a more legible version: a minute
    /// count gets an `m` suffix, while the sentinel forms for arriving or
    /// boarding trains are kept exactly as the upstream sent them.
    pub fn eta_minutes(&self) -> (r: String)
        ensures
            r@ == if TrainPrediction::spec_is_sentinel_eta(self.min@) {
                self.min@
            } else {
                self.min@ + "m"@
            },
    {
        let mut eta_time = self.min.clone();
        let needs_min_suffix = !(str_contains(self.min.as_str(), "ARR")
            || str_contains(self.min.as_str(), "BRD")
            || str_contains(self.min.as_str(), "?")
            || str_contains(self.min.as_str(), ":"));
        if needs_min_suffix {
            eta_time.append("m");
        }
        eta_time
    }
}

impl NumStationTagsByType {
    /// The categories of station reports that are negative for display
    /// purposes, with their counts, in a fixed order.
    pub fn bad_tags(&self) -> (r: Vec<(&'static str, i64)>)
        ensures
            r@.len() == 7,
            r@[0].0@ == "UNCOMFORTABLE_TEMPS"@ && r@[0].1 == self.uncomfortable_temps,
            r@[1].0@ == "CROWDED"@ && r@[1].1 == self.crowded,
            r@[2].0@ == "LONG_WAITING_TIME"@ && r@[2].1 == self.long_waiting_time,
            r@[3].0@ == "NEEDS_WORK"@ && r@[3].1 == self.needs_work,
            r@[4].0@ == "POSTED_TIMES_INACCURATE"@ && r@[4].1 == self.posted_times_inaccurate,
            r@[5].0@ == "SMOKE_OR_FIRE"@ && r@[5].1 == self.smoke_or_fire,
            r@[6].0@ == "UNFRIENDLY_OR_UNHELPFUL_STAFF"@ && r@[6].1
                == self.unfriendly_or_unhelpful_staff,
    {
        let r: Vec<(&'static str, i64)> = vec![
            ("UNCOMFORTABLE_TEMPS", self.uncomfortable_temps),
            ("CROWDED", self.crowded),
            ("LONG_WAITING_TIME", self.long_waiting_time),
            ("NEEDS_WORK", self.needs_work),
            ("POSTED_TIMES_INACCURATE", self.posted_times_inaccurate),
            ("SMOKE_OR_FIRE", self.smoke_or_fire),
            ("UNFRIENDLY_OR_UNHELPFUL_STAFF", self.unfriendly_or_unhelpful_staff),
        ];
        r
    }
}

} // verus!
