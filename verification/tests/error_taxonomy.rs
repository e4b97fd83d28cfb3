use metrohero_rs::errors::{
    error_for_status, remap_station_scoped, remap_train_report, remap_trip,
};
use metrohero_rs::lines::LineCode;
use metrohero_rs::MetroHeroError;

#[test]
fn status_table_maps_documented_statuses() {
    assert_eq!(error_for_status(200), None);
    assert_eq!(error_for_status(400), Some(MetroHeroError::InvalidRequest));
    assert_eq!(error_for_status(401), Some(MetroHeroError::AuthenticationError));
    assert_eq!(error_for_status(503), Some(MetroHeroError::RateLimited));
}

#[test]
fn status_table_treats_everything_else_as_unexpected() {
    for status in [100u16, 201, 204, 301, 403, 404, 418, 500, 502, 504] {
        assert_eq!(error_for_status(status), Some(MetroHeroError::UnexpectedStatus));
    }
}

#[test]
fn endpoint_remaps_turn_generic_rejection_specific() {
    let generic = error_for_status(400).unwrap();
    assert_eq!(remap_station_scoped(generic), MetroHeroError::InvalidStation);
    assert_eq!(remap_train_report(generic), MetroHeroError::InvalidTrainId);
    assert_eq!(remap_trip(generic), MetroHeroError::InvalidItinerary);
}

#[test]
fn endpoint_remaps_leave_other_errors_alone() {
    for e in [
        MetroHeroError::HttpError,
        MetroHeroError::ParseError,
        MetroHeroError::AuthenticationError,
        MetroHeroError::RateLimited,
        MetroHeroError::UnexpectedStatus,
    ] {
        assert_eq!(remap_station_scoped(e), e);
        assert_eq!(remap_train_report(e), e);
        assert_eq!(remap_trip(e), e);
    }
}

#[test]
fn error_messages_are_fixed() {
    assert_eq!(
        MetroHeroError::HttpError.message(),
        "Error while communicating with MetroHero API"
    );
    assert_eq!(
        MetroHeroError::ParseError.message(),
        "Error while parsing data from MetroHero API"
    );
    assert_eq!(
        MetroHeroError::InvalidRequest.message(),
        "Request to MetroHero API was invalid"
    );
    assert_eq!(
        MetroHeroError::InvalidStation.message(),
        "Provided station code or name is invalid"
    );
    assert_eq!(
        MetroHeroError::InvalidTrainId.message(),
        "Provided Train ID is not valid"
    );
    assert_eq!(
        MetroHeroError::InvalidItinerary.message(),
        "Provided itinerary is invalid"
    );
    assert_eq!(
        MetroHeroError::AuthenticationError.message(),
        "Provided MetroHero API key is invalid"
    );
    assert_eq!(
        MetroHeroError::RateLimited.message(),
        "Too many requests, limit is: 10/s and 50k/24hr"
    );
}

#[test]
fn line_codes_round_trip_through_their_strings() {
    let lines = [
        (LineCode::Silver, "SV"),
        (LineCode::Red, "RD"),
        (LineCode::Orange, "OR"),
        (LineCode::Blue, "BL"),
        (LineCode::Yellow, "YL"),
        (LineCode::Green, "GR"),
        (LineCode::NonRevenue, "N/A"),
    ];
    for (line, code) in lines {
        assert_eq!(line.code_str(), code);
        assert_eq!(LineCode::from_json_str(code), line);
    }
    assert_eq!(LineCode::from_json_str("??"), LineCode::NonRevenue);
}
