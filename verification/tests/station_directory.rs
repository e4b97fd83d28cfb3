use metrohero_rs::MetroHeroError;
use metrohero_rs::StationCode;

#[test]
fn resolve_code_input_is_identity() {
    // Feeding any station code back into resolution yields that very code.
    for code in StationCode::all() {
        assert_eq!(StationCode::resolve(code.code_str()), Ok(code));
    }
}

#[test]
fn resolve_display_name_may_differ_from_code() {
    // Two co-located platforms share the display name "Metro Center"; the
    // alias resolves to C01, so resolving A01's display name does not give
    // back A01.
    assert_eq!(StationCode::A01.to_name(), "Metro Center");
    assert_eq!(StationCode::resolve(StationCode::A01.to_name()), Ok(StationCode::C01));
    assert_eq!(StationCode::resolve(StationCode::B06.to_name()), Ok(StationCode::E06));
}

#[test]
fn resolve_unknown_strings_fails_with_invalid_station() {
    assert_eq!(
        StationCode::resolve("Not A Station"),
        Err(MetroHeroError::InvalidStation)
    );
    assert_eq!(StationCode::resolve(""), Err(MetroHeroError::InvalidStation));
    // Matching is case-sensitive and exact: no normalization is attempted.
    assert_eq!(StationCode::resolve("ballston"), Err(MetroHeroError::InvalidStation));
    assert_eq!(StationCode::resolve("K04 "), Err(MetroHeroError::InvalidStation));
    assert_eq!(StationCode::resolve("k04"), Err(MetroHeroError::InvalidStation));
}

#[test]
fn display_name_is_total_over_the_enumeration() {
    for code in StationCode::all() {
        assert!(!code.to_name().is_empty());
    }
    assert_eq!(StationCode::UNKNOWN.to_name(), "UNKNOWN");
}

#[test]
fn resolve_gmu_yields_virginia_square() {
    assert_eq!(StationCode::resolve("GMU"), Ok(StationCode::K03));
    assert_eq!(StationCode::K03.to_name(), "Virginia Square-GMU");
}

#[test]
fn from_name_looks_up_names_and_aliases() {
    assert_eq!(StationCode::from_name("Ballston"), Ok(StationCode::K04));
    assert_eq!(StationCode::from_name("Ballston-MU"), Ok(StationCode::K04));
    assert_eq!(StationCode::from_name("DCA"), Ok(StationCode::C10));
    assert_eq!(StationCode::from_name("UNKNOWN"), Ok(StationCode::UNKNOWN));
    assert_eq!(StationCode::from_name("K04"), Err(MetroHeroError::InvalidStation));
}

#[test]
fn from_code_str_accepts_codes_only() {
    assert_eq!(StationCode::from_code_str("K04"), Some(StationCode::K04));
    assert_eq!(StationCode::from_code_str("UNKNOWN"), Some(StationCode::UNKNOWN));
    assert_eq!(StationCode::from_code_str("Ballston"), None);
    assert_eq!(StationCode::from_code_str("Z99"), None);
    assert_eq!(StationCode::from_code_str("k04"), None);
}

#[test]
fn code_str_round_trips_through_from_code_str() {
    for code in StationCode::all() {
        assert_eq!(StationCode::from_code_str(code.code_str()), Some(code));
    }
}

#[test]
fn all_lists_every_code_once_with_sentinel_last() {
    let all = StationCode::all();
    assert_eq!(all.len(), 103);
    assert_eq!(all[0], StationCode::A01);
    assert_eq!(all[all.len() - 1], StationCode::UNKNOWN);
    for (i, a) in all.iter().enumerate() {
        for b in all.iter().skip(i + 1) {
            assert_ne!(a, b);
        }
    }
}

#[test]
fn station_json_reading_falls_back_to_sentinel() {
    assert_eq!(StationCode::from_json_str("K05"), StationCode::K05);
    assert_eq!(StationCode::from_json_str("Z99"), StationCode::UNKNOWN);
    assert_eq!(StationCode::from_json_str(""), StationCode::UNKNOWN);
}

#[test]
fn display_names_resolve_to_a_code_with_that_name() {
    // Every canonical display name is accepted, and resolves to a station
    // carrying that very name - not always the same code, since co-located
    // platforms share one name.
    for code in StationCode::all() {
        let resolved = StationCode::resolve(code.to_name()).unwrap();
        assert_eq!(resolved.to_name(), code.to_name());
        let by_name = StationCode::from_name(code.to_name()).unwrap();
        assert_eq!(by_name.to_name(), code.to_name());
    }
}
