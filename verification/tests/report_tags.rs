use metrohero_rs::schemas::NumStationTagsByType;

fn sample_tags() -> NumStationTagsByType {
    NumStationTagsByType {
        friendly_or_helpful_staff: 1,
        uncomfortable_temps: 2,
        ample_security: 0,
        broken_elevator: 1,
        broken_escalator: 3,
        crowded: 4,
        empty: 0,
        free_hand_sanitizer_available: 0,
        free_masks_available: 0,
        long_waiting_time: 2,
        needs_work: 1,
        no_free_hand_sanitizer: 0,
        no_free_masks: 0,
        posted_times_inaccurate: 1,
        smoke_or_fire: 0,
        unfriendly_or_unhelpful_staff: 1,
    }
}

#[test]
fn bad_tags_lists_the_negative_categories_in_order() {
    let tags = sample_tags();
    let bad = tags.bad_tags();
    let expected: Vec<(&str, i64)> = vec![
        ("UNCOMFORTABLE_TEMPS", 2),
        ("CROWDED", 4),
        ("LONG_WAITING_TIME", 2),
        ("NEEDS_WORK", 1),
        ("POSTED_TIMES_INACCURATE", 1),
        ("SMOKE_OR_FIRE", 0),
        ("UNFRIENDLY_OR_UNHELPFUL_STAFF", 1),
    ];
    assert_eq!(bad, expected);
}

#[test]
fn bad_tags_excludes_positive_categories() {
    let bad = sample_tags().bad_tags();
    assert!(bad.iter().all(|(name, _)| *name != "FRIENDLY_OR_HELPFUL_STAFF"));
    assert!(bad.iter().all(|(name, _)| *name != "AMPLE_SECURITY"));
    assert_eq!(bad.len(), 7);
}
