use hrdrift::calculate_heart_rate_drift;
use hrdrift::heart_rate_drift::{
    combine_hr_with_time, heart_rate_drift, DriftComponents, HeartRateAtTime, HeartRateDriftError,
    FIRST_SEGMENT_LIMIT, LAST_SEGMENT_LIMIT, WARM_UP_LIMIT,
};

/// The drift percentage as the original pipeline reported it: the ratio of
/// the two segment means, as 32-bit floats.
fn drift_percent(d: &DriftComponents) -> f32 {
    let first_total = d.first_sum as f32;
    let second_total = d.second_sum as f32;
    let avg_first = first_total / d.first_count as f32;
    let avg_second = second_total / d.second_count as f32;
    ((avg_second - avg_first) / avg_first) * 100.0
}

#[test]
fn test_couple_heart_rates_and_times() {
    let heart_rates = vec![0, 1, 2];
    let times = vec![3, 4, 5];
    let actual_vec = combine_hr_with_time(&heart_rates, &times);

    let expected_vec = vec![
        HeartRateAtTime {
            heart_rate: 0,
            time: 3,
        },
        HeartRateAtTime {
            heart_rate: 1,
            time: 4,
        },
        HeartRateAtTime {
            heart_rate: 2,
            time: 5,
        },
    ];
    assert_eq!(expected_vec, actual_vec);
}

#[test]
fn combine_truncates_to_the_shorter_sequence() {
    let heart_rates = vec![7, 8, 9];
    let times = vec![10, 11];
    let actual_vec = combine_hr_with_time(&heart_rates, &times);

    let expected_vec = vec![
        HeartRateAtTime {
            heart_rate: 7,
            time: 10,
        },
        HeartRateAtTime {
            heart_rate: 8,
            time: 11,
        },
    ];
    assert_eq!(expected_vec, actual_vec);
}

#[test]
fn test_error_not_enough_samples_for_heart_rate_drift() {
    let samples: Vec<HeartRateAtTime> = vec![];

    assert_eq!(
        Err(HeartRateDriftError::NotEnoughSamples),
        heart_rate_drift(&samples)
    );
}

#[test]
fn test_one_sample_is_not_enough_samples_for_heart_rate_drift() {
    let samples = vec![HeartRateAtTime {
        heart_rate: 0,
        time: 1,
    }];

    assert_eq!(
        Err(HeartRateDriftError::NotEnoughSamples),
        heart_rate_drift(&samples)
    );
}

#[test]
fn test_three_samples_one_in_each_window_is_enough() {
    let samples = vec![
        HeartRateAtTime {
            heart_rate: 1,
            time: WARM_UP_LIMIT - 1,
        },
        HeartRateAtTime {
            heart_rate: 1,
            time: FIRST_SEGMENT_LIMIT - 1,
        },
        HeartRateAtTime {
            heart_rate: 1,
            time: LAST_SEGMENT_LIMIT - 1,
        },
    ];

    assert_eq!(
        Ok(0.0),
        heart_rate_drift(&samples).map(|d| drift_percent(&d))
    );
}

#[test]
fn test_missing_sample_in_last_segment_is_an_error() {
    let samples = vec![
        HeartRateAtTime {
            heart_rate: 1,
            time: WARM_UP_LIMIT - 1,
        },
        HeartRateAtTime {
            heart_rate: 1,
            time: FIRST_SEGMENT_LIMIT - 2,
        },
        HeartRateAtTime {
            heart_rate: 1,
            time: FIRST_SEGMENT_LIMIT - 1,
        },
    ];

    assert_eq!(
        Err(HeartRateDriftError::NotEnoughSamples),
        heart_rate_drift(&samples)
    );
}

#[test]
fn test_missing_sample_in_first_segment_is_an_error() {
    let samples = vec![
        HeartRateAtTime {
            heart_rate: 1,
            time: WARM_UP_LIMIT - 1,
        },
        HeartRateAtTime {
            heart_rate: 1,
            time: FIRST_SEGMENT_LIMIT + 1,
        },
        HeartRateAtTime {
            heart_rate: 1,
            time: FIRST_SEGMENT_LIMIT + 2,
        },
    ];

    assert_eq!(
        Err(HeartRateDriftError::NotEnoughSamples),
        heart_rate_drift(&samples)
    );
}

#[test]
fn test_missing_sample_in_warm_up_is_fine() {
    let samples = vec![
        HeartRateAtTime {
            heart_rate: 1,
            time: WARM_UP_LIMIT + 1,
        },
        HeartRateAtTime {
            heart_rate: 1,
            time: FIRST_SEGMENT_LIMIT + 1,
        },
    ];

    assert_eq!(
        Ok(0.0),
        heart_rate_drift(&samples).map(|d| drift_percent(&d))
    );
}

#[test]
fn test_calculate_heart_rate_drift_of_valid_samples_via_percentage_rise_between_averages() {
    let samples = vec![
        HeartRateAtTime {
            heart_rate: 1,
            time: WARM_UP_LIMIT + 1,
        },
        HeartRateAtTime {
            heart_rate: 2,
            time: FIRST_SEGMENT_LIMIT + 1,
        },
    ];

    assert_eq!(
        Ok(100.0),
        heart_rate_drift(&samples).map(|d| drift_percent(&d))
    );
}

#[test]
fn single_warm_up_sample_reports_not_enough_samples() {
    let rates = vec![1];
    let times = vec![899];

    assert_eq!(
        Err(HeartRateDriftError::NotEnoughSamples),
        calculate_heart_rate_drift(&rates, &times)
    );
}

#[test]
fn boundary_samples_in_each_window_give_zero_drift() {
    let rates = vec![1, 1, 1];
    let times = vec![899, 2699, 4499];

    assert_eq!(
        Ok(0.0),
        calculate_heart_rate_drift(&rates, &times).map(|d| drift_percent(&d))
    );
}

#[test]
fn doubled_rate_between_segments_is_one_hundred_percent_drift() {
    let rates = vec![1, 2];
    let times = vec![901, 2701];

    assert_eq!(
        Ok(100.0),
        calculate_heart_rate_drift(&rates, &times).map(|d| drift_percent(&d))
    );
}

#[test]
fn one_sample_per_segment_gives_the_exact_rational() {
    let rates = vec![120, 150];
    let times = vec![1000, 3000];

    let d = calculate_heart_rate_drift(&rates, &times).unwrap();
    assert_eq!(
        d,
        DriftComponents {
            first_sum: 120,
            first_count: 1,
            second_sum: 150,
            second_count: 1,
        }
    );
    // (r2 - r1) / r1 * 100 exactly: (150 - 120) / 120 * 100 = 25
    assert_eq!(25.0, drift_percent(&d));
}

#[test]
fn drift_is_deterministic_across_calls() {
    let rates = vec![100, 110, 120, 130];
    let times = vec![800, 1000, 3000, 4400];

    let first_call = calculate_heart_rate_drift(&rates, &times);
    let second_call = calculate_heart_rate_drift(&rates, &times);
    assert_eq!(first_call, second_call);
}

#[test]
fn samples_at_the_upper_bound_are_discarded() {
    let rates = vec![1, 1, 9];
    let times = vec![1000, 3000, 4500];

    let d = calculate_heart_rate_drift(&rates, &times).unwrap();
    assert_eq!(
        d,
        DriftComponents {
            first_sum: 1,
            first_count: 1,
            second_sum: 1,
            second_count: 1,
        }
    );
}

#[test]
fn segment_means_average_every_sample_in_the_window() {
    let rates = vec![100, 110, 140, 160];
    let times = vec![1000, 2000, 2800, 4000];

    let d = calculate_heart_rate_drift(&rates, &times).unwrap();
    assert_eq!(
        d,
        DriftComponents {
            first_sum: 210,
            first_count: 2,
            second_sum: 300,
            second_count: 2,
        }
    );
    // means 105 and 150: (150 - 105) / 105 * 100
    let expected: f32 = ((150.0 - 105.0) / 105.0) * 100.0;
    assert_eq!(expected, drift_percent(&d));
}
