use exp_smoothing::{smooth, Alpha, ALPHA_DEN_LIMIT};

#[test]
fn smooth_keeps_length_and_seed() {
    let series: Vec<i64> = vec![7_250_000, -3_000_000, 12_000_000, 0, 4_400_000];
    for (num, den) in [(1u64, 2u64), (2, 501), (1, 1), (9, 10)] {
        let alpha = Alpha::new(num, den).unwrap();
        let out = smooth(&series, alpha);
        assert_eq!(out.len(), series.len());
        assert_eq!(out[0], series[0]);
    }
}

#[test]
fn smooth_half_alpha_scenario() {
    // 2.0, 4.0, 6.0 in micro-units, alpha = 0.5: expect 2.0, 3.0, 4.5.
    let raw: Vec<i64> = vec![2_000_000, 4_000_000, 6_000_000];
    let out = smooth(&raw, Alpha::new(1, 2).unwrap());
    assert_eq!(out, vec![2_000_000, 3_000_000, 4_500_000]);
}

#[test]
fn smooth_alpha_one_is_identity() {
    let series: Vec<i64> = vec![5_000_000, -1_000_000, 0, 2_718_281, -999_999_999_999];
    let out = smooth(&series, Alpha::new(1, 1).unwrap());
    assert_eq!(out, series);
    let out = smooth(&series, Alpha::new(64, 64).unwrap());
    assert_eq!(out, series);
}

#[test]
fn smooth_constant_series_is_fixed_point() {
    let series: Vec<i64> = vec![1_000_000; 4];
    for (num, den) in [(1u64, 2u64), (2, 5), (1, 1), (3, 7), (2, 501)] {
        let out = smooth(&series, Alpha::new(num, den).unwrap());
        assert_eq!(out, series);
    }
}

#[test]
fn smooth_stays_between_previous_and_sample() {
    let raw: Vec<i64> = vec![
        5_000_000, 6_250_000, 4_100_000, 4_100_000, -2_000_000, 11_000_000, 10_999_999,
    ];
    for (num, den) in [(1u64, 3u64), (1, 2), (7, 9), (2, 501)] {
        let out = smooth(&raw, Alpha::new(num, den).unwrap());
        for i in 1..raw.len() {
            let lo = out[i - 1].min(raw[i]);
            let hi = out[i - 1].max(raw[i]);
            assert!(lo <= out[i] && out[i] <= hi);
        }
    }
}

#[test]
fn alpha_new_accepts_exactly_the_valid_range() {
    assert!(Alpha::new(1, 2).is_some());
    assert!(Alpha::new(1, 1).is_some());
    assert!(Alpha::new(ALPHA_DEN_LIMIT, ALPHA_DEN_LIMIT).is_some());
    assert!(Alpha::new(0, 2).is_none());
    assert!(Alpha::new(3, 2).is_none());
    assert!(Alpha::new(2, ALPHA_DEN_LIMIT + 1).is_none());
}

#[test]
fn alpha_for_len_matches_convention() {
    // alpha = 2 / (len + 1)
    let a = Alpha::for_len(500);
    assert_eq!(a.num, 2);
    assert_eq!(a.den, 501);
    let a = Alpha::for_len(1);
    assert_eq!(a.num, 2);
    assert_eq!(a.den, 2);
}
