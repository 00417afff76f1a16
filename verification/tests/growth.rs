use draco_protocol::constants::{GROWTH_SCALE, INITIAL_CURVATURE, INITIAL_MAX_BOOST};
use draco_protocol::growth::calculate_growth_factor;

#[test]
fn growth_factor_is_one_when_the_pool_did_not_grow() {
    assert_eq!(calculate_growth_factor(10, 10, INITIAL_MAX_BOOST, INITIAL_CURVATURE), GROWTH_SCALE);
    assert_eq!(calculate_growth_factor(10, 5, INITIAL_MAX_BOOST, INITIAL_CURVATURE), GROWTH_SCALE);
    assert_eq!(
        calculate_growth_factor(u64::MAX, 1, INITIAL_MAX_BOOST, INITIAL_CURVATURE),
        GROWTH_SCALE
    );
}

#[test]
fn growth_factor_is_one_when_the_pool_started_empty() {
    assert_eq!(calculate_growth_factor(0, 5, INITIAL_MAX_BOOST, INITIAL_CURVATURE), GROWTH_SCALE);
    assert_eq!(
        calculate_growth_factor(0, u64::MAX, INITIAL_MAX_BOOST, INITIAL_CURVATURE),
        GROWTH_SCALE
    );
}

#[test]
fn growth_factor_is_one_with_zero_curvature_or_zero_boost() {
    assert_eq!(calculate_growth_factor(100, 200, INITIAL_MAX_BOOST, 0), GROWTH_SCALE);
    assert_eq!(calculate_growth_factor(100, 200, 0, INITIAL_CURVATURE), GROWTH_SCALE);
}

#[test]
fn growth_factor_matches_known_fixed_point_values() {
    // 1.0003x pool growth with the default factors.
    assert_eq!(
        calculate_growth_factor(1_000_000, 1_000_300, INITIAL_MAX_BOOST, INITIAL_CURVATURE),
        1_000_148
    );
    // A doubled pool.
    assert_eq!(
        calculate_growth_factor(100, 200, INITIAL_MAX_BOOST, INITIAL_CURVATURE),
        1_254_942
    );
    // A 50x lock of the unit price.
    assert_eq!(
        calculate_growth_factor(100, 5_000, INITIAL_MAX_BOOST, INITIAL_CURVATURE),
        1_533_633
    );
}

#[test]
fn growth_factor_is_monotone_in_the_final_value() {
    let mut previous: u64 = 0;
    let finals = [
        100u64, 101, 150, 200, 300, 1_000, 5_000, 100_000, 10_000_000, u64::MAX / 2, u64::MAX,
    ];
    for f in finals.iter() {
        let g = calculate_growth_factor(100, *f, INITIAL_MAX_BOOST, INITIAL_CURVATURE);
        assert!(g >= previous);
        previous = g;
    }
}

#[test]
fn growth_factor_never_exceeds_one_plus_max_boost() {
    let finals = [1u64, 2, 50, 10_000, u64::MAX];
    for f in finals.iter() {
        let g = calculate_growth_factor(1, *f, INITIAL_MAX_BOOST, INITIAL_CURVATURE);
        assert!(GROWTH_SCALE <= g);
        assert!(g <= GROWTH_SCALE + INITIAL_MAX_BOOST * GROWTH_SCALE / 100);
    }
}
