use pi_estimator::digits::{parse_u64, u64_to_decimal};
use pi_estimator::estimator::{is_inside_circle, monte_carlo, run_trials, Estimate, SCALE};
use pi_estimator::preference::{apply_preference, preference_cookie_value, Preference};
use pi_estimator::resolver::resolve_total;

#[test]
fn test_monte_carlo() {
    let n = 1000;
    let result = monte_carlo(None, Some(n));
    assert_eq!(result.total, n);
    let pi = 4.0 * result.inside as f64 / result.total as f64;
    assert!((pi - std::f64::consts::PI).abs() <= 1.0);
}

#[test]
fn total_equals_requested_count() {
    for n in [1u64, 2, 10, 537, 4096] {
        let r = run_trials(n);
        assert_eq!(r.total, n);
    }
}

#[test]
fn inside_never_exceeds_total() {
    for n in [0u64, 1, 3, 100, 2500] {
        let r = run_trials(n);
        assert!(r.inside <= n);
        assert_eq!(r.total, n);
    }
}

#[test]
fn pi_formula_is_deterministic_given_counts() {
    let e = Estimate { inside: 750, total: 1000 };
    let pi = 4.0 * e.inside as f64 / e.total as f64;
    assert_eq!(pi, 3.0);
    let r = run_trials(640);
    let once = 4.0 * r.inside as f64 / r.total as f64;
    let again = 4.0 * r.inside as f64 / r.total as f64;
    assert!(once.to_bits() == again.to_bits());
}

#[test]
fn zero_trials_yield_nan() {
    let r = run_trials(0);
    assert_eq!(r.total, 0);
    assert_eq!(r.inside, 0);
    let pi = 4.0 * r.inside as f64 / r.total as f64;
    assert!(pi.is_nan());
}

#[test]
fn cookie_outranks_query() {
    assert_eq!(resolve_total(Some("500"), Some(9999)), 500);
}

#[test]
fn malformed_cookie_falls_through_to_query() {
    assert_eq!(resolve_total(Some("not_a_number"), Some(42)), 42);
}

#[test]
fn nothing_given_resolves_to_default() {
    assert_eq!(resolve_total(None, None), 100_000);
}

#[test]
fn query_used_when_cookie_absent() {
    assert_eq!(resolve_total(None, Some(42)), 42);
}

#[test]
fn malformed_cookie_without_query_resolves_to_default() {
    assert_eq!(resolve_total(Some(""), None), 100_000);
    assert_eq!(resolve_total(Some("12a"), None), 100_000);
}

#[test]
fn preference_lifecycle() {
    // Set a preference of 7: the cookie reads "7" and later requests resolve
    // to 7 whatever their query parameter says.
    let set = apply_preference(Preference::Absent, Some(7));
    assert_eq!(set, Preference::Chosen(7));
    let cookie = preference_cookie_value(set).expect("a set preference persists a cookie");
    assert_eq!(cookie.as_str(), "7");
    assert_eq!(resolve_total(Some(cookie.as_str()), None), 7);
    assert_eq!(resolve_total(Some(cookie.as_str()), Some(9999)), 7);

    // Clear it: no cookie remains and resolution falls back to the default.
    let cleared = apply_preference(set, None);
    assert_eq!(cleared, Preference::Absent);
    assert!(preference_cookie_value(cleared).is_none());
    assert_eq!(resolve_total(None, None), 100_000);
}

#[test]
fn preference_transitions_are_idempotent() {
    let once = apply_preference(Preference::Chosen(3), Some(12));
    let twice = apply_preference(once, Some(12));
    assert_eq!(once, twice);
    let cleared_once = apply_preference(Preference::Chosen(3), None);
    let cleared_twice = apply_preference(cleared_once, None);
    assert_eq!(cleared_once, cleared_twice);
}

#[test]
fn parse_matches_std() {
    let cases = [
        "0",
        "7",
        "42",
        "500",
        "100000",
        "00042",
        "+5",
        "+",
        "",
        " 5",
        "5 ",
        "-1",
        "1x2",
        "not_a_number",
        "18446744073709551615",
        "18446744073709551616",
        "99999999999999999999999999",
        "٣",
        "4.5",
    ];
    for s in cases {
        assert_eq!(parse_u64(s), s.parse::<u64>().ok(), "on {:?}", s);
    }
}

#[test]
fn parse_exact_values() {
    assert_eq!(parse_u64("500"), Some(500));
    assert_eq!(parse_u64("18446744073709551615"), Some(u64::MAX));
    assert_eq!(parse_u64("18446744073709551616"), None);
    assert_eq!(parse_u64(""), None);
}

#[test]
fn decimal_rendering_matches_std() {
    for n in [0u64, 7, 10, 99, 100_000, 123_456_789, u64::MAX] {
        assert_eq!(u64_to_decimal(n), n.to_string());
    }
}

#[test]
fn rendering_then_parsing_round_trips() {
    for n in [0u64, 1, 9, 10, 100_000, u64::MAX] {
        assert_eq!(parse_u64(u64_to_decimal(n).as_str()), Some(n));
    }
}

#[test]
fn inside_circle_boundaries() {
    assert!(is_inside_circle(0, 0));
    assert!(is_inside_circle(SCALE - 1, 0));
    assert!(is_inside_circle(0, SCALE - 1));
    assert!(!is_inside_circle(SCALE - 1, SCALE - 1));
}

#[test]
fn monte_carlo_resolves_before_running() {
    let r = monte_carlo(Some("25"), Some(9999));
    assert_eq!(r.total, 25);
    assert!(r.inside <= 25);
    let r = monte_carlo(Some("bad"), Some(30));
    assert_eq!(r.total, 30);
    let r = monte_carlo(None, None);
    assert_eq!(r.total, 100_000);
}
