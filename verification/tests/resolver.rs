use hcsr04::resolver::{apply_threshold, below_threshold, resolve_distance};
use hcsr04::units::{PM_PER_CM, PM_PER_METER, PM_PER_MM};
use hcsr04::DistanceUnit;

#[test]
fn a_millisecond_of_echo_is_17_15_centimetres() {
    let d = resolve_distance(1_000_000);
    assert_eq!(d, DistanceUnit::Cm(171_500_000_000));
    assert_eq!(d.to_val() as f64 / PM_PER_CM as f64, 17.15);
    assert!((d.to_val() as f64 / PM_PER_CM as f64 - 50.0 * 343.0 * 0.001).abs() < 1e-12);
}

#[test]
fn a_nanosecond_of_echo_is_171_500_picometres() {
    assert_eq!(resolve_distance(1), DistanceUnit::Cm(171_500));
    assert_eq!(resolve_distance(2), DistanceUnit::Cm(343_000));
    assert_eq!(resolve_distance(3), DistanceUnit::Cm(514_500));
}

#[test]
fn no_echo_is_no_distance() {
    assert_eq!(resolve_distance(0), DistanceUnit::Cm(0));
}

#[test]
fn the_longest_echo_still_has_its_distance() {
    assert_eq!(resolve_distance(u64::MAX), DistanceUnit::Cm(171_500 * (u64::MAX as u128)));
}

#[test]
fn a_second_of_echo_is_half_of_343_metres() {
    let d = resolve_distance(1_000_000_000);
    assert_eq!(d.to_meter(), DistanceUnit::Meter(343 * PM_PER_METER / 2));
}

#[test]
fn nothing_is_too_close_without_a_threshold() {
    assert!(!below_threshold(&DistanceUnit::Cm(0), &None));
    assert!(!below_threshold(&DistanceUnit::Cm(u128::MAX), &None));
}

#[test]
fn below_the_threshold_is_strictly_below() {
    let least = Some(DistanceUnit::Cm(5 * PM_PER_CM));
    assert!(below_threshold(&DistanceUnit::Cm(3 * PM_PER_CM), &least));
    assert!(below_threshold(&DistanceUnit::Cm(5 * PM_PER_CM - 1), &least));
    assert!(!below_threshold(&DistanceUnit::Cm(5 * PM_PER_CM), &least));
    assert!(!below_threshold(&DistanceUnit::Cm(5 * PM_PER_CM + 1), &least));
}

#[test]
fn the_threshold_is_compared_as_a_length_whatever_its_unit() {
    let d = DistanceUnit::Cm(4 * PM_PER_CM);
    assert!(below_threshold(&d, &Some(DistanceUnit::Mm(50 * PM_PER_MM))));
    assert!(!below_threshold(&d, &Some(DistanceUnit::Mm(40 * PM_PER_MM))));
    assert!(below_threshold(&d, &Some(DistanceUnit::Meter(PM_PER_METER))));
    assert!(!below_threshold(&d, &Some(DistanceUnit::Meter(PM_PER_METER / 100))));
    assert!(below_threshold(&d.to_meter(), &Some(DistanceUnit::Cm(5 * PM_PER_CM))));
}

#[test]
fn the_threshold_drops_what_is_too_close_and_keeps_the_rest() {
    let least = Some(DistanceUnit::Cm(5 * PM_PER_CM));
    let near = DistanceUnit::Cm(3 * PM_PER_CM);
    let far = DistanceUnit::Cm(7 * PM_PER_CM);
    assert_eq!(apply_threshold(Some(near), &least), None);
    assert_eq!(apply_threshold(Some(far), &least), Some(far));
    assert_eq!(apply_threshold(Some(near), &None), Some(near));
    assert_eq!(apply_threshold(None, &least), None);
    assert_eq!(apply_threshold(None, &None), None);
}
