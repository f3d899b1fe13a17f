use core::cmp::Ordering;

use standing_desk::millimeters::{Millimeters, MOVEMENT_TOLERANCE_MM, STANDSTILL_TOLERANCE_MM};

fn mm(v: u16) -> Millimeters {
    Millimeters::from_mm(v)
}

#[test]
fn standstill_tolerance_boundary() {
    let tol = mm(STANDSTILL_TOLERANCE_MM);
    assert_eq!(mm(100).cmp_fuzzy_eq(mm(102), tol), Ordering::Equal);
    assert_eq!(mm(102).cmp_fuzzy_eq(mm(100), tol), Ordering::Equal);
    assert_eq!(mm(100).cmp_fuzzy_eq(mm(103), tol), Ordering::Less);
    assert_eq!(mm(103).cmp_fuzzy_eq(mm(100), tol), Ordering::Greater);
}

#[test]
fn movement_tolerance_boundary() {
    let tol = mm(MOVEMENT_TOLERANCE_MM);
    assert_eq!(mm(382).cmp_fuzzy_eq(mm(400), tol), Ordering::Equal);
    assert_eq!(mm(418).cmp_fuzzy_eq(mm(400), tol), Ordering::Equal);
    assert_eq!(mm(381).cmp_fuzzy_eq(mm(400), tol), Ordering::Less);
    assert_eq!(mm(419).cmp_fuzzy_eq(mm(400), tol), Ordering::Greater);
}

#[test]
fn saturating_steps() {
    assert_eq!(mm(u16::MAX).increase().as_mm(), u16::MAX);
    assert_eq!(mm(0).decrease().as_mm(), 0);
    assert_eq!(mm(41).increase().as_mm(), 42);
    assert_eq!(mm(41).decrease().as_mm(), 40);
}

#[test]
fn centimeters_truncate() {
    assert_eq!(mm(1239).as_cm(), 123);
    assert_eq!(mm(9).as_cm(), 0);
    assert!(mm(0).is_zero());
    assert!(!mm(1).is_zero());
}

#[test]
fn factory_calibration() {
    assert_eq!(Millimeters::from_adc_reading(952).as_mm(), 86);
    assert_eq!(Millimeters::from_adc_reading(1192).as_mm(), 129);
    assert_eq!(Millimeters::from_adc_reading(2572).as_mm(), 386);
}

#[test]
fn straight_line_model() {
    // (47 * 1000 - 23115) / 256
    assert_eq!(Millimeters::_from_adc_reading_simple(1000).as_mm(), 93);
    assert_eq!(Millimeters::_from_adc_reading_simple(492).as_mm(), 0);
}
