use standing_desk::calibration::{Calibration, CalibrationError};
use standing_desk::millimeters::Millimeters;

fn mm(v: u16) -> Millimeters {
    Millimeters::from_mm(v)
}

fn table(points: &[(u16, u16)]) -> Calibration {
    let mut c = Calibration::new();
    for &(adc, length) in points {
        c.insert(adc, mm(length)).unwrap();
    }
    c
}

#[test]
fn interpolation_between_two_points() {
    let c = table(&[(952, 86), (1432, 172)]);
    // 86 + 86 * 240 / 480 = 129
    assert_eq!(c.transform(1192).as_mm(), 129);
}

#[test]
fn empty_table_gives_zero() {
    let c = Calibration::new();
    assert_eq!(c.transform(0).as_mm(), 0);
    assert_eq!(c.transform(1234).as_mm(), 0);
    assert_eq!(c.transform(u16::MAX).as_mm(), 0);
}

#[test]
fn stored_points_are_exact() {
    let c = table(&[(952, 86), (1432, 172), (1893, 258)]);
    assert_eq!(c.transform(952).as_mm(), 86);
    assert_eq!(c.transform(1432).as_mm(), 172);
    assert_eq!(c.transform(1893).as_mm(), 258);
}

#[test]
fn extrapolates_below_and_above() {
    let c = table(&[(1000, 100), (2000, 200)]);
    // below: 100 - 100 * 500 / 1000
    assert_eq!(c.transform(500).as_mm(), 50);
    // above, on the line of the two last points
    assert_eq!(c.transform(3000).as_mm(), 300);
    // far below saturates at zero
    assert_eq!(c.transform(0).as_mm(), 0);
}

#[test]
fn extrapolation_saturates_at_the_top() {
    let c = table(&[(0, 60000), (1, 65000)]);
    assert_eq!(c.transform(100).as_mm(), u16::MAX);
}

#[test]
fn interpolation_truncates() {
    let c = table(&[(0, 0), (3, 1)]);
    assert_eq!(c.transform(1).as_mm(), 0);
    assert_eq!(c.transform(2).as_mm(), 0);
    let c = table(&[(0, 0), (3, 2)]);
    assert_eq!(c.transform(2).as_mm(), 1);
}

#[test]
fn single_point_gives_its_length() {
    let c = table(&[(1000, 420)]);
    assert_eq!(c.transform(1000).as_mm(), 420);
    assert_eq!(c.transform(10).as_mm(), 420);
    assert_eq!(c.transform(5000).as_mm(), 420);
}

#[test]
fn insert_keeps_order_and_replaces_same_reading() {
    let mut c = table(&[(2000, 200), (1000, 100), (1500, 150)]);
    assert_eq!(c.points(), vec![(1000, 100), (1500, 150), (2000, 200)]);
    c.insert(1500, mm(155)).unwrap();
    assert_eq!(c.points(), vec![(1000, 100), (1500, 155), (2000, 200)]);
    assert_eq!(c.len(), 3);
}

#[test]
fn inserting_twice_is_like_inserting_once() {
    let mut once = table(&[(1000, 100), (2000, 200)]);
    once.insert(1500, mm(170)).unwrap();
    let mut twice = once.clone();
    twice.insert(1500, mm(170)).unwrap();
    assert_eq!(once.len(), twice.len());
    assert_eq!(once.points(), twice.points());
    for reading in [0u16, 999, 1000, 1250, 1500, 1750, 2000, 4000] {
        assert_eq!(once.transform(reading), twice.transform(reading));
    }
}

#[test]
fn full_table_refuses_a_new_reading() {
    let mut c = Calibration::new();
    for i in 0..20u16 {
        assert_eq!(c.insert(i * 100, mm(i)), Ok(()));
    }
    assert_eq!(c.len(), 20);
    assert!(c.is_full());
    let before = c.points();
    assert_eq!(c.insert(5000, mm(1)), Err(CalibrationError::Full));
    assert_eq!(c.points(), before);
    // a reading already present is still replaced
    assert_eq!(c.insert(300, mm(77)), Ok(()));
    assert_eq!(c.get(3), Some((300, mm(77))));
    assert_eq!(c.len(), 20);
}

#[test]
fn remove_and_clear() {
    let mut c = table(&[(1000, 100), (1500, 150), (2000, 200)]);
    c.remove(1);
    assert_eq!(c.points(), vec![(1000, 100), (2000, 200)]);
    assert_eq!(c.get(5), None);
    c.clear();
    assert!(c.is_empty());
    assert_eq!(c.transform(1500).as_mm(), 0);
}

#[test]
fn interpolation_stays_between_neighbours() {
    let c = table(&[(952, 86), (1432, 172), (1893, 258), (2204, 316), (2572, 386)]);
    for reading in 953..1432u16 {
        let h = c.transform(reading).as_mm();
        assert!((86..=172).contains(&h));
    }
    for reading in 2205..2572u16 {
        let h = c.transform(reading).as_mm();
        assert!((316..=386).contains(&h));
    }
}

#[test]
fn rising_table_gives_rising_lengths_everywhere() {
    let c = table(&[(500, 40), (952, 86), (1432, 172), (1893, 258), (2204, 316), (2572, 386)]);
    let mut previous = c.transform(0).as_mm();
    for reading in (0..=u16::MAX).step_by(7) {
        let h = c.transform(reading).as_mm();
        assert!(h >= previous, "reading {}", reading);
        previous = h;
    }
}
