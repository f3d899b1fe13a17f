use standing_desk::calibration::{Calibration, CalibrationError};
use standing_desk::millimeters::Millimeters;
use standing_desk::storage::{magic_bytes, ConfigChange, StorageData};

fn mm(v: u16) -> Millimeters {
    Millimeters::from_mm(v)
}

fn loaded() -> StorageData {
    let mut data = StorageData::const_default();
    data.init_inner(&[]);
    data
}

fn round_trip(data: &StorageData) -> StorageData {
    let bytes = data.store().expect("encodes");
    StorageData::load(&bytes).expect("decodes")
}

#[test]
fn round_trip_empty_configuration() {
    let data = loaded();
    let back = round_trip(&data);
    assert_eq!(back.get().position_1, None);
    assert_eq!(back.get().position_2, None);
    assert!(back.get().calibration.is_empty());
}

#[test]
fn round_trip_positions_and_full_table() {
    let mut data = loaded();
    data.update(ConfigChange::SetPosition1(mm(400)));
    data.update(ConfigChange::SetPosition2(mm(1100)));
    for i in 0..20u16 {
        let (res, bytes) = data.update(ConfigChange::InsertPoint(4000 - i * 150, mm(900 - i * 40)));
        assert_eq!(res, Ok(()));
        assert!(bytes.is_some());
    }
    let back = round_trip(&data);
    assert_eq!(back.get().position_1, Some(mm(400)));
    assert_eq!(back.get().position_2, Some(mm(1100)));
    assert_eq!(back.get().calibration.points(), data.get().calibration.points());
    assert_eq!(back.get().calibration.len(), 20);
}

#[test]
fn round_trip_one_position_set() {
    let mut data = loaded();
    data.update(ConfigChange::SetPosition2(mm(0)));
    data.update(ConfigChange::InsertPoint(952, mm(86)));
    let back = round_trip(&data);
    assert_eq!(back.get().position_1, None);
    assert_eq!(back.get().position_2, Some(mm(0)));
    assert_eq!(back.get().calibration.points(), vec![(952, 86)]);
}

#[test]
fn wrong_magic_gives_defaults() {
    let mut points = heapless::Vec::<(u16, u16), 20>::new();
    points.push((952, 86)).unwrap();
    let bytes = postcard::to_allocvec(&([1u8, 2, 3, 4], Some(400u16), Some(700u16), points)).unwrap();
    assert!(StorageData::load(&bytes).is_none());
    let mut data = StorageData::const_default();
    data.init_inner(&bytes);
    assert!(data.is_initialized());
    assert_eq!(data.get().position_1, None);
    assert_eq!(data.get().position_2, None);
    assert!(data.get().calibration.is_empty());
}

#[test]
fn right_magic_is_loaded() {
    let mut points = heapless::Vec::<(u16, u16), 20>::new();
    points.push((952, 86)).unwrap();
    points.push((1432, 172)).unwrap();
    let bytes = postcard::to_allocvec(&(magic_bytes(), Some(400u16), None::<u16>, points)).unwrap();
    let mut data = StorageData::const_default();
    data.init_inner(&bytes);
    assert_eq!(data.get().position_1, Some(mm(400)));
    assert_eq!(data.get().position_2, None);
    assert_eq!(data.get().calibration.transform(1192).as_mm(), 129);
}

#[test]
fn unsorted_points_are_rejected() {
    let mut points = heapless::Vec::<(u16, u16), 20>::new();
    points.push((1432, 172)).unwrap();
    points.push((952, 86)).unwrap();
    let bytes = postcard::to_allocvec(&(magic_bytes(), Some(400u16), None::<u16>, points)).unwrap();
    assert!(StorageData::load(&bytes).is_none());
}

#[test]
fn garbage_gives_defaults() {
    let mut data = StorageData::const_default();
    assert!(!data.is_initialized());
    data.init_inner(&[0xff; 3]);
    assert!(data.is_initialized());
    assert_eq!(data.get().position_1, None);
}

#[test]
fn loading_happens_once() {
    let mut data = loaded();
    data.update(ConfigChange::SetPosition1(mm(321)));
    let other = {
        let mut d = loaded();
        d.update(ConfigChange::SetPosition1(mm(999)));
        d.store().unwrap()
    };
    data.init_inner(&other);
    assert_eq!(data.get().position_1, Some(mm(321)));
}

#[test]
fn update_reports_a_full_table() {
    let mut data = loaded();
    for i in 0..20u16 {
        data.update(ConfigChange::InsertPoint(i, mm(i)));
    }
    let (res, bytes) = data.update(ConfigChange::InsertPoint(100, mm(1)));
    assert_eq!(res, Err(CalibrationError::Full));
    assert!(bytes.is_some());
    assert_eq!(data.get().calibration.len(), 20);
    data.update(ConfigChange::RemovePoint(0));
    assert_eq!(data.get().calibration.len(), 19);
    data.update(ConfigChange::ClearCalibration);
    assert!(data.get().calibration.is_empty());
}

#[test]
fn stored_bytes_start_with_magic() {
    let bytes = loaded().store().unwrap();
    assert_eq!(&bytes[..4], &[123, 52, 61, 53]);
    let fresh = Calibration::new();
    assert!(fresh.is_empty());
}
