use palette_input::{CalibrationData, CalibrationStore, GestureError};

fn record(radius: i32, start: i32, end: i32) -> CalibrationData {
    CalibrationData {
        center_x: 500,
        center_y: 500,
        radius,
        brightness_x_start: start,
        brightness_x_end: end,
        brightness_y: 700,
    }
}

#[test]
fn rejects_zero_radius() {
    let mut store = CalibrationStore::new();
    assert_eq!(store.set_calibration(record(0, 400, 600)), Err(GestureError::InvalidInput));
    assert_eq!(store.get_calibration(), None);
}

#[test]
fn rejects_negative_radius() {
    let mut store = CalibrationStore::new();
    assert_eq!(store.set_calibration(record(-5, 400, 600)), Err(GestureError::InvalidInput));
}

#[test]
fn rejects_radius_over_limit() {
    let mut store = CalibrationStore::new();
    assert_eq!(store.set_calibration(record(1001, 400, 600)), Err(GestureError::InvalidInput));
    assert_eq!(store.get_calibration(), None);
}

#[test]
fn rejects_empty_slider() {
    let mut store = CalibrationStore::new();
    assert_eq!(store.set_calibration(record(100, 400, 400)), Err(GestureError::InvalidInput));
}

#[test]
fn rejects_reversed_slider() {
    let mut store = CalibrationStore::new();
    assert_eq!(store.set_calibration(record(100, 600, 400)), Err(GestureError::InvalidInput));
}

#[test]
fn accepts_radius_at_limit() {
    let mut store = CalibrationStore::new();
    assert_eq!(store.set_calibration(record(1000, 400, 600)), Ok(()));
    assert_eq!(store.get_calibration(), Some(record(1000, 400, 600)));
}

#[test]
fn accepts_slider_from_zero() {
    let mut store = CalibrationStore::new();
    assert_eq!(store.set_calibration(record(100, 0, 100)), Ok(()));
    assert_eq!(store.get_calibration(), Some(record(100, 0, 100)));
}

#[test]
fn new_store_is_empty() {
    let store = CalibrationStore::new();
    assert_eq!(store.get_calibration(), None);
}

#[test]
fn rejected_update_keeps_previous_record() {
    let mut store = CalibrationStore::new();
    assert_eq!(store.set_calibration(record(100, 400, 600)), Ok(()));
    assert_eq!(store.set_calibration(record(0, 400, 600)), Err(GestureError::InvalidInput));
    assert_eq!(store.get_calibration(), Some(record(100, 400, 600)));
}

#[test]
fn accepted_update_replaces_record() {
    let mut store = CalibrationStore::new();
    assert_eq!(store.set_calibration(record(100, 400, 600)), Ok(()));
    assert_eq!(store.set_calibration(record(200, 10, 20)), Ok(()));
    assert_eq!(store.get_calibration(), Some(record(200, 10, 20)));
}

#[test]
fn validate_matches_store() {
    assert_eq!(record(1, 0, 1).validate(), Ok(()));
    assert_eq!(record(1, 1, 0).validate(), Err(GestureError::InvalidInput));
}
