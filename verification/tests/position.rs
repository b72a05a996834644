use geo_rs::position::{Position, COORDINATE_SCALE};
use geo_rs::GpsTracker;

#[test]
fn test_position_new_and_display() {
    let pos = Position::new(480_574_400, -1_231_196_250);

    assert_eq!(pos.latitude, 480_574_400);
    assert_eq!(pos.longitude, -1_231_196_250);

    let display = pos.to_string();
    assert_eq!(display, "(48.057440°, -123.119625°)");

    println!("Position created: {}", pos.to_string());
}

#[test]
fn coordinates_are_shown_with_six_places() {
    assert_eq!(COORDINATE_SCALE, 10_000_000);
    assert_eq!(Position::new(0, 0).to_string(), "(0.000000°, 0.000000°)");
    assert_eq!(Position::new(900_000_000, 1_800_000_000).to_string(), "(90.000000°, 180.000000°)");
    assert_eq!(Position::new(-900_000_000, -1_800_000_000).to_string(), "(-90.000000°, -180.000000°)");
    assert_eq!(Position::new(10, -10).to_string(), "(0.000001°, -0.000001°)");
    assert_eq!(Position::new(100_000_000, 1_000_000_010).to_string(), "(10.000000°, 100.000001°)");
    assert_eq!(Position::new(12_345_678, -98_765_432).to_string(), "(1.234568°, -9.876543°)");
}

#[test]
fn seventh_place_is_rounded_half_away_from_zero() {
    assert_eq!(Position::new(4, -4).to_string(), "(0.000000°, 0.000000°)");
    assert_eq!(Position::new(5, -5).to_string(), "(0.000001°, -0.000001°)");
    assert_eq!(Position::new(14, 15).to_string(), "(0.000001°, 0.000002°)");
    assert_eq!(Position::new(9_999_995, -9_999_995).to_string(), "(1.000000°, -1.000000°)");
    assert_eq!(Position::new(9_999_994, -9_999_994).to_string(), "(0.999999°, -0.999999°)");
    assert_eq!(Position::new(i32::MAX, i32::MIN).to_string(), "(214.748365°, -214.748365°)");
}

#[test]
fn tracker_is_reachable_from_the_root() {
    let mut tracker = GpsTracker::new();
    tracker.update_position(1, 2);
    assert_eq!(tracker.get_vector_in_direction(0, 100_000), tracker.get_vector_to_azimuth(0, 100_000));
    assert!(tracker.get_vector_in_direction(90_000, 5).is_some());
    assert_eq!(GpsTracker::new().get_vector_in_direction(0, 5), None);
}
