use geo_rs::angle::{normalize_heading, FULL_TURN};
use geo_rs::compass::{
    heading_to_azimuth_16point, heading_to_azimuth_4point, heading_to_azimuth_8point, Azimuth,
};

const ROSE: [Azimuth; 16] = [
    Azimuth::N,
    Azimuth::NNE,
    Azimuth::NE,
    Azimuth::ENE,
    Azimuth::E,
    Azimuth::ESE,
    Azimuth::SE,
    Azimuth::SSE,
    Azimuth::S,
    Azimuth::SSW,
    Azimuth::SW,
    Azimuth::WSW,
    Azimuth::W,
    Azimuth::WNW,
    Azimuth::NW,
    Azimuth::NNW,
];

#[test]
fn test_heading_to_azimuth_16point() {
    assert_eq!(heading_to_azimuth_16point(0).0, Azimuth::N);
    assert_eq!(heading_to_azimuth_16point(22_500).0, Azimuth::NNE);
    assert_eq!(heading_to_azimuth_16point(45_000).0, Azimuth::NE);
    assert_eq!(heading_to_azimuth_16point(67_500).0, Azimuth::ENE);
    assert_eq!(heading_to_azimuth_16point(90_000).0, Azimuth::E);
    assert_eq!(heading_to_azimuth_16point(180_000).0, Azimuth::S);
    assert_eq!(heading_to_azimuth_16point(270_000).0, Azimuth::W);
    assert_eq!(heading_to_azimuth_16point(359_000).0, Azimuth::N);
}

#[test]
fn test_heading_to_azimuth_8point() {
    assert_eq!(heading_to_azimuth_8point(0).0, Azimuth::N);
    assert_eq!(heading_to_azimuth_8point(45_000).0, Azimuth::NE);
    assert_eq!(heading_to_azimuth_8point(90_000).0, Azimuth::E);
    assert_eq!(heading_to_azimuth_8point(135_000).0, Azimuth::SE);
    assert_eq!(heading_to_azimuth_8point(180_000).0, Azimuth::S);
    assert_eq!(heading_to_azimuth_8point(225_000).0, Azimuth::SW);
    assert_eq!(heading_to_azimuth_8point(270_000).0, Azimuth::W);
    assert_eq!(heading_to_azimuth_8point(315_000).0, Azimuth::NW);
}

#[test]
fn test_heading_to_azimuth_4point() {
    assert_eq!(heading_to_azimuth_4point(0).0, Azimuth::N);
    assert_eq!(heading_to_azimuth_4point(44_000).0, Azimuth::N);
    assert_eq!(heading_to_azimuth_4point(90_000).0, Azimuth::E);
    assert_eq!(heading_to_azimuth_4point(180_000).0, Azimuth::S);
    assert_eq!(heading_to_azimuth_4point(270_000).0, Azimuth::W);
}

#[test]
fn test_azimuth_names() {
    assert_eq!(Azimuth::N.name(), "North");
    assert_eq!(Azimuth::NE.name(), "North-East");
    assert_eq!(Azimuth::SSW.abbreviation(), "SSW");
}

#[test]
fn compass_test_heading_normalization() {
    let (dir, heading) = heading_to_azimuth_16point(370_000);
    assert_eq!(heading, 10_000);
    assert_eq!(dir, Azimuth::N);

    let (dir, heading) = heading_to_azimuth_16point(-10_000);
    assert_eq!(heading, 350_000);
    assert_eq!(dir, Azimuth::N);
}

#[test]
fn test_display() {
    assert_eq!(Azimuth::N.to_string(), "N");
    assert_eq!(Azimuth::NNE.to_string(), "NNE");
    assert_eq!(Azimuth::SE.to_string(), "SE");
}

#[test]
fn every_point_has_its_name_and_abbreviation() {
    let names = [
        "North",
        "North-NorthEast",
        "North-East",
        "East-NorthEast",
        "East",
        "East-SouthEast",
        "South-East",
        "South-SouthEast",
        "South",
        "South-SouthWest",
        "South-West",
        "West-SouthWest",
        "West",
        "West-NorthWest",
        "North-West",
        "North-NorthWest",
    ];
    let short = [
        "N", "NNE", "NE", "ENE", "E", "ESE", "SE", "SSE", "S", "SSW", "SW", "WSW", "W", "WNW",
        "NW", "NNW",
    ];
    for i in 0..16 {
        assert_eq!(ROSE[i].name(), names[i]);
        assert_eq!(ROSE[i].abbreviation(), short[i]);
        assert_eq!(ROSE[i].to_string(), short[i]);
    }
}

#[test]
fn upper_bound_of_a_span_belongs_to_the_next_point() {
    assert_eq!(heading_to_azimuth_16point(11_250).0, Azimuth::NNE);
    assert_eq!(heading_to_azimuth_16point(11_240).0, Azimuth::N);
    assert_eq!(heading_to_azimuth_16point(11_249).0, Azimuth::N);
    assert_eq!(heading_to_azimuth_8point(22_500).0, Azimuth::NE);
    assert_eq!(heading_to_azimuth_8point(22_499).0, Azimuth::N);
    assert_eq!(heading_to_azimuth_4point(45_000).0, Azimuth::E);
    assert_eq!(heading_to_azimuth_4point(44_999).0, Azimuth::N);
}

#[test]
fn north_wraps_round_the_top() {
    assert_eq!(heading_to_azimuth_16point(348_749).0, Azimuth::NNW);
    assert_eq!(heading_to_azimuth_16point(348_750).0, Azimuth::N);
    assert_eq!(heading_to_azimuth_16point(359_999).0, Azimuth::N);
    assert_eq!(heading_to_azimuth_8point(337_499).0, Azimuth::NW);
    assert_eq!(heading_to_azimuth_8point(337_500).0, Azimuth::N);
    assert_eq!(heading_to_azimuth_4point(314_999).0, Azimuth::W);
    assert_eq!(heading_to_azimuth_4point(315_000).0, Azimuth::N);
}

#[test]
fn sixteen_point_rose_follows_its_table() {
    for k in 0..16i32 {
        let centre = k * 22_500;
        assert_eq!(heading_to_azimuth_16point(centre).0, ROSE[k as usize]);
        assert_eq!(heading_to_azimuth_16point(centre + 11_249).0, ROSE[k as usize]);
        assert_eq!(heading_to_azimuth_16point(centre - 11_250).0, ROSE[k as usize]);
        assert_eq!(heading_to_azimuth_16point(centre + 11_250).0, ROSE[((k + 1) % 16) as usize]);
    }
}

#[test]
fn eight_and_four_point_roses_follow_their_tables() {
    for k in 0..8i32 {
        let centre = k * 45_000;
        assert_eq!(heading_to_azimuth_8point(centre).0, ROSE[(2 * k) as usize]);
        assert_eq!(heading_to_azimuth_8point(centre + 22_499).0, ROSE[(2 * k) as usize]);
        assert_eq!(heading_to_azimuth_8point(centre - 22_500).0, ROSE[(2 * k) as usize]);
    }
    for k in 0..4i32 {
        let centre = k * 90_000;
        assert_eq!(heading_to_azimuth_4point(centre).0, ROSE[(4 * k) as usize]);
        assert_eq!(heading_to_azimuth_4point(centre + 44_999).0, ROSE[(4 * k) as usize]);
        assert_eq!(heading_to_azimuth_4point(centre - 45_000).0, ROSE[(4 * k) as usize]);
    }
}

#[test]
fn normalized_heading_is_in_range_and_periodic() {
    for h in [-720_001, -360_000, -1, 0, 1, 11_250, 359_999, 360_000, 725_000, i32::MAX, i32::MIN] {
        let n = normalize_heading(h);
        assert!(0 <= n && n < FULL_TURN);
        assert_eq!(((h as i64 - n as i64) % 360_000), 0);
        for turns in [-3i64, -1, 1, 2] {
            let shifted = h as i64 + turns * 360_000;
            if shifted >= i32::MIN as i64 && shifted <= i32::MAX as i64 {
                assert_eq!(normalize_heading(shifted as i32), n);
            }
        }
    }
    assert_eq!(normalize_heading(370_000), 10_000);
    assert_eq!(normalize_heading(-10_000), 350_000);
    assert_eq!(normalize_heading(360_000), 0);
    assert_eq!(normalize_heading(-360_000), 0);
}

#[test]
fn classification_returns_the_normalized_heading() {
    assert_eq!(heading_to_azimuth_16point(-90_000), (Azimuth::W, 270_000));
    assert_eq!(heading_to_azimuth_8point(405_000), (Azimuth::NE, 45_000));
    assert_eq!(heading_to_azimuth_4point(-45_000), (Azimuth::N, 315_000));
    assert_eq!(heading_to_azimuth_4point(-45_001), (Azimuth::W, 314_999));
}

#[test]
fn roses_agree_where_they_share_a_point() {
    let mut h = 0;
    while h < 360_000 {
        let p16 = heading_to_azimuth_16point(h).0;
        let p8 = heading_to_azimuth_8point(h).0;
        let p4 = heading_to_azimuth_4point(h).0;
        let i16 = ROSE.iter().position(|p| *p == p16).unwrap();
        let i8 = ROSE.iter().position(|p| *p == p8).unwrap();
        let i4 = ROSE.iter().position(|p| *p == p4).unwrap();
        assert_eq!(i8 % 2, 0);
        assert_eq!(i4 % 4, 0);
        if i16 % 2 == 0 {
            assert_eq!(p8, p16);
        }
        if i8 % 4 == 0 {
            assert_eq!(p4, p8);
        }
        h += 1_250;
    }
}
