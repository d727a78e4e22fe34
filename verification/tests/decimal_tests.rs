use what3words::decimal::is_decimal_text;
use what3words::{BoundingBox, Circle, Coordinate, Polygon};

fn point(latitude: &str, longitude: &str) -> Coordinate {
    Coordinate {
        latitude: String::from(latitude),
        longitude: String::from(longitude),
    }
}

#[test]
fn numbers_in_decimal_notation() {
    for text in [
        "0", "7", "51", "-3", "-0", "50.12345", "-3.98765", "0.116126", "-0.203586", "007",
        "1.0", "100000000000000000000", "0.00001",
    ] {
        assert!(is_decimal_text(text), "{}", text);
    }
}

#[test]
fn texts_that_are_no_decimal_numbers() {
    for text in [
        "", "-", ".", "-.", "1.", ".5", "-.5", "1..2", "1.2.3", "--1", "+1", "1-", "1,2", "1 ",
        " 1", "1e5", "1E-5", "NaN", "inf", "-inf", "0x10", "1_000", "١٢", "1.٢", "é", "1&x=2",
    ] {
        assert!(!is_decimal_text(text), "{}", text);
    }
}

#[test]
fn finite_floats_are_written_in_decimal_notation() {
    let floats: [f64; 10] = [
        50.12345, -3.98765, 51.0, -3.0, 0.0, -0.0, 1e21, 1e-7, 12.3, 195.4,
    ];
    for float in floats {
        assert!(is_decimal_text(&format!("{}", float)), "{}", float);
    }
    for float in [f64::NAN, f64::INFINITY, f64::NEG_INFINITY] {
        assert!(!is_decimal_text(&format!("{}", float)), "{}", float);
    }
}

#[test]
fn a_coordinate_is_well_formed_when_both_numbers_are() {
    assert!(point("50.12345", "-3.98765").is_well_formed());
    assert!(!point("50.12345", "").is_well_formed());
    assert!(!point("north", "-3.98765").is_well_formed());
    assert!(!point("50,12345", "-3.98765").is_well_formed());
}

#[test]
fn a_well_formed_coordinate_holds_one_comma() {
    let text = point("50.12345", "-3.98765").to_string();
    assert_eq!(text.matches(',').count(), 1);
}

#[test]
fn a_circle_is_well_formed_when_its_numbers_are() {
    let center = point("51", "4");
    let circle = Circle { centerpoint: &center, radius: String::from("35") };
    assert!(circle.is_well_formed());
    assert_eq!(circle.to_string().matches(',').count(), 2);
    let circle = Circle { centerpoint: &center, radius: String::from("35km") };
    assert!(!circle.is_well_formed());
    let nowhere = point("", "4");
    let circle = Circle { centerpoint: &nowhere, radius: String::from("35") };
    assert!(!circle.is_well_formed());
}

#[test]
fn a_bounding_box_is_well_formed_when_both_corners_are() {
    let south_west = point("-4", "178.2");
    let north_east = point("22", "195.4");
    let broken = point("22", "east");
    let bounding_box = BoundingBox { south_west: &south_west, north_east: &north_east };
    assert!(bounding_box.is_well_formed());
    assert_eq!(bounding_box.to_string().matches(',').count(), 3);
    assert!(!BoundingBox { south_west: &south_west, north_east: &broken }.is_well_formed());
    assert!(!BoundingBox { south_west: &broken, north_east: &north_east }.is_well_formed());
}

#[test]
fn a_polygon_is_well_formed_when_it_has_corners_and_all_are() {
    let a = point("51.521", "-0.343");
    let b = point("52.6", "2.3324");
    let c = point("54.234", "8.343");
    let broken = point("54.234", "8,343");
    let polygon = Polygon { coordinates: vec![&a, &b, &c] };
    assert!(polygon.is_well_formed());
    assert_eq!(polygon.to_string().matches(',').count(), 2 * 3 + 1);
    assert!(!Polygon { coordinates: vec![] }.is_well_formed());
    assert!(!Polygon { coordinates: vec![&a, &b, &broken] }.is_well_formed());
    assert!(!Polygon { coordinates: vec![&broken, &b, &c] }.is_well_formed());
    assert!(Polygon { coordinates: vec![&a] }.is_well_formed());
}
