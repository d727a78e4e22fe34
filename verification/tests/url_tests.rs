use what3words::query::{bool_to_str, join_with_commas, parse_optional, parse_url};
use what3words::{
    AutoSuggestOptions, BoundingBox, Circle, ConvertTo3WAOptions, ConvertToCoordinatesOptions,
    Coordinate, GridSectionOptions, Polygon, W3WClient, W3WHOST,
};

fn coordinate(latitude: f64, longitude: f64) -> Coordinate {
    Coordinate {
        latitude: format!("{}", latitude),
        longitude: format!("{}", longitude),
    }
}

fn test_client() -> W3WClient {
    let mut w3_client = W3WClient::new("mock-api-key");
    w3_client.host = String::from("https://test.com");
    w3_client
}

#[test]
fn test_parsing_url() {
    let mut w3_client = W3WClient::new("mock-api-key");
    w3_client.host = String::from("https://test.com");
    let options = AutoSuggestOptions {
        language: Some("nl"),
        prefer_land: Some(false),
        ..Default::default()
    };

    let mut url = format!("{}/endpoint?key={}", w3_client.host, w3_client.api_key);
    if let Some(language) = options.language {
        url = parse_url(url, "language", language);
    }
    if let Some(prefer_land) = options.prefer_land {
        url = parse_url(url, "prefer-land", &format!("{}", prefer_land));
    }
    assert_eq!(
        url.to_string(),
        "https://test.com/endpoint?key=mock-api-key&language=nl&prefer-land=false"
    );
}

#[test]
fn parse_url_appends_one_parameter() {
    let url = parse_url(String::from("https://test.com/endpoint?key=k"), "language", "nl");
    assert_eq!(url, "https://test.com/endpoint?key=k&language=nl");
}

#[test]
fn parse_url_takes_empty_parts() {
    assert_eq!(parse_url(String::new(), "", ""), "&=");
}

#[test]
fn parse_optional_leaves_the_url_without_a_value() {
    let url = parse_optional(String::from("u?key=k"), "format", None);
    assert_eq!(url, "u?key=k");
    let url = parse_optional(String::from("u?key=k"), "format", Some("geojson"));
    assert_eq!(url, "u?key=k&format=geojson");
}

#[test]
fn booleans_are_written_as_words() {
    assert_eq!(bool_to_str(true), "true");
    assert_eq!(bool_to_str(false), "false");
    assert_eq!(bool_to_str(true), format!("{}", true));
    assert_eq!(bool_to_str(false), format!("{}", false));
}

#[test]
fn commas_stand_between_the_parts() {
    assert_eq!(join_with_commas(&vec![]), "");
    assert_eq!(join_with_commas(&vec!["GB"]), "GB");
    assert_eq!(join_with_commas(&vec!["GB", "BE"]), "GB,BE");
    assert_eq!(join_with_commas(&vec!["GB", "", "BE"]), "GB,,BE");
}

#[test]
fn new_client_has_the_key_and_the_default_host() {
    let w3_client = W3WClient::new("your_api_key");
    assert_eq!(w3_client.api_key, "your_api_key");
    assert_eq!(w3_client.host, "https://api.what3words.com/v3");
    assert_eq!(w3_client.host, W3WHOST);
}

#[test]
fn default_options_hold_nothing() {
    let options = ConvertTo3WAOptions::default();
    assert!(options.language.is_none() && options.format.is_none() && options.locale.is_none());
    let options = ConvertToCoordinatesOptions::default();
    assert!(options.format.is_none() && options.locale.is_none());
    let options = GridSectionOptions::default();
    assert!(options.format.is_none());
    let options = AutoSuggestOptions::default();
    assert!(options.focus_coordinates.is_none());
    assert!(options.circle.is_none());
    assert!(options.countries.is_none());
    assert!(options.bounding_box.is_none());
    assert!(options.polygon.is_none());
    assert!(options.language.is_none());
    assert!(options.prefer_land.is_none());
    assert!(options.locale.is_none());
}

#[test]
fn convert_to_3wa_url_without_options() {
    let url = test_client()
        .convert_to_3wa_url(&coordinate(50.01, 4.53234), &ConvertTo3WAOptions::default());
    assert_eq!(
        url,
        "https://test.com/convert-to-3wa?key=mock-api-key&coordinates=50.01,4.53234"
    );
}

#[test]
fn convert_to_3wa_url_with_every_option() {
    let options = ConvertTo3WAOptions {
        language: Some("nl"),
        format: Some("geojson"),
        locale: Some("nl_BE"),
    };
    let url = test_client().convert_to_3wa_url(&coordinate(50.0012, -3.23), &options);
    assert_eq!(
        url,
        "https://test.com/convert-to-3wa?key=mock-api-key&coordinates=50.0012,-3.23\
         &language=nl&format=geojson&locale=nl_BE"
    );
}

#[test]
fn convert_to_3wa_url_with_one_option() {
    let options = ConvertTo3WAOptions {
        format: Some("json"),
        ..Default::default()
    };
    let url = test_client().convert_to_3wa_url(&coordinate(50.0012, -3.23), &options);
    assert_eq!(
        url,
        "https://test.com/convert-to-3wa?key=mock-api-key&coordinates=50.0012,-3.23&format=json"
    );
}

#[test]
fn convert_to_coordinates_url_without_options() {
    let url = test_client()
        .convert_to_coordinates_url("fight.offer.airbag", &ConvertToCoordinatesOptions::default());
    assert_eq!(
        url,
        "https://test.com/convert-to-coordinates?words=fight.offer.airbag&key=mock-api-key"
    );
}

#[test]
fn convert_to_coordinates_url_with_every_option() {
    let options = ConvertToCoordinatesOptions {
        format: Some("geojson"),
        locale: Some("mn_la"),
    };
    let url = test_client().convert_to_coordinates_url("fight.offer.airbag", &options);
    assert_eq!(
        url,
        "https://test.com/convert-to-coordinates?words=fight.offer.airbag&key=mock-api-key\
         &format=geojson&locale=mn_la"
    );
}

#[test]
fn available_languages_url_has_only_the_key() {
    assert_eq!(
        test_client().available_languages_url(),
        "https://test.com/available-languages?key=mock-api-key"
    );
    assert_eq!(
        W3WClient::new("k").available_languages_url(),
        "https://api.what3words.com/v3/available-languages?key=k"
    );
}

#[test]
fn autosuggest_url_without_options() {
    let url = test_client().autosuggest_url("fight.offer.ai", &AutoSuggestOptions::default());
    assert_eq!(
        url,
        "https://test.com/autosuggest?key=mock-api-key&input=fight.offer.ai"
    );
}

#[test]
fn autosuggest_url_with_every_option() {
    let focus = coordinate(51.0, 4.0);
    let circle = Circle {
        centerpoint: &focus,
        radius: String::from("35"),
    };
    let countries = vec!["GB", "BE"];
    let south_west = coordinate(-4.0, 178.2);
    let north_east = coordinate(22.0, 195.4);
    let bounding_box = BoundingBox {
        south_west: &south_west,
        north_east: &north_east,
    };
    let corner1 = coordinate(51.521, -0.343);
    let corner2 = coordinate(52.6, 2.3324);
    let corner3 = coordinate(54.234, 8.343);
    let polygon = Polygon {
        coordinates: vec![&corner1, &corner2, &corner3],
    };
    let options = AutoSuggestOptions {
        focus_coordinates: Some(&focus),
        circle: Some(&circle),
        countries: Some(&countries),
        bounding_box: Some(&bounding_box),
        polygon: Some(&polygon),
        language: Some("nl"),
        prefer_land: Some(true),
        locale: Some("nl_BE"),
    };
    let url = test_client().autosuggest_url("fight.offer.ai", &options);
    assert_eq!(
        url,
        "https://test.com/autosuggest?key=mock-api-key&input=fight.offer.ai\
         &focus=51,4\
         &clip-to-circle=51,4,35\
         &clip-to-country=GB,BE\
         &clip-to-bounding-box=-4,178.2,22,195.4\
         &clip-to-polygon=51.521,-0.343,52.6,2.3324,54.234,8.343,51.521,-0.343\
         &language=nl\
         &prefer-land=true\
         &locale=nl_BE"
    );
}

#[test]
fn autosuggest_url_with_some_options() {
    let options = AutoSuggestOptions {
        language: Some("nl"),
        prefer_land: Some(false),
        ..Default::default()
    };
    let url = test_client().autosuggest_url("fight.offer.ai", &options);
    assert_eq!(
        url,
        "https://test.com/autosuggest?key=mock-api-key&input=fight.offer.ai\
         &language=nl&prefer-land=false"
    );
}

#[test]
fn autosuggest_url_with_countries() {
    let one = vec!["GB"];
    let options = AutoSuggestOptions {
        countries: Some(&one),
        ..Default::default()
    };
    let url = test_client().autosuggest_url("a.b.c", &options);
    assert_eq!(
        url,
        "https://test.com/autosuggest?key=mock-api-key&input=a.b.c&clip-to-country=GB"
    );
    let none: Vec<&str> = vec![];
    let options = AutoSuggestOptions {
        countries: Some(&none),
        ..Default::default()
    };
    let url = test_client().autosuggest_url("a.b.c", &options);
    assert_eq!(
        url,
        "https://test.com/autosuggest?key=mock-api-key&input=a.b.c&clip-to-country="
    );
}

#[test]
fn grid_section_url_without_options() {
    let south_west = coordinate(-4.0, 178.2);
    let north_east = coordinate(22.0, 195.4);
    let bounding_box = BoundingBox {
        south_west: &south_west,
        north_east: &north_east,
    };
    let url = test_client().grid_section_url(&bounding_box, &GridSectionOptions::default());
    assert_eq!(
        url,
        "https://test.com/grid-section?bounding-box=-4,178.2,22,195.4&key=mock-api-key"
    );
}

#[test]
fn grid_section_url_with_format() {
    let south_west = coordinate(52.207988, 0.116126);
    let north_east = coordinate(52.208867, 0.11754);
    let bounding_box = BoundingBox {
        south_west: &south_west,
        north_east: &north_east,
    };
    let options = GridSectionOptions {
        format: Some("geojson"),
    };
    let url = test_client().grid_section_url(&bounding_box, &options);
    assert_eq!(
        url,
        "https://test.com/grid-section?bounding-box=52.207988,0.116126,52.208867,0.11754\
         &key=mock-api-key&format=geojson"
    );
}
