use google_maps_places::{decode_response, GoogleMapPlaceError, Places, Response};

const API_KEY: &str = "google-maps-secret-key";

const PLACE_001: &str = r#"{
  "html_attributions": [],
  "result": {
    "address_components": [
      { "long_name": "7", "short_name": "7", "types": ["street_number"] },
      { "long_name": "Leboh Palas", "short_name": "Lebuh Palas", "types": ["route"] },
      { "long_name": "Taman Selatan", "short_name": "Taman Selatan", "types": ["political", "sublocality", "sublocality_level_1"] },
      { "long_name": "41200", "short_name": "41200", "types": ["postal_code"] },
      { "long_name": "Klang", "short_name": "Klang", "types": ["locality", "political"] },
      { "long_name": "Selangor", "short_name": "Selangor", "types": ["administrative_area_level_1", "political"] },
      { "long_name": "Malaysia", "short_name": "MY", "types": ["country", "political"] }
    ],
    "formatted_address": "7, Leboh Palas, Taman Selatan, 41200 Klang, Selangor, Malaysia",
    "geometry": {
      "location": { "lat": 3.0270637, "lng": 101.4379739 },
      "viewport": {
        "northeast": { "lat": 3.028371480291502, "lng": 101.4393057302915 },
        "southwest": { "lat": 3.025673519708498, "lng": 101.4366077697085 }
      }
    },
    "name": "7, Leboh Palas",
    "place_id": "place-001"
  },
  "status": "OK"
}"#;

const PLACE_INVALID: &str = r#"{ "html_attributions": [], "status": "INVALID_REQUEST" }"#;

const PLACE_DENIED: &str = r#"{
  "error_message": "The provided API key is invalid.",
  "html_attributions": [],
  "status": "REQUEST_DENIED"
}"#;

fn query_value<'a>(url: &'a str, name: &str) -> Option<&'a str> {
    let query = url.split_once('?')?.1;
    query
        .split('&')
        .filter_map(|pair| pair.split_once('='))
        .find(|(k, _)| *k == name)
        .map(|(_, v)| v)
}

/// Stands in for the service: answers `body` to a details request for
/// `place_id` made with the test key, and fails any other request.
fn serve(place_id: &'static str, body: &'static str) -> impl Fn(&str) -> Result<String, String> {
    move |url: &str| {
        let on_path = url.contains("/maps/api/place/details/json?");
        if on_path && query_value(url, "place_id") == Some(place_id) && query_value(url, "key") == Some(API_KEY) {
            Ok(body.to_string())
        } else {
            Err(format!("no mock matches {}", url))
        }
    }
}

#[test]
fn test_valid_map_place() {
    let place = Places {
        api_key: API_KEY.into(),
    };
    let res = match place.get_map_place("place-001", serve("place-001", PLACE_001)) {
        Ok(b) => b,
        Err(_e) => {
            assert!(false);
            return;
        }
    };

    let result = match res {
        Response::OK { result } => result,
        _ => {
            assert!(false);
            return;
        }
    };

    let geometry = result.geometry.as_ref().unwrap();
    assert_eq!(geometry.location.lat.parse::<f64>().unwrap(), 3.0270637);
    assert_eq!(geometry.location.lng.parse::<f64>().unwrap(), 101.4379739);
    assert_eq!(geometry.viewport.northeast.lat.parse::<f64>().unwrap(), 3.028371480291502);
    assert_eq!(geometry.viewport.northeast.lng.parse::<f64>().unwrap(), 101.4393057302915);
    assert_eq!(geometry.viewport.southwest.lat.parse::<f64>().unwrap(), 3.025673519708498);
    assert_eq!(geometry.viewport.southwest.lng.parse::<f64>().unwrap(), 101.4366077697085);
    assert_eq!(result.street_number().unwrap(), "7");
    assert_eq!(result.route().unwrap(), "Leboh Palas");
    assert_eq!(result.sublocality().unwrap(), "Taman Selatan");
    assert_eq!(result.postal_code().unwrap(), "41200");
    assert_eq!(result.city().unwrap(), "Klang");
    assert_eq!(result.state().unwrap(), "Selangor");
    assert_eq!(result.country().unwrap(), "Malaysia");
    assert_eq!(result.country_code().unwrap(), "MY");
}

#[test]
fn test_invalid_map_place() {
    let place = Places {
        api_key: API_KEY.into(),
    };
    let res = match place.get_map_place("place-invalid", serve("place-invalid", PLACE_INVALID)) {
        Ok(b) => b,
        Err(_e) => {
            assert!(false);
            return;
        }
    };

    if let Response::InvalidRequest = res {
        assert!(true);
    } else {
        assert!(false);
    }
}

#[test]
fn test_denied_map_place() {
    let place = Places {
        api_key: API_KEY.into(),
    };
    let res = match place.get_map_place("place-denied", serve("place-denied", PLACE_DENIED)) {
        Ok(b) => b,
        Err(_e) => {
            assert!(false);
            return;
        }
    };

    if let Response::RequestDenied { error_message } = res {
        assert!(true);
        assert_eq!(error_message, "The provided API key is invalid.");
    } else {
        assert!(false);
    }
}

#[test]
fn empty_place_id_is_refused_before_any_request() {
    let place = Places::new(API_KEY);
    let res = place.get_map_place("", |_url: &str| -> Result<String, String> {
        panic!("no request may be made for an empty place id")
    });
    match res {
        Err(GoogleMapPlaceError::BadRequest(m)) => assert_eq!(m, "Place id is required"),
        other => panic!("unexpected outcome {:?}", other),
    }
}

#[test]
fn request_url_encodes_id_and_key() {
    let place = Places::new("k&y=1");
    let url = place.request_url("a b/ü").unwrap();
    assert_eq!(
        url,
        "https://maps.googleapis.com/maps/api/place/details/json?place_id=a+b%2F%C3%BC&key=k%26y%3D1"
    );
    let plain = Places::new(API_KEY).request_url("ChIJATaCWGU3zDER32m__CAwDyY").unwrap();
    assert_eq!(
        plain,
        "https://maps.googleapis.com/maps/api/place/details/json?place_id=ChIJATaCWGU3zDER32m__CAwDyY&key=google-maps-secret-key"
    );
}

#[test]
fn all_canonical_components_are_found_and_counted() {
    let result = match decode_response(PLACE_001).unwrap() {
        Response::OK { result } => result,
        other => panic!("unexpected outcome {:?}", other),
    };
    assert_eq!(result.address_components.len(), 7);
    assert_eq!(result.place_id, "place-001");
    assert_eq!(result.name, "7, Leboh Palas");
    assert_eq!(result.formatted_address, "7, Leboh Palas, Taman Selatan, 41200 Klang, Selangor, Malaysia");
    assert_eq!(result.address_components[2].types, vec!["political", "sublocality", "sublocality_level_1"]);
}

#[test]
fn invalid_request_ignores_other_members() {
    let body = r#"{"status": "INVALID_REQUEST", "error_message": "x", "result": {"name": 3}}"#;
    assert!(matches!(decode_response(body), Ok(Response::InvalidRequest)));
}

#[test]
fn other_statuses_decode() {
    assert!(matches!(decode_response(r#"{"status": "ZERO_RESULTS"}"#), Ok(Response::ZeroResults)));
    assert!(matches!(decode_response(r#"{"status": "OVER_QUERY_LIMIT"}"#), Ok(Response::OverQueryLimit)));
    assert!(matches!(decode_response(r#"{"status": "SOMETHING_ELSE"}"#), Ok(Response::UnknownError)));
    assert!(matches!(decode_response(r#"{"status": 7}"#), Ok(Response::UnknownError)));
    assert!(matches!(decode_response(r#"{"results": []}"#), Ok(Response::UnknownError)));
    assert!(matches!(decode_response("[1, 2]"), Ok(Response::UnknownError)));
}

#[test]
fn request_denied_without_message_is_empty() {
    match decode_response(r#"{"status": "REQUEST_DENIED"}"#) {
        Ok(Response::RequestDenied { error_message }) => assert_eq!(error_message, ""),
        other => panic!("unexpected outcome {:?}", other),
    }
}

#[test]
fn malformed_bodies_are_unknown_errors() {
    assert!(matches!(decode_response("not json"), Err(GoogleMapPlaceError::Unknown(_))));
    assert!(matches!(decode_response(r#"{"status": "OK"}"#), Err(GoogleMapPlaceError::Unknown(_))));
    let bad_result = r#"{"status": "OK", "result": {"place_id": "p", "name": "n", "formatted_address": "a", "address_components": [{"long_name": "x", "short_name": "x", "types": [1]}]}}"#;
    assert!(matches!(decode_response(bad_result), Err(GoogleMapPlaceError::Unknown(_))));
}

#[test]
fn transport_failure_message_is_kept() {
    let place = Places::new(API_KEY);
    let res = place.get_map_place("place-001", |_url: &str| -> Result<String, String> {
        Err("connection refused".to_string())
    });
    match res {
        Err(GoogleMapPlaceError::Unknown(m)) => assert_eq!(m, "connection refused"),
        other => panic!("unexpected outcome {:?}", other),
    }
    match Places::read_reply(Err("timed out".to_string())) {
        Err(GoogleMapPlaceError::Unknown(m)) => assert_eq!(m, "timed out"),
        other => panic!("unexpected outcome {:?}", other),
    }
}

#[test]
fn missing_geometry_and_tags() {
    let body = r#"{"status": "OK", "result": {"place_id": "p", "name": "n", "formatted_address": "a", "geometry": null,
        "address_components": [
            {"long_name": "First", "short_name": "F", "types": ["locality"]},
            {"long_name": "Second", "short_name": "S", "types": ["locality"]},
            {"long_name": "NoTags", "short_name": "N", "types": []}
        ]}}"#;
    let result = match decode_response(body).unwrap() {
        Response::OK { result } => result,
        other => panic!("unexpected outcome {:?}", other),
    };
    assert!(result.geometry.is_none());
    assert_eq!(result.city(), Some("First"));
    assert_eq!(result.street_number(), None);
    assert_eq!(result.country_code(), None);
    assert_eq!(result.long_name("locality"), Some("First"));
    assert_eq!(result.short_name("locality"), Some("F"));
}

#[test]
fn lookups_repeat() {
    let result = match decode_response(PLACE_001).unwrap() {
        Response::OK { result } => result,
        other => panic!("unexpected outcome {:?}", other),
    };
    assert_eq!(result.route(), result.route());
    assert_eq!(result.country_code(), result.country_code());
    assert_eq!(result.state(), Some("Selangor"));
    assert_eq!(result.state(), Some("Selangor"));
}

#[test]
fn coordinates_keep_their_digits() {
    let result = match decode_response(PLACE_001).unwrap() {
        Response::OK { result } => result,
        other => panic!("unexpected outcome {:?}", other),
    };
    let g = result.geometry.unwrap();
    assert_eq!(g.location.lat, "3.0270637");
    assert_eq!(g.viewport.southwest.lng, "101.4366077697085");
    assert_eq!(g.location.lat.parse::<f64>().unwrap(), 3.0270637);
}
