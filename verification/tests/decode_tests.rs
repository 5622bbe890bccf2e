use nominatim::decode::decode_coordinates;
use nominatim::decode::decode_place;
use nominatim::decode::decode_status;
use nominatim::place_from_json;
use nominatim::places_from_json;
use nominatim::status_from_json;
use nominatim::Coordinates;
use nominatim::Error;
use nominatim::GeoJsonType;
use nominatim::JsonValue;
use nominatim::LonLat;

fn num(s: &str) -> JsonValue {
    JsonValue::Num(String::from(s))
}

fn arr(items: Vec<JsonValue>) -> JsonValue {
    JsonValue::Arr(items)
}

#[test]
fn minimal_place_decodes_with_defaults() {
    let body = br#"{"place_id":123,"lat":"51.5074","lon":"-0.1278","display_name":"London"}"#;
    let place = place_from_json(body).expect("minimal place must decode");
    assert_eq!(place.place_id, 123);
    assert_eq!(place.lat, "51.5074");
    assert_eq!(place.lon, "-0.1278");
    assert_eq!(place.display_name, "London");
    assert_eq!(place.licence, "");
    assert_eq!(place.osm_type, "");
    assert_eq!(place.osm_id, 0);
    assert!(place.boundingbox.is_empty());
    assert!(place.class.is_none());
    assert!(place._type.is_none());
    assert!(place.importance.is_none());
    assert!(place.icon.is_none());
    assert!(place.address.is_none());
    assert!(place.extratags.is_none());
    assert!(place.geojson.is_none());
    assert!(place.name.is_none());
}

#[test]
fn null_optional_fields_decode_as_defaults() {
    let body = br#"{"place_id":1,"lat":"0","lon":"0","display_name":"x",
        "licence":null,"boundingbox":null,"class":null,"address":null,
        "extratags":null,"geojson":null,"name":null}"#;
    let place = place_from_json(body).expect("nulls must fall back to defaults");
    assert_eq!(place.licence, "");
    assert!(place.boundingbox.is_empty());
    assert!(place.class.is_none());
    assert!(place.address.is_none());
    assert!(place.extratags.is_none());
    assert!(place.geojson.is_none());
    assert!(place.name.is_none());
}

#[test]
fn full_place_decodes_every_field() {
    let body = br#"{
        "place_id": 100149,
        "licence": "Data by OpenStreetMap",
        "osm_type": "node",
        "osm_id": 107775,
        "boundingbox": ["51.3473219","51.6673219","-0.2876474","0.0323726"],
        "lat": "51.5073219",
        "lon": "-0.1276474",
        "display_name": "London, Greater London, England, United Kingdom",
        "class": "place",
        "type": "city",
        "importance": 0.9654895765402,
        "icon": "https://example.test/poi_place_city.p.20.png",
        "address": {
            "city": "London",
            "state_district": "Greater London",
            "state": "England",
            "ISO3166-2-lvl4": "GB-ENG",
            "postcode": "SW1A",
            "country": "United Kingdom",
            "country_code": "gb"
        },
        "extratags": {
            "capital": "yes",
            "website": "https://www.london.gov.uk",
            "wikidata": "Q84",
            "wikipedia": "en:London",
            "population": "8416535"
        },
        "geojson": {"type": "Point", "coordinates": [-0.1276474, 51.5073219]},
        "name": "London"
    }"#;
    let place = place_from_json(body).expect("full place must decode");
    assert_eq!(place.place_id, 100149);
    assert_eq!(place.licence, "Data by OpenStreetMap");
    assert_eq!(place.osm_type, "node");
    assert_eq!(place.osm_id, 107775);
    assert_eq!(
        place.boundingbox,
        vec!["51.3473219", "51.6673219", "-0.2876474", "0.0323726"]
    );
    assert_eq!(place.class.as_deref(), Some("place"));
    assert_eq!(place._type.as_deref(), Some("city"));
    assert_eq!(place.importance.as_deref(), Some("0.9654895765402"));
    let address = place.address.expect("address present");
    assert_eq!(address.city.as_deref(), Some("London"));
    assert_eq!(address.iso3166_2_lvl4.as_deref(), Some("GB-ENG"));
    assert_eq!(address.country_code.as_deref(), Some("gb"));
    let tags = place.extratags.expect("extratags present");
    assert_eq!(tags.capital.as_deref(), Some("yes"));
    assert_eq!(tags.population.as_deref(), Some("8416535"));
    let geo = place.geojson.expect("geojson present");
    assert_eq!(geo.geo_type, GeoJsonType::Point);
    assert_eq!(
        geo.coordinates,
        Coordinates::Point(LonLat {
            lon: String::from("-0.1276474"),
            lat: String::from("51.5073219"),
        })
    );
    assert_eq!(place.name.as_deref(), Some("London"));
}

fn is_request_error<T: std::fmt::Debug>(r: Result<T, Error>) -> bool {
    matches!(r, Err(Error::Request(_)))
}

#[test]
fn wrong_shapes_fail_the_whole_decode() {
    // a present field of the wrong type is an error, not a default
    assert!(is_request_error(place_from_json(br#"{"place_id":"123"}"#)));
    assert!(is_request_error(place_from_json(br#"{"licence":5}"#)));
    assert!(is_request_error(place_from_json(br#"{"place_id":-5}"#)));
    assert!(is_request_error(place_from_json(br#"{"boundingbox":["a",1]}"#)));
    assert!(is_request_error(place_from_json(br#"{"address":"x"}"#)));
    assert!(is_request_error(place_from_json(br#"[1,2]"#)));
    assert!(is_request_error(place_from_json(b"not json at all")));
}

#[test]
fn request_errors_carry_a_cause() {
    // a body that is not JSON carries the parser's description
    match place_from_json(b"not json at all") {
        Err(Error::Request(cause)) => assert!(!cause.is_empty()),
        other => panic!("expected a request error with a cause, got {:?}", other),
    }
    // a well-formed body of the wrong shape carries a description too
    match place_from_json(br#"{"place_id":"123"}"#) {
        Err(Error::Request(cause)) => assert!(!cause.is_empty()),
        other => panic!("expected a request error with a cause, got {:?}", other),
    }
}

#[test]
fn point_decodes_from_a_pair_of_numbers() {
    let v = arr(vec![num("1.0"), num("2.0")]);
    let c = decode_coordinates(&v).expect("pair is a point");
    assert_eq!(
        c,
        Coordinates::Point(LonLat { lon: String::from("1.0"), lat: String::from("2.0") })
    );
}

#[test]
fn linestring_decodes_from_a_list_of_pairs() {
    let v = arr(vec![
        arr(vec![num("1.0"), num("2.0")]),
        arr(vec![num("3.0"), num("4.0")]),
    ]);
    let c = decode_coordinates(&v).expect("list of pairs is a line string");
    assert_eq!(
        c,
        Coordinates::LineString(vec![
            LonLat { lon: String::from("1.0"), lat: String::from("2.0") },
            LonLat { lon: String::from("3.0"), lat: String::from("4.0") },
        ])
    );
}

#[test]
fn polygon_decodes_from_a_list_of_rings() {
    let v = arr(vec![arr(vec![
        arr(vec![num("1.0"), num("2.0")]),
        arr(vec![num("3.0"), num("4.0")]),
        arr(vec![num("1.0"), num("2.0")]),
    ])]);
    let c = decode_coordinates(&v).expect("list of rings is a polygon");
    assert_eq!(
        c,
        Coordinates::Polygon(vec![vec![
            LonLat { lon: String::from("1.0"), lat: String::from("2.0") },
            LonLat { lon: String::from("3.0"), lat: String::from("4.0") },
            LonLat { lon: String::from("1.0"), lat: String::from("2.0") },
        ]])
    );
}

#[test]
fn multipolygon_decodes_from_a_list_of_polygons() {
    let ring = arr(vec![
        arr(vec![num("1.0"), num("2.0")]),
        arr(vec![num("3.0"), num("4.0")]),
        arr(vec![num("1.0"), num("2.0")]),
    ]);
    let v = arr(vec![arr(vec![ring])]);
    let c = decode_coordinates(&v).expect("list of polygons is a multi-polygon");
    match c {
        Coordinates::MultiPolygon(polys) => {
            assert_eq!(polys.len(), 1);
            assert_eq!(polys[0][0].len(), 3);
        }
        other => panic!("expected a multi-polygon, got {:?}", other),
    }
}

#[test]
fn empty_array_is_the_most_specific_match_linestring() {
    let v = arr(vec![]);
    let c = decode_coordinates(&v).expect("empty array decodes");
    assert_eq!(c, Coordinates::LineString(vec![]));
}

#[test]
fn coordinates_reject_other_shapes() {
    assert!(is_request_error(decode_coordinates(&num("1.0"))));
    assert!(is_request_error(decode_coordinates(&arr(vec![num("1.0")]))));
    assert!(is_request_error(decode_coordinates(&arr(vec![
        num("1.0"),
        num("2.0"),
        num("3.0"),
    ]))));
    assert!(is_request_error(decode_coordinates(&arr(vec![
        JsonValue::Str(String::from("1")),
        num("2.0"),
    ]))));
}

#[test]
fn geojson_through_a_place_body() {
    let body = br#"{"place_id":1,"lat":"0","lon":"0","display_name":"x",
        "geojson":{"type":"LineString","coordinates":[[1.0,2.0],[3.0,4.0]]}}"#;
    let place = place_from_json(body).expect("place with line string decodes");
    let geo = place.geojson.expect("geojson present");
    assert_eq!(geo.geo_type, GeoJsonType::LineString);
    match geo.coordinates {
        Coordinates::LineString(pts) => assert_eq!(pts.len(), 2),
        other => panic!("expected a line string, got {:?}", other),
    }
}

#[test]
fn geojson_bad_type_or_missing_coordinates_fails() {
    let bad_type = br#"{"place_id":1,"lat":"0","lon":"0","display_name":"x",
        "geojson":{"type":"Blob","coordinates":[1.0,2.0]}}"#;
    assert!(is_request_error(place_from_json(bad_type)));
    let no_coords = br#"{"place_id":1,"lat":"0","lon":"0","display_name":"x",
        "geojson":{"type":"Point"}}"#;
    assert!(is_request_error(place_from_json(no_coords)));
}

#[test]
fn status_decodes_and_requires_its_fields() {
    let ok = status_from_json(br#"{"status":0,"message":"OK"}"#).expect("status decodes");
    assert_eq!(ok.status, 0);
    assert_eq!(ok.message, "OK");
    assert!(ok.data_updated.is_none());
    assert!(ok.software_version.is_none());
    assert!(ok.database_version.is_none());

    let full = status_from_json(
        br#"{"status":0,"message":"OK","data_updated":"2024-01-01T00:00:00+00:00",
            "software_version":"4.4.0","database_version":"4.4.0"}"#,
    )
    .expect("full status decodes");
    assert_eq!(full.data_updated.as_deref(), Some("2024-01-01T00:00:00+00:00"));
    assert_eq!(full.software_version.as_deref(), Some("4.4.0"));

    assert!(is_request_error(status_from_json(br#"{"message":"OK"}"#)));
    assert!(is_request_error(status_from_json(br#"{"status":0}"#)));
    assert!(is_request_error(status_from_json(br#"{"status":"0","message":"OK"}"#)));
    assert!(is_request_error(status_from_json(b"{")));
}

#[test]
fn unknown_keys_are_ignored() {
    let body = br#"{"status":0,"message":"OK","something_new":[1,2,3]}"#;
    let s = status_from_json(body).expect("unknown keys must not break decoding");
    assert_eq!(s.status, 0);
}

#[test]
fn places_list_decodes_in_order() {
    let body = br#"[
        {"place_id":1,"lat":"1","lon":"2","display_name":"a"},
        {"place_id":2,"lat":"3","lon":"4","display_name":"b"}
    ]"#;
    let places = places_from_json(body).expect("list decodes");
    assert_eq!(places.len(), 2);
    assert_eq!(places[0].place_id, 1);
    assert_eq!(places[0].display_name, "a");
    assert_eq!(places[1].place_id, 2);
    assert_eq!(places[1].display_name, "b");
}

#[test]
fn places_list_fails_when_one_element_is_malformed() {
    let body = br#"[{"place_id":1,"lat":"1","lon":"2","display_name":"a"},
                    {"place_id":"oops"}]"#;
    assert!(is_request_error(places_from_json(body)));
    assert!(is_request_error(places_from_json(br#"{"a":1}"#)));
}

#[test]
fn decode_from_hand_built_values() {
    let v = JsonValue::Obj(vec![
        (String::from("status"), num("0")),
        (String::from("message"), JsonValue::Str(String::from("OK"))),
    ]);
    let s = decode_status(&v).expect("hand-built status decodes");
    assert_eq!(s.status, 0);
    assert_eq!(s.message, "OK");

    let p = JsonValue::Obj(vec![
        (String::from("place_id"), num("42")),
        (String::from("lat"), JsonValue::Str(String::from("1.5"))),
        (String::from("lon"), JsonValue::Str(String::from("-2.5"))),
        (String::from("display_name"), JsonValue::Str(String::from("somewhere"))),
    ]);
    let place = decode_place(&p).expect("hand-built place decodes");
    assert_eq!(place.place_id, 42);
    assert_eq!(place.lat, "1.5");
    assert_eq!(place.licence, "");
}
