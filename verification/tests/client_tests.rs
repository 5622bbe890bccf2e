use nominatim::Client;
use nominatim::Error;
use nominatim::IdentificationMethod;

fn user_agent(s: &str) -> IdentificationMethod {
    IdentificationMethod::UserAgent(String::from(s))
}

#[test]
fn status_request_joins_the_status_path() {
    let client = Client::new(user_agent("test-app"));
    let parts = client.status_request().expect("valid configuration");
    assert_eq!(
        parts.url,
        "https://nominatim.openstreetmap.org/status.php?format=json"
    );
    assert_eq!(parts.header_name, "User-Agent");
    assert_eq!(parts.header_value, "test-app");
    assert_eq!(parts.timeout_ms, 10000);
}

#[test]
fn search_request_replaces_the_query_component() {
    let mut client = Client::new(user_agent("test-app"));
    client
        .set_base_url("https://example.test/geo?stale=1")
        .expect("absolute URL accepted");
    let parts = client.search_request("foo bar").expect("valid configuration");
    assert_eq!(
        parts.url,
        "https://example.test/geo?addressdetails=1&extratags=1&q=foo+bar&format=json&polygon_geojson=1"
    );
}

#[test]
fn reverse_request_with_and_without_zoom() {
    let client = Client::new(user_agent("test-app"));
    let without = client
        .reverse_request("48.8588", "2.2945", None)
        .expect("valid configuration");
    assert_eq!(
        without.url,
        "https://nominatim.openstreetmap.org/reverse?addressdetails=1&extratags=1&format=json&lat=48.8588&lon=2.2945"
    );
    let with = client
        .reverse_request("48.85 88", " 2.2945", Some(10))
        .expect("valid configuration");
    assert_eq!(
        with.url,
        "https://nominatim.openstreetmap.org/reverse?addressdetails=1&extratags=1&format=json&lat=48.8588&lon=2.2945&zoom=10"
    );
}

#[test]
fn lookup_request_joins_references() {
    let client = Client::new(user_agent("test-app"));
    let ids = vec![String::from("N123"), String::from("W456")];
    let parts = client.lookup_request(&ids).expect("valid configuration");
    assert_eq!(
        parts.url,
        "https://nominatim.openstreetmap.org/lookup?osm_ids=N123,W456&addressdetails=1&extratags=1&format=json"
    );
}

#[test]
fn structured_request_builds_at_the_root() {
    let client = Client::new(user_agent("test-app"));
    let params = nominatim::SearchStructuredParams {
        country: String::from("United Kingdom"),
        state: String::from("England"),
        city: None,
        postal_code: None,
    };
    let parts = client
        .search_structured_request(&params)
        .expect("valid configuration");
    assert_eq!(
        parts.url,
        "https://nominatim.openstreetmap.org/?country=United%20Kingdom&state=England&format=json&addressdetails=true&extratags=true&polygon_geojson=true"
    );
}

#[test]
fn base_url_is_validated_at_set_time() {
    let mut client = Client::new(user_agent("test-app"));
    assert_eq!(client.set_base_url("not a url"), Err(Error::Configuration));
    assert_eq!(client.set_base_url("/relative/only"), Err(Error::Configuration));
    // the failed set leaves the client on its previous base
    let parts = client.status_request().expect("still valid");
    assert_eq!(
        parts.url,
        "https://nominatim.openstreetmap.org/status.php?format=json"
    );
    client
        .set_base_url("http://localhost:8080/nominatim/")
        .expect("absolute URL accepted");
    let parts = client.status_request().expect("valid configuration");
    assert_eq!(
        parts.url,
        "http://localhost:8080/nominatim/status.php?format=json"
    );
}

#[test]
fn invalid_identification_fails_fast() {
    let bad_name = IdentificationMethod::ApiKey {
        header: String::from("X Api Key"),
        key: String::from("k123"),
    };
    let client = Client::new(bad_name);
    assert_eq!(client.status_request().map(|_| ()), Err(Error::Configuration));

    let bad_value = user_agent("line\nbreak");
    let client = Client::new(bad_value);
    assert_eq!(client.search_request("x").map(|_| ()), Err(Error::Configuration));

    let empty_name = IdentificationMethod::ApiKey {
        header: String::new(),
        key: String::from("k"),
    };
    let client = Client::new(empty_name);
    assert_eq!(client.lookup_request(&vec![]).map(|_| ()), Err(Error::Configuration));
}

#[test]
fn identification_variants_produce_their_headers() {
    let referer = IdentificationMethod::Referer(String::from("https://example.test/app"));
    assert_eq!(referer.header(), "Referer");
    assert_eq!(referer.value(), "https://example.test/app");

    let key = IdentificationMethod::ApiKey {
        header: String::from("X-Api-Key"),
        key: String::from("abc123"),
    };
    let client = Client::new(key);
    let parts = client.status_request().expect("valid configuration");
    assert_eq!(parts.header_name, "X-Api-Key");
    assert_eq!(parts.header_value, "abc123");
}

#[test]
fn timeout_is_carried_into_the_request() {
    let mut client = Client::new(user_agent("test-app"));
    client.set_timeout(2500);
    let parts = client.status_request().expect("valid configuration");
    assert_eq!(parts.timeout_ms, 2500);
    // the field is also open to direct override
    client.timeout_ms = 400;
    let parts = client.status_request().expect("valid configuration");
    assert_eq!(parts.timeout_ms, 400);
}
