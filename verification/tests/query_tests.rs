use nominatim::query::lookup_query;
use nominatim::query::replace_spaces_with_plus;
use nominatim::query::remove_whitespace;
use nominatim::query::reverse_query;
use nominatim::query::search_query;
use nominatim::query::status_query;
use nominatim::query::structured_query;
use nominatim::SearchStructuredParams;
use nominatim::parse_u64_dec;
use nominatim::u64_to_dec;

#[test]
fn status_query_is_fixed() {
    assert_eq!(status_query(), "format=json");
}

#[test]
fn search_replaces_every_space_with_plus() {
    let q = search_query("new york city");
    assert_eq!(
        q,
        "addressdetails=1&extratags=1&q=new+york+city&format=json&polygon_geojson=1"
    );
}

#[test]
fn search_leaves_ampersand_and_equals_untouched() {
    let q = search_query("a&b=c d");
    assert_eq!(
        q,
        "addressdetails=1&extratags=1&q=a&b=c+d&format=json&polygon_geojson=1"
    );
}

#[test]
fn search_empty_query() {
    let q = search_query("");
    assert_eq!(q, "addressdetails=1&extratags=1&q=&format=json&polygon_geojson=1");
}

#[test]
fn reverse_strips_whitespace_and_alters_nothing_else() {
    let q = reverse_query(" 48.85 88 ", "2.29 45", None);
    assert_eq!(
        q,
        "addressdetails=1&extratags=1&format=json&lat=48.8588&lon=2.2945"
    );
}

#[test]
fn reverse_strips_every_whitespace_kind() {
    // tab, line feed, vertical tab, no-break space and ideographic space
    // all go; the minus sign and digits stay untouched
    let q = reverse_query("\t48.8\u{B}588\n", "-2.29\u{A0}4\u{3000}5", None);
    assert_eq!(
        q,
        "addressdetails=1&extratags=1&format=json&lat=48.8588&lon=-2.2945"
    );
}

#[test]
fn reverse_zoom_only_appends_one_parameter() {
    let without = reverse_query("48.8588", "2.2945", None);
    let with = reverse_query("48.8588", "2.2945", Some(10));
    assert_eq!(
        without,
        "addressdetails=1&extratags=1&format=json&lat=48.8588&lon=2.2945"
    );
    assert_eq!(with, format!("{}&zoom=10", without));
}

#[test]
fn reverse_zoom_zero_and_max() {
    let q0 = reverse_query("1", "2", Some(0));
    assert_eq!(q0, "addressdetails=1&extratags=1&format=json&lat=1&lon=2&zoom=0");
    let q255 = reverse_query("1", "2", Some(255));
    assert_eq!(q255, "addressdetails=1&extratags=1&format=json&lat=1&lon=2&zoom=255");
}

#[test]
fn structured_omits_absent_city_and_postalcode() {
    let params = SearchStructuredParams {
        country: String::from("United Kingdom"),
        state: String::from("England"),
        city: None,
        postal_code: None,
    };
    let q = structured_query(&params);
    assert!(!q.contains("city="));
    assert!(!q.contains("postalcode="));
    assert_eq!(
        q,
        "country=United%20Kingdom&state=England&format=json&addressdetails=true&extratags=true&polygon_geojson=true"
    );
}

#[test]
fn structured_includes_present_city_and_postalcode() {
    let params = SearchStructuredParams {
        country: String::from("France"),
        state: String::from("Île-de-France"),
        city: Some(String::from("Paris 1er")),
        postal_code: Some(String::from("75001")),
    };
    let q = structured_query(&params);
    assert_eq!(
        q,
        "country=France&state=%C3%8Ele-de-France&city=Paris%201er&postalcode=75001&format=json&addressdetails=true&extratags=true&polygon_geojson=true"
    );
}

#[test]
fn lookup_joins_in_order_without_dedup() {
    let ids = vec![String::from("N123"), String::from("W456")];
    let q = lookup_query(&ids);
    assert_eq!(q, "osm_ids=N123,W456&addressdetails=1&extratags=1&format=json");

    let dup = vec![String::from("N1"), String::from("N1"), String::from("R2")];
    let q2 = lookup_query(&dup);
    assert_eq!(q2, "osm_ids=N1,N1,R2&addressdetails=1&extratags=1&format=json");
}

#[test]
fn lookup_empty_and_single() {
    let none: Vec<String> = Vec::new();
    assert_eq!(
        lookup_query(&none),
        "osm_ids=&addressdetails=1&extratags=1&format=json"
    );
    let one = vec![String::from("R9000")];
    assert_eq!(
        lookup_query(&one),
        "osm_ids=R9000&addressdetails=1&extratags=1&format=json"
    );
}

#[test]
fn space_helpers() {
    assert_eq!(replace_spaces_with_plus("a b  c"), "a+b++c");
    assert_eq!(replace_spaces_with_plus(""), "");
    assert_eq!(remove_whitespace(" a b "), "ab");
    assert_eq!(remove_whitespace("xyz"), "xyz");
    assert_eq!(remove_whitespace("\ta\rb\u{2028}c\u{202F}"), "abc");
    // the plus substitution touches the space alone, not other whitespace
    assert_eq!(replace_spaces_with_plus("a\tb c"), "a\tb+c");
}

#[test]
fn decimal_rendering() {
    assert_eq!(u64_to_dec(0), "0");
    assert_eq!(u64_to_dec(7), "7");
    assert_eq!(u64_to_dec(10), "10");
    assert_eq!(u64_to_dec(18446744073709551615), "18446744073709551615");
}

#[test]
fn decimal_parsing() {
    assert_eq!(parse_u64_dec("0"), Some(0));
    assert_eq!(parse_u64_dec("123"), Some(123));
    assert_eq!(parse_u64_dec("007"), Some(7));
    assert_eq!(parse_u64_dec("18446744073709551615"), Some(u64::MAX));
    assert_eq!(parse_u64_dec("18446744073709551616"), None);
    assert_eq!(parse_u64_dec(""), None);
    assert_eq!(parse_u64_dec("12a"), None);
    assert_eq!(parse_u64_dec("-5"), None);
    assert_eq!(parse_u64_dec("1.0"), None);
}
