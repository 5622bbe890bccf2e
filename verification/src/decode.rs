//! The verified response decoder: from a JSON value tree to the typed
//! response model.
//!
//! Policy: a field with a default decodes to its zero value when the key
//! is missing or null; an optional field decodes to an absent value then.
//! Decoding never aborts merely because an optional field is absent, and
//! a present field of the wrong shape fails the whole decode — a
//! malformed payload is not trusted field by field.

use vstd::prelude::*;

verus! {

use crate::json::JsonValue;
use crate::json::lookup;
use crate::json::obj_get;
use crate::json::parse_json;
use crate::json::parsed_json;
use crate::model::Address;
use crate::model::AddressView;
use crate::model::Coordinates;
use crate::model::CoordinatesView;
use crate::model::Error;
use crate::model::ExtraTags;
use crate::model::ExtraTagsView;
use crate::model::GeoJson;
use crate::model::GeoJsonType;
use crate::model::GeoJsonView;
use crate::model::LonLat;
use crate::model::Place;
use crate::model::PlaceView;
use crate::model::Status;
use crate::model::StatusView;
use crate::model::line_view;
use crate::model::pair_view;
use crate::model::poly_view;
use crate::text::parse_u64_dec;
use crate::text::parse_u64_spec;
use crate::text::str_eq;
use vstd::string::StringExecFns;

/// The error for a response body whose shape does not match the schema.
fn schema_error() -> (e: Error)
    ensures
        e matches Error::Request(_),
{
    Error::Request(String::from_str("response body does not match the expected schema"))
}

/// Whether the key is missing from the object or bound to `null`.
pub open spec fn absent(f: Seq<(String, JsonValue)>, k: Seq<char>) -> bool {
    lookup(f, k) is None || lookup(f, k) matches Some(JsonValue::Null)
}

/// A string field with an empty default: the empty string when missing
/// or null, the string when present, no value on any other shape.
pub open spec fn field_str_default(f: Seq<(String, JsonValue)>, k: Seq<char>) -> Option<
    Seq<char>,
> {
    if absent(f, k) {
        Some(Seq::<char>::empty())
    } else {
        match lookup(f, k) {
            Some(JsonValue::Str(s)) => Some(s@),
            _ => None,
        }
    }
}

/// An unsigned integer field with a zero default: zero when missing or
/// null, the parsed number when present as a decimal integer that fits a
/// `u64`, no value otherwise.
pub open spec fn field_u64_default(f: Seq<(String, JsonValue)>, k: Seq<char>) -> Option<u64> {
    if absent(f, k) {
        Some(0)
    } else {
        match lookup(f, k) {
            Some(JsonValue::Num(s)) => parse_u64_spec(s@),
            _ => None,
        }
    }
}

/// An optional string field: absent when missing or null, the string
/// when present, no value on any other shape.
pub open spec fn field_opt_str(f: Seq<(String, JsonValue)>, k: Seq<char>) -> Option<
    Option<Seq<char>>,
> {
    if absent(f, k) {
        Some(None)
    } else {
        match lookup(f, k) {
            Some(JsonValue::Str(s)) => Some(Some(s@)),
            _ => None,
        }
    }
}

/// An optional numeric field, kept in its decimal string form: absent
/// when missing or null, the number's rendering when present as a
/// number, no value on any other shape.
pub open spec fn field_opt_num(f: Seq<(String, JsonValue)>, k: Seq<char>) -> Option<
    Option<Seq<char>>,
> {
    if absent(f, k) {
        Some(None)
    } else {
        match lookup(f, k) {
            Some(JsonValue::Num(s)) => Some(Some(s@)),
            _ => None,
        }
    }
}

/// A required string field: the string when present, no value when
/// missing, null or of any other shape.
pub open spec fn field_str_req(f: Seq<(String, JsonValue)>, k: Seq<char>) -> Option<Seq<char>> {
    match lookup(f, k) {
        Some(JsonValue::Str(s)) => Some(s@),
        _ => None,
    }
}

/// A required unsigned integer field: the parsed number when present as
/// a decimal integer that fits a `u64`, no value otherwise.
pub open spec fn field_u64_req(f: Seq<(String, JsonValue)>, k: Seq<char>) -> Option<u64> {
    match lookup(f, k) {
        Some(JsonValue::Num(s)) => parse_u64_spec(s@),
        _ => None,
    }
}

fn get_str_default(fields: &Vec<(String, JsonValue)>, key: &str) -> (r: Option<String>)
    ensures
        match r {
            Some(s) => field_str_default(fields@, key@) == Some(s@),
            None => field_str_default(fields@, key@) is None,
        },
{
    match obj_get(fields, key) {
        None => {
            let s = String::new();
            proof {
                assert(s@ =~= Seq::<char>::empty());
            }
            Some(s)
        },
        Some(v) => match v {
            JsonValue::Null => {
                let s = String::new();
                proof {
                    assert(s@ =~= Seq::<char>::empty());
                }
                Some(s)
            },
            JsonValue::Str(s) => Some(s.clone()),
            _ => None,
        },
    }
}

fn get_u64_default(fields: &Vec<(String, JsonValue)>, key: &str) -> (r: Option<u64>)
    ensures
        match r {
            Some(n) => field_u64_default(fields@, key@) == Some(n),
            None => field_u64_default(fields@, key@) is None,
        },
{
    match obj_get(fields, key) {
        None => Some(0),
        Some(v) => match v {
            JsonValue::Null => Some(0),
            JsonValue::Num(s) => parse_u64_dec(s.as_str()),
            _ => None,
        },
    }
}

fn get_opt_str(fields: &Vec<(String, JsonValue)>, key: &str) -> (r: Option<Option<String>>)
    ensures
        match r {
            Some(Some(s)) => field_opt_str(fields@, key@) == Some(Some(s@)),
            Some(None::<String>) => field_opt_str(fields@, key@) == Some(None::<Seq<char>>),
            None => field_opt_str(fields@, key@) is None,
        },
{
    match obj_get(fields, key) {
        None => Some(None),
        Some(v) => match v {
            JsonValue::Null => Some(None),
            JsonValue::Str(s) => Some(Some(s.clone())),
            _ => None,
        },
    }
}

fn get_opt_num(fields: &Vec<(String, JsonValue)>, key: &str) -> (r: Option<Option<String>>)
    ensures
        match r {
            Some(Some(s)) => field_opt_num(fields@, key@) == Some(Some(s@)),
            Some(None::<String>) => field_opt_num(fields@, key@) == Some(None::<Seq<char>>),
            None => field_opt_num(fields@, key@) is None,
        },
{
    match obj_get(fields, key) {
        None => Some(None),
        Some(v) => match v {
            JsonValue::Null => Some(None),
            JsonValue::Num(s) => Some(Some(s.clone())),
            _ => None,
        },
    }
}

fn get_str_req(fields: &Vec<(String, JsonValue)>, key: &str) -> (r: Option<String>)
    ensures
        match r {
            Some(s) => field_str_req(fields@, key@) == Some(s@),
            None => field_str_req(fields@, key@) is None,
        },
{
    match obj_get(fields, key) {
        None => None,
        Some(v) => match v {
            JsonValue::Str(s) => Some(s.clone()),
            _ => None,
        },
    }
}

fn get_u64_req(fields: &Vec<(String, JsonValue)>, key: &str) -> (r: Option<u64>)
    ensures
        match r {
            Some(n) => field_u64_req(fields@, key@) == Some(n),
            None => field_u64_req(fields@, key@) is None,
        },
{
    match obj_get(fields, key) {
        None => None,
        Some(v) => match v {
            JsonValue::Num(s) => parse_u64_dec(s.as_str()),
            _ => None,
        },
    }
}

/// What decoding a [`Status`] from a JSON value yields.  `status` and
/// `message` are required; the version fields are optional.
pub open spec fn status_of(v: JsonValue) -> Option<StatusView> {
    match v {
        JsonValue::Obj(fields) => {
            let f = fields@;
            if field_u64_req(f, "status"@) is Some && field_str_req(f, "message"@) is Some
                && field_opt_str(f, "data_updated"@) is Some && field_opt_str(
                f,
                "software_version"@,
            ) is Some && field_opt_str(f, "database_version"@) is Some {
                Some(
                    StatusView {
                        status: field_u64_req(f, "status"@)->0,
                        message: field_str_req(f, "message"@)->0,
                        data_updated: field_opt_str(f, "data_updated"@)->0,
                        software_version: field_opt_str(f, "software_version"@)->0,
                        database_version: field_opt_str(f, "database_version"@)->0,
                    },
                )
            } else {
                None
            }
        },
        _ => None,
    }
}

/// Decodes a [`Status`] from a JSON value.
pub fn decode_status(v: &JsonValue) -> (r: Result<Status, Error>)
    ensures
        match r {
            Ok(s) => status_of(*v) == Some(s@),
            Err(e) => status_of(*v) is None && (e matches Error::Request(_)),
        },
{
    match v {
        JsonValue::Obj(fields) => {
            let status = match get_u64_req(fields, "status") {
                Some(x) => x,
                None => {
                    return Err(schema_error());
                },
            };
            let message = match get_str_req(fields, "message") {
                Some(x) => x,
                None => {
                    return Err(schema_error());
                },
            };
            let data_updated = match get_opt_str(fields, "data_updated") {
                Some(x) => x,
                None => {
                    return Err(schema_error());
                },
            };
            let software_version = match get_opt_str(fields, "software_version") {
                Some(x) => x,
                None => {
                    return Err(schema_error());
                },
            };
            let database_version = match get_opt_str(fields, "database_version") {
                Some(x) => x,
                None => {
                    return Err(schema_error());
                },
            };
            Ok(Status { status, message, data_updated, software_version, database_version })
        },
        _ => Err(schema_error()),
    }
}

/// What decoding an [`Address`] from a JSON value yields: every field
/// optional.
pub open spec fn address_of(v: JsonValue) -> Option<AddressView> {
    match v {
        JsonValue::Obj(fields) => {
            let f = fields@;
            if field_opt_str(f, "city"@) is Some && field_opt_str(f, "state_district"@) is Some
                && field_opt_str(f, "state"@) is Some && field_opt_str(
                f,
                "ISO3166-2-lvl4"@,
            ) is Some && field_opt_str(f, "postcode"@) is Some && field_opt_str(
                f,
                "country"@,
            ) is Some && field_opt_str(f, "country_code"@) is Some {
                Some(
                    AddressView {
                        city: field_opt_str(f, "city"@)->0,
                        state_district: field_opt_str(f, "state_district"@)->0,
                        state: field_opt_str(f, "state"@)->0,
                        iso3166_2_lvl4: field_opt_str(f, "ISO3166-2-lvl4"@)->0,
                        postcode: field_opt_str(f, "postcode"@)->0,
                        country: field_opt_str(f, "country"@)->0,
                        country_code: field_opt_str(f, "country_code"@)->0,
                    },
                )
            } else {
                None
            }
        },
        _ => None,
    }
}

/// Decodes an [`Address`] from a JSON value.
pub fn decode_address(v: &JsonValue) -> (r: Result<Address, Error>)
    ensures
        match r {
            Ok(a) => address_of(*v) == Some(a@),
            Err(e) => address_of(*v) is None && (e matches Error::Request(_)),
        },
{
    match v {
        JsonValue::Obj(fields) => {
            let city = match get_opt_str(fields, "city") {
                Some(x) => x,
                None => {
                    return Err(schema_error());
                },
            };
            let state_district = match get_opt_str(fields, "state_district") {
                Some(x) => x,
                None => {
                    return Err(schema_error());
                },
            };
            let state = match get_opt_str(fields, "state") {
                Some(x) => x,
                None => {
                    return Err(schema_error());
                },
            };
            let iso3166_2_lvl4 = match get_opt_str(fields, "ISO3166-2-lvl4") {
                Some(x) => x,
                None => {
                    return Err(schema_error());
                },
            };
            let postcode = match get_opt_str(fields, "postcode") {
                Some(x) => x,
                None => {
                    return Err(schema_error());
                },
            };
            let country = match get_opt_str(fields, "country") {
                Some(x) => x,
                None => {
                    return Err(schema_error());
                },
            };
            let country_code = match get_opt_str(fields, "country_code") {
                Some(x) => x,
                None => {
                    return Err(schema_error());
                },
            };
            Ok(
                Address {
                    city,
                    state_district,
                    state,
                    iso3166_2_lvl4,
                    postcode,
                    country,
                    country_code,
                },
            )
        },
        _ => Err(schema_error()),
    }
}

/// What decoding an [`ExtraTags`] from a JSON value yields: every field
/// optional.
pub open spec fn extratags_of(v: JsonValue) -> Option<ExtraTagsView> {
    match v {
        JsonValue::Obj(fields) => {
            let f = fields@;
            if field_opt_str(f, "capital"@) is Some && field_opt_str(f, "website"@) is Some
                && field_opt_str(f, "wikidata"@) is Some && field_opt_str(
                f,
                "wikipedia"@,
            ) is Some && field_opt_str(f, "population"@) is Some {
                Some(
                    ExtraTagsView {
                        capital: field_opt_str(f, "capital"@)->0,
                        website: field_opt_str(f, "website"@)->0,
                        wikidata: field_opt_str(f, "wikidata"@)->0,
                        wikipedia: field_opt_str(f, "wikipedia"@)->0,
                        population: field_opt_str(f, "population"@)->0,
                    },
                )
            } else {
                None
            }
        },
        _ => None,
    }
}

/// Decodes an [`ExtraTags`] from a JSON value.
pub fn decode_extratags(v: &JsonValue) -> (r: Result<ExtraTags, Error>)
    ensures
        match r {
            Ok(t) => extratags_of(*v) == Some(t@),
            Err(e) => extratags_of(*v) is None && (e matches Error::Request(_)),
        },
{
    match v {
        JsonValue::Obj(fields) => {
            let capital = match get_opt_str(fields, "capital") {
                Some(x) => x,
                None => {
                    return Err(schema_error());
                },
            };
            let website = match get_opt_str(fields, "website") {
                Some(x) => x,
                None => {
                    return Err(schema_error());
                },
            };
            let wikidata = match get_opt_str(fields, "wikidata") {
                Some(x) => x,
                None => {
                    return Err(schema_error());
                },
            };
            let wikipedia = match get_opt_str(fields, "wikipedia") {
                Some(x) => x,
                None => {
                    return Err(schema_error());
                },
            };
            let population = match get_opt_str(fields, "population") {
                Some(x) => x,
                None => {
                    return Err(schema_error());
                },
            };
            Ok(ExtraTags { capital, website, wikidata, wikipedia, population })
        },
        _ => Err(schema_error()),
    }
}

/// The decimal rendering of a JSON number value; nothing for any other
/// shape.
pub open spec fn num_of(v: JsonValue) -> Option<Seq<char>> {
    match v {
        JsonValue::Num(s) => Some(s@),
        _ => None,
    }
}

/// A coordinate position: an array of exactly two numbers.
pub open spec fn pos_of(v: JsonValue) -> Option<(Seq<char>, Seq<char>)> {
    match v {
        JsonValue::Arr(a) => if a@.len() == 2 && num_of(a@[0]) is Some && num_of(a@[1]) is Some {
            Some((num_of(a@[0])->0, num_of(a@[1])->0))
        } else {
            None
        },
        _ => None,
    }
}

/// A line: an array whose elements are all coordinate positions.
pub open spec fn line_of(v: JsonValue) -> Option<Seq<(Seq<char>, Seq<char>)>> {
    match v {
        JsonValue::Arr(a) => if forall|i: int|
            0 <= i < a@.len() ==> #[trigger] pos_of(a@[i]) is Some {
            Some(Seq::new(a@.len(), |i: int| pos_of(a@[i])->0))
        } else {
            None
        },
        _ => None,
    }
}

/// A polygon: an array whose elements are all lines.
pub open spec fn polygon_of(v: JsonValue) -> Option<Seq<Seq<(Seq<char>, Seq<char>)>>> {
    match v {
        JsonValue::Arr(a) => if forall|i: int|
            0 <= i < a@.len() ==> #[trigger] line_of(a@[i]) is Some {
            Some(Seq::new(a@.len(), |i: int| line_of(a@[i])->0))
        } else {
            None
        },
        _ => None,
    }
}

/// A multi-polygon: an array whose elements are all polygons.
pub open spec fn multipolygon_of(v: JsonValue) -> Option<Seq<Seq<Seq<(Seq<char>, Seq<char>)>>>> {
    match v {
        JsonValue::Arr(a) => if forall|i: int|
            0 <= i < a@.len() ==> #[trigger] polygon_of(a@[i]) is Some {
            Some(Seq::new(a@.len(), |i: int| polygon_of(a@[i])->0))
        } else {
            None
        },
        _ => None,
    }
}

/// What decoding a coordinates value yields.  The wire format carries no
/// tag, so the shapes are tried in a fixed order — position, line,
/// polygon, multi-polygon — and the first structural match wins; an
/// ambiguous value thus resolves to the most specific matching shape.
pub open spec fn coordinates_of(v: JsonValue) -> Option<CoordinatesView> {
    if pos_of(v) is Some {
        Some(CoordinatesView::Point(pos_of(v)->0))
    } else if line_of(v) is Some {
        Some(CoordinatesView::LineString(line_of(v)->0))
    } else if polygon_of(v) is Some {
        Some(CoordinatesView::Polygon(polygon_of(v)->0))
    } else if multipolygon_of(v) is Some {
        Some(CoordinatesView::MultiPolygon(multipolygon_of(v)->0))
    } else {
        None
    }
}

fn decode_pos(v: &JsonValue) -> (r: Option<LonLat>)
    ensures
        match r {
            Some(p) => pos_of(*v) == Some(pair_view(p)),
            None => pos_of(*v) is None,
        },
{
    match v {
        JsonValue::Arr(a) => {
            if a.len() != 2 {
                return None;
            }
            let lon = match &a[0] {
                JsonValue::Num(s) => s.clone(),
                _ => {
                    return None;
                },
            };
            let lat = match &a[1] {
                JsonValue::Num(s) => s.clone(),
                _ => {
                    return None;
                },
            };
            Some(LonLat { lon, lat })
        },
        _ => None,
    }
}

fn decode_line(v: &JsonValue) -> (r: Option<Vec<LonLat>>)
    ensures
        match r {
            Some(l) => line_of(*v) == Some(line_view(l)),
            None => line_of(*v) is None,
        },
{
    match v {
        JsonValue::Arr(a) => {
            let n = a.len();
            let mut out: Vec<LonLat> = Vec::new();
            let mut i: usize = 0;
            while i < n
                invariant
                    *v == JsonValue::Arr(*a),
                    0 <= i <= n,
                    n == a@.len(),
                    out@.len() == i,
                    forall|j: int| 0 <= j < i ==> #[trigger] pos_of(a@[j]) is Some,
                    forall|j: int|
                        0 <= j < i ==> pos_of(a@[j]) == Some(#[trigger] pair_view(out@[j])),
                decreases n - i,
            {
                match decode_pos(&a[i]) {
                    Some(p) => {
                        out.push(p);
                    },
                    None => {
                        proof {
                            assert(!(forall|j: int|
                                0 <= j < a@.len() ==> #[trigger] pos_of(a@[j]) is Some));
                        }
                        return None;
                    },
                }
                i = i + 1;
            }
            proof {
                assert(line_of(*v) is Some);
                assert(line_of(*v)->0 =~= line_view(out));
            }
            Some(out)
        },
        _ => None,
    }
}

fn decode_polygon(v: &JsonValue) -> (r: Option<Vec<Vec<LonLat>>>)
    ensures
        match r {
            Some(p) => polygon_of(*v) == Some(poly_view(p)),
            None => polygon_of(*v) is None,
        },
{
    match v {
        JsonValue::Arr(a) => {
            let n = a.len();
            let mut out: Vec<Vec<LonLat>> = Vec::new();
            let mut i: usize = 0;
            while i < n
                invariant
                    *v == JsonValue::Arr(*a),
                    0 <= i <= n,
                    n == a@.len(),
                    out@.len() == i,
                    forall|j: int| 0 <= j < i ==> #[trigger] line_of(a@[j]) is Some,
                    forall|j: int|
                        0 <= j < i ==> line_of(a@[j]) == Some(#[trigger] line_view(out@[j])),
                decreases n - i,
            {
                match decode_line(&a[i]) {
                    Some(l) => {
                        out.push(l);
                    },
                    None => {
                        proof {
                            assert(!(forall|j: int|
                                0 <= j < a@.len() ==> #[trigger] line_of(a@[j]) is Some));
                        }
                        return None;
                    },
                }
                i = i + 1;
            }
            proof {
                assert(polygon_of(*v) is Some);
                assert(polygon_of(*v)->0 =~= poly_view(out));
            }
            Some(out)
        },
        _ => None,
    }
}

fn decode_multipolygon(v: &JsonValue) -> (r: Option<Vec<Vec<Vec<LonLat>>>>)
    ensures
        match r {
            Some(m) => multipolygon_of(*v) == Some(
                m@.map_values(|poly: Vec<Vec<LonLat>>| poly_view(poly)),
            ),
            None => multipolygon_of(*v) is None,
        },
{
    match v {
        JsonValue::Arr(a) => {
            let n = a.len();
            let mut out: Vec<Vec<Vec<LonLat>>> = Vec::new();
            let mut i: usize = 0;
            while i < n
                invariant
                    *v == JsonValue::Arr(*a),
                    0 <= i <= n,
                    n == a@.len(),
                    out@.len() == i,
                    forall|j: int| 0 <= j < i ==> #[trigger] polygon_of(a@[j]) is Some,
                    forall|j: int|
                        0 <= j < i ==> polygon_of(a@[j]) == Some(#[trigger] poly_view(out@[j])),
                decreases n - i,
            {
                match decode_polygon(&a[i]) {
                    Some(p) => {
                        out.push(p);
                    },
                    None => {
                        proof {
                            assert(!(forall|j: int|
                                0 <= j < a@.len() ==> #[trigger] polygon_of(a@[j]) is Some));
                        }
                        return None;
                    },
                }
                i = i + 1;
            }
            proof {
                assert(multipolygon_of(*v) is Some);
                assert(multipolygon_of(*v)->0 =~= out@.map_values(
                    |poly: Vec<Vec<LonLat>>| poly_view(poly),
                ));
            }
            Some(out)
        },
        _ => None,
    }
}

/// Decodes a coordinates value, trying position, line, polygon and
/// multi-polygon in that order; the first structural match wins.
pub fn decode_coordinates(v: &JsonValue) -> (r: Result<Coordinates, Error>)
    ensures
        match r {
            Ok(c) => coordinates_of(*v) == Some(c@),
            Err(e) => coordinates_of(*v) is None && (e matches Error::Request(_)),
        },
{
    if let Some(p) = decode_pos(v) {
        return Ok(Coordinates::Point(p));
    }
    if let Some(l) = decode_line(v) {
        return Ok(Coordinates::LineString(l));
    }
    if let Some(p) = decode_polygon(v) {
        return Ok(Coordinates::Polygon(p));
    }
    if let Some(m) = decode_multipolygon(v) {
        return Ok(Coordinates::MultiPolygon(m));
    }
    Err(schema_error())
}

/// The geometry kind named by a string, if any.
pub open spec fn geo_type_of(s: Seq<char>) -> Option<GeoJsonType> {
    if s == "Point"@ {
        Some(GeoJsonType::Point)
    } else if s == "LineString"@ {
        Some(GeoJsonType::LineString)
    } else if s == "Polygon"@ {
        Some(GeoJsonType::Polygon)
    } else if s == "MultiPolygon"@ {
        Some(GeoJsonType::MultiPolygon)
    } else {
        None
    }
}

fn decode_geo_type(s: &str) -> (r: Option<GeoJsonType>)
    ensures
        r == geo_type_of(s@),
{
    if str_eq(s, "Point") {
        Some(GeoJsonType::Point)
    } else if str_eq(s, "LineString") {
        Some(GeoJsonType::LineString)
    } else if str_eq(s, "Polygon") {
        Some(GeoJsonType::Polygon)
    } else if str_eq(s, "MultiPolygon") {
        Some(GeoJsonType::MultiPolygon)
    } else {
        None
    }
}

/// What decoding a [`GeoJson`] yields: a `type` naming one of the four
/// geometry kinds and a `coordinates` value, both required.
pub open spec fn geojson_of(v: JsonValue) -> Option<GeoJsonView> {
    match v {
        JsonValue::Obj(fields) => {
            let f = fields@;
            match lookup(f, "type"@) {
                Some(JsonValue::Str(s)) => match geo_type_of(s@) {
                    Some(t) => match lookup(f, "coordinates"@) {
                        Some(cv) => match coordinates_of(cv) {
                            Some(c) => Some(GeoJsonView { geo_type: t, coordinates: c }),
                            None => None,
                        },
                        None => None,
                    },
                    None => None,
                },
                _ => None,
            }
        },
        _ => None,
    }
}

/// Decodes a [`GeoJson`] from a JSON value.
pub fn decode_geojson(v: &JsonValue) -> (r: Result<GeoJson, Error>)
    ensures
        match r {
            Ok(g) => geojson_of(*v) == Some(g@),
            Err(e) => geojson_of(*v) is None && (e matches Error::Request(_)),
        },
{
    match v {
        JsonValue::Obj(fields) => {
            let geo_type = match obj_get(fields, "type") {
                Some(JsonValue::Str(s)) => match decode_geo_type(s.as_str()) {
                    Some(t) => t,
                    None => {
                        return Err(schema_error());
                    },
                },
                _ => {
                    return Err(schema_error());
                },
            };
            let coordinates = match obj_get(fields, "coordinates") {
                Some(cv) => match decode_coordinates(cv) {
                    Ok(c) => c,
                    Err(e) => {
                        return Err(e);
                    },
                },
                None => {
                    return Err(schema_error());
                },
            };
            Ok(GeoJson { geo_type, coordinates })
        },
        _ => Err(schema_error()),
    }
}

/// Whether every element of the sequence is a JSON string.
pub open spec fn all_str(a: Seq<JsonValue>) -> bool {
    forall|i: int| 0 <= i < a.len() ==> a[i] is Str
}

/// The strings of a sequence of JSON string values.
pub open spec fn str_views(a: Seq<JsonValue>) -> Seq<Seq<char>> {
    Seq::new(
        a.len(),
        |i: int|
            match a[i] {
                JsonValue::Str(s) => s@,
                _ => Seq::<char>::empty(),
            },
    )
}

/// A string-array field with an empty default: the empty sequence when
/// missing or null, the strings when present as an array of strings, no
/// value on any other shape.
pub open spec fn field_strvec_default(f: Seq<(String, JsonValue)>, k: Seq<char>) -> Option<
    Seq<Seq<char>>,
> {
    if absent(f, k) {
        Some(Seq::<Seq<char>>::empty())
    } else {
        match lookup(f, k) {
            Some(JsonValue::Arr(a)) => if all_str(a@) {
                Some(str_views(a@))
            } else {
                None
            },
            _ => None,
        }
    }
}

/// An optional address field: absent when missing or null, the decoded
/// address when present and well-shaped, no value otherwise.
pub open spec fn field_opt_address(f: Seq<(String, JsonValue)>, k: Seq<char>) -> Option<
    Option<AddressView>,
> {
    if absent(f, k) {
        Some(None)
    } else {
        match address_of(lookup(f, k)->0) {
            Some(a) => Some(Some(a)),
            None => None,
        }
    }
}

/// An optional extra-tags field: absent when missing or null, the
/// decoded tags when present and well-shaped, no value otherwise.
pub open spec fn field_opt_extratags(f: Seq<(String, JsonValue)>, k: Seq<char>) -> Option<
    Option<ExtraTagsView>,
> {
    if absent(f, k) {
        Some(None)
    } else {
        match extratags_of(lookup(f, k)->0) {
            Some(t) => Some(Some(t)),
            None => None,
        }
    }
}

/// An optional geometry field: absent when missing or null, the decoded
/// geometry when present and well-shaped, no value otherwise.
pub open spec fn field_opt_geojson(f: Seq<(String, JsonValue)>, k: Seq<char>) -> Option<
    Option<GeoJsonView>,
> {
    if absent(f, k) {
        Some(None)
    } else {
        match geojson_of(lookup(f, k)->0) {
            Some(g) => Some(Some(g)),
            None => None,
        }
    }
}

fn get_strvec_default(fields: &Vec<(String, JsonValue)>, key: &str) -> (r: Option<Vec<String>>)
    ensures
        match r {
            Some(vv) => field_strvec_default(fields@, key@) matches Some(b) && b =~= vv@.map_values(
                |s: String| s@,
            ),
            None => field_strvec_default(fields@, key@) is None,
        },
{
    match obj_get(fields, key) {
        None => Some(Vec::new()),
        Some(jv) => match jv {
            JsonValue::Null => Some(Vec::new()),
            JsonValue::Arr(a) => {
                let n = a.len();
                let mut out: Vec<String> = Vec::new();
                let mut i: usize = 0;
                while i < n
                    invariant
                        *jv == JsonValue::Arr(*a),
                        lookup(fields@, key@) == Some(*jv),
                        0 <= i <= n,
                        n == a@.len(),
                        out@.len() == i,
                        forall|j: int| 0 <= j < i ==> a@[j] is Str,
                        forall|j: int|
                            0 <= j < i ==> (#[trigger] out@[j])@ == str_views(a@)[j],
                    decreases n - i,
                {
                    match &a[i] {
                        JsonValue::Str(s) => {
                            out.push(s.clone());
                        },
                        _ => {
                            proof {
                                assert(!all_str(a@));
                            }
                            return None;
                        },
                    }
                    i = i + 1;
                }
                proof {
                    assert(all_str(a@));
                    assert(str_views(a@) =~= out@.map_values(|s: String| s@));
                }
                Some(out)
            },
            _ => None,
        },
    }
}

fn get_opt_address(fields: &Vec<(String, JsonValue)>, key: &str) -> (r: Option<Option<Address>>)
    ensures
        match r {
            Some(Some(a)) => field_opt_address(fields@, key@) == Some(Some(a@)),
            Some(None::<Address>) => field_opt_address(fields@, key@) == Some(
                None::<AddressView>,
            ),
            None => field_opt_address(fields@, key@) is None,
        },
{
    match obj_get(fields, key) {
        None => Some(None),
        Some(jv) => match jv {
            JsonValue::Null => Some(None),
            _ => match decode_address(jv) {
                Ok(a) => Some(Some(a)),
                Err(_) => None,
            },
        },
    }
}

fn get_opt_extratags(fields: &Vec<(String, JsonValue)>, key: &str) -> (r: Option<
    Option<ExtraTags>,
>)
    ensures
        match r {
            Some(Some(t)) => field_opt_extratags(fields@, key@) == Some(Some(t@)),
            Some(None::<ExtraTags>) => field_opt_extratags(fields@, key@) == Some(
                None::<ExtraTagsView>,
            ),
            None => field_opt_extratags(fields@, key@) is None,
        },
{
    match obj_get(fields, key) {
        None => Some(None),
        Some(jv) => match jv {
            JsonValue::Null => Some(None),
            _ => match decode_extratags(jv) {
                Ok(t) => Some(Some(t)),
                Err(_) => None,
            },
        },
    }
}

fn get_opt_geojson(fields: &Vec<(String, JsonValue)>, key: &str) -> (r: Option<Option<GeoJson>>)
    ensures
        match r {
            Some(Some(g)) => field_opt_geojson(fields@, key@) == Some(Some(g@)),
            Some(None::<GeoJson>) => field_opt_geojson(fields@, key@) == Some(
                None::<GeoJsonView>,
            ),
            None => field_opt_geojson(fields@, key@) is None,
        },
{
    match obj_get(fields, key) {
        None => Some(None),
        Some(jv) => match jv {
            JsonValue::Null => Some(None),
            _ => match decode_geojson(jv) {
                Ok(g) => Some(Some(g)),
                Err(_) => None,
            },
        },
    }
}

/// What decoding a [`Place`] from a JSON value yields.  The identifying
/// fields default to zero or the empty string when missing or null; the
/// optional ones to an absent value; a present field of the wrong shape
/// fails the decode.
pub open spec fn place_of(v: JsonValue) -> Option<PlaceView> {
    match v {
        JsonValue::Obj(fields) => {
            let f = fields@;
            if field_u64_default(f, "place_id"@) is Some && field_str_default(
                f,
                "licence"@,
            ) is Some && field_str_default(f, "osm_type"@) is Some && field_u64_default(
                f,
                "osm_id"@,
            ) is Some && field_strvec_default(f, "boundingbox"@) is Some && field_str_default(
                f,
                "lat"@,
            ) is Some && field_str_default(f, "lon"@) is Some && field_str_default(
                f,
                "display_name"@,
            ) is Some && field_opt_str(f, "class"@) is Some && field_opt_str(
                f,
                "type"@,
            ) is Some && field_opt_num(f, "importance"@) is Some && field_opt_str(
                f,
                "icon"@,
            ) is Some && field_opt_address(f, "address"@) is Some && field_opt_extratags(
                f,
                "extratags"@,
            ) is Some && field_opt_geojson(f, "geojson"@) is Some && field_opt_str(
                f,
                "name"@,
            ) is Some {
                Some(
                    PlaceView {
                        place_id: field_u64_default(f, "place_id"@)->0,
                        licence: field_str_default(f, "licence"@)->0,
                        osm_type: field_str_default(f, "osm_type"@)->0,
                        osm_id: field_u64_default(f, "osm_id"@)->0,
                        boundingbox: field_strvec_default(f, "boundingbox"@)->0,
                        lat: field_str_default(f, "lat"@)->0,
                        lon: field_str_default(f, "lon"@)->0,
                        display_name: field_str_default(f, "display_name"@)->0,
                        class: field_opt_str(f, "class"@)->0,
                        _type: field_opt_str(f, "type"@)->0,
                        importance: field_opt_num(f, "importance"@)->0,
                        icon: field_opt_str(f, "icon"@)->0,
                        address: field_opt_address(f, "address"@)->0,
                        extratags: field_opt_extratags(f, "extratags"@)->0,
                        geojson: field_opt_geojson(f, "geojson"@)->0,
                        name: field_opt_str(f, "name"@)->0,
                    },
                )
            } else {
                None
            }
        },
        _ => None,
    }
}

/// Decodes a [`Place`] from a JSON value.
#[verifier::rlimit(30)]
pub fn decode_place(v: &JsonValue) -> (r: Result<Place, Error>)
    ensures
        match r {
            Ok(p) => place_of(*v) == Some(p@),
            Err(e) => place_of(*v) is None && (e matches Error::Request(_)),
        },
{
    match v {
        JsonValue::Obj(fields) => {
            let place_id = match get_u64_default(fields, "place_id") {
                Some(x) => x,
                None => {
                    return Err(schema_error());
                },
            };
            let licence = match get_str_default(fields, "licence") {
                Some(x) => x,
                None => {
                    return Err(schema_error());
                },
            };
            let osm_type = match get_str_default(fields, "osm_type") {
                Some(x) => x,
                None => {
                    return Err(schema_error());
                },
            };
            let osm_id = match get_u64_default(fields, "osm_id") {
                Some(x) => x,
                None => {
                    return Err(schema_error());
                },
            };
            let boundingbox = match get_strvec_default(fields, "boundingbox") {
                Some(x) => x,
                None => {
                    return Err(schema_error());
                },
            };
            let lat = match get_str_default(fields, "lat") {
                Some(x) => x,
                None => {
                    return Err(schema_error());
                },
            };
            let lon = match get_str_default(fields, "lon") {
                Some(x) => x,
                None => {
                    return Err(schema_error());
                },
            };
            let display_name = match get_str_default(fields, "display_name") {
                Some(x) => x,
                None => {
                    return Err(schema_error());
                },
            };
            let class = match get_opt_str(fields, "class") {
                Some(x) => x,
                None => {
                    return Err(schema_error());
                },
            };
            let _type = match get_opt_str(fields, "type") {
                Some(x) => x,
                None => {
                    return Err(schema_error());
                },
            };
            let importance = match get_opt_num(fields, "importance") {
                Some(x) => x,
                None => {
                    return Err(schema_error());
                },
            };
            let icon = match get_opt_str(fields, "icon") {
                Some(x) => x,
                None => {
                    return Err(schema_error());
                },
            };
            let address = match get_opt_address(fields, "address") {
                Some(x) => x,
                None => {
                    return Err(schema_error());
                },
            };
            let extratags = match get_opt_extratags(fields, "extratags") {
                Some(x) => x,
                None => {
                    return Err(schema_error());
                },
            };
            let geojson = match get_opt_geojson(fields, "geojson") {
                Some(x) => x,
                None => {
                    return Err(schema_error());
                },
            };
            let name = match get_opt_str(fields, "name") {
                Some(x) => x,
                None => {
                    return Err(schema_error());
                },
            };
            let p = Place {
                place_id,
                licence,
                osm_type,
                osm_id,
                boundingbox,
                lat,
                lon,
                display_name,
                class,
                _type,
                importance,
                icon,
                address,
                extratags,
                geojson,
                name,
            };
            proof {
                assert(place_of(*v) is Some);
                assert(place_of(*v)->0.boundingbox =~= p@.boundingbox);
                assert(place_of(*v) == Some(p@));
            }
            Ok(p)
        },
        _ => Err(schema_error()),
    }
}

/// What decoding a list of places yields: an array whose elements all
/// decode as places.
pub open spec fn places_of(v: JsonValue) -> Option<Seq<PlaceView>> {
    match v {
        JsonValue::Arr(a) => if forall|i: int|
            0 <= i < a@.len() ==> #[trigger] place_of(a@[i]) is Some {
            Some(Seq::new(a@.len(), |i: int| place_of(a@[i])->0))
        } else {
            None
        },
        _ => None,
    }
}

/// Decodes a list of [`Place`]s from a JSON value.
pub fn decode_places(v: &JsonValue) -> (r: Result<Vec<Place>, Error>)
    ensures
        match r {
            Ok(ps) => places_of(*v) matches Some(b) && b =~= ps@.map_values(|p: Place| p@),
            Err(e) => places_of(*v) is None && (e matches Error::Request(_)),
        },
{
    match v {
        JsonValue::Arr(a) => {
            let n = a.len();
            let mut out: Vec<Place> = Vec::new();
            let mut i: usize = 0;
            while i < n
                invariant
                    *v == JsonValue::Arr(*a),
                    0 <= i <= n,
                    n == a@.len(),
                    out@.len() == i,
                    forall|j: int| 0 <= j < i ==> #[trigger] place_of(a@[j]) is Some,
                    forall|j: int|
                        0 <= j < i ==> place_of(a@[j]) == Some((#[trigger] out@[j])@),
                decreases n - i,
            {
                match decode_place(&a[i]) {
                    Ok(p) => {
                        out.push(p);
                    },
                    Err(e) => {
                        proof {
                            assert(!(forall|j: int|
                                0 <= j < a@.len() ==> #[trigger] place_of(a@[j]) is Some));
                        }
                        return Err(e);
                    },
                }
                i = i + 1;
            }
            proof {
                assert(places_of(*v) is Some);
                assert(places_of(*v)->0 =~= out@.map_values(|p: Place| p@));
            }
            Ok(out)
        },
        _ => Err(schema_error()),
    }
}

/// Decodes a server status response body: parse, then decode.
pub fn status_from_json(body: &[u8]) -> (r: Result<Status, Error>)
    ensures
        match parsed_json(body@) {
            None => r matches Err(e) && (e matches Error::Request(_)),
            Some(v) => match r {
                Ok(s) => status_of(v) == Some(s@),
                Err(e) => status_of(v) is None && (e matches Error::Request(_)),
            },
        },
{
    match parse_json(body) {
        Err(m) => Err(Error::Request(m)),
        Ok(v) => decode_status(&v),
    }
}

/// Decodes a single-place response body: parse, then decode.
pub fn place_from_json(body: &[u8]) -> (r: Result<Place, Error>)
    ensures
        match parsed_json(body@) {
            None => r matches Err(e) && (e matches Error::Request(_)),
            Some(v) => match r {
                Ok(p) => place_of(v) == Some(p@),
                Err(e) => place_of(v) is None && (e matches Error::Request(_)),
            },
        },
{
    match parse_json(body) {
        Err(m) => Err(Error::Request(m)),
        Ok(v) => decode_place(&v),
    }
}

/// Decodes a list-of-places response body: parse, then decode.
pub fn places_from_json(body: &[u8]) -> (r: Result<Vec<Place>, Error>)
    ensures
        match parsed_json(body@) {
            None => r matches Err(e) && (e matches Error::Request(_)),
            Some(v) => match r {
                Ok(ps) => places_of(v) matches Some(b) && b =~= ps@.map_values(
                    |p: Place| p@,
                ),
                Err(e) => places_of(v) is None && (e matches Error::Request(_)),
            },
        },
{
    match parse_json(body) {
        Err(m) => Err(Error::Request(m)),
        Ok(v) => decode_places(&v),
    }
}

/// A key bound nowhere in the object is not found.
pub proof fn lemma_lookup_miss(f: Seq<(String, JsonValue)>, k: Seq<char>)
    requires
        forall|i: int| 0 <= i < f.len() ==> (#[trigger] f[i].0)@ != k,
    ensures
        lookup(f, k) is None,
    decreases f.len(),
{
    if f.len() > 0 {
        assert(forall|i: int|
            0 <= i < f.drop_first().len() ==> (#[trigger] f.drop_first()[i].0)@ != k);
        lemma_lookup_miss(f.drop_first(), k);
    }
}

/// Decoding a place object that carries only `place_id`, `lat`, `lon`
/// and `display_name` succeeds, whatever those four values are, and
/// every other field comes out as its empty or absent default rather
/// than as a decode error.
pub proof fn lemma_place_minimal_defaults(v: JsonValue)
    requires
        v matches JsonValue::Obj(fields) && fields@.len() == 4 && fields@[0].0@ == "place_id"@
            && (fields@[0].1 matches JsonValue::Num(n) && parse_u64_spec(n@) is Some)
            && fields@[1].0@ == "lat"@ && fields@[1].1 is Str && fields@[2].0@ == "lon"@
            && fields@[2].1 is Str && fields@[3].0@ == "display_name"@ && fields@[3].1 is Str,
    ensures
        v matches JsonValue::Obj(fields) ==> place_of(v) matches Some(p) && {
            &&& (fields@[0].1 matches JsonValue::Num(n) ==> Some(p.place_id) == parse_u64_spec(
                n@,
            ))
            &&& (fields@[1].1 matches JsonValue::Str(la) ==> p.lat == la@)
            &&& (fields@[2].1 matches JsonValue::Str(lo) ==> p.lon == lo@)
            &&& (fields@[3].1 matches JsonValue::Str(dn) ==> p.display_name == dn@)
            &&& p.licence == Seq::<char>::empty()
            &&& p.osm_type == Seq::<char>::empty()
            &&& p.osm_id == 0
            &&& p.boundingbox == Seq::<Seq<char>>::empty()
            &&& p.class is None
            &&& p._type is None
            &&& p.importance is None
            &&& p.icon is None
            &&& p.address is None
            &&& p.extratags is None
            &&& p.geojson is None
            &&& p.name is None
        },
{
    reveal_strlit("place_id");
    reveal_strlit("lat");
    reveal_strlit("lon");
    reveal_strlit("display_name");
    reveal_strlit("licence");
    reveal_strlit("osm_type");
    reveal_strlit("osm_id");
    reveal_strlit("boundingbox");
    reveal_strlit("class");
    reveal_strlit("type");
    reveal_strlit("importance");
    reveal_strlit("icon");
    reveal_strlit("address");
    reveal_strlit("extratags");
    reveal_strlit("geojson");
    reveal_strlit("name");
    match v {
        JsonValue::Obj(fields) => {
            let f = fields@;
            let f1 = f.drop_first();
            let f2 = f1.drop_first();
            let f3 = f2.drop_first();
            assert(f1[0] == f[1] && f1[1] == f[2] && f1[2] == f[3]);
            assert(f2[0] == f[2] && f2[1] == f[3]);
            assert(f3[0] == f[3]);
            reveal_with_fuel(lookup, 5);
            assert("place_id"@.len() == 8 && "lat"@.len() == 3 && "lon"@.len() == 3
                && "display_name"@.len() == 12);
            assert("lat"@[1] == 'a' && "lon"@[1] == 'o');
            assert("place_id"@[0] == 'p' && "osm_type"@[0] == 'o');
            assert("osm_type"@.len() == 8);
            assert(lookup(f, "place_id"@) == Some(f[0].1));
            assert(lookup(f, "lat"@) == lookup(f1, "lat"@));
            assert(lookup(f1, "lat"@) == Some(f[1].1));
            assert(lookup(f, "lon"@) == lookup(f1, "lon"@));
            assert(lookup(f1, "lon"@) == lookup(f2, "lon"@));
            assert(lookup(f2, "lon"@) == Some(f[2].1));
            assert(lookup(f, "display_name"@) == lookup(f1, "display_name"@));
            assert(lookup(f1, "display_name"@) == lookup(f2, "display_name"@));
            assert(lookup(f2, "display_name"@) == lookup(f3, "display_name"@));
            assert(lookup(f3, "display_name"@) == Some(f[3].1));
            assert(forall|i: int| 0 <= i < f.len() ==> (#[trigger] f[i].0)@ != "licence"@);
            lemma_lookup_miss(f, "licence"@);
            assert(forall|i: int| 0 <= i < f.len() ==> (#[trigger] f[i].0)@ != "osm_type"@);
            lemma_lookup_miss(f, "osm_type"@);
            assert(forall|i: int| 0 <= i < f.len() ==> (#[trigger] f[i].0)@ != "osm_id"@);
            lemma_lookup_miss(f, "osm_id"@);
            assert(forall|i: int| 0 <= i < f.len() ==> (#[trigger] f[i].0)@ != "boundingbox"@);
            lemma_lookup_miss(f, "boundingbox"@);
            assert(forall|i: int| 0 <= i < f.len() ==> (#[trigger] f[i].0)@ != "class"@);
            lemma_lookup_miss(f, "class"@);
            assert(forall|i: int| 0 <= i < f.len() ==> (#[trigger] f[i].0)@ != "type"@);
            lemma_lookup_miss(f, "type"@);
            assert(forall|i: int| 0 <= i < f.len() ==> (#[trigger] f[i].0)@ != "importance"@);
            lemma_lookup_miss(f, "importance"@);
            assert(forall|i: int| 0 <= i < f.len() ==> (#[trigger] f[i].0)@ != "icon"@);
            lemma_lookup_miss(f, "icon"@);
            assert(forall|i: int| 0 <= i < f.len() ==> (#[trigger] f[i].0)@ != "address"@);
            lemma_lookup_miss(f, "address"@);
            assert(forall|i: int| 0 <= i < f.len() ==> (#[trigger] f[i].0)@ != "extratags"@);
            lemma_lookup_miss(f, "extratags"@);
            assert(forall|i: int| 0 <= i < f.len() ==> (#[trigger] f[i].0)@ != "geojson"@);
            lemma_lookup_miss(f, "geojson"@);
            assert(forall|i: int| 0 <= i < f.len() ==> (#[trigger] f[i].0)@ != "name"@);
            lemma_lookup_miss(f, "name"@);
            assert(place_of(v) is Some);
        },
        _ => {},
    }
}

/// A missing or null key never fails a field with a default or an
/// optional field: it yields the field's zero value — the empty string,
/// zero, the empty sequence — or the absent value.
pub proof fn lemma_absent_key_defaults(f: Seq<(String, JsonValue)>, k: Seq<char>)
    requires
        absent(f, k),
    ensures
        field_str_default(f, k) == Some(Seq::<char>::empty()),
        field_u64_default(f, k) == Some(0u64),
        field_strvec_default(f, k) == Some(Seq::<Seq<char>>::empty()),
        field_opt_str(f, k) == Some(None::<Seq<char>>),
        field_opt_num(f, k) == Some(None::<Seq<char>>),
        field_opt_address(f, k) == Some(None::<AddressView>),
        field_opt_extratags(f, k) == Some(None::<ExtraTagsView>),
        field_opt_geojson(f, k) == Some(None::<GeoJsonView>),
{
}

/// Decoding a place never fails merely because a defaulted or optional
/// key is missing or bound to null: whenever every key of the object is
/// either absent in that sense or bound to a value of its expected
/// shape, the decode succeeds.  A failure can only come from a present,
/// non-null value of the wrong shape.
pub proof fn lemma_place_decode_lenient(v: JsonValue)
    requires
        v matches JsonValue::Obj(fields) && {
            let f = fields@;
            &&& absent(f, "place_id"@) || (lookup(f, "place_id"@) matches Some(
                JsonValue::Num(s),
            ) && parse_u64_spec(s@) is Some)
            &&& absent(f, "licence"@) || (lookup(f, "licence"@) matches Some(JsonValue::Str(_)))
            &&& absent(f, "osm_type"@) || (lookup(f, "osm_type"@) matches Some(
                JsonValue::Str(_),
            ))
            &&& absent(f, "osm_id"@) || (lookup(f, "osm_id"@) matches Some(JsonValue::Num(s))
                && parse_u64_spec(s@) is Some)
            &&& absent(f, "boundingbox"@) || (lookup(f, "boundingbox"@) matches Some(
                JsonValue::Arr(a),
            ) && all_str(a@))
            &&& absent(f, "lat"@) || (lookup(f, "lat"@) matches Some(JsonValue::Str(_)))
            &&& absent(f, "lon"@) || (lookup(f, "lon"@) matches Some(JsonValue::Str(_)))
            &&& absent(f, "display_name"@) || (lookup(f, "display_name"@) matches Some(
                JsonValue::Str(_),
            ))
            &&& absent(f, "class"@) || (lookup(f, "class"@) matches Some(JsonValue::Str(_)))
            &&& absent(f, "type"@) || (lookup(f, "type"@) matches Some(JsonValue::Str(_)))
            &&& absent(f, "importance"@) || (lookup(f, "importance"@) matches Some(
                JsonValue::Num(_),
            ))
            &&& absent(f, "icon"@) || (lookup(f, "icon"@) matches Some(JsonValue::Str(_)))
            &&& absent(f, "address"@) || address_of(lookup(f, "address"@)->0) is Some
            &&& absent(f, "extratags"@) || extratags_of(lookup(f, "extratags"@)->0) is Some
            &&& absent(f, "geojson"@) || geojson_of(lookup(f, "geojson"@)->0) is Some
            &&& absent(f, "name"@) || (lookup(f, "name"@) matches Some(JsonValue::Str(_)))
        },
    ensures
        place_of(v) is Some,
{
    match v {
        JsonValue::Obj(fields) => {
            let f = fields@;
            assert(field_u64_default(f, "place_id"@) is Some);
            assert(field_str_default(f, "licence"@) is Some);
            assert(field_str_default(f, "osm_type"@) is Some);
            assert(field_u64_default(f, "osm_id"@) is Some);
            assert(field_strvec_default(f, "boundingbox"@) is Some);
            assert(field_str_default(f, "lat"@) is Some);
            assert(field_str_default(f, "lon"@) is Some);
            assert(field_str_default(f, "display_name"@) is Some);
            assert(field_opt_str(f, "class"@) is Some);
            assert(field_opt_str(f, "type"@) is Some);
            assert(field_opt_num(f, "importance"@) is Some);
            assert(field_opt_str(f, "icon"@) is Some);
            assert(field_opt_address(f, "address"@) is Some);
            assert(field_opt_extratags(f, "extratags"@) is Some);
            assert(field_opt_geojson(f, "geojson"@) is Some);
            assert(field_opt_str(f, "name"@) is Some);
        },
        _ => {},
    }
}

} // verus!
