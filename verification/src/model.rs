//! The typed response model of the service: server status, places,
//! addresses, extra tags and GeoJSON geometry, together with the
//! structured-search parameter object.  Numeric wire values whose exact
//! decimal form matters (latitude, longitude, importance, coordinates)
//! are kept as strings, so that what the server sent round-trips
//! unchanged.  Each type has a mathematical view used by the decoder's
//! contracts.

use vstd::prelude::*;

verus! {

/// What can go wrong.  `Configuration` covers an invalid base URL and an
/// invalid identification header name or value, found eagerly when a
/// request is put together.  `Request` covers everything the one request
/// itself can suffer, a response body that does not decode included; it
/// carries a description of the underlying cause.
#[derive(Debug, Clone, PartialEq, Eq)]
pub enum Error {
    Configuration,
    Request(String),
}

/// Parameters of a structured search: a query given as discrete address
/// components rather than free text.
#[derive(Debug, Clone, PartialEq, Eq)]
pub struct SearchStructuredParams {
    pub country: String,
    pub state: String,
    pub city: Option<String>,
    pub postal_code: Option<String>,
}

/// The status of the upstream server.
#[derive(Debug, Clone, PartialEq, Eq)]
pub struct Status {
    pub status: u64,
    pub message: String,
    pub data_updated: Option<String>,
    pub software_version: Option<String>,
    pub database_version: Option<String>,
}

/// The kind of a GeoJSON geometry.
#[derive(Debug, Clone, Copy, PartialEq, Eq, Structural)]
pub enum GeoJsonType {
    Point,
    LineString,
    Polygon,
    MultiPolygon,
}

/// One coordinate position: a longitude and a latitude, each kept in its
/// decimal string form.
#[derive(Debug, Clone, PartialEq, Eq)]
pub struct LonLat {
    pub lon: String,
    pub lat: String,
}

/// A GeoJSON coordinates value.  The wire format carries no tag: the
/// variant is implied by nesting depth alone, and the decoder resolves an
/// ambiguous value to the most specific matching shape.
#[derive(Debug, Clone, PartialEq, Eq)]
pub enum Coordinates {
    Point(LonLat),
    LineString(Vec<LonLat>),
    Polygon(Vec<Vec<LonLat>>),
    MultiPolygon(Vec<Vec<Vec<LonLat>>>),
}

/// A GeoJSON geometry: its kind and its coordinates.
#[derive(Debug, Clone, PartialEq, Eq)]
pub struct GeoJson {
    pub geo_type: GeoJsonType,
    pub coordinates: Coordinates,
}

/// A location returned by the server.  Every field but the identifying
/// ones falls back to an empty or absent value when missing from the
/// response.
#[derive(Debug, Clone, PartialEq, Eq)]
pub struct Place {
    pub place_id: u64,
    pub licence: String,
    pub osm_type: String,
    pub osm_id: u64,
    pub boundingbox: Vec<String>,
    pub lat: String,
    pub lon: String,
    pub display_name: String,
    pub class: Option<String>,
    pub _type: Option<String>,
    pub importance: Option<String>,
    pub icon: Option<String>,
    pub address: Option<Address>,
    pub extratags: Option<ExtraTags>,
    pub geojson: Option<GeoJson>,
    pub name: Option<String>,
}

/// An address for a place; purely descriptive, every field optional.
#[derive(Debug, Clone, PartialEq, Eq)]
pub struct Address {
    pub city: Option<String>,
    pub state_district: Option<String>,
    pub state: Option<String>,
    pub iso3166_2_lvl4: Option<String>,
    pub postcode: Option<String>,
    pub country: Option<String>,
    pub country_code: Option<String>,
}

/// Extra metadata that a place may carry; every field optional.
#[derive(Debug, Clone, PartialEq, Eq)]
pub struct ExtraTags {
    pub capital: Option<String>,
    pub website: Option<String>,
    pub wikidata: Option<String>,
    pub wikipedia: Option<String>,
    pub population: Option<String>,
}

/// The view of an optional string.
pub open spec fn opt_str_view(o: Option<String>) -> Option<Seq<char>> {
    match o {
        Some(s) => Some(s@),
        None => None,
    }
}

/// The view of a coordinate position.
pub open spec fn pair_view(p: LonLat) -> (Seq<char>, Seq<char>) {
    (p.lon@, p.lat@)
}

/// The view of [`Status`].
pub struct StatusView {
    pub status: u64,
    pub message: Seq<char>,
    pub data_updated: Option<Seq<char>>,
    pub software_version: Option<Seq<char>>,
    pub database_version: Option<Seq<char>>,
}

impl View for Status {
    type V = StatusView;

    open spec fn view(&self) -> StatusView {
        StatusView {
            status: self.status,
            message: self.message@,
            data_updated: opt_str_view(self.data_updated),
            software_version: opt_str_view(self.software_version),
            database_version: opt_str_view(self.database_version),
        }
    }
}

/// The view of [`Coordinates`].
pub enum CoordinatesView {
    Point((Seq<char>, Seq<char>)),
    LineString(Seq<(Seq<char>, Seq<char>)>),
    Polygon(Seq<Seq<(Seq<char>, Seq<char>)>>),
    MultiPolygon(Seq<Seq<Seq<(Seq<char>, Seq<char>)>>>),
}

/// The view of a sequence of coordinate positions.
pub open spec fn line_view(v: Vec<LonLat>) -> Seq<(Seq<char>, Seq<char>)> {
    v@.map_values(|p: LonLat| pair_view(p))
}

/// The view of a sequence of rings.
pub open spec fn poly_view(v: Vec<Vec<LonLat>>) -> Seq<Seq<(Seq<char>, Seq<char>)>> {
    v@.map_values(|ring: Vec<LonLat>| line_view(ring))
}

impl View for Coordinates {
    type V = CoordinatesView;

    open spec fn view(&self) -> CoordinatesView {
        match self {
            Coordinates::Point(p) => CoordinatesView::Point(pair_view(*p)),
            Coordinates::LineString(l) => CoordinatesView::LineString(line_view(*l)),
            Coordinates::Polygon(p) => CoordinatesView::Polygon(poly_view(*p)),
            Coordinates::MultiPolygon(m) => CoordinatesView::MultiPolygon(
                m@.map_values(|poly: Vec<Vec<LonLat>>| poly_view(poly)),
            ),
        }
    }
}

/// The view of [`GeoJson`].
pub struct GeoJsonView {
    pub geo_type: GeoJsonType,
    pub coordinates: CoordinatesView,
}

impl View for GeoJson {
    type V = GeoJsonView;

    open spec fn view(&self) -> GeoJsonView {
        GeoJsonView { geo_type: self.geo_type, coordinates: self.coordinates@ }
    }
}

/// The view of [`Address`].
pub struct AddressView {
    pub city: Option<Seq<char>>,
    pub state_district: Option<Seq<char>>,
    pub state: Option<Seq<char>>,
    pub iso3166_2_lvl4: Option<Seq<char>>,
    pub postcode: Option<Seq<char>>,
    pub country: Option<Seq<char>>,
    pub country_code: Option<Seq<char>>,
}

impl View for Address {
    type V = AddressView;

    open spec fn view(&self) -> AddressView {
        AddressView {
            city: opt_str_view(self.city),
            state_district: opt_str_view(self.state_district),
            state: opt_str_view(self.state),
            iso3166_2_lvl4: opt_str_view(self.iso3166_2_lvl4),
            postcode: opt_str_view(self.postcode),
            country: opt_str_view(self.country),
            country_code: opt_str_view(self.country_code),
        }
    }
}

/// The view of [`ExtraTags`].
pub struct ExtraTagsView {
    pub capital: Option<Seq<char>>,
    pub website: Option<Seq<char>>,
    pub wikidata: Option<Seq<char>>,
    pub wikipedia: Option<Seq<char>>,
    pub population: Option<Seq<char>>,
}

impl View for ExtraTags {
    type V = ExtraTagsView;

    open spec fn view(&self) -> ExtraTagsView {
        ExtraTagsView {
            capital: opt_str_view(self.capital),
            website: opt_str_view(self.website),
            wikidata: opt_str_view(self.wikidata),
            wikipedia: opt_str_view(self.wikipedia),
            population: opt_str_view(self.population),
        }
    }
}

/// The view of [`Place`].
pub struct PlaceView {
    pub place_id: u64,
    pub licence: Seq<char>,
    pub osm_type: Seq<char>,
    pub osm_id: u64,
    pub boundingbox: Seq<Seq<char>>,
    pub lat: Seq<char>,
    pub lon: Seq<char>,
    pub display_name: Seq<char>,
    pub class: Option<Seq<char>>,
    pub _type: Option<Seq<char>>,
    pub importance: Option<Seq<char>>,
    pub icon: Option<Seq<char>>,
    pub address: Option<AddressView>,
    pub extratags: Option<ExtraTagsView>,
    pub geojson: Option<GeoJsonView>,
    pub name: Option<Seq<char>>,
}

impl View for Place {
    type V = PlaceView;

    open spec fn view(&self) -> PlaceView {
        PlaceView {
            place_id: self.place_id,
            licence: self.licence@,
            osm_type: self.osm_type@,
            osm_id: self.osm_id,
            boundingbox: self.boundingbox@.map_values(|s: String| s@),
            lat: self.lat@,
            lon: self.lon@,
            display_name: self.display_name@,
            class: opt_str_view(self.class),
            _type: opt_str_view(self._type),
            importance: opt_str_view(self.importance),
            icon: opt_str_view(self.icon),
            address: match self.address {
                Some(a) => Some(a@),
                None => None,
            },
            extratags: match self.extratags {
                Some(e) => Some(e@),
                None => None,
            },
            geojson: match self.geojson {
                Some(g) => Some(g@),
                None => None,
            },
            name: opt_str_view(self.name),
        }
    }
}

} // verus!
