//! Client core for a Nominatim-style geocoding HTTP service.
//!
//! The crate builds the request URLs, authentication headers and query
//! strings for the five service operations, and decodes the JSON response
//! bodies into typed results.  The HTTP transport itself is left to the
//! caller: every operation here is a pure computation from configuration
//! and parameters to a request description, or from a response body to a
//! typed value.

pub mod client;
pub mod decode;
pub mod ident;
pub mod json;
pub mod model;
pub mod query;
pub mod text;

pub use client::Client;
pub use client::RequestParts;
pub use decode::decode_place;
pub use decode::decode_places;
pub use decode::decode_status;
pub use decode::place_from_json;
pub use decode::places_from_json;
pub use decode::status_from_json;
pub use ident::IdentificationMethod;
pub use json::JsonValue;
pub use model::Error;
pub use model::LonLat;
pub use model::Address;
pub use model::Coordinates;
pub use model::ExtraTags;
pub use model::GeoJson;
pub use model::GeoJsonType;
pub use model::Place;
pub use model::SearchStructuredParams;
pub use model::Status;
pub use text::parse_u64_dec;
pub use text::u64_to_dec;
