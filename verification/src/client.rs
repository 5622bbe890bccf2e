//! The client facade: configuration (identification strategy, base URL,
//! timeout) and, per operation, the full request description — URL,
//! authentication header and timeout — ready for an HTTP executor.
//!
//! Construction fails fast with a configuration error when the
//! identification header would be malformed on the wire or when the
//! base URL cannot be worked with; the request itself is someone
//! else's job.

use vstd::prelude::*;

verus! {

use vstd::string::StringExecFns;
use crate::ident::IdentificationMethod;
use crate::model::Error;
use crate::model::SearchStructuredParams;
use crate::model::opt_str_view;
use crate::query::lookup_query;
use crate::query::lookup_query_spec;
use crate::query::reverse_query;
use crate::query::reverse_query_spec;
use crate::query::search_query;
use crate::query::search_query_spec;
use crate::query::seq_views;
use crate::query::status_query;
use crate::query::status_query_spec;
use crate::query::structured_query;
use crate::query::structured_query_spec;

/// Whether the string parses as an absolute URL.
pub uninterp spec fn is_url(s: Seq<char>) -> bool;

/// Relies on `url::Url::parse`: an absolute, well-formed URL parses; a
/// relative or malformed one does not.
#[verifier::external_body]
fn url_parses(s: &str) -> (r: bool)
    ensures
        r == is_url(s@),
{
    url::Url::parse(s).is_ok()
}

/// The serialized URL obtained by parsing the base, resolving the path
/// against it and replacing the query component; nothing when the base
/// does not parse or the path cannot be resolved against it.
pub uninterp spec fn url_with_path(base: Seq<char>, path: Seq<char>, query: Seq<char>) -> Option<
    Seq<char>,
>;

/// Relies on `url::Url`: `parse` of the base, `join` of the path and
/// `set_query`; the serialized result depends on the three strings
/// alone.
#[verifier::external_body]
fn build_url_with_path(base: &str, path: &str, query: &str) -> (r: Option<String>)
    ensures
        match r {
            Some(u) => url_with_path(base@, path@, query@) == Some(u@),
            None => url_with_path(base@, path@, query@) is None,
        },
{
    let parsed = match url::Url::parse(base) {
        Ok(u) => u,
        Err(_) => return None,
    };
    let mut joined = match parsed.join(path) {
        Ok(u) => u,
        Err(_) => return None,
    };
    joined.set_query(Some(query));
    Some(String::from(joined.as_str()))
}

/// The serialized URL obtained by parsing the base and replacing its
/// query component, the path left as it is; nothing when the base does
/// not parse.
pub uninterp spec fn url_at_root(base: Seq<char>, query: Seq<char>) -> Option<Seq<char>>;

/// Relies on `url::Url`: `parse` of the base and `set_query`; the
/// serialized result depends on the two strings alone.
#[verifier::external_body]
fn build_url_at_root(base: &str, query: &str) -> (r: Option<String>)
    ensures
        match r {
            Some(u) => url_at_root(base@, query@) == Some(u@),
            None => url_at_root(base@, query@) is None,
        },
{
    let mut parsed = match url::Url::parse(base) {
        Ok(u) => u,
        Err(_) => return None,
    };
    parsed.set_query(Some(query));
    Some(String::from(parsed.as_str()))
}

/// Everything an HTTP executor needs for one GET request: the URL, the
/// one authentication header, and the timeout.
#[derive(Debug, Clone)]
pub struct RequestParts {
    pub url: String,
    pub header_name: String,
    pub header_value: String,
    pub timeout_ms: u64,
}

/// The interface for reaching a geocoding server: holds the
/// identification strategy, the base URL and the request timeout, and
/// builds the request description for each operation.
#[derive(Debug, Clone)]
pub struct Client {
    ident: IdentificationMethod,
    base_url: String,
    /// HTTP request timeout, in milliseconds.
    pub timeout_ms: u64,
}

impl Client {
    /// The identification strategy this client was built with.
    pub closed spec fn spec_ident(&self) -> IdentificationMethod {
        self.ident
    }

    /// The base URL all requests are built against.
    pub closed spec fn spec_base_url(&self) -> Seq<char> {
        self.base_url@
    }

    /// The request timeout, in milliseconds.
    pub closed spec fn spec_timeout_ms(&self) -> u64 {
        self.timeout_ms
    }

    /// Sets the request timeout, in milliseconds.
    pub fn set_timeout(&mut self, timeout_ms: u64)
        ensures
            final(self).spec_timeout_ms() == timeout_ms,
            final(self).spec_ident() == old(self).spec_ident(),
            final(self).spec_base_url() == old(self).spec_base_url(),
    {
        self.timeout_ms = timeout_ms;
    }

    /// Creates a client over the public Nominatim host with a timeout of
    /// ten seconds.
    pub fn new(ident: IdentificationMethod) -> (c: Client)
        ensures
            c.spec_ident() == ident,
            c.spec_base_url() == "https://nominatim.openstreetmap.org/"@,
            c.spec_timeout_ms() == 10000,
    {
        Client {
            ident,
            base_url: String::from_str("https://nominatim.openstreetmap.org/"),
            timeout_ms: 10000,
        }
    }

    /// Sets the base URL for all requests.  A string that does not parse
    /// as an absolute URL is rejected here, at set time, and the client
    /// is left unchanged.
    pub fn set_base_url(&mut self, url: &str) -> (r: Result<(), Error>)
        ensures
            r is Ok <==> is_url(url@),
            r matches Err(e) ==> e == Error::Configuration && *final(self) == *old(self),
            r is Ok ==> final(self).spec_base_url() == url@,
            final(self).spec_ident() == old(self).spec_ident(),
            final(self).spec_timeout_ms() == old(self).spec_timeout_ms(),
    {
        if url_parses(url) {
            self.base_url = String::from_str(url);
            Ok(())
        } else {
            Err(Error::Configuration)
        }
    }

    /// The identification header this client sends, after checking that
    /// its name and value are valid on the wire.
    fn auth_header(&self) -> (r: Result<(String, String), Error>)
        ensures
            r is Ok <==> self.spec_ident().is_valid(),
            r matches Ok(p) ==> p.0@ == self.spec_ident().header_spec() && p.1@
                == self.spec_ident().value_spec(),
            r matches Err(e) ==> e == Error::Configuration,
    {
        if self.ident.check() {
            Ok((self.ident.header(), self.ident.value()))
        } else {
            Err(Error::Configuration)
        }
    }

    /// The request that checks the status of the server.
    pub fn status_request(&self) -> (r: Result<RequestParts, Error>)
        ensures
            !self.spec_ident().is_valid() ==> (r matches Err(e) && e == Error::Configuration),
            self.spec_ident().is_valid() ==> match r {
                Ok(p) => {
                    &&& url_with_path(self.spec_base_url(), "status.php"@, status_query_spec())
                        == Some(p.url@)
                    &&& p.header_name@ == self.spec_ident().header_spec()
                    &&& p.header_value@ == self.spec_ident().value_spec()
                    &&& p.timeout_ms == self.spec_timeout_ms()
                },
                Err(e) => url_with_path(self.spec_base_url(), "status.php"@, status_query_spec())
                    is None && e == Error::Configuration,
            },
    {
        let (header_name, header_value) = match self.auth_header() {
            Ok(p) => p,
            Err(e) => {
                return Err(e);
            },
        };
        let q = status_query();
        match build_url_with_path(self.base_url.as_str(), "status.php", q.as_str()) {
            Some(url) => Ok(
                RequestParts { url, header_name, header_value, timeout_ms: self.timeout_ms },
            ),
            None => Err(Error::Configuration),
        }
    }

    /// The request that searches for places from a free-text query.
    pub fn search_request(&self, query: &str) -> (r: Result<RequestParts, Error>)
        ensures
            !self.spec_ident().is_valid() ==> (r matches Err(e) && e == Error::Configuration),
            self.spec_ident().is_valid() ==> match r {
                Ok(p) => {
                    &&& url_at_root(self.spec_base_url(), search_query_spec(query@)) == Some(
                        p.url@,
                    )
                    &&& p.header_name@ == self.spec_ident().header_spec()
                    &&& p.header_value@ == self.spec_ident().value_spec()
                    &&& p.timeout_ms == self.spec_timeout_ms()
                },
                Err(e) => url_at_root(self.spec_base_url(), search_query_spec(query@)) is None
                    && e == Error::Configuration,
            },
    {
        let (header_name, header_value) = match self.auth_header() {
            Ok(p) => p,
            Err(e) => {
                return Err(e);
            },
        };
        let q = search_query(query);
        match build_url_at_root(self.base_url.as_str(), q.as_str()) {
            Some(url) => Ok(
                RequestParts { url, header_name, header_value, timeout_ms: self.timeout_ms },
            ),
            None => Err(Error::Configuration),
        }
    }

    /// The request that searches for places from structured address
    /// components.
    pub fn search_structured_request(&self, params: &SearchStructuredParams) -> (r: Result<
        RequestParts,
        Error,
    >)
        ensures
            !self.spec_ident().is_valid() ==> (r matches Err(e) && e == Error::Configuration),
            self.spec_ident().is_valid() ==> {
                let q = structured_query_spec(
                    params.country@,
                    params.state@,
                    opt_str_view(params.city),
                    opt_str_view(params.postal_code),
                );
                match r {
                    Ok(p) => {
                        &&& url_at_root(self.spec_base_url(), q) == Some(p.url@)
                        &&& p.header_name@ == self.spec_ident().header_spec()
                        &&& p.header_value@ == self.spec_ident().value_spec()
                        &&& p.timeout_ms == self.spec_timeout_ms()
                    },
                    Err(e) => url_at_root(self.spec_base_url(), q) is None && e
                        == Error::Configuration,
                }
            },
    {
        let (header_name, header_value) = match self.auth_header() {
            Ok(p) => p,
            Err(e) => {
                return Err(e);
            },
        };
        let q = structured_query(params);
        match build_url_at_root(self.base_url.as_str(), q.as_str()) {
            Some(url) => Ok(
                RequestParts { url, header_name, header_value, timeout_ms: self.timeout_ms },
            ),
            None => Err(Error::Configuration),
        }
    }

    /// The request that resolves a latitude and longitude into a place.
    pub fn reverse_request(&self, latitude: &str, longitude: &str, zoom: Option<u8>) -> (r: Result<
        RequestParts,
        Error,
    >)
        ensures
            !self.spec_ident().is_valid() ==> (r matches Err(e) && e == Error::Configuration),
            self.spec_ident().is_valid() ==> match r {
                Ok(p) => {
                    &&& url_with_path(
                        self.spec_base_url(),
                        "reverse"@,
                        reverse_query_spec(latitude@, longitude@, zoom),
                    ) == Some(p.url@)
                    &&& p.header_name@ == self.spec_ident().header_spec()
                    &&& p.header_value@ == self.spec_ident().value_spec()
                    &&& p.timeout_ms == self.spec_timeout_ms()
                },
                Err(e) => url_with_path(
                    self.spec_base_url(),
                    "reverse"@,
                    reverse_query_spec(latitude@, longitude@, zoom),
                ) is None && e == Error::Configuration,
            },
    {
        let (header_name, header_value) = match self.auth_header() {
            Ok(p) => p,
            Err(e) => {
                return Err(e);
            },
        };
        let q = reverse_query(latitude, longitude, zoom);
        match build_url_with_path(self.base_url.as_str(), "reverse", q.as_str()) {
            Some(url) => Ok(
                RequestParts { url, header_name, header_value, timeout_ms: self.timeout_ms },
            ),
            None => Err(Error::Configuration),
        }
    }

    /// The request that looks up places from a list of OSM references,
    /// sent comma-joined in input order.
    pub fn lookup_request(&self, queries: &Vec<String>) -> (r: Result<RequestParts, Error>)
        ensures
            !self.spec_ident().is_valid() ==> (r matches Err(e) && e == Error::Configuration),
            self.spec_ident().is_valid() ==> match r {
                Ok(p) => {
                    &&& url_with_path(
                        self.spec_base_url(),
                        "lookup"@,
                        lookup_query_spec(seq_views(queries@)),
                    ) == Some(p.url@)
                    &&& p.header_name@ == self.spec_ident().header_spec()
                    &&& p.header_value@ == self.spec_ident().value_spec()
                    &&& p.timeout_ms == self.spec_timeout_ms()
                },
                Err(e) => url_with_path(
                    self.spec_base_url(),
                    "lookup"@,
                    lookup_query_spec(seq_views(queries@)),
                ) is None && e == Error::Configuration,
            },
    {
        let (header_name, header_value) = match self.auth_header() {
            Ok(p) => p,
            Err(e) => {
                return Err(e);
            },
        };
        let q = lookup_query(queries);
        match build_url_with_path(self.base_url.as_str(), "lookup", q.as_str()) {
            Some(url) => Ok(
                RequestParts { url, header_name, header_value, timeout_ms: self.timeout_ms },
            ),
            None => Err(Error::Configuration),
        }
    }
}

} // verus!
