//! The query encoder: one canonical query string per service operation.
//!
//! Free-text search only substitutes `+` for each space and passes every
//! other character through; structured search percent-encodes its
//! user-supplied values; reverse lookup strips every white-space
//! character from the coordinates.  The asymmetry between the free-text
//! and the structured encoding mirrors the service's observed behaviour
//! and is kept as it is.

use vstd::prelude::*;

verus! {

use vstd::string::StrSliceExecFns;
use vstd::string::StringExecFns;
use crate::model::SearchStructuredParams;
use crate::model::opt_str_view;
use crate::text::check_whitespace_char;
use crate::text::dec_of;
use crate::text::is_whitespace_char;
use crate::text::push_char;
use crate::text::u64_to_dec;

/// What `urlencoding::encode` returns: the percent-encoding of the
/// string's UTF-8 bytes, every byte but the alphanumerics and `- _ . ~`
/// replaced by `%` and two hex digits.
pub uninterp spec fn pct_of(s: Seq<char>) -> Seq<char>;

/// Whether the character can occur in percent-encoded output: an
/// alphanumeric, `-`, `_`, `.`, `~` or `%` (the hex digits fall under
/// the alphanumerics).
pub open spec fn is_pct_output_char(c: char) -> bool {
    (48 <= c as int <= 57) || (65 <= c as int <= 90) || (97 <= c as int <= 122) || c == '-'
        || c == '_' || c == '.' || c == '~' || c == '%'
}

/// Relies on `urlencoding::encode`: percent-encodes every byte of the
/// argument except alphanumerics and `- _ . ~`; the result depends on
/// the argument alone, and holds nothing but unreserved characters, `%`
/// and hex digits — in particular no `&` and no `=`.
#[verifier::external_body]
fn pct_encode(s: &str) -> (r: String)
    ensures
        r@ == pct_of(s@),
        forall|i: int| 0 <= i < r@.len() ==> is_pct_output_char(#[trigger] r@[i]),
{
    urlencoding::encode(s).into_owned()
}

/// The string with every space replaced by `+` and every other character
/// kept as it is.
pub open spec fn plus_spaces(s: Seq<char>) -> Seq<char> {
    s.map_values(|c: char| if c == ' ' { '+' } else { c })
}

/// The string with every white-space character removed and every other
/// character kept, in order.
pub open spec fn strip_whitespace(s: Seq<char>) -> Seq<char> {
    s.filter(|c: char| !is_whitespace_char(c))
}

/// Replaces every space by `+`.
pub fn replace_spaces_with_plus(s: &str) -> (r: String)
    ensures
        r@ == plus_spaces(s@),
{
    let n = s.unicode_len();
    let mut out = String::new();
    let mut i: usize = 0;
    while i < n
        invariant
            0 <= i <= n,
            n == s@.len(),
            out@ == plus_spaces(s@.subrange(0, i as int)),
        decreases n - i,
    {
        let c = s.get_char(i);
        let c2 = if c == ' ' {
            '+'
        } else {
            c
        };
        push_char(&mut out, c2);
        proof {
            assert(out@ =~= plus_spaces(s@.subrange(0, i as int + 1)));
        }
        i = i + 1;
    }
    proof {
        assert(s@.subrange(0, n as int) =~= s@);
    }
    out
}

/// Removes every white-space character.
pub fn remove_whitespace(s: &str) -> (r: String)
    ensures
        r@ == strip_whitespace(s@),
{
    let n = s.unicode_len();
    let mut out = String::new();
    let mut i: usize = 0;
    while i < n
        invariant
            0 <= i <= n,
            n == s@.len(),
            out@ == strip_whitespace(s@.subrange(0, i as int)),
        decreases n - i,
    {
        let c = s.get_char(i);
        if !check_whitespace_char(c) {
            push_char(&mut out, c);
        }
        proof {
            reveal(Seq::filter);
            let t = s@.subrange(0, i as int + 1);
            assert(t.drop_last() =~= s@.subrange(0, i as int));
            assert(out@ =~= strip_whitespace(t));
        }
        i = i + 1;
    }
    proof {
        assert(s@.subrange(0, n as int) =~= s@);
    }
    out
}

/// The query string of the status operation.
pub open spec fn status_query_spec() -> Seq<char> {
    "format=json"@
}

/// The query string of a free-text search: the query's spaces become `+`,
/// all other characters pass through unescaped.
pub open spec fn search_query_spec(q: Seq<char>) -> Seq<char> {
    "addressdetails=1&extratags=1&q="@ + plus_spaces(q) + "&format=json&polygon_geojson=1"@
}

/// The query string of a structured search: percent-encoded `country` and
/// `state` always; `city` and `postalcode` only when present.
pub open spec fn structured_query_spec(
    country: Seq<char>,
    state: Seq<char>,
    city: Option<Seq<char>>,
    postal_code: Option<Seq<char>>,
) -> Seq<char> {
    "country="@ + pct_of(country) + "&state="@ + pct_of(state) + (match city {
        Some(c) => "&city="@ + pct_of(c),
        None => Seq::<char>::empty(),
    }) + (match postal_code {
        Some(p) => "&postalcode="@ + pct_of(p),
        None => Seq::<char>::empty(),
    }) + "&format=json&addressdetails=true&extratags=true&polygon_geojson=true"@
}

/// The query string of a reverse lookup: every white-space character is
/// stripped from the two coordinates, and the zoom parameter is appended
/// only when supplied.
pub open spec fn reverse_query_spec(lat: Seq<char>, lon: Seq<char>, zoom: Option<u8>) -> Seq<
    char,
> {
    let base = "addressdetails=1&extratags=1&format=json&lat="@ + strip_whitespace(lat)
        + "&lon="@ + strip_whitespace(lon);
    match zoom {
        None => base,
        Some(z) => base + "&zoom="@ + dec_of(z as nat),
    }
}

/// The character sequences of a list of strings.
pub open spec fn seq_views(v: Seq<String>) -> Seq<Seq<char>> {
    v.map_values(|s: String| s@)
}

/// The comma-joined list, in input order, nothing deduplicated.
pub open spec fn comma_join(ids: Seq<Seq<char>>) -> Seq<char>
    decreases ids.len(),
{
    if ids.len() == 0 {
        Seq::<char>::empty()
    } else if ids.len() == 1 {
        ids[0]
    } else {
        comma_join(ids.drop_last()) + seq![','] + ids.last()
    }
}

/// The query string of a batch lookup over OSM reference strings.
pub open spec fn lookup_query_spec(ids: Seq<Seq<char>>) -> Seq<char> {
    "osm_ids="@ + comma_join(ids) + "&addressdetails=1&extratags=1&format=json"@
}

/// Builds the status query string.
pub fn status_query() -> (r: String)
    ensures
        r@ == status_query_spec(),
{
    String::from_str("format=json")
}

/// Builds the free-text search query string.  Every space of the query
/// becomes `+`; all other characters, `&` and `=` included, pass through
/// unescaped.
pub fn search_query(query: &str) -> (r: String)
    ensures
        r@ == search_query_spec(query@),
{
    let mut out = String::from_str("addressdetails=1&extratags=1&q=");
    let q = replace_spaces_with_plus(query);
    out.append(q.as_str());
    out.append("&format=json&polygon_geojson=1");
    out
}

/// Builds the structured search query string.  `country` and `state` are
/// always sent, percent-encoded; `city` and `postalcode` are omitted
/// entirely when absent.
pub fn structured_query(params: &SearchStructuredParams) -> (r: String)
    ensures
        r@ == structured_query_spec(
            params.country@,
            params.state@,
            opt_str_view(params.city),
            opt_str_view(params.postal_code),
        ),
{
    let mut out = String::from_str("country=");
    let c = pct_encode(params.country.as_str());
    out.append(c.as_str());
    out.append("&state=");
    let s = pct_encode(params.state.as_str());
    out.append(s.as_str());
    match &params.city {
        Some(city) => {
            out.append("&city=");
            let e = pct_encode(city.as_str());
            out.append(e.as_str());
        },
        None => {},
    }
    match &params.postal_code {
        Some(postal) => {
            out.append("&postalcode=");
            let e = pct_encode(postal.as_str());
            out.append(e.as_str());
        },
        None => {},
    }
    out.append("&format=json&addressdetails=true&extratags=true&polygon_geojson=true");
    proof {
        assert(out@ =~= structured_query_spec(
            params.country@,
            params.state@,
            opt_str_view(params.city),
            opt_str_view(params.postal_code),
        ));
    }
    out
}

/// Builds the reverse lookup query string.  Every white-space character
/// is stripped from both coordinate strings and no other character is
/// altered; `zoom` is appended only when supplied.
pub fn reverse_query(latitude: &str, longitude: &str, zoom: Option<u8>) -> (r: String)
    ensures
        r@ == reverse_query_spec(latitude@, longitude@, zoom),
{
    let mut out = String::from_str("addressdetails=1&extratags=1&format=json&lat=");
    let la = remove_whitespace(latitude);
    out.append(la.as_str());
    out.append("&lon=");
    let lo = remove_whitespace(longitude);
    out.append(lo.as_str());
    match zoom {
        None => {},
        Some(z) => {
            out.append("&zoom=");
            let zs = u64_to_dec(z as u64);
            out.append(zs.as_str());
        },
    }
    out
}

/// Joins the reference strings with commas, in input order.
pub fn join_commas(ids: &Vec<String>) -> (r: String)
    ensures
        r@ == comma_join(seq_views(ids@)),
{
    let ghost m = ids@.map_values(|s: String| s@);
    let mut out = String::new();
    let mut i: usize = 0;
    while i < ids.len()
        invariant
            0 <= i <= ids.len(),
            m == ids@.map_values(|s: String| s@),
            m.len() == ids@.len(),
            out@ == comma_join(m.subrange(0, i as int)),
        decreases ids.len() - i,
    {
        if i > 0 {
            push_char(&mut out, ',');
        }
        out.append(ids[i].as_str());
        proof {
            let t = m.subrange(0, i as int + 1);
            assert(t.drop_last() =~= m.subrange(0, i as int));
            assert(out@ =~= comma_join(t));
        }
        i = i + 1;
    }
    proof {
        assert(m.subrange(0, ids@.len() as int) =~= m);
    }
    out
}

/// Builds the batch lookup query string: the references joined with
/// commas, in input order, nothing deduplicated.
pub fn lookup_query(queries: &Vec<String>) -> (r: String)
    ensures
        r@ == lookup_query_spec(seq_views(queries@)),
{
    let mut out = String::from_str("osm_ids=");
    let joined = join_commas(queries);
    out.append(joined.as_str());
    out.append("&addressdetails=1&extratags=1&format=json");
    out
}

/// With `city` and `postal_code` both absent, the structured query string
/// omits the `city=` and `postalcode=` parameters entirely: it is exactly
/// the two required parameters followed by the fixed ones.
pub proof fn lemma_structured_query_omits_absent(country: Seq<char>, state: Seq<char>)
    ensures
        structured_query_spec(country, state, None, None) == "country="@ + pct_of(country)
            + "&state="@ + pct_of(state)
            + "&format=json&addressdetails=true&extratags=true&polygon_geojson=true"@,
{
    assert(structured_query_spec(country, state, None, None) =~= "country="@ + pct_of(country)
        + "&state="@ + pct_of(state)
        + "&format=json&addressdetails=true&extratags=true&polygon_geojson=true"@);
}

/// The reverse query string with a zoom differs from the one without only
/// by the appended `&zoom=` parameter: everything before it is identical
/// and in the same order.
pub proof fn lemma_reverse_query_zoom_suffix(lat: Seq<char>, lon: Seq<char>, z: u8)
    ensures
        reverse_query_spec(lat, lon, Some(z)) == reverse_query_spec(lat, lon, None) + "&zoom="@
            + dec_of(z as nat),
{
}

/// Stripping white space removes every white-space character and nothing
/// else: no character of the result is white space, every other
/// character of the input is kept, and the result never grows.
pub proof fn lemma_strip_whitespace_only_whitespace(s: Seq<char>)
    ensures
        forall|i: int|
            0 <= i < strip_whitespace(s).len() ==> !is_whitespace_char(strip_whitespace(s)[i]),
        forall|i: int|
            0 <= i < s.len() && !is_whitespace_char(s[i]) ==> strip_whitespace(s).contains(s[i]),
        strip_whitespace(s).len() <= s.len(),
{
    broadcast use vstd::seq_lib::group_filter_ensures;

}

/// Substituting `+` for spaces keeps the length and touches nothing but
/// the spaces: position by position, a space becomes `+` and every other
/// character stays itself.
pub proof fn lemma_plus_spaces_pointwise(s: Seq<char>)
    ensures
        plus_spaces(s).len() == s.len(),
        forall|i: int|
            0 <= i < s.len() ==> plus_spaces(s)[i] == if s[i] == ' ' {
                '+'
            } else {
                s[i]
            },
{
}

} // verus!
