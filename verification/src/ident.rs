//! How a client identifies itself to the upstream service: a single HTTP
//! header, chosen once at construction time.  The strategy yields the
//! header's name and value; request construction validates both and fails
//! with a configuration error when either would be malformed on the wire.

use vstd::prelude::*;

verus! {

use vstd::string::StrSliceExecFns;
use vstd::string::StringExecFns;

/// The way the caller is identified to the upstream service.  Exactly one
/// strategy is active per client and it never changes afterwards.
#[derive(Debug, Clone)]
pub enum IdentificationMethod {
    /// Identify through the `User-Agent` header.
    UserAgent(String),
    /// Identify through the `Referer` header.
    Referer(String),
    /// Identify through an API key sent under a service-chosen header.
    ApiKey { header: String, key: String },
}

/// Whether a character may stand in an HTTP header name: the token
/// characters of RFC 7230, that is letters, digits and
/// `! # $ % & ' * + - . ^ _ ` | ~`.
pub open spec fn is_token_char(c: char) -> bool {
    (97 <= c as int <= 122)  // a-z
     || (65 <= c as int <= 90)  // A-Z
     || (48 <= c as int <= 57)  // 0-9
     || c == '!' || c == '#' || c == '$' || c == '%' || c == '&' || c == '\'' || c == '*'
        || c == '+' || c == '-' || c == '.' || c == '^' || c == '_' || c == '`' || c == '|'
        || c == '~'
}

/// Whether a string is valid as an HTTP header name: non-empty and made of
/// token characters only.
pub open spec fn valid_header_name(s: Seq<char>) -> bool {
    s.len() > 0 && forall|i: int| 0 <= i < s.len() ==> is_token_char(s[i])
}

/// Whether a character may stand in an HTTP header value: anything but the
/// control characters, with the horizontal tab allowed.
pub open spec fn is_value_char(c: char) -> bool {
    c == '\t' || (c as int >= 32 && c as int != 127)
}

/// Whether a string is valid as an HTTP header value.
pub open spec fn valid_header_value(s: Seq<char>) -> bool {
    forall|i: int| 0 <= i < s.len() ==> is_value_char(s[i])
}

fn is_token_char_exec(c: char) -> (r: bool)
    ensures
        r == is_token_char(c),
{
    ('a' <= c && c <= 'z') || ('A' <= c && c <= 'Z') || ('0' <= c && c <= '9') || c == '!'
        || c == '#' || c == '$' || c == '%' || c == '&' || c == '\'' || c == '*' || c == '+'
        || c == '-' || c == '.' || c == '^' || c == '_' || c == '`' || c == '|' || c == '~'
}

/// Checks a string for use as an HTTP header name.
pub fn check_header_name(s: &str) -> (r: bool)
    ensures
        r == valid_header_name(s@),
{
    let n = s.unicode_len();
    if n == 0 {
        return false;
    }
    let mut i: usize = 0;
    while i < n
        invariant
            0 <= i <= n,
            n == s@.len(),
            forall|j: int| 0 <= j < i ==> is_token_char(s@[j]),
        decreases n - i,
    {
        let c = s.get_char(i);
        if !is_token_char_exec(c) {
            return false;
        }
        i = i + 1;
    }
    true
}

/// Checks a string for use as an HTTP header value.
pub fn check_header_value(s: &str) -> (r: bool)
    ensures
        r == valid_header_value(s@),
{
    let n = s.unicode_len();
    let mut i: usize = 0;
    while i < n
        invariant
            0 <= i <= n,
            n == s@.len(),
            forall|j: int| 0 <= j < i ==> is_value_char(s@[j]),
        decreases n - i,
    {
        let c = s.get_char(i);
        let ok = c == '\t' || (c as u32 >= 32 && c as u32 != 127);
        if !ok {
            return false;
        }
        i = i + 1;
    }
    true
}

impl IdentificationMethod {
    /// The name of the header this strategy sends.
    pub open spec fn header_spec(&self) -> Seq<char> {
        match self {
            IdentificationMethod::UserAgent(_) => "User-Agent"@,
            IdentificationMethod::Referer(_) => "Referer"@,
            IdentificationMethod::ApiKey { header, .. } => header@,
        }
    }

    /// The value of the header this strategy sends.
    pub open spec fn value_spec(&self) -> Seq<char> {
        match self {
            IdentificationMethod::UserAgent(v) => v@,
            IdentificationMethod::Referer(v) => v@,
            IdentificationMethod::ApiKey { key, .. } => key@,
        }
    }

    /// Whether the produced header name and value are both valid on the
    /// wire; request construction refuses an invalid pair.
    pub open spec fn is_valid(&self) -> bool {
        valid_header_name(self.header_spec()) && valid_header_value(self.value_spec())
    }

    /// The name of the header this strategy sends.
    pub fn header(&self) -> (r: String)
        ensures
            r@ == self.header_spec(),
    {
        match self {
            IdentificationMethod::UserAgent(_) => String::from_str("User-Agent"),
            IdentificationMethod::Referer(_) => String::from_str("Referer"),
            IdentificationMethod::ApiKey { header, .. } => header.clone(),
        }
    }

    /// The value of the header this strategy sends.
    pub fn value(&self) -> (r: String)
        ensures
            r@ == self.value_spec(),
    {
        match self {
            IdentificationMethod::UserAgent(v) => v.clone(),
            IdentificationMethod::Referer(v) => v.clone(),
            IdentificationMethod::ApiKey { key, .. } => key.clone(),
        }
    }

    /// Checks that the header name and value this strategy produces are
    /// both valid on the wire.
    pub fn check(&self) -> (r: bool)
        ensures
            r == self.is_valid(),
    {
        let name = self.header();
        let value = self.value();
        let name_ok = check_header_name(name.as_str());
        let value_ok = check_header_value(value.as_str());
        name_ok && value_ok
    }
}

} // verus!
