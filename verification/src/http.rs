//! The HTTP types of `hudsucker` (re-exported from `hyper`/`http`) that the
//! redirect logic reads and writes, and the few calls it makes into them.
use hudsucker::hyper::header::{HeaderMap, HeaderName, HeaderValue, CONTENT_SECURITY_POLICY};
use hudsucker::hyper::Uri;
use vstd::prelude::*;
use vstd::string::StringSliceAdditionalSpecFns;

use crate::text::opt_chars;

verus! {

#[verifier::external_type_specification]
#[verifier::external_body]
#[verifier::reject_recursive_types(T)]
pub struct ExHeaderMap<T>(HeaderMap<T>);

#[verifier::external_type_specification]
#[verifier::external_body]
pub struct ExHeaderValue(HeaderValue);

#[verifier::external_type_specification]
#[verifier::external_body]
pub struct ExHeaderName(HeaderName);

#[verifier::external_type_specification]
#[verifier::external_body]
pub struct ExUri(Uri);

// ---------------------------------------------------------------------------
// Contents of the header types
// ---------------------------------------------------------------------------

/// The bytes of a header name (`HeaderName::as_str`, always lower case).
pub uninterp spec fn header_name_bytes(name: HeaderName) -> Seq<u8>;

/// The bytes of a header value (`HeaderValue::as_bytes`).
pub uninterp spec fn header_value_bytes(value: HeaderValue) -> Seq<u8>;

/// What a header map holds: for each header name present, the bytes of its
/// values in the order in which they were added.
pub uninterp spec fn header_map_contents(map: HeaderMap<HeaderValue>) -> Map<Seq<u8>, Seq<Seq<u8>>>;

/// A byte that `HeaderValue::from_str` accepts: visible ASCII, space, tab, or
/// any byte from 0x80 on.
pub open spec fn is_header_value_byte(b: u8) -> bool {
    (b >= 32 && b != 127) || b == 9
}

/// Bytes that `HeaderValue::from_str` accepts as a header value.
pub open spec fn is_header_value(bytes: Seq<u8>) -> bool {
    forall|i: int| 0 <= i < bytes.len() ==> is_header_value_byte(#[trigger] bytes[i])
}

/// The lower-case name `content-security-policy` as bytes.
pub open spec fn csp_name_bytes() -> Seq<u8> {
    seq![
        99u8, 111, 110, 116, 101, 110, 116, 45, 115, 101, 99, 117, 114, 105, 116, 121, 45, 112, 111,
        108, 105, 99, 121,
    ]
}

/// From this many distinct header names on, inserting a new one may have to
/// grow a `HeaderMap`'s table past its maximal size.
pub open spec fn header_map_insert_bound() -> nat {
    6554
}

/// `http::header::CONTENT_SECURITY_POLICY`; the constant is defined with the
/// name `content-security-policy`.
#[verifier::external_body]
pub fn csp_header_name() -> (r: HeaderName)
    ensures
        header_name_bytes(r) == csp_name_bytes(),
{
    CONTENT_SECURITY_POLICY
}

/// `HeaderValue::from_str`: it checks every byte of the string with `is_valid`
/// (`b >= 32 && b != 127 || b == b'\t'`) and, when all pass, copies the bytes.
/// Only whether it failed is kept of its error.
#[verifier::external_body]
pub fn header_value_from_str(s: &str) -> (r: Option<HeaderValue>)
    ensures
        r is Some <==> is_header_value(s.spec_bytes()),
        r matches Some(v) ==> header_value_bytes(v) == s.spec_bytes(),
{
    HeaderValue::from_str(s).ok()
}

/// `HeaderMap::remove`: every value stored under `name` is removed. The first of
/// them, which the method returns, is dropped here.
#[verifier::external_body]
pub fn header_map_remove(map: &mut HeaderMap<HeaderValue>, name: &HeaderName)
    ensures
        header_map_contents(*final(map)) == header_map_contents(*old(map)).remove(
            header_name_bytes(*name),
        ),
{
    map.remove(name);
}

/// `HeaderMap::try_insert`: on success `value` becomes the one value stored
/// under `name`, all previous values under it removed (the previous value
/// that it returns is dropped here). It fails with `MaxSizeReached` where
/// growing its table would pass `MAX_SIZE` (2^15 slots), having changed
/// nothing the map holds; with fewer distinct names than
/// `header_map_insert_bound()` no growth can get there. Whether it fails at
/// or above that bound depends on the map's table, not on its contents.
#[verifier::external_body]
pub fn header_map_try_insert(map: &mut HeaderMap<HeaderValue>, name: HeaderName, value: HeaderValue) -> (r: bool)
    ensures
        r ==> header_map_contents(*final(map)) == header_map_contents(*old(map)).insert(
            header_name_bytes(name),
            seq![header_value_bytes(value)],
        ),
        !r ==> header_map_contents(*final(map)) == header_map_contents(*old(map))
            && header_map_contents(*old(map)).dom().len() >= header_map_insert_bound(),
{
    map.try_insert(name, value).is_ok()
}

// ---------------------------------------------------------------------------
// URIs
// ---------------------------------------------------------------------------

/// A URI that `Uri::from_str` made, with the parts the redirect logic reads
/// copied out of it. Its fields are private: `parse_uri` alone makes one, so
/// the parts always are those of the URI it holds.
pub struct ParsedUri {
    uri: Uri,
    scheme: Option<String>,
    authority: Option<String>,
    host: Option<String>,
    path_and_query: Option<String>,
}

/// The parts of a URI: scheme, authority (`host[:port]`, with user info if
/// any), host, and path with query (`Uri::path_and_query`). Scheme,
/// authority and path with query determine the URI.
pub ghost struct UriParts {
    pub scheme: Option<Seq<char>>,
    pub authority: Option<Seq<char>>,
    pub host: Option<Seq<char>>,
    pub path_and_query: Option<Seq<char>>,
}

impl View for ParsedUri {
    type V = UriParts;

    closed spec fn view(&self) -> UriParts {
        UriParts {
            scheme: opt_chars(self.scheme),
            authority: opt_chars(self.authority),
            host: opt_chars(self.host),
            path_and_query: opt_chars(self.path_and_query),
        }
    }
}

impl ParsedUri {
    /// The scheme (`Uri::scheme_str`).
    pub fn scheme(&self) -> (r: Option<&str>)
        ensures
            opt_str(r) == self@.scheme,
    {
        match &self.scheme {
            Some(s) => Some(s.as_str()),
            None => None,
        }
    }

    /// The authority (`Uri::authority`).
    pub fn authority(&self) -> (r: Option<&str>)
        ensures
            opt_str(r) == self@.authority,
    {
        match &self.authority {
            Some(s) => Some(s.as_str()),
            None => None,
        }
    }

    /// The host (`Uri::host`).
    pub fn host(&self) -> (r: Option<&str>)
        ensures
            opt_str(r) == self@.host,
    {
        match &self.host {
            Some(s) => Some(s.as_str()),
            None => None,
        }
    }

    /// The path with query (`Uri::path_and_query`).
    pub fn path_and_query(&self) -> (r: Option<&str>)
        ensures
            opt_str(r) == self@.path_and_query,
    {
        match &self.path_and_query {
            Some(s) => Some(s.as_str()),
            None => None,
        }
    }

    /// The URI itself, whose parts are this value's view.
    pub fn into_uri(self) -> Uri {
        self.uri
    }
}

/// An optional string slice by its characters.
pub open spec fn opt_str(o: Option<&str>) -> Option<Seq<char>> {
    match o {
        Some(s) => Some(s@),
        None => None,
    }
}

/// The parts of the `Uri` that `Uri::from_str` makes of `text`, or, where it
/// refuses `text`, the `Display` text of its error.
pub uninterp spec fn uri_parse(text: Seq<char>) -> Result<UriParts, Seq<char>>;

/// A parse outcome by its view: the parts, or the error text.
pub open spec fn parse_view(r: Result<ParsedUri, String>) -> Result<UriParts, Seq<char>> {
    match r {
        Ok(u) => Ok(u@),
        Err(e) => Err(e@),
    }
}

/// `Uri::from_str` (through `str::parse`), with `Uri::scheme_str`,
/// `Uri::authority`, `Uri::host` and `Uri::path_and_query` read off the
/// result, or the error turned into its `Display` text. Both depend on the
/// text alone.
#[verifier::external_body]
pub fn parse_uri(s: &str) -> (r: Result<ParsedUri, String>)
    ensures
        uri_parse(s@) == parse_view(r),
{
    match s.parse::<Uri>() {
        Ok(uri) => Ok(ParsedUri {
            scheme: uri.scheme_str().map(str::to_string),
            authority: uri.authority().map(|a| a.as_str().to_string()),
            host: uri.host().map(str::to_string),
            path_and_query: uri.path_and_query().map(|p| p.as_str().to_string()),
            uri,
        }),
        Err(err) => Err(err.to_string()),
    }
}

} // verus!
