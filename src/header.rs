//! What the library relies on from the HTTP types that reqwest re-exports.
use vstd::prelude::*;
use reqwest::header::{
    HeaderMap, HeaderName, HeaderValue, InvalidHeaderName, InvalidHeaderValue, MaxSizeReached,
};

verus! {

#[verifier::external_type_specification]
#[verifier::external_body]
pub struct ExHeaderName(HeaderName);

#[verifier::external_type_specification]
#[verifier::external_body]
pub struct ExHeaderValue(HeaderValue);

#[verifier::external_type_specification]
#[verifier::external_body]
pub struct ExInvalidHeaderName(InvalidHeaderName);

#[verifier::external_type_specification]
#[verifier::external_body]
pub struct ExInvalidHeaderValue(InvalidHeaderValue);

#[verifier::external_type_specification]
#[verifier::external_body]
pub struct ExMaxSizeReached(MaxSizeReached);

#[verifier::external_type_specification]
#[verifier::external_body]
#[verifier::reject_recursive_types(T)]
pub struct ExHeaderMap<T>(HeaderMap<T>);

/// A character that a header value may hold: a byte of its UTF-8 encoding is
/// accepted when it is a tab or at least 32 and not 127, and every byte of a
/// character above ASCII is at least 128.
pub open spec fn header_value_char(c: char) -> bool {
    (c as u32 >= 32 && c as u32 != 127) || c == '\t'
}

pub open spec fn header_value_ok(text: Seq<char>) -> bool {
    forall|i: int| 0 <= i < text.len() ==> header_value_char(#[trigger] text[i])
}

/// The header name that a text spells, if it is a valid one.
pub uninterp spec fn header_name_of(text: Seq<char>) -> Option<HeaderName>;

/// The header value that a valid text makes.
pub uninterp spec fn header_value_of(text: Seq<char>) -> HeaderValue;

/// The headers of a map, one value for each name.
pub uninterp spec fn header_entries(m: HeaderMap<HeaderValue>) -> Map<HeaderName, HeaderValue>;

/// The headers of an empty map.
pub open spec fn no_headers() -> Map<HeaderName, HeaderValue> {
    Map::empty()
}

/// Relies on `HeaderName::from_bytes` over the text's UTF-8 bytes: the name
/// depends on the bytes alone.
#[verifier::external_body]
pub(crate) fn header_name(text: &str) -> (r: Result<HeaderName, InvalidHeaderName>)
    ensures
        r is Ok <==> header_name_of(text@) is Some,
        r is Ok ==> header_name_of(text@) == Some(r->Ok_0),
{
    HeaderName::from_bytes(text.as_bytes())
}

/// Relies on `HeaderValue::from_str`: accepted exactly when every byte is a
/// tab or at least 32 and not 127.
#[verifier::external_body]
pub(crate) fn header_value(text: &str) -> (r: Result<HeaderValue, InvalidHeaderValue>)
    ensures
        r is Ok <==> header_value_ok(text@),
        r is Ok ==> r->Ok_0 == header_value_of(text@),
{
    HeaderValue::from_str(text)
}

/// Relies on `HeaderMap::new`: a map without headers.
#[verifier::external_body]
pub(crate) fn header_map_new() -> (r: HeaderMap<HeaderValue>)
    ensures
        header_entries(r) == no_headers(),
{
    HeaderMap::new()
}

/// Relies on `HeaderMap::try_insert`: on success the name gets this value,
/// and every earlier value of the name goes. It fails when the map cannot
/// grow; what it then holds is not relied on.
#[verifier::external_body]
pub(crate) fn header_map_try_insert(
    m: &mut HeaderMap<HeaderValue>,
    name: HeaderName,
    value: HeaderValue,
) -> (r: Result<(), MaxSizeReached>)
    ensures
        r is Ok ==> header_entries(*final(m)) == header_entries(*old(m)).insert(name, value),
{
    m.try_insert(name, value).map(|_| ())
}

} // verus!
