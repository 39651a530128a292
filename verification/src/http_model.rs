//! What this library takes on trust from the `http` crate: its header map and
//! its status code, each with a name for what it holds.

use http::{HeaderMap, StatusCode};
use vstd::prelude::*;

verus! {

/// `http::HeaderMap`, a multimap from header names to header values. Held
/// as an opaque value; what it stores is spoken of through
/// [`header_entries`].
#[verifier::external_type_specification]
#[verifier::external_body]
#[verifier::reject_recursive_types(T)]
pub struct ExHeaderMap<T>(http::HeaderMap<T>);

/// `http::HeaderValue`, the value type of the header maps used here. Never
/// looked into.
#[verifier::external_type_specification]
#[verifier::external_body]
pub struct ExHeaderValue(http::HeaderValue);

/// `http::StatusCode`, an HTTP status code. Held as an opaque value; its
/// number is spoken of through [`status_number`].
#[verifier::external_type_specification]
#[verifier::external_body]
pub struct ExStatusCode(http::StatusCode);

/// One header name of a map together with every value stored under it, in
/// the order in which the map yields them.
pub struct HeaderEntry {
    pub name: Seq<char>,
    pub values: Seq<Seq<u8>>,
}

/// What an `http::HeaderMap` holds: one entry for each distinct name, in the
/// order of `HeaderMap::keys`.
pub uninterp spec fn header_entries(map: HeaderMap) -> Seq<HeaderEntry>;

/// The number that `http::StatusCode::as_u16` gives for a status code.
pub uninterp spec fn status_number(code: StatusCode) -> u16;

/// `Clone::clone` of an `http::HeaderMap` of header values: the copy is the
/// map over again, name by name and value by value.
#[verifier::external_body]
pub(crate) fn clone_headers(map: &HeaderMap) -> (copy: HeaderMap)
    ensures
        copy == *map,
{
    map.clone()
}

/// `http::HeaderMap::new`: the map it returns holds no header.
#[verifier::external_body]
pub(crate) fn empty_headers() -> (map: HeaderMap)
    ensures
        header_entries(map) == Seq::<HeaderEntry>::empty(),
{
    HeaderMap::new()
}

/// `http::HeaderMap::keys_len`: the number of distinct names that the map
/// holds, however many values stand under each.
#[verifier::external_body]
pub(crate) fn header_names_len(map: &HeaderMap) -> (count: usize)
    ensures
        count == header_entries(*map).len(),
{
    map.keys_len()
}

/// `http::StatusCode::from_u16`: accepts exactly the numbers from 100 to 999,
/// and the code it returns holds the number it was given.
#[verifier::external_body]
pub(crate) fn status_from_u16(number: u16) -> (code: Option<StatusCode>)
    ensures
        code is Some <==> 100 <= number <= 999,
        code matches Some(c) ==> status_number(c) == number,
{
    StatusCode::from_u16(number).ok()
}

} // verus!
