//! The parts of Rocket's response type that the decorator touches.
//!
//! A `rocket::Response` is opaque to the verifier. What the decorator writes to
//! it is a header, and what it must keep of it is the rest of its headers and
//! its status. The headers are modelled as a map from the ASCII-lowercased
//! header name to the values stored under that name, in order. Rocket compares
//! header names without regard to ASCII case, so each class of names that
//! differ only in case is one key of the model.

use rocket::http::Status;
use rocket::Response;
use vstd::prelude::*;

verus! {

#[verifier::external_type_specification]
#[verifier::external_body]
pub struct ExResponse<'r>(Response<'r>);

#[verifier::external_type_specification]
#[verifier::external_body]
pub struct ExStatus(Status);

/// A character with ASCII upper case turned to lower case.
pub open spec fn ascii_lower(c: char) -> char {
    if 'A' <= c && c <= 'Z' {
        ((c as u32) + 32) as char
    } else {
        c
    }
}

/// The key under which the model files a header name.
pub open spec fn header_key(name: Seq<char>) -> Seq<char> {
    name.map_values(|c: char| ascii_lower(c))
}

/// The headers that a response holds: for each header name, up to ASCII case,
/// the values stored under it.
pub uninterp spec fn header_map(r: Response<'_>) -> Map<Seq<char>, Seq<Seq<char>>>;

/// The code of the status set on a response, if one was set.
pub uninterp spec fn status_code(r: Response<'_>) -> Option<u16>;

/// Relies on `rocket::Response::set_raw_header`, which builds a header from
/// `name` and `value` and hands it to `HeaderMap::replace`: every value stored
/// under `name` (compared without regard to ASCII case) is dropped and `value`
/// alone remains; the other headers are kept. The status is not touched.
#[verifier::external_body]
pub(crate) fn set_raw_header<'o>(resp: &mut Response<'o>, name: &'static str, value: String)
    ensures
        header_map(*final(resp)) == header_map(*old(resp)).insert(header_key(name@), seq![value@]),
        status_code(*final(resp)) == status_code(*old(resp)),
{
    resp.set_raw_header(name, value);
}

} // verus!
