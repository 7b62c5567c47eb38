//! The header map of the `http` crate, as far as this library reads and
//! writes it. Nothing in this file is proved: each contract states what the
//! `http` crate's source shows.

use vstd::prelude::*;

verus! {

/// `http::HeaderValue`, carried as it is.
#[verifier::external_type_specification]
#[verifier::external_body]
pub struct ExHeaderValue(http::HeaderValue);

/// `http::HeaderMap`, carried as it is; `header_values` says what it holds.
#[verifier::external_type_specification]
#[verifier::external_body]
#[verifier::reject_recursive_types(T)]
pub struct ExHeaderMap<T>(http::HeaderMap<T>);

/// What a header map holds: for each header name that is present, in lower
/// case, the bytes of its values in the order in which they were added.
pub uninterp spec fn header_values(headers: http::HeaderMap<http::HeaderValue>) -> Map<
    Seq<char>,
    Seq<Seq<u8>>,
>;

/// Whether `name` is between 1 and 64 characters out of lower-case letters,
/// digits and hyphens. Such a name is a header name as it stands: the header
/// map neither refuses nor rewrites it.
pub open spec fn is_plain_header_name(name: Seq<char>) -> bool {
    &&& 1 <= name.len() <= 64
    &&& forall|i: int|
        0 <= i < name.len() ==> {
            let c = #[trigger] name[i];
            ('a' <= c <= 'z') || ('0' <= c <= '9') || c == '-'
        }
}

/// Whether a header value may hold the byte `b`: anything but the control
/// characters, the tab excepted.
pub open spec fn is_header_value_byte(b: u8) -> bool {
    (b >= 32 && b != 127) || b == 9
}

/// Whether `text` can be a header value.
pub open spec fn is_header_value_text(text: Seq<char>) -> bool {
    forall|i: int|
        0 <= i < vstd::utf8::encode_utf8(text).len() ==> is_header_value_byte(
            #[trigger] vstd::utf8::encode_utf8(text)[i],
        )
}

/// Whether a header map that holds `headers` is sure to take an insertion.
/// The map refuses one only when its table of slots, already at its largest
/// size of 32768, would have to grow, and it grows no sooner than when the
/// names it holds, times five, have reached the number of slots. So a map
/// with fewer than 6554 different names refuses nothing.
pub open spec fn has_room(headers: Map<Seq<char>, Seq<Seq<u8>>>) -> bool {
    headers.dom().finite() && headers.dom().len() * 5 < 32768
}

/// `HeaderMap::get` with a string key, then `HeaderValue::as_bytes`: the
/// bytes of the first value stored under `name`, or `None` where the map has
/// no such header.
#[verifier::external_body]
pub(crate) fn first_header_value(
    headers: &http::HeaderMap<http::HeaderValue>,
    name: &str,
) -> (value: Option<Vec<u8>>)
    requires
        is_plain_header_name(name@),
    ensures
        value is Some <==> header_values(*headers).contains_key(name@),
        value is Some ==> header_values(*headers)[name@].len() > 0 && value->0@
            == header_values(*headers)[name@][0],
{
    match headers.get(name) {
        Some(found) => Some(found.as_bytes().to_vec()),
        None => None,
    }
}

/// `HeaderValue::from_str`, then `HeaderMap::try_insert` with a string key.
/// Text that cannot be a header value is refused and nothing is written.
/// Otherwise the map decides: it either makes `text` the one value of `name`,
/// dropping any values that `name` had, or reports that it is full and keeps
/// what it held. A map that `has_room` always takes the value. Returns
/// whether the value was written.
#[verifier::external_body]
pub(crate) fn try_insert_header(
    headers: &mut http::HeaderMap<http::HeaderValue>,
    name: &'static str,
    text: &str,
) -> (written: bool)
    requires
        is_plain_header_name(name@),
    ensures
        written ==> is_header_value_text(text@),
        is_header_value_text(text@) && has_room(header_values(*old(headers))) ==> written,
        written ==> header_values(*final(headers)) == header_values(*old(headers)).insert(
            name@,
            seq![vstd::utf8::encode_utf8(text@)],
        ),
        !written ==> header_values(*final(headers)) == header_values(*old(headers)),
{
    match http::HeaderValue::from_str(text) {
        Ok(value) => headers.try_insert(name, value).is_ok(),
        Err(_) => false,
    }
}

} // verus!
