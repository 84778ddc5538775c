//! What a binary property-list value holds, and the calls that read one.
//!
//! The values themselves belong to the `plist` crate and are opaque here.
//! [`Payload`] is the part of a value that the decoder looks at; the items
//! below tie plist's accessors to it. None of them is proved: each states
//! what the accessor's source does.

use vstd::prelude::*;

verus! {

/// The part of a property-list value that decoding reads.
pub enum Payload {
    /// A string.
    Text(Seq<char>),
    /// A real number, as whole seconds: the fraction is cut off.
    Real(int),
    /// A dictionary from keys to values.
    Dictionary(Map<Seq<char>, Payload>),
    /// Any other kind of value: array, boolean, data, date, integer, uid.
    Other,
}

/// `plist::Value`: a property-list value of any kind. Nothing inside it is
/// visible here; it is read through the accessors below.
#[verifier::external_type_specification]
#[verifier::external_body]
pub struct ExValue(plist::Value);

/// `plist::Dictionary`: a map from string keys to property-list values.
#[verifier::external_type_specification]
#[verifier::external_body]
pub struct ExDictionary(plist::Dictionary);

/// `plist::Error`: why bytes could not be read as a property list. It is
/// only carried, never looked into.
#[verifier::external_type_specification]
#[verifier::external_body]
pub struct ExError(plist::Error);

/// What `value` holds.
pub uninterp spec fn value_contents(value: plist::Value) -> Payload;

/// The entries of `dict`, each value by what it holds.
pub uninterp spec fn dictionary_contents(dict: plist::Dictionary) -> Map<Seq<char>, Payload>;

/// What `plist::Value::from_reader` reads from `bytes`: the value's
/// contents, or `None` where the bytes are no property list.
pub uninterp spec fn parsed_payload(bytes: Seq<u8>) -> Option<Payload>;

/// The eight bytes that open every binary property list: `bplist00`.
pub open spec fn binary_opening() -> Seq<u8> {
    seq![0x62u8, 0x70u8, 0x6cu8, 0x69u8, 0x73u8, 0x74u8, 0x30u8, 0x30u8]
}

/// Whether `bytes` begin with the opening of a binary property list.
pub open spec fn has_binary_opening(bytes: Seq<u8>) -> bool {
    bytes.len() >= 8 && bytes.subrange(0, 8) == binary_opening()
}

/// `plist::Value::as_string` gives the text of a string value and `None`
/// for every other kind.
pub assume_specification[ plist::Value::as_string ](value: &plist::Value) -> (text: Option<&str>)
    ensures
        text.is_some() == (value_contents(*value) is Text),
        text matches Some(s) ==> value_contents(*value) == Payload::Text(s@),
;

/// `plist::Value::as_dictionary` gives the dictionary of a dictionary value
/// and `None` for every other kind.
pub assume_specification[ plist::Value::as_dictionary ](value: &plist::Value) -> (dict: Option<
    &plist::Dictionary,
>)
    ensures
        dict.is_some() == (value_contents(*value) is Dictionary),
        dict matches Some(d) ==> value_contents(*value) == Payload::Dictionary(
            dictionary_contents(*d),
        ),
;

/// `plist::Dictionary::get` gives the value stored under `key`, or `None`
/// where the dictionary has no such key.
pub assume_specification<'a>[ plist::Dictionary::get ](
    dict: &'a plist::Dictionary,
    key: &str,
) -> (value: Option<&'a plist::Value>)
    ensures
        value.is_some() == dictionary_contents(*dict).contains_key(key@),
        value matches Some(v) ==> value_contents(*v) == dictionary_contents(*dict)[key@],
;

/// The whole seconds of a real value.
///
/// Calls `plist::Value::as_real`, which gives the number of a real value and
/// `None` for every other kind, and casts the number to `i64`: the cast cuts
/// the fraction off toward zero, stops at the ends of `i64`, and gives 0 for
/// a NaN.
#[verifier::external_body]
pub(crate) fn real_seconds(value: &plist::Value) -> (seconds: Option<i64>)
    ensures
        seconds.is_some() == (value_contents(*value) is Real),
        seconds matches Some(n) ==> value_contents(*value) == Payload::Real(n as int),
{
    value.as_real().map(|number| number as i64)
}

/// Whether `bytes` begin with the opening of a binary property list.
pub fn starts_as_binary_plist(bytes: &[u8]) -> (yes: bool)
    ensures
        yes == has_binary_opening(bytes@),
{
    if bytes.len() < 8 {
        return false;
    }
    let yes = bytes[0] == 0x62 && bytes[1] == 0x70 && bytes[2] == 0x6c && bytes[3] == 0x69
        && bytes[4] == 0x73 && bytes[5] == 0x74 && bytes[6] == 0x30 && bytes[7] == 0x30;
    proof {
        let head = bytes@.subrange(0, 8);
        assert(head[0] == bytes@[0] && head[1] == bytes@[1] && head[2] == bytes@[2] && head[3]
            == bytes@[3]);
        assert(head[4] == bytes@[4] && head[5] == bytes@[5] && head[6] == bytes@[6] && head[7]
            == bytes@[7]);
        if yes {
            assert(head =~= binary_opening());
        }
    }
    yes
}

/// Reads `bytes` as a binary property list.
///
/// Calls `plist::Value::from_reader` on a `std::io::Cursor` over the bytes.
/// On bytes with the binary opening it takes the binary reader and no other,
/// and builds the value on a stack of its own, storing each date as it was
/// read. On other bytes it would try the XML reader, which panics on a date
/// that leaves the calendar it supports: the `requires` keeps those bytes
/// away. The value it gives depends on the bytes alone.
#[verifier::external_body]
pub(crate) fn read_plist(bytes: &[u8]) -> (parsed: Result<plist::Value, plist::Error>)
    requires
        has_binary_opening(bytes@),
    ensures
        parsed.is_ok() == parsed_payload(bytes@).is_some(),
        parsed matches Ok(value) ==> parsed_payload(bytes@) == Some(value_contents(value)),
{
    plist::Value::from_reader(std::io::Cursor::new(bytes))
}

/// The lower-case hexadecimal digit for `nibble`, which is below 16.
pub open spec fn hex_digit(nibble: int) -> char {
    seq!['0', '1', '2', '3', '4', '5', '6', '7', '8', '9', 'a', 'b', 'c', 'd', 'e', 'f'][nibble]
}

/// `bytes` written out in hexadecimal: two lower-case digits for each byte,
/// the high half first.
pub open spec fn hex_text(bytes: Seq<u8>) -> Seq<char> {
    Seq::new(
        2 * bytes.len(),
        |i: int|
            if i % 2 == 0 {
                hex_digit(bytes[i / 2] as int / 16)
            } else {
                hex_digit(bytes[i / 2] as int % 16)
            },
    )
}

/// `bytes` as a hexadecimal string.
///
/// Calls `hex::encode`, which writes each byte as two lower-case hexadecimal
/// digits, in order.
#[verifier::external_body]
pub(crate) fn hex_encode(bytes: &[u8]) -> (text: String)
    ensures
        text@ == hex_text(bytes@),
{
    hex::encode(bytes)
}

} // verus!
