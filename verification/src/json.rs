//! The JSON primitives the wire format is built from.
//!
//! Everything here is a thin call into `serde_json`. None of these contracts
//! is proved. Where a few lines say what a call returns, the contract says
//! it; where that would take pages, the contract gives the result a name, so
//! that the verified code around it can say exactly how it uses the result.

use vstd::prelude::*;
use std::collections::BTreeMap;
use serde_json::value::RawValue;
use crate::text::digits_value;

verus! {

/// `serde_json::Error`, carried through as an opaque value.
#[verifier::external_type_specification]
#[verifier::external_body]
pub struct ExJsonError(serde_json::Error);

/// One member of a JSON object: its key, and the JSON text of its value.
#[derive(Debug)]
pub struct Member {
    pub key: String,
    pub value: Vec<u8>,
}

/// A [`Member`] in contracts.
pub struct MemberView {
    pub key: Seq<char>,
    pub value: Seq<u8>,
}

impl View for Member {
    type V = MemberView;

    open spec fn view(&self) -> MemberView {
        MemberView { key: self.key@, value: self.value@ }
    }
}

/// The members of a list, each by its view.
pub open spec fn members_view(members: Seq<Member>) -> Seq<MemberView> {
    members.map_values(|m: Member| m@)
}

/// The JSON text that `serde_json::to_string` writes for the string `s`: the
/// quoted string, with its escapes.
pub uninterp spec fn json_string_text(s: Seq<char>) -> Seq<char>;

/// The members that `serde_json::from_slice` reads from `text` as a map from
/// strings to raw values, in ascending order of their keys; `None` where it
/// reports an error. A key that the text repeats is one member, with the
/// value that the text gives last.
pub uninterp spec fn json_object_members(text: Seq<u8>) -> Option<Seq<MemberView>>;

/// The string that `serde_json::from_slice` reads from `text`; `None` where it
/// reports an error.
pub uninterp spec fn json_string_value(text: Seq<u8>) -> Option<Seq<char>>;

/// Whether `b` is one of the four bytes that JSON takes for white space:
/// space, line feed, tab, carriage return.
pub open spec fn is_json_space(b: u8) -> bool {
    b == 0x20 || b == 0x0a || b == 0x09 || b == 0x0d
}

/// `text` without the white space it begins with.
pub open spec fn without_leading_space(text: Seq<u8>) -> Seq<u8>
    decreases text.len(),
{
    if text.len() > 0 && is_json_space(text[0]) {
        without_leading_space(text.drop_first())
    } else {
        text
    }
}

/// `text` without the white space it ends with.
pub open spec fn without_trailing_space(text: Seq<u8>) -> Seq<u8>
    decreases text.len(),
{
    if text.len() > 0 && is_json_space(text.last()) {
        without_trailing_space(text.drop_last())
    } else {
        text
    }
}

/// The 16-bit unsigned number that JSON text writes: between white space,
/// either `0` or decimal digits that do not begin with `0`, of a value of at
/// most 65535. No sign, fraction or exponent.
pub open spec fn json_port_value(text: Seq<u8>) -> Option<u16> {
    let digits = without_trailing_space(without_leading_space(text)).map_values(|b: u8| b as char);
    if digits.len() > 1 && digits[0] == '0' {
        None
    } else {
        match digits_value(digits) {
            Some(v) => if v <= u16::MAX {
                Some(v as u16)
            } else {
                None
            },
            None => None,
        }
    }
}

/// Calls `serde_json::to_string` on a string slice. Claims that the call
/// succeeds, since it writes into a vector in memory and writing a string
/// fails only where the writer does, and that the text it returns is a
/// function of the string.
#[verifier::external_body]
pub(crate) fn write_json_string(s: &str) -> (res: Result<String, serde_json::Error>)
    ensures
        res is Ok,
        res matches Ok(text) ==> text@ == json_string_text(s@),
{
    serde_json::to_string(s)
}

/// Calls `serde_json::from_slice` for a `BTreeMap` from `String` to boxed
/// `RawValue`, and hands out each entry as a [`Member`] holding the key and
/// the bytes of the raw value's text, in the map's order. Claims only that
/// success and the members are a function of the bytes.
#[verifier::external_body]
pub(crate) fn read_json_object(text: &[u8]) -> (res: Result<Vec<Member>, serde_json::Error>)
    ensures
        match res {
            Ok(members) => json_object_members(text@) == Some(members_view(members@)),
            Err(_) => json_object_members(text@) is None,
        },
{
    let map = serde_json::from_slice::<BTreeMap<String, Box<RawValue>>>(text)?;
    Ok(map.into_iter().map(|(key, raw)| Member { key, value: raw.get().as_bytes().to_vec() }).collect())
}

/// Calls `serde_json::from_slice` for a `String`. Claims only that success and
/// the string are a function of the bytes.
#[verifier::external_body]
pub(crate) fn read_json_string(text: &[u8]) -> (res: Result<String, serde_json::Error>)
    ensures
        match res {
            Ok(s) => json_string_value(text@) == Some(s@),
            Err(_) => json_string_value(text@) is None,
        },
{
    serde_json::from_slice::<String>(text)
}

/// Calls `serde_json::from_slice` for a `u16`. Claims that it succeeds exactly
/// on the texts that [`json_port_value`] describes, with that number: the
/// parser skips white space before and after, takes `0` or digits without a
/// leading zero as an unsigned number, and refuses a sign, a fraction, an
/// exponent and a value that does not fit.
#[verifier::external_body]
pub(crate) fn read_json_port(text: &[u8]) -> (res: Result<u16, serde_json::Error>)
    ensures
        match res {
            Ok(port) => json_port_value(text@) == Some(port),
            Err(_) => json_port_value(text@) is None,
        },
{
    serde_json::from_slice::<u16>(text)
}

} // verus!
