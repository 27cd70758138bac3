//! Decoding of the host bridge's answers to the queries `screen_size`,
//! `rotation` and `is_start`. A missing answer or a malformed one is never an
//! error here: it degrades to "nothing known".

use vstd::prelude::*;

verus! {

/// The integer that a JSON object text holds under `key`, if the text parses
/// as an object and that field is an integer in the range of `i64`.
pub uninterp spec fn json_int_field_of(text: Seq<char>, key: Seq<char>) -> Option<i64>;

/// Relies on `serde_json::from_str` (into a `serde_json::Map`), `Map::get` and
/// `serde_json::Value::as_i64`: the integer field `key` of the object `text`.
#[verifier::external_body]
fn json_int_field(text: &str, key: &str) -> (r: Option<i64>)
    ensures
        r == json_int_field_of(text@, key@),
{
    match serde_json::from_str::<serde_json::Map<String, serde_json::Value>>(text) {
        Ok(map) => match map.get(key) {
            Some(v) => v.as_i64(),
            None => None,
        },
        Err(_) => None,
    }
}

/// Screen geometry `(width, height, scale)` carried by a `screen_size`
/// answer: all three fields must be integers, else nothing is known. A
/// non-positive scale is kept as `0`.
pub open spec fn screen_size_of(response: Option<Seq<char>>) -> Option<(u16, u16, u16)> {
    match response {
        None => None,
        Some(text) => match (
            json_int_field_of(text, "width"@),
            json_int_field_of(text, "height"@),
            json_int_field_of(text, "scale"@),
        ) {
            (Some(w), Some(h), Some(s)) => Some((w as u16, h as u16, scale_of(s))),
            _ => None,
        },
    }
}

/// A shrink scale as the cache holds it: a non-positive one is no scale.
pub open spec fn scale_of(s: i64) -> u16 {
    if s <= 0 {
        0
    } else {
        s as u16
    }
}

/// Rotation angle in degrees carried by a `rotation` answer; `0` when the
/// answer is missing, malformed or has no integer `rotation` field.
pub open spec fn rotation_degrees_of(response: Option<Seq<char>>) -> u16 {
    match response {
        None => 0,
        Some(text) => match json_int_field_of(text, "rotation"@) {
            Some(v) => v as u16,
            None => 0,
        },
    }
}

pub open spec fn opt_view(response: Option<&str>) -> Option<Seq<char>> {
    match response {
        None => None,
        Some(s) => Some(s@),
    }
}

/// Decodes a `screen_size` answer.
pub fn get_size(response: Option<&str>) -> (r: Option<(u16, u16, u16)>)
    ensures
        r == screen_size_of(opt_view(response)),
{
    match response {
        None => None,
        Some(text) => {
            let w = json_int_field(text, "width");
            let h = json_int_field(text, "height");
            let s = json_int_field(text, "scale");
            match (w, h, s) {
                (Some(w), Some(h), Some(s)) => {
                    let scale: u16 = if s <= 0 {
                        0
                    } else {
                        s as u16
                    };
                    Some((w as u16, h as u16, scale))
                },
                _ => None,
            }
        },
    }
}

/// Decodes a `rotation` answer into degrees (not yet reduced modulo 360).
pub fn get_rotation(response: Option<&str>) -> (r: u16)
    ensures
        r == rotation_degrees_of(opt_view(response)),
{
    match response {
        None => 0,
        Some(text) => match json_int_field(text, "rotation") {
            Some(v) => v as u16,
            None => 0,
        },
    }
}

/// Decodes an `is_start` answer: `None` when the bridge gave none, else
/// whether the answer is exactly `true`.
pub fn is_start(response: Option<&str>) -> (r: Option<bool>)
    ensures
        response is None ==> r is None,
        response matches Some(text) ==> r == Some(text@ == "true"@),
{
    match response {
        None => None,
        Some(text) => {
            let answer = text.to_owned();
            let expected = "true".to_owned();
            Some(answer == expected)
        },
    }
}

} // verus!
