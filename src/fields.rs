use vstd::prelude::*;

use crate::json::{DecodeError, JsonList, JsonMap, JsonNumber, JsonValue};

verus! {

/// The string under `k`, if `m` holds one there.
pub open spec fn str_at(m: Map<Seq<char>, JsonValue>, k: Seq<char>) -> Option<String> {
    if m.contains_key(k) && m[k] is String {
        Some(m[k]->String_0)
    } else {
        None
    }
}

/// The non-negative integer under `k`, if `m` holds one there.
pub open spec fn uint_at(m: Map<Seq<char>, JsonValue>, k: Seq<char>) -> Option<u64> {
    if m.contains_key(k) && m[k] is Number && m[k]->Number_0 is PosInt {
        Some(m[k]->Number_0->PosInt_0)
    } else {
        None
    }
}

/// The integer under `k`, if `m` holds one there.
pub open spec fn int_at(m: Map<Seq<char>, JsonValue>, k: Seq<char>) -> Option<int> {
    if m.contains_key(k) && m[k] is Number && m[k]->Number_0 is PosInt {
        Some(m[k]->Number_0->PosInt_0 as int)
    } else if m.contains_key(k) && m[k] is Number && m[k]->Number_0 is NegInt {
        Some(m[k]->Number_0->NegInt_0 as int)
    } else {
        None
    }
}

/// The boolean under `k`, if `m` holds one there.
pub open spec fn bool_at(m: Map<Seq<char>, JsonValue>, k: Seq<char>) -> Option<bool> {
    if m.contains_key(k) && m[k] is Bool {
        Some(m[k]->Bool_0)
    } else {
        None
    }
}

/// The object under `k`, if `m` holds one there.
pub open spec fn obj_at(m: Map<Seq<char>, JsonValue>, k: Seq<char>) -> Option<JsonMap> {
    if m.contains_key(k) && m[k] is Object {
        Some(m[k]->Object_0)
    } else {
        None
    }
}

/// The array under `k`, if `m` holds one there.
pub open spec fn list_at(m: Map<Seq<char>, JsonValue>, k: Seq<char>) -> Option<JsonList> {
    if m.contains_key(k) && m[k] is Array {
        Some(m[k]->Array_0)
    } else {
        None
    }
}

/// `k` is absent from `m` or holds null.
pub open spec fn absent_at(m: Map<Seq<char>, JsonValue>, k: Seq<char>) -> bool {
    !m.contains_key(k) || m[k] is Null
}

/// Whether `s` is a run of decimal digits.
pub open spec fn all_digits(s: Seq<char>) -> bool {
    s.len() > 0 && forall|i: int| 0 <= i < s.len() ==> '0' <= #[trigger] s[i] <= '9'
}

/// The number that the decimal digits `s` write.
pub open spec fn digits_value(s: Seq<char>) -> nat
    decreases s.len(),
{
    if s.len() == 0 {
        0
    } else {
        digits_value(s.drop_last()) * 10 + (s.last() as nat - '0' as nat) as nat
    }
}

/// What parsing `s` as a `u32` gives: an optional `+`, then decimal digits whose
/// value fits.
pub open spec fn parsed_u32(s: Seq<char>) -> Option<u32> {
    let d = if s.len() > 0 && s[0] == '+' {
        s.drop_first()
    } else {
        s
    };
    if all_digits(d) && digits_value(d) <= u32::MAX {
        Some(digits_value(d) as u32)
    } else {
        None
    }
}

/// The `u32` under `k`: a number, or a string that writes one.
pub open spec fn u32_or_text_at(m: Map<Seq<char>, JsonValue>, k: Seq<char>) -> Option<u32> {
    if uint_at(m, k) is Some {
        if uint_at(m, k)->0 <= u32::MAX {
            Some(uint_at(m, k)->0 as u32)
        } else {
            None
        }
    } else if str_at(m, k) is Some {
        parsed_u32(str_at(m, k)->0@)
    } else {
        None
    }
}

/// Relies on serde_aux's `deserialize_number_from_string` fed a JSON string: it
/// hands the text to `str::parse::<u32>`, which takes an optional `+` and decimal
/// digits whose value fits in a `u32`.
#[verifier::external_body]
fn parse_u32_text(s: &str) -> (r: Option<u32>)
    ensures
        r == parsed_u32(s@),
{
    serde_aux::field_attributes::deserialize_number_from_string::<u32, _>(
        serde_json::Value::String(s.to_owned()),
    ).ok()
}

/// The payload form of a signed integer.
pub open spec fn int_json(n: i64) -> JsonValue {
    if n >= 0 {
        JsonValue::Number(JsonNumber::PosInt(n as u64))
    } else {
        JsonValue::Number(JsonNumber::NegInt(n))
    }
}

pub fn int_value(n: i64) -> (r: JsonValue)
    ensures
        r == int_json(n),
{
    if n >= 0 {
        JsonValue::Number(JsonNumber::PosInt(n as u64))
    } else {
        JsonValue::Number(JsonNumber::NegInt(n))
    }
}

pub fn missing(key: &str) -> (e: DecodeError)
    ensures
        e matches DecodeError::MissingField(f) && f@ == key@,
{
    DecodeError::MissingField(key.to_string())
}

pub fn invalid(key: &str) -> (e: DecodeError)
    ensures
        e matches DecodeError::InvalidField(f) && f@ == key@,
{
    DecodeError::InvalidField(key.to_string())
}

/// Reads the string under `key`.
pub fn req_str(m: &JsonMap, key: &str) -> (r: Result<String, DecodeError>)
    ensures
        r is Ok <==> str_at(m@, key@) is Some,
        r matches Ok(s) ==> str_at(m@, key@) == Some(s),
        r matches Err(e) ==> e.blames(m@, key@),
{
    match m.get(key) {
        None => Err(missing(key)),
        Some(JsonValue::String(s)) => Ok(s.clone()),
        Some(_) => Err(invalid(key)),
    }
}

/// Reads the string under `key`, or `default` where the key is absent.
pub fn str_or(m: &JsonMap, key: &str, default: &str) -> (r: Result<String, DecodeError>)
    ensures
        r is Ok <==> (!m@.contains_key(key@) || str_at(m@, key@) is Some),
        r matches Ok(s) ==> if m@.contains_key(key@) {
            str_at(m@, key@) == Some(s)
        } else {
            s@ == default@
        },
        r matches Err(e) ==> e.blames(m@, key@),
{
    match m.get(key) {
        None => Ok(default.to_string()),
        Some(JsonValue::String(s)) => Ok(s.clone()),
        Some(_) => Err(invalid(key)),
    }
}

/// Reads the optional string under `key`: absent and null give `None`.
pub fn opt_str(m: &JsonMap, key: &str) -> (r: Result<Option<String>, DecodeError>)
    ensures
        r is Ok <==> (absent_at(m@, key@) || str_at(m@, key@) is Some),
        r matches Ok(o) ==> o == str_at(m@, key@),
        r matches Err(e) ==> e.blames(m@, key@),
{
    match m.get(key) {
        None => Ok(None),
        Some(JsonValue::Null) => Ok(None),
        Some(JsonValue::String(s)) => Ok(Some(s.clone())),
        Some(_) => Err(invalid(key)),
    }
}

/// Reads the integer under `key`, which must lie in `0..=max`.
pub fn req_uint(m: &JsonMap, key: &str, max: u64) -> (r: Result<u64, DecodeError>)
    ensures
        r is Ok <==> (uint_at(m@, key@) is Some && uint_at(m@, key@)->0 <= max),
        r matches Ok(n) ==> uint_at(m@, key@) == Some(n),
        r matches Err(e) ==> e.blames(m@, key@),
{
    match m.get(key) {
        None => Err(missing(key)),
        Some(JsonValue::Number(JsonNumber::PosInt(n))) => {
            if *n <= max {
                Ok(*n)
            } else {
                Err(invalid(key))
            }
        },
        Some(_) => Err(invalid(key)),
    }
}

/// Reads the integer under `key`, which must lie in `0..=max`; zero where the
/// key is absent.
pub fn uint_or_zero(m: &JsonMap, key: &str, max: u64) -> (r: Result<u64, DecodeError>)
    ensures
        r is Ok <==> (!m@.contains_key(key@) || (uint_at(m@, key@) is Some && uint_at(
            m@,
            key@,
        )->0 <= max)),
        r matches Ok(n) ==> if m@.contains_key(key@) {
            uint_at(m@, key@) == Some(n)
        } else {
            n == 0
        },
        r matches Err(e) ==> e.blames(m@, key@),
{
    match m.get(key) {
        None => Ok(0),
        Some(JsonValue::Number(JsonNumber::PosInt(n))) => {
            if *n <= max {
                Ok(*n)
            } else {
                Err(invalid(key))
            }
        },
        Some(_) => Err(invalid(key)),
    }
}

/// Reads the integer under `key` as an `i16`.
pub fn req_i16(m: &JsonMap, key: &str) -> (r: Result<i16, DecodeError>)
    ensures
        r is Ok <==> (int_at(m@, key@) is Some && i16::MIN <= int_at(m@, key@)->0 <= i16::MAX),
        r matches Ok(n) ==> int_at(m@, key@) == Some(n as int),
        r matches Err(e) ==> e.blames(m@, key@),
{
    match m.get(key) {
        None => Err(missing(key)),
        Some(JsonValue::Number(JsonNumber::PosInt(n))) => {
            if *n <= 32767 {
                Ok(*n as i16)
            } else {
                Err(invalid(key))
            }
        },
        Some(JsonValue::Number(JsonNumber::NegInt(n))) => {
            if -32768 <= *n && *n <= 32767 {
                Ok(*n as i16)
            } else {
                Err(invalid(key))
            }
        },
        Some(_) => Err(invalid(key)),
    }
}

/// Reads the boolean under `key`.
pub fn req_bool(m: &JsonMap, key: &str) -> (r: Result<bool, DecodeError>)
    ensures
        r is Ok <==> bool_at(m@, key@) is Some,
        r matches Ok(b) ==> bool_at(m@, key@) == Some(b),
        r matches Err(e) ==> e.blames(m@, key@),
{
    match m.get(key) {
        None => Err(missing(key)),
        Some(JsonValue::Bool(b)) => Ok(*b),
        Some(_) => Err(invalid(key)),
    }
}

/// Reads the number under `key` as it came; zero where the key is absent.
pub fn num_or_zero(m: &JsonMap, key: &str) -> (r: Result<JsonNumber, DecodeError>)
    ensures
        r is Ok <==> (!m@.contains_key(key@) || m@[key@] is Number),
        r matches Ok(n) ==> if m@.contains_key(key@) {
            m@[key@] == JsonValue::Number(n)
        } else {
            n == JsonNumber::PosInt(0)
        },
        r matches Err(e) ==> e.blames(m@, key@),
{
    match m.get(key) {
        None => Ok(JsonNumber::PosInt(0)),
        Some(JsonValue::Number(n)) => Ok(n.duplicate()),
        Some(_) => Err(invalid(key)),
    }
}

/// Reads the object under `key`.
pub fn req_obj(m: &JsonMap, key: &str) -> (r: Result<JsonMap, DecodeError>)
    ensures
        r is Ok <==> obj_at(m@, key@) is Some,
        r matches Ok(o) ==> obj_at(m@, key@) == Some(o),
        r matches Err(e) ==> e.blames(m@, key@),
{
    match m.get(key) {
        None => Err(missing(key)),
        Some(JsonValue::Object(o)) => Ok(o.duplicate()),
        Some(_) => Err(invalid(key)),
    }
}

/// Reads the optional object under `key`: absent and null give `None`.
pub fn opt_obj(m: &JsonMap, key: &str) -> (r: Result<Option<JsonMap>, DecodeError>)
    ensures
        r is Ok <==> (absent_at(m@, key@) || obj_at(m@, key@) is Some),
        r matches Ok(o) ==> o == obj_at(m@, key@),
        r matches Err(e) ==> e.blames(m@, key@),
{
    match m.get(key) {
        None => Ok(None),
        Some(JsonValue::Null) => Ok(None),
        Some(JsonValue::Object(o)) => Ok(Some(o.duplicate())),
        Some(_) => Err(invalid(key)),
    }
}

/// Reads the property bag under `key`. Legacy payloads send an array in its
/// place; that reads as the empty bag.
pub fn obj_or_seq(m: &JsonMap, key: &str) -> (r: Result<JsonMap, DecodeError>)
    ensures
        r is Ok <==> (obj_at(m@, key@) is Some || list_at(m@, key@) is Some),
        r matches Ok(o) ==> if obj_at(m@, key@) is Some {
            obj_at(m@, key@) == Some(o)
        } else {
            o == JsonMap::Empty
        },
        r matches Err(e) ==> e.blames(m@, key@),
{
    match m.get(key) {
        None => Err(missing(key)),
        Some(JsonValue::Object(o)) => Ok(o.duplicate()),
        Some(JsonValue::Array(_)) => Ok(JsonMap::Empty),
        Some(_) => Err(invalid(key)),
    }
}

/// Reads the array of strings under `key`.
pub fn req_strs(m: &JsonMap, key: &str) -> (r: Result<Vec<String>, DecodeError>)
    ensures
        r is Ok <==> (list_at(m@, key@) matches Some(l) && l.all_strings()),
        r matches Ok(v) ==> list_at(m@, key@) matches Some(l) && l.holds_strings(v@),
        r matches Err(e) ==> e.blames(m@, key@),
{
    match m.get(key) {
        None => Err(missing(key)),
        Some(JsonValue::Array(l)) => match l.to_strings() {
            Some(v) => Ok(v),
            None => Err(invalid(key)),
        },
        Some(_) => Err(invalid(key)),
    }
}

/// Reads the optional array of strings under `key`: absent and null give `None`.
pub fn opt_strs(m: &JsonMap, key: &str) -> (r: Result<Option<Vec<String>>, DecodeError>)
    ensures
        r is Ok <==> (absent_at(m@, key@) || (list_at(m@, key@) matches Some(l)
            && l.all_strings())),
        r matches Ok(o) ==> match o {
            None => absent_at(m@, key@),
            Some(v) => list_at(m@, key@) matches Some(l) && l.holds_strings(v@),
        },
        r matches Err(e) ==> e.blames(m@, key@),
{
    match m.get(key) {
        None => Ok(None),
        Some(JsonValue::Null) => Ok(None),
        Some(JsonValue::Array(l)) => match l.to_strings() {
            Some(v) => Ok(Some(v)),
            None => Err(invalid(key)),
        },
        Some(_) => Err(invalid(key)),
    }
}

/// Finds the array under `key`.
pub fn req_list<'a>(m: &'a JsonMap, key: &str) -> (r: Result<&'a JsonList, DecodeError>)
    ensures
        r is Ok <==> list_at(m@, key@) is Some,
        r matches Ok(l) ==> list_at(m@, key@) == Some(*l),
        r matches Err(e) ==> e.blames(m@, key@),
{
    match m.get(key) {
        None => Err(missing(key)),
        Some(JsonValue::Array(l)) => Ok(l),
        Some(_) => Err(invalid(key)),
    }
}

/// Reads a `u32` under `key` that may come as a number or as its decimal text.
pub fn u32_or_text(m: &JsonMap, key: &str) -> (r: Result<u32, DecodeError>)
    ensures
        r is Ok <==> u32_or_text_at(m@, key@) is Some,
        r matches Ok(n) ==> u32_or_text_at(m@, key@) == Some(n),
        r matches Err(e) ==> e.blames(m@, key@),
{
    match m.get(key) {
        None => Err(missing(key)),
        Some(JsonValue::Number(JsonNumber::PosInt(n))) => {
            if *n <= 0xffff_ffff {
                Ok(*n as u32)
            } else {
                Err(invalid(key))
            }
        },
        Some(JsonValue::String(s)) => match parse_u32_text(s.as_str()) {
            Some(n) => Ok(n),
            None => Err(invalid(key)),
        },
        Some(_) => Err(invalid(key)),
    }
}

} // verus!
