//! MessagePack bytes, read and written by `rmp_serde`.

use rmpv::Value as Raw;
use vstd::prelude::*;
use vstd::string::*;

use crate::codec::value::{Value, ValueView};
use crate::error::{AppError, AppErrorKind};

verus! {

#[verifier::external_type_specification]
#[verifier::external_body]
pub struct ExDecodeError(rmp_serde::decode::Error);

#[verifier::external_type_specification]
#[verifier::external_body]
pub struct ExEncodeError(rmp_serde::encode::Error);

#[verifier::external_type_specification]
#[verifier::external_body]
pub struct ExRaw(Raw);

/// The value that bytes decode to, where they decode.
pub uninterp spec fn unpacked(bytes: Seq<u8>) -> Option<ValueView>;

/// The bytes that a value encodes to, where it encodes.
pub uninterp spec fn packed(value: ValueView) -> Option<Seq<u8>>;

/// An `rmpv::Value` that is no array and no map, as a value of the library,
/// variant by variant. An integer is kept by what `Integer::as_u64` and
/// `Integer::as_i64` give; a float by its bits; of a string that is not
/// valid UTF-8 the bytes are lost.
#[verifier::external_body]
fn lift_leaf(value: Raw) -> Value {
    match value {
        Raw::Boolean(b) => Value::Boolean(b),
        Raw::Integer(n) => Value::Integer(n.as_u64(), n.as_i64()),
        Raw::F32(x) => Value::Single(x.to_bits()),
        Raw::F64(x) => Value::Double(x.to_bits()),
        Raw::String(s) => Value::String(s.into_str()),
        Raw::Binary(b) => Value::Binary(b),
        Raw::Ext(t, b) => Value::Ext(t, b),
        _ => Value::Nil,
    }
}

/// An `rmpv::Value` as a value of the library: an array item by item, a
/// map entry by entry, anything else by [`lift_leaf`].
#[verifier::external_body]
fn lift(value: Raw) -> Value {
    match value {
        Raw::Array(a) => Value::Array(a.into_iter().map(lift).collect()),
        Raw::Map(m) => Value::Table(m.into_iter().map(|(k, v)| (lift(k), lift(v))).collect()),
        leaf => lift_leaf(leaf),
    }
}

/// A value of the library that is no array and no map, as an
/// `rmpv::Value`, variant by variant; nothing where it holds a float or a
/// string that is not valid UTF-8, which cannot be built. An integer goes
/// by its unsigned number where it has one, else by its signed number, and
/// one without either goes as the default of the signed numbers, 0: so an
/// integer always goes as the integer that its value is.
#[verifier::external_body]
fn lower_leaf(value: &Value) -> Option<Raw> {
    match value {
        Value::Nil => Some(Raw::Nil),
        Value::Boolean(b) => Some(Raw::Boolean(*b)),
        Value::Integer(Some(n), _) => Some(Raw::from(*n)),
        Value::Integer(None, n) => Some(Raw::from(n.unwrap_or_default())),
        Value::String(Some(s)) => Some(Raw::from(s.as_str())),
        Value::Binary(b) => Some(Raw::Binary(b.clone())),
        Value::Ext(t, b) => Some(Raw::Ext(*t, b.clone())),
        _ => None,
    }
}

/// A value of the library as an `rmpv::Value`: an array item by item, a
/// map entry by entry, anything else by [`lower_leaf`].
#[verifier::external_body]
fn lower(value: &Value) -> Option<Raw> {
    match value {
        Value::Array(a) => a.iter().map(lower).collect::<Option<_>>().map(Raw::Array),
        Value::Table(m) => m.iter().map(|(k, v)| Some((lower(k)?, lower(v)?))).collect::<
            Option<_>,
        >().map(Raw::Map),
        leaf => lower_leaf(leaf),
    }
}

/// `rmp_serde::from_slice` at the type `rmpv::Value`: the value the bytes
/// start with. What it is takes the MessagePack format to state, so it goes
/// by the name [`unpacked`].
#[verifier::external_body]
fn from_slice(bytes: &[u8]) -> (result: Result<Value, rmp_serde::decode::Error>)
    ensures
        match result {
            Ok(value) => unpacked(bytes@) == Some(value@),
            Err(_) => unpacked(bytes@) is None,
        },
{
    rmp_serde::from_slice::<Raw>(bytes).map(lift)
}

/// `rmp_serde::to_vec_named` at the type `rmpv::Value`: the bytes of the
/// value. What they are takes the MessagePack format to state, so they go
/// by the name [`packed`]. Whether the value encodes depends on the value
/// alone: nothing comes back for a value that `rmpv` cannot hold, and an
/// error where `rmp_serde` refuses it; either way it has no bytes.
#[verifier::external_body]
fn to_vec_named(value: &Value) -> (result: Option<Result<Vec<u8>, rmp_serde::encode::Error>>)
    ensures
        match result {
            Some(Ok(bytes)) => packed(value@) == Some(bytes@),
            _ => packed(value@) is None,
        },
{
    lower(value).map(|raw| rmp_serde::to_vec_named(&raw))
}

/// The text of an `rmp_serde::decode::Error`, by its `Display`.
#[verifier::external_body]
fn decode_error_text(error: &rmp_serde::decode::Error) -> (text: String) {
    format!("{error}")
}

/// The text of an `rmp_serde::encode::Error`, by its `Display`.
#[verifier::external_body]
fn encode_error_text(error: &rmp_serde::encode::Error) -> (text: String) {
    format!("{error}")
}

/// Whether `error` says that decoding failed: status and code 500, origin
/// `Decode`, a message that starts with "RMP serde decode error: ".
pub open spec fn is_decode_failure(error: AppError) -> bool {
    &&& error.http_code == 500
    &&& error.json_code == 500
    &&& error.kind == AppErrorKind::Decode
    &&& "RMP serde decode error: "@.is_prefix_of(error.message@)
}

/// Whether `error` says that encoding failed: status and code 500, origin
/// `Encode`, a message that starts with "RMP serde encode error: ".
pub open spec fn is_encode_failure(error: AppError) -> bool {
    &&& error.http_code == 500
    &&& error.json_code == 500
    &&& error.kind == AppErrorKind::Encode
    &&& "RMP serde encode error: "@.is_prefix_of(error.message@)
}

/// The error for a frame that could not be decoded, with the reason.
pub fn decode_failure(reason: &str) -> (result: AppError)
    ensures
        is_decode_failure(result),
        result.message@ == "RMP serde decode error: "@ + reason@,
{
    AppError::new(
        500,
        None,
        String::from_str("RMP serde decode error: ").concat(reason),
        Some(AppErrorKind::Decode),
    )
}

/// The error for a message that could not be encoded, with the reason.
pub fn encode_failure(reason: &str) -> (result: AppError)
    ensures
        is_encode_failure(result),
        result.message@ == "RMP serde encode error: "@ + reason@,
{
    AppError::new(
        500,
        None,
        String::from_str("RMP serde encode error: ").concat(reason),
        Some(AppErrorKind::Encode),
    )
}

/// Decodes the MessagePack value that `bytes` start with.
pub fn unpack(bytes: &[u8]) -> (result: Result<Value, AppError>)
    ensures
        match result {
            Ok(value) => unpacked(bytes@) == Some(value@),
            Err(e) => unpacked(bytes@) is None && is_decode_failure(e),
        },
{
    match from_slice(bytes) {
        Ok(value) => Ok(value),
        Err(error) => Err(decode_failure(decode_error_text(&error).as_str())),
    }
}

/// Encodes a value as MessagePack, maps with their keys. It fails on the
/// values that do not encode, and on no other.
pub fn pack(value: &Value) -> (result: Result<Vec<u8>, AppError>)
    ensures
        match result {
            Ok(bytes) => packed(value@) == Some(bytes@),
            Err(e) => packed(value@) is None && is_encode_failure(e),
        },
{
    match to_vec_named(value) {
        Some(Ok(bytes)) => Ok(bytes),
        Some(Err(error)) => Err(encode_failure(encode_error_text(&error).as_str())),
        None => Err(encode_failure("value out of the data model")),
    }
}

} // verus!
