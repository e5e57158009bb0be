use vstd::prelude::*;
use crate::document::{Json, Number};
use crate::error::FromJsonError;
use crate::maybe::{Maybe, MaybeView};
use crate::text::{i64_value, int_text, lower_of, lowercase, parse_i64, signed_text, unsigned_text};

verus! {

/// The node that an optional reference points at.
pub open spec fn deref_node(node: Option<&Json>) -> Option<Json> {
    match node {
        Some(n) => Some(*n),
        None => None,
    }
}

/// The signed integer with the same 64 bits as `u`.
pub open spec fn as_signed(u: u64) -> i64 {
    if u <= i64::MAX {
        u as i64
    } else {
        (u - 0x1_0000_0000_0000_0000int) as i64
    }
}

/// The unsigned integer with the same 64 bits as `i`.
pub open spec fn as_unsigned(i: i64) -> u64 {
    if i >= 0 {
        i as u64
    } else {
        (i + 0x1_0000_0000_0000_0000int) as u64
    }
}

/// Whether a string reads as `true`: it is not empty, not `"0"`, and its
/// lower-case form `lowered` is not `"false"`.
pub open spec fn string_truth_spec(s: Seq<char>, lowered: Seq<char>) -> bool {
    !(s.len() == 0 || s == "0"@ || lowered == "false"@)
}

/// What reading `node` as a boolean gives.
pub open spec fn bool_rule(node: Option<Json>) -> MaybeView<bool> {
    match node {
        None => MaybeView::Null,
        Some(Json::Null) => MaybeView::Null,
        Some(Json::Bool(b)) => MaybeView::Strict(b),
        Some(Json::Number(Number::PosInt(u))) => MaybeView::Relaxed(u != 0),
        Some(Json::Number(Number::NegInt(i))) => MaybeView::Relaxed(i != 0),
        Some(Json::Number(Number::Float(f))) => MaybeView::Relaxed(f.nonzero),
        Some(Json::String(s)) => MaybeView::Relaxed(string_truth_spec(s@, lower_of(s@))),
        Some(Json::Array(_)) => MaybeView::Error("type mismatch: array"@),
        Some(Json::Object(_)) => MaybeView::Error("type mismatch: object"@),
    }
}

/// What reading `node` as a signed integer gives.
pub open spec fn int_rule(node: Option<Json>) -> MaybeView<i64> {
    match node {
        None => MaybeView::Null,
        Some(Json::Null) => MaybeView::Null,
        Some(Json::Bool(b)) => MaybeView::Relaxed(if b { 1i64 } else { 0i64 }),
        Some(Json::Number(Number::PosInt(u))) => MaybeView::Strict(as_signed(u)),
        Some(Json::Number(Number::NegInt(i))) => MaybeView::Strict(i),
        Some(Json::Number(Number::Float(f))) => MaybeView::Relaxed(f.truncated),
        Some(Json::String(s)) => match i64_value(s@) {
            Some(i) => MaybeView::Relaxed(i),
            None => MaybeView::Error("parseIntError"@),
        },
        Some(Json::Array(_)) => MaybeView::Error("type mismatch: array"@),
        Some(Json::Object(_)) => MaybeView::Error("type mismatch: object"@),
    }
}

/// What reading `node` as an unsigned integer gives: the signed reading,
/// with its bits taken as unsigned and its kind kept.
pub open spec fn uint_rule(node: Option<Json>) -> MaybeView<u64> {
    match int_rule(node) {
        MaybeView::Null => MaybeView::Null,
        MaybeView::Strict(i) => MaybeView::Strict(as_unsigned(i)),
        MaybeView::Relaxed(i) => MaybeView::Relaxed(as_unsigned(i)),
        MaybeView::Error(m) => MaybeView::Error(m),
    }
}

/// What reading `node` as a string gives.
pub open spec fn string_rule(node: Option<Json>) -> MaybeView<Seq<char>> {
    match node {
        None => MaybeView::Null,
        Some(Json::Null) => MaybeView::Null,
        Some(Json::Bool(b)) => MaybeView::Relaxed(if b { "true"@ } else { "false"@ }),
        Some(Json::Number(Number::PosInt(u))) => MaybeView::Relaxed(int_text(u as int)),
        Some(Json::Number(Number::NegInt(i))) => MaybeView::Relaxed(int_text(i as int)),
        Some(Json::Number(Number::Float(f))) => MaybeView::Relaxed(f.text@),
        Some(Json::String(s)) => MaybeView::Strict(s@),
        Some(Json::Array(_)) => MaybeView::Error("type mismatch: array"@),
        Some(Json::Object(_)) => MaybeView::Error("type mismatch: object"@),
    }
}

/// The signed integer with the same 64 bits as `u`.
pub fn reinterpret_signed(u: u64) -> (r: i64)
    ensures
        r == as_signed(u),
{
    if u <= i64::MAX as u64 {
        u as i64
    } else {
        (u - 0x8000_0000_0000_0000u64) as i64 - i64::MAX - 1
    }
}

/// The unsigned integer with the same 64 bits as `i`.
pub fn reinterpret_unsigned(i: i64) -> (r: u64)
    ensures
        r == as_unsigned(i),
{
    if i >= 0 {
        i as u64
    } else {
        ((i + i64::MAX + 1) as u64) + 0x8000_0000_0000_0000u64
    }
}

/// Whether the string `s`, whose lower-case form is `lowered`, reads as
/// `true`.
pub fn string_truth(s: &str, lowered: &str) -> (r: bool)
    ensures
        r == string_truth_spec(s@, lowered@),
{
    let text = s.to_owned();
    let lower = lowered.to_owned();
    let empty = String::new();
    let zero = "0".to_owned();
    let no = "false".to_owned();
    assert(s@.len() == 0 ==> text@ =~= empty@);
    !(text == empty || text == zero || lower == no)
}

/// Reads `node` as a boolean.
pub fn coerce_bool(node: Option<&Json>) -> (r: Maybe<bool>)
    ensures
        r@ == bool_rule(deref_node(node)),
{
    match node {
        None => Maybe::Null,
        Some(Json::Null) => Maybe::Null,
        Some(Json::Bool(b)) => Maybe::Strict(*b),
        Some(Json::Number(Number::PosInt(u))) => Maybe::Relaxed(*u != 0),
        Some(Json::Number(Number::NegInt(i))) => Maybe::Relaxed(*i != 0),
        Some(Json::Number(Number::Float(f))) => Maybe::Relaxed(f.nonzero),
        Some(Json::String(s)) => {
            let lowered = lowercase(s.as_str());
            Maybe::Relaxed(string_truth(s.as_str(), lowered.as_str()))
        },
        Some(Json::Array(_)) => Maybe::Error(FromJsonError::with_message("type mismatch: array")),
        Some(Json::Object(_)) => Maybe::Error(FromJsonError::with_message("type mismatch: object")),
    }
}

/// Reads `node` as a signed integer.
pub fn coerce_int(node: Option<&Json>) -> (r: Maybe<i64>)
    ensures
        r@ == int_rule(deref_node(node)),
{
    match node {
        None => Maybe::Null,
        Some(Json::Null) => Maybe::Null,
        Some(Json::Bool(b)) => if *b {
            Maybe::Relaxed(1)
        } else {
            Maybe::Relaxed(0)
        },
        Some(Json::Number(Number::PosInt(u))) => Maybe::Strict(reinterpret_signed(*u)),
        Some(Json::Number(Number::NegInt(i))) => Maybe::Strict(*i),
        Some(Json::Number(Number::Float(f))) => Maybe::Relaxed(f.truncated),
        Some(Json::String(s)) => match parse_i64(s.as_str()) {
            Some(i) => Maybe::Relaxed(i),
            None => Maybe::Error(FromJsonError::with_message("parseIntError")),
        },
        Some(Json::Array(_)) => Maybe::Error(FromJsonError::with_message("type mismatch: array")),
        Some(Json::Object(_)) => Maybe::Error(FromJsonError::with_message("type mismatch: object")),
    }
}

/// Reads `node` as an unsigned integer.
pub fn coerce_uint(node: Option<&Json>) -> (r: Maybe<u64>)
    ensures
        r@ == uint_rule(deref_node(node)),
{
    match coerce_int(node) {
        Maybe::Strict(n) => Maybe::Strict(reinterpret_unsigned(n)),
        Maybe::Relaxed(n) => Maybe::Relaxed(reinterpret_unsigned(n)),
        Maybe::Error(e) => Maybe::Error(e),
        Maybe::Null => Maybe::Null,
    }
}

/// Reads `node` as a string.
pub fn coerce_string(node: Option<&Json>) -> (r: Maybe<String>)
    ensures
        r@ == string_rule(deref_node(node)),
{
    match node {
        None => Maybe::Null,
        Some(Json::Null) => Maybe::Null,
        Some(Json::Bool(b)) => if *b {
            Maybe::Relaxed("true".to_owned())
        } else {
            Maybe::Relaxed("false".to_owned())
        },
        Some(Json::Number(Number::PosInt(u))) => Maybe::Relaxed(unsigned_text(*u)),
        Some(Json::Number(Number::NegInt(i))) => Maybe::Relaxed(signed_text(*i)),
        Some(Json::Number(Number::Float(f))) => Maybe::Relaxed(f.text.clone()),
        Some(Json::String(s)) => Maybe::Strict(s.clone()),
        Some(Json::Array(_)) => Maybe::Error(FromJsonError::with_message("type mismatch: array")),
        Some(Json::Object(_)) => Maybe::Error(FromJsonError::with_message("type mismatch: object")),
    }
}

} // verus!
