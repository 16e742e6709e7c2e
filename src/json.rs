use vstd::prelude::*;

verus! {

/// Whether `text` is one JSON document that serde_json accepts (well-formed,
/// and nested no deeper than its recursion limit).
pub uninterp spec fn json_is_valid(text: Seq<char>) -> bool;

/// The string found at a JSON pointer in the document `text`, if `text` is a
/// document and a string stands there.
pub uninterp spec fn json_str_at(text: Seq<char>, pointer: Seq<char>) -> Option<Seq<char>>;

/// The unsigned integer found at a JSON pointer in the document `text`, if
/// `text` is a document and an integer that fits in 64 bits stands there.
pub uninterp spec fn json_u64_at(text: Seq<char>, pointer: Seq<char>) -> Option<u64>;

/// The boolean found at a JSON pointer in the document `text`, if `text` is
/// a document and a boolean stands there.
pub uninterp spec fn json_bool_at(text: Seq<char>, pointer: Seq<char>) -> Option<bool>;

/// The JSON text of the value found at a JSON pointer in the document
/// `text`, if `text` is a document and something stands there.
pub uninterp spec fn json_text_at(text: Seq<char>, pointer: Seq<char>) -> Option<Seq<char>>;

/// The value of `text` read as a JSON number that fits in 128 unsigned bits.
pub uninterp spec fn json_u128_of(text: Seq<char>) -> Option<u128>;

/// Relies on serde_json::from_str into `serde_json::Value`: it succeeds
/// exactly on well-formed documents.
#[verifier::external_body]
pub(crate) fn json_valid(text: &str) -> (r: bool)
    ensures
        r == json_is_valid(text@),
{
    serde_json::from_str::<serde_json::Value>(text).is_ok()
}

/// Relies on serde_json::from_str, `Value::pointer` and `Value::as_str`:
/// the string at `pointer`, found only in a well-formed document.
#[verifier::external_body]
pub(crate) fn json_str(text: &str, pointer: &str) -> (r: Option<String>)
    ensures
        match r {
            Some(v) => json_str_at(text@, pointer@) == Some(v@),
            None => json_str_at(text@, pointer@) is None,
        },
        r is Some ==> json_is_valid(text@),
{
    serde_json::from_str::<serde_json::Value>(text).ok().and_then(
        |v| v.pointer(pointer).and_then(|x| x.as_str()).map(|s| s.to_string()),
    )
}

/// Relies on serde_json::from_str, `Value::pointer` and `Value::as_u64`:
/// the integer at `pointer`, found only in a well-formed document.
#[verifier::external_body]
pub(crate) fn json_u64(text: &str, pointer: &str) -> (r: Option<u64>)
    ensures
        r == json_u64_at(text@, pointer@),
        r is Some ==> json_is_valid(text@),
{
    serde_json::from_str::<serde_json::Value>(text).ok().and_then(
        |v| v.pointer(pointer).and_then(|x| x.as_u64()),
    )
}

/// Relies on serde_json::from_str, `Value::pointer` and `Value::as_bool`:
/// the boolean at `pointer`, found only in a well-formed document.
#[verifier::external_body]
pub(crate) fn json_bool(text: &str, pointer: &str) -> (r: Option<bool>)
    ensures
        r == json_bool_at(text@, pointer@),
        r is Some ==> json_is_valid(text@),
{
    serde_json::from_str::<serde_json::Value>(text).ok().and_then(
        |v| v.pointer(pointer).and_then(|x| x.as_bool()),
    )
}

/// Relies on serde_json::from_str, `Value::pointer` and `Value`'s
/// `to_string`: the JSON text of the value at `pointer`, found only in a
/// well-formed document.
#[verifier::external_body]
pub(crate) fn json_text(text: &str, pointer: &str) -> (r: Option<String>)
    ensures
        match r {
            Some(v) => json_text_at(text@, pointer@) == Some(v@),
            None => json_text_at(text@, pointer@) is None,
        },
        r is Some ==> json_is_valid(text@),
{
    serde_json::from_str::<serde_json::Value>(text).ok().and_then(
        |v| v.pointer(pointer).map(|x| x.to_string()),
    )
}

/// Relies on serde_json::from_str into `u128`: the number the document holds.
#[verifier::external_body]
pub(crate) fn json_u128(text: &str) -> (r: Option<u128>)
    ensures
        r == json_u128_of(text@),
{
    serde_json::from_str::<u128>(text).ok()
}

} // verus!
