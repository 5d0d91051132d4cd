//! The JSON values in which a device reports its state.
//!
//! A `serde_json::Value` is opaque to the verifier. What the library reads
//! from one is named here, and the two library calls that read it are given
//! contracts over those names. Nothing in this file is proved: the contracts
//! restate what `serde_json` documents.

use vstd::prelude::*;
use serde_json::Value;

verus! {

#[verifier::external_type_specification]
#[verifier::external_body]
pub struct ExValue(Value);

/// The integer that a JSON value holds, where it is a number written as an
/// integer that fits `i64`; nothing for every other value.
pub uninterp spec fn json_integer(value: Value) -> Option<i64>;

/// The value that a JSON Pointer addresses inside a document, if any.
pub uninterp spec fn json_pointer_target(document: Value, pointer: Seq<char>) -> Option<Value>;

/// `serde_json::Value::as_i64`: a function of the value alone, which gives
/// the integer it holds or nothing. It neither fails nor changes the value.
pub assume_specification[ Value::as_i64 ](value: &Value) -> (r: Option<i64>)
    ensures
        r == json_integer(*value),
;

/// `serde_json::Value::pointer`: a function of the document and the pointer
/// alone, which borrows the addressed value from the document or gives
/// nothing. It neither fails nor changes the document.
pub assume_specification<'a>[ Value::pointer ](document: &'a Value, pointer: &str) -> (r: Option<
    &'a Value,
>)
    ensures
        match r {
            Some(target) => json_pointer_target(*document, pointer@) == Some(*target),
            None => json_pointer_target(*document, pointer@) is None,
        },
;

} // verus!
