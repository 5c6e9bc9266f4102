//! The boundary to `serde_json`: its value and error types, names for what
//! its serializers and its comparison return, and the calls themselves.
//!
//! Nothing in this file is proved. Each contract below records what the
//! rest of the crate takes on trust about `serde_json`.

use vstd::prelude::*;

verus! {

/// `serde_json::Value`, taken as an opaque value: the crate stores it and
/// hands it on, and never looks inside.
#[verifier::external_type_specification]
#[verifier::external_body]
pub struct ExValue(serde_json::Value);

/// `serde_json::Error`, taken as an opaque value.
#[verifier::external_type_specification]
#[verifier::external_body]
pub struct ExError(serde_json::Error);

/// The compact JSON text that `serde_json::to_string` writes for `value`,
/// or `None` where the serializer reports an error.
pub uninterp spec fn compact_text(value: serde_json::Value) -> Option<Seq<char>>;

/// The indented JSON text that `serde_json::to_string_pretty` writes for
/// `value`, or `None` where the serializer reports an error.
pub uninterp spec fn pretty_text(value: serde_json::Value) -> Option<Seq<char>>;

/// Whether `serde_json`'s `==` holds between two values.
pub uninterp spec fn same_json(left: serde_json::Value, right: serde_json::Value) -> bool;

/// Calls `serde_json::to_string`.
///
/// Claimed: the serializer's outcome depends on the value alone. It either
/// returns the text named by [`compact_text`] or fails, and fails exactly
/// where [`compact_text`] is `None`. Nothing is claimed about which values
/// fail or about what the text holds. The serializer recurses over the
/// value, so a value nested deeper than the stack allows ends the process.
#[verifier::external_body]
pub(crate) fn serialize_compact(value: &serde_json::Value) -> (outcome: Result<
    String,
    serde_json::Error,
>)
    ensures
        match outcome {
            Ok(text) => compact_text(*value) == Some(text@),
            Err(_) => compact_text(*value) is None,
        },
{
    serde_json::to_string(value)
}

/// Calls `serde_json::to_string_pretty`.
///
/// Claimed: as for [`serialize_compact`], with [`pretty_text`] as the name
/// of the text.
#[verifier::external_body]
pub(crate) fn serialize_pretty(value: &serde_json::Value) -> (outcome: Result<
    String,
    serde_json::Error,
>)
    ensures
        match outcome {
            Ok(text) => pretty_text(*value) == Some(text@),
            Err(_) => pretty_text(*value) is None,
        },
{
    serde_json::to_string_pretty(value)
}

/// Calls `==` on two `serde_json::Value`s, that is the `PartialEq` impl
/// that `serde_json` derives for the type.
///
/// Claimed: the answer depends on the two values alone, and is the one
/// named by [`same_json`].
#[verifier::external_body]
pub(crate) fn values_equal(left: &serde_json::Value, right: &serde_json::Value) -> (equal: bool)
    ensures
        equal == same_json(*left, *right),
{
    left == right
}

/// Calls `clone` on a `serde_json::Value`, the `Clone` impl that
/// `serde_json` derives for the type.
///
/// Claimed: the copy is the same value as the one it was made from.
#[verifier::external_body]
pub(crate) fn clone_value(value: &serde_json::Value) -> (copy: serde_json::Value)
    ensures
        copy == *value,
{
    value.clone()
}

} // verus!
