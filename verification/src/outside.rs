//! Trusted declarations for the outside decoding and encoding calls.
//!
//! The engine carries decoded entries through as opaque `serde_json::Value`s;
//! what each call returns is named by an uninterpreted function of its
//! arguments, since each is deterministic but far too large to state.

use vstd::prelude::*;

verus! {

/// Declares `serde_json::Value`, the decoded form of one data-file entry: it
/// runs through the engine opaquely, between decoding and re-serialization.
#[verifier::external_type_specification]
#[verifier::external_body]
pub struct ExValue(serde_json::Value);

/// The entries a JSON text decodes to when its top level is a sequence, and
/// nothing when it is malformed or not a top-level sequence.
pub uninterp spec fn json_entries_of(text: Seq<char>) -> Option<Seq<serde_json::Value>>;

/// The entries a YAML text decodes to when its top level is a sequence, and
/// nothing when it is malformed or not a top-level sequence.
pub uninterp spec fn yaml_entries_of(text: Seq<char>) -> Option<Seq<serde_json::Value>>;

/// The canonical JSON text of one decoded entry, and nothing when the entry
/// cannot be re-serialized.
pub uninterp spec fn canonical_json_of(v: serde_json::Value) -> Option<Seq<char>>;

/// Whether a text parses as one Rust expression.
pub uninterp spec fn is_rust_expr(text: Seq<char>) -> bool;

/// Relies on `serde_json::from_str::<Vec<serde_json::Value>>`: decoding is a
/// function of the text alone; it succeeds exactly when the text is a JSON
/// document whose top level is an array, and then yields its elements in
/// document order.
#[verifier::external_body]
pub(crate) fn decode_json_entries(text: &str) -> (r: Result<Vec<serde_json::Value>, String>)
    ensures
        r matches Ok(vals) ==> json_entries_of(text@) == Option::Some(vals@),
        r is Err ==> json_entries_of(text@) is None,
{
    match serde_json::from_str::<Vec<serde_json::Value>>(text) {
        Ok(vals) => Ok(vals),
        Err(e) => Err(format!("{}", e)),
    }
}

/// Relies on `serde_yaml::from_str::<Vec<serde_json::Value>>`: decoding is a
/// function of the text alone; it succeeds exactly when the text is one YAML
/// document whose top level is a sequence of entries the decoder can carry
/// into JSON values (string-keyed mappings, sequences and scalars), and then
/// yields them in document order.
#[verifier::external_body]
pub(crate) fn decode_yaml_entries(text: &str) -> (r: Result<Vec<serde_json::Value>, String>)
    ensures
        r matches Ok(vals) ==> yaml_entries_of(text@) == Option::Some(vals@),
        r is Err ==> yaml_entries_of(text@) is None,
{
    match serde_yaml::from_str::<Vec<serde_json::Value>>(text) {
        Ok(vals) => Ok(vals),
        Err(e) => Err(format!("{}", e)),
    }
}

/// Relies on `serde_json::to_string`: the canonical JSON text of a decoded
/// entry is a function of the entry alone.
#[verifier::external_body]
pub(crate) fn encode_canonical_json(v: &serde_json::Value) -> (r: Result<String, String>)
    ensures
        r matches Ok(s) ==> canonical_json_of(*v) == Option::Some(s@),
        r is Err ==> canonical_json_of(*v) is None,
{
    match serde_json::to_string(v) {
        Ok(s) => Ok(s),
        Err(e) => Err(format!("{}", e)),
    }
}

/// Relies on `syn::parse_str::<syn::Expr>`: whether a text parses as one Rust
/// expression is a function of the text alone.
#[verifier::external_body]
pub(crate) fn check_rust_expr(text: &str) -> (r: Result<(), String>)
    ensures
        r is Ok <==> is_rust_expr(text@),
{
    match syn::parse_str::<syn::Expr>(text) {
        Ok(_) => Ok(()),
        Err(e) => Err(format!("{}", e)),
    }
}

} // verus!
