//! The store's typed property values travel through the engine as opaque
//! JSON values. The engine never looks inside one; it only needs the
//! canonical JSON text of a value, to match records by key, and the ability
//! to copy a value.

use vstd::prelude::*;

verus! {

/// serde_json's dynamic JSON value, declared so that records can carry the
/// store's typed property values through the verified logic opaquely.
#[verifier::external_type_specification]
#[verifier::external_body]
pub struct ExValue(serde_json::Value);

/// The canonical JSON text of a value, as serde_json::to_string renders it:
/// a function of the value alone.
pub uninterp spec fn json_of(v: serde_json::Value) -> Seq<char>;

/// Relies on serde_json::to_string: renders the canonical JSON text of a
/// value, which depends on the value alone. Serializing a
/// serde_json::Value cannot fail (its maps are keyed by strings), so the
/// error branch is unreachable.
#[verifier::external_body]
pub fn to_json_string(v: &serde_json::Value) -> (r: String)
    ensures
        r@ == json_of(*v),
{
    match serde_json::to_string(v) {
        Ok(s) => s,
        Err(_) => String::new(),
    }
}

/// Relies on serde_json::Value's Clone: a clone is the same value.
#[verifier::external_body]
pub fn clone_value(v: &serde_json::Value) -> (r: serde_json::Value)
    ensures
        r == *v,
{
    v.clone()
}

} // verus!
