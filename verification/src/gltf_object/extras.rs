//! Free-form data that records carry along and that nothing here reads.

use vstd::prelude::*;

verus! {

/// `serde_json::Value`, declared so that records can hold one. Nothing is
/// known of what is inside.
#[verifier::external_type_specification]
#[verifier::external_body]
pub struct ExJsonValue(serde_json::Value);

/// `Clone::clone` of `serde_json::Value`, an impl that the crate derives.
/// Trusted: the clone is the value that was cloned.
pub assume_specification[ <serde_json::Value as Clone>::clone ](value: &serde_json::Value) -> (res:
    serde_json::Value)
    ensures
        res == *value,
;

/// Application-specific data of a record.
pub type Extras = Option<serde_json::Value>;

/// Extension-specific data of a record.
pub type Extensions = Option<serde_json::Value>;

/// The items of an optional list.
pub open spec fn items_of<T>(list: Option<Vec<T>>) -> Option<Seq<T>> {
    match list {
        Some(items) => Some(items@),
        None => None,
    }
}

} // verus!
