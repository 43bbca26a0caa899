use vstd::prelude::*;

verus! {

/// A stored version of a resource's specification, linked to the resource
/// by `resource_key`.
#[derive(Debug)]
pub struct ResourceSpecDb {
    /// The key of the resource spec.
    pub key: uuid::Uuid,
    /// When this version was created.
    pub created_at: chrono::NaiveDateTime,
    /// The key of the resource it belongs to.
    pub resource_key: String,
    /// The version of the resource spec.
    pub version: String,
    /// The data of the spec.
    pub data: serde_json::Value,
    /// User-defined metadata.
    pub metadata: Option<serde_json::Value>,
}

} // verus!
