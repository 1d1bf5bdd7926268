//! Projects.

use crate::entity::time::UtcTime;
use serde_json::Value;
use uuid::Uuid;
use vstd::prelude::*;

verus! {

/// Declares the identifier of `uuid`, which is only handed on.
#[verifier::external_type_specification]
#[verifier::external_body]
pub struct ExUuid(uuid::Uuid);

/// A project. Its options hold an object of settings for each task type.
#[derive(Debug)]
pub struct ProjectRow {
    pub id: Uuid,
    pub name: String,
    pub code: String,
    pub sync_with_exchange: i32,
    pub owner_id: Uuid,
    pub created_at: UtcTime,
    pub updated_at: UtcTime,
    pub options: Value,
}

} // verus!
