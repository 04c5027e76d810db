//! Receipts from the runtime.
use vstd::prelude::*;
use crate::time::UtcTime;
use crate::uuid::Uuid;

verus! {

/// The word that a version of a profile is in force at the runtime.
#[derive(Debug)]
pub struct RuntimeMaterializationReceipt {
    pub receipt_event_id: Uuid,
    pub operation_id: Uuid,
    pub profile_type: String,
    pub aggregate_id: Uuid,
    pub profile_id: Option<Uuid>,
    pub materialized_version: i64,
    pub runtime_key: String,
    pub materialized_at: UtcTime,
}

impl Clone for RuntimeMaterializationReceipt {
    fn clone(&self) -> (r: Self)
        ensures
            r == *self,
    {
        RuntimeMaterializationReceipt {
            receipt_event_id: self.receipt_event_id,
            operation_id: self.operation_id,
            profile_type: self.profile_type.clone(),
            aggregate_id: self.aggregate_id,
            profile_id: self.profile_id,
            materialized_version: self.materialized_version,
            runtime_key: self.runtime_key.clone(),
            materialized_at: self.materialized_at,
        }
    }
}

} // verus!
