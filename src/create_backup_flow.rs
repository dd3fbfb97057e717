use crate::types::{CreateBackupConfig, SqlInstance};
use vstd::prelude::*;

verus! {

/// What the create-backup workflow has gathered so far.
pub struct CreateBackupFlow {
    pub project: Option<String>,
    pub instance: Option<String>,
    pub config: Option<CreateBackupConfig>,
    pub operation_id: Option<String>,
    pub status: Option<String>,
    pub instances: Vec<SqlInstance>,
    pub selected_instance_index: usize,
}

impl CreateBackupFlow {
    /// Nothing chosen, an empty list, the cursor at the top.
    pub open spec fn is_empty(self) -> bool {
        &&& self.project is None
        &&& self.instance is None
        &&& self.config is None
        &&& self.operation_id is None
        &&& self.status is None
        &&& self.instances@.len() == 0
        &&& self.selected_instance_index == 0
    }

    pub fn new() -> (r: CreateBackupFlow)
        ensures
            r.is_empty(),
    {
        CreateBackupFlow {
            project: None,
            instance: None,
            config: None,
            operation_id: None,
            status: None,
            instances: Vec::new(),
            selected_instance_index: 0,
        }
    }
}

} // verus!
