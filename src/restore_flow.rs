use crate::types::{Backup, RestoreConfig, SqlInstance};
use vstd::prelude::*;

verus! {

/// What the restore workflow has gathered so far.
pub struct RestoreFlow {
    pub source_project: Option<String>,
    pub source_instance: Option<String>,
    pub target_project: Option<String>,
    pub target_instance: Option<String>,
    pub selected_backup: Option<String>,
    pub config: Option<RestoreConfig>,
    pub operation_id: Option<String>,
    pub status: Option<String>,
    pub instances: Vec<SqlInstance>,
    pub backups: Vec<Backup>,
    pub selected_instance_index: usize,
    pub selected_backup_index: usize,
}

impl RestoreFlow {
    /// Nothing chosen, empty lists, cursors at the top.
    pub open spec fn is_empty(self) -> bool {
        &&& self.source_project is None
        &&& self.source_instance is None
        &&& self.target_project is None
        &&& self.target_instance is None
        &&& self.selected_backup is None
        &&& self.config is None
        &&& self.operation_id is None
        &&& self.status is None
        &&& self.instances@.len() == 0
        &&& self.backups@.len() == 0
        &&& self.selected_instance_index == 0
        &&& self.selected_backup_index == 0
    }

    pub fn new() -> (r: RestoreFlow)
        ensures
            r.is_empty(),
    {
        RestoreFlow {
            source_project: None,
            source_instance: None,
            target_project: None,
            target_instance: None,
            selected_backup: None,
            config: None,
            operation_id: None,
            status: None,
            instances: Vec::new(),
            backups: Vec::new(),
            selected_instance_index: 0,
            selected_backup_index: 0,
        }
    }
}

} // verus!
