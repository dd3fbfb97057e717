use crate::types::{Backup, CreateBackupConfig, Operation, RestoreRequest, SqlInstance};
use vstd::prelude::*;

verus! {

/// A call that the controller asks its caller to make on the remote gateway.
/// Each call is answered by the `GatewayReply` variant of the same name.
#[derive(Debug, Clone, PartialEq, Eq)]
pub enum GatewayCall {
    CheckPrerequisites,
    ListInstances { project_id: String },
    ListBackups { project_id: String, instance_id: String },
    RestoreStatus { project_id: String, operation_id: String },
    BackupStatus { project_id: String, operation_id: String },
    RestoreBackup { request: RestoreRequest, target_project: String, target_instance: String },
    CreateBackup { config: CreateBackupConfig },
}

/// What the gateway answered; an `Err` holds the failure's message.
#[derive(Debug)]
pub enum GatewayReply {
    CheckPrerequisites(Result<String, String>),
    ListInstances(Result<Vec<SqlInstance>, String>),
    ListBackups(Result<Vec<Backup>, String>),
    RestoreStatus(Result<Operation, String>),
    BackupStatus(Result<Operation, String>),
    RestoreBackup(Result<String, String>),
    CreateBackup(Result<String, String>),
}

} // verus!
