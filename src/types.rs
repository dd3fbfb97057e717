use vstd::prelude::*;

verus! {

/// A database instance as listed by the cloud provider.
#[derive(Debug, Clone, PartialEq, Eq)]
pub struct SqlInstance {
    pub name: String,
    pub database_version: String,
    pub region: String,
    pub tier: String,
}

/// A backup of an instance. `start_time` is a Unix timestamp in seconds.
#[derive(Debug, Clone, PartialEq, Eq)]
pub struct Backup {
    pub id: String,
    pub start_time: Option<i64>,
    pub backup_type: String,
    pub status: String,
}

/// A long-running remote operation. Times are Unix timestamps in seconds.
#[derive(Debug, Clone, PartialEq, Eq)]
pub struct Operation {
    pub id: String,
    pub operation_type: String,
    pub status: String,
    pub target_id: String,
    pub start_time: Option<i64>,
    pub end_time: Option<i64>,
    pub error_message: Option<String>,
}

/// Body of a restore call: which backup run of which instance to restore from.
#[derive(Debug, Clone, PartialEq, Eq)]
pub struct RestoreRequest {
    pub restore_backup_context: RestoreBackupContext,
}

#[derive(Debug, Clone, PartialEq, Eq)]
pub struct RestoreBackupContext {
    pub backup_run_id: String,
    pub project: String,
    pub instance_id: String,
}

/// The fields of an operation resource as the remote API reports them.
#[derive(Debug, Clone, PartialEq, Eq)]
pub struct GcpApiResponse {
    pub name: Option<String>,
    pub status: Option<String>,
    pub operation_type: Option<String>,
    pub target_id: Option<String>,
    pub start_time: Option<String>,
    pub end_time: Option<String>,
    pub error: Option<GcpError>,
}

#[derive(Debug, Clone, PartialEq, Eq)]
pub struct GcpError {
    pub message: String,
}

/// The step of the wizard; exactly one is active at a time.
#[derive(Debug, Clone, PartialEq, Eq)]
pub enum AppState {
    SelectingOperation,
    CheckingPrerequisites,
    SelectingSourceProject,
    SelectingSourceInstance,
    SelectingBackup,
    SelectingTargetProject,
    SelectingTargetInstance,
    ConfirmRestore,
    PerformingRestore,
    SelectingProjectForBackup,
    SelectingInstanceForBackup,
    EnteringBackupName,
    ConfirmCreateBackup,
    PerformingCreateBackup,
    Error(String),
}

/// Whether keys drive the wizard (`Normal`) or edit a text buffer (`Editing`).
#[derive(Debug, Clone, Copy, PartialEq, Eq, Structural)]
pub enum InputMode {
    Normal,
    Editing,
}

/// The workflow chosen from the first menu.
#[derive(Debug, Clone, Copy, PartialEq, Eq, Structural)]
pub enum OperationMode {
    Restore,
    CreateBackup,
}

/// What a line of free-text input stands for.
#[derive(Debug, Clone, Copy, PartialEq, Eq, Structural)]
pub enum ManualInputKind {
    SourceProject,
    TargetProject,
    Instance,
    Backup,
    BackupName,
}

/// Everything a restore call needs, built only once all five parts are known.
#[derive(Debug, Clone, PartialEq, Eq)]
pub struct RestoreConfig {
    pub backup_id: String,
    pub source_project: String,
    pub source_instance: String,
    pub target_project: String,
    pub target_instance: String,
}

/// Everything a create-backup call needs.
#[derive(Debug, Clone, PartialEq, Eq)]
pub struct CreateBackupConfig {
    pub project: String,
    pub instance: String,
    pub name: String,
    pub description: String,
}

impl RestoreRequest {
    /// The request that restores the backup named by `config` from its source instance.
    pub open spec fn spec_for(config: RestoreConfig) -> RestoreRequest {
        RestoreRequest {
            restore_backup_context: RestoreBackupContext {
                backup_run_id: config.backup_id,
                project: config.source_project,
                instance_id: config.source_instance,
            },
        }
    }

    pub fn for_config(config: &RestoreConfig) -> (r: RestoreRequest)
        ensures
            r == RestoreRequest::spec_for(*config),
    {
        RestoreRequest {
            restore_backup_context: RestoreBackupContext {
                backup_run_id: config.backup_id.clone(),
                project: config.source_project.clone(),
                instance_id: config.source_instance.clone(),
            },
        }
    }
}

} // verus!
