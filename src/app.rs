use crate::create_backup_flow::CreateBackupFlow;
use crate::gateway::{GatewayCall, GatewayReply};
use crate::restore_flow::RestoreFlow;
use crate::text::{framed, prefixed, remember, remembered_as, trim_text, trimmed, unix_time_text};
use crate::types::{
    AppState, Backup, CreateBackupConfig, InputMode, ManualInputKind, OperationMode,
    RestoreConfig, RestoreRequest, SqlInstance,
};
use vstd::prelude::*;

verus! {

/// The wizard: the current step, the chosen workflow, both workflows' data,
/// the free-text input and the message shown to the operator.
pub struct App {
    pub operation_mode: Option<OperationMode>,
    pub state: AppState,
    pub dry_run_mode: bool,
    pub input_mode: InputMode,
    pub input_buffer: String,
    pub authenticated_user: Option<String>,
    pub remembered_projects: Vec<String>,
    pub remembered_instances: Vec<String>,
    pub selected_operation_index: usize,
    pub loading: bool,
    pub show_help: bool,
    pub manual_input_active: bool,
    pub manual_input_buffer: String,
    pub manual_input_type: Option<ManualInputKind>,
    pub restore_flow: RestoreFlow,
    pub create_backup_flow: CreateBackupFlow,
    pub error: Option<String>,
}

/// The last valid index of a list of `len` items, or 0 for an empty list.
pub open spec fn last_index(len: nat) -> int {
    if len == 0 {
        0
    } else {
        len - 1
    }
}

/// The operation that the menu entry at `index` starts.
pub open spec fn menu_mode(index: usize) -> OperationMode {
    if index == 0 {
        OperationMode::Restore
    } else {
        OperationMode::CreateBackup
    }
}


/// An instance typed in by hand: its name, and "Manual" in every other field.
pub open spec fn is_manual_instance(i: SqlInstance, name: Seq<char>) -> bool {
    &&& i.name@ == name
    &&& i.database_version@ == "Manual"@
    &&& i.region@ == "Manual"@
    &&& i.tier@ == "Manual"@
}

/// A backup typed in by hand: its id, no start time, and "Manual" in every other field.
pub open spec fn is_manual_backup(b: Backup, id: Seq<char>) -> bool {
    &&& b.id@ == id
    &&& b.start_time is None
    &&& b.backup_type@ == "Manual"@
    &&& b.status@ == "Manual"@
}

/// `items` has grown by one element, the last, which satisfies `last`.
pub open spec fn appended<T>(items: Seq<T>, next: Seq<T>, last: spec_fn(T) -> bool) -> bool {
    &&& next.len() == items.len() + 1
    &&& next.drop_last() == items
    &&& last(next.last())
}

/// `o` holds a text that reads as `text`.
pub open spec fn reads_as(o: Option<String>, text: Seq<char>) -> bool {
    o matches Some(s) && s@ == text
}

impl App {
    /// A new session: on the operation menu, nothing chosen, nothing typed.
    pub open spec fn is_initial(self, dry_run_mode: bool) -> bool {
        &&& self.operation_mode is None
        &&& self.state == AppState::SelectingOperation
        &&& self.dry_run_mode == dry_run_mode
        &&& self.input_mode == InputMode::Normal
        &&& self.input_buffer@.len() == 0
        &&& self.authenticated_user is None
        &&& self.remembered_projects@.len() == 0
        &&& self.remembered_instances@.len() == 0
        &&& self.loading == false
        &&& self.show_help == false
        &&& self.manual_input_active == false
        &&& self.manual_input_buffer@.len() == 0
        &&& self.manual_input_type is None
        &&& self.restore_flow.is_empty()
        &&& self.create_backup_flow.is_empty()
        &&& self.error is None
    }

    /// Whether the current step shows a list with a cursor.
    pub open spec fn has_cursor(self) -> bool {
        match self.state {
            AppState::SelectingOperation
            | AppState::SelectingSourceInstance
            | AppState::SelectingTargetInstance
            | AppState::SelectingInstanceForBackup
            | AppState::SelectingBackup => true,
            _ => false,
        }
    }

    /// The cursor of the list that the current step shows.
    pub open spec fn cursor(self) -> int {
        match self.state {
            AppState::SelectingOperation => self.selected_operation_index as int,
            AppState::SelectingSourceInstance
            | AppState::SelectingTargetInstance => self.restore_flow.selected_instance_index as int,
            AppState::SelectingInstanceForBackup => self.create_backup_flow.selected_instance_index as int,
            AppState::SelectingBackup => self.restore_flow.selected_backup_index as int,
            _ => 0,
        }
    }

    /// The largest value the cursor of the current step may take.
    pub open spec fn cursor_top(self) -> int {
        match self.state {
            AppState::SelectingOperation => 1,
            AppState::SelectingSourceInstance
            | AppState::SelectingTargetInstance => last_index(self.restore_flow.instances@.len()),
            AppState::SelectingInstanceForBackup => last_index(
                self.create_backup_flow.instances@.len(),
            ),
            AppState::SelectingBackup => last_index(self.restore_flow.backups@.len()),
            _ => 0,
        }
    }

    /// The cursor of the current step lies within its list.
    pub open spec fn cursor_in_bounds(self) -> bool {
        0 <= self.cursor() <= self.cursor_top()
    }

    /// This app with the cursor of the current step set to `c`.
    pub open spec fn with_cursor(self, c: int) -> App {
        match self.state {
            AppState::SelectingOperation => App { selected_operation_index: c as usize, ..self },
            AppState::SelectingSourceInstance | AppState::SelectingTargetInstance => App {
                restore_flow: RestoreFlow { selected_instance_index: c as usize, ..self.restore_flow },
                ..self
            },
            AppState::SelectingInstanceForBackup => App {
                create_backup_flow: CreateBackupFlow {
                    selected_instance_index: c as usize,
                    ..self.create_backup_flow
                },
                ..self
            },
            AppState::SelectingBackup => App {
                restore_flow: RestoreFlow { selected_backup_index: c as usize, ..self.restore_flow },
                ..self
            },
            _ => self,
        }
    }

    /// One step up: the cursor moves up unless it is at the top of the list.
    pub open spec fn moved_up(self) -> App {
        if self.has_cursor() && self.cursor() > 0 {
            self.with_cursor(self.cursor() - 1)
        } else {
            self
        }
    }

    /// One step down: the cursor moves down unless it is on the last item.
    pub open spec fn moved_down(self) -> App {
        if self.has_cursor() && self.cursor() < self.cursor_top() {
            self.with_cursor(self.cursor() + 1)
        } else {
            self
        }
    }


    /// `next` is this app with free-text entry of `kind` begun on an empty buffer.
    pub open spec fn input_started(self, kind: ManualInputKind, next: App) -> bool {
        &&& next == (App {
            manual_input_active: true,
            manual_input_type: Some(kind),
            manual_input_buffer: next.manual_input_buffer,
            input_mode: InputMode::Editing,
            ..self
        })
        &&& next.manual_input_buffer@.len() == 0
    }

    /// This app with its restore configuration built, when all five parts are
    /// known; unchanged otherwise.
    pub open spec fn with_restore_config(self) -> App {
        let f = self.restore_flow;
        match (f.selected_backup, f.source_project, f.source_instance, f.target_project, f.target_instance) {
            (Some(b), Some(sp), Some(si), Some(tp), Some(ti)) => App {
                restore_flow: RestoreFlow {
                    config: Some(
                        RestoreConfig {
                            backup_id: b,
                            source_project: sp,
                            source_instance: si,
                            target_project: tp,
                            target_instance: ti,
                        },
                    ),
                    ..f
                },
                ..self
            },
            _ => self,
        }
    }

    /// `next` is this app with its backup configuration built for a backup named
    /// `name` (and described by the same text), when project and instance are
    /// known; unchanged otherwise.
    pub open spec fn backup_config_built(self, name: Seq<char>, next: App) -> bool {
        let f = self.create_backup_flow;
        match (f.project, f.instance) {
            (Some(p), Some(i)) => {
                &&& next == (App {
                    create_backup_flow: CreateBackupFlow { config: next.create_backup_flow.config, ..f },
                    ..self
                })
                &&& next.create_backup_flow.config matches Some(c) && c.project == p && c.instance
                    == i && c.name@ == name && c.description@ == name
            },
            _ => next == self,
        }
    }

    /// `next` is this app after a restore was dispatched with `call`: nothing
    /// without a configuration; in a dry run a made-up operation that is done
    /// at once; otherwise a restore call for the configuration, pending.
    pub open spec fn restore_dispatched(self, next: App, call: Option<GatewayCall>) -> bool {
        match self.restore_flow.config {
            None => next == self && call is None,
            Some(config) => if self.dry_run_mode {
                &&& call is None
                &&& next == (App {
                    restore_flow: RestoreFlow {
                        operation_id: next.restore_flow.operation_id,
                        status: next.restore_flow.status,
                        ..self.restore_flow
                    },
                    loading: false,
                    state: AppState::SelectingTargetInstance,
                    ..self
                })
                &&& next.restore_flow.operation_id matches Some(id) && "dry-run-operation-"@.is_prefix_of(id@)
                &&& reads_as(next.restore_flow.status, "DONE"@)
            } else {
                &&& call == Some(
                    GatewayCall::RestoreBackup {
                        request: RestoreRequest::spec_for(config),
                        target_project: config.target_project,
                        target_instance: config.target_instance,
                    },
                )
                &&& next == (App { loading: true, state: AppState::PerformingRestore, ..self })
            },
        }
    }

    /// `next` is this app after a backup creation was dispatched with `call`:
    /// nothing without a configuration; in a dry run a made-up operation that is
    /// done at once; otherwise a create-backup call for the configuration, pending.
    pub open spec fn backup_dispatched(self, next: App, call: Option<GatewayCall>) -> bool {
        match self.create_backup_flow.config {
            None => next == self && call is None,
            Some(config) => if self.dry_run_mode {
                &&& call is None
                &&& next == (App {
                    create_backup_flow: CreateBackupFlow {
                        operation_id: next.create_backup_flow.operation_id,
                        status: next.create_backup_flow.status,
                        ..self.create_backup_flow
                    },
                    loading: false,
                    state: AppState::PerformingCreateBackup,
                    ..self
                })
                &&& next.create_backup_flow.operation_id matches Some(id) && "dry-run-backup-op-"@.is_prefix_of(id@)
                &&& reads_as(next.create_backup_flow.status, "DONE"@)
            } else {
                &&& call == Some(GatewayCall::CreateBackup { config })
                &&& next == (App { loading: true, state: AppState::PerformingCreateBackup, ..self })
            },
        }
    }

    /// `next` is this app after a status check of the restore operation: nothing
    /// without an operation and a configuration; "DONE" at once in a dry run;
    /// otherwise a status call for the operation in the target project.
    pub open spec fn restore_status_checked(self, next: App, call: Option<GatewayCall>) -> bool {
        match (self.restore_flow.operation_id, self.restore_flow.config) {
            (Some(op), Some(config)) => if self.dry_run_mode {
                &&& call is None
                &&& next == (App {
                    restore_flow: RestoreFlow { status: next.restore_flow.status, ..self.restore_flow },
                    ..self
                })
                &&& reads_as(next.restore_flow.status, "DONE"@)
            } else {
                &&& call == Some(
                    GatewayCall::RestoreStatus { project_id: config.target_project, operation_id: op },
                )
                &&& next == self
            },
            _ => next == self && call is None,
        }
    }

    /// `next` is this app after a status check of the backup operation: nothing
    /// without an operation and a configuration; "DONE" at once in a dry run;
    /// otherwise a status call for the operation in the backup's project.
    pub open spec fn backup_status_checked(self, next: App, call: Option<GatewayCall>) -> bool {
        match (self.create_backup_flow.operation_id, self.create_backup_flow.config) {
            (Some(op), Some(config)) => if self.dry_run_mode {
                &&& call is None
                &&& next == (App {
                    create_backup_flow: CreateBackupFlow {
                        status: next.create_backup_flow.status,
                        ..self.create_backup_flow
                    },
                    ..self
                })
                &&& reads_as(next.create_backup_flow.status, "DONE"@)
            } else {
                &&& call == Some(
                    GatewayCall::BackupStatus { project_id: config.project, operation_id: op },
                )
                &&& next == self
            },
            _ => next == self && call is None,
        }
    }

    /// `next` is this app with the message `text` shown and otherwise as `base`.
    pub open spec fn shows_error(base: App, text: Seq<char>, next: App) -> bool {
        &&& next == (App { error: next.error, ..base })
        &&& reads_as(next.error, text)
    }

    /// `next` is this app after the gateway answered `reply`.
    pub open spec fn reply_applied(self, reply: GatewayReply, next: App) -> bool {
        match reply {
            GatewayReply::CheckPrerequisites(Ok(user)) => next == (App {
                authenticated_user: Some(user),
                loading: false,
                state: AppState::SelectingOperation,
                ..self
            }),
            GatewayReply::CheckPrerequisites(Err(e)) => next == (App {
                loading: false,
                state: AppState::Error(e),
                ..self
            }),
            GatewayReply::ListInstances(Ok(list)) => next == match self.operation_mode {
                Some(OperationMode::Restore) => App {
                    restore_flow: RestoreFlow {
                        instances: list,
                        selected_instance_index: 0,
                        ..self.restore_flow
                    },
                    loading: false,
                    ..self
                },
                Some(OperationMode::CreateBackup) => App {
                    create_backup_flow: CreateBackupFlow {
                        instances: list,
                        selected_instance_index: 0,
                        ..self.create_backup_flow
                    },
                    loading: false,
                    ..self
                },
                None => App { loading: false, ..self },
            },
            GatewayReply::ListInstances(Err(e)) => App::shows_error(
                App { loading: false, ..self },
                "Failed to load instances: "@ + e@ + ". Press ESC to clear."@,
                next,
            ),
            GatewayReply::ListBackups(Ok(list)) => next == (App {
                restore_flow: RestoreFlow { backups: list, selected_backup_index: 0, ..self.restore_flow },
                loading: false,
                ..self
            }),
            GatewayReply::ListBackups(Err(e)) => App::shows_error(
                App { loading: false, ..self },
                "Failed to load backups: "@ + e@ + ". Press ESC to clear."@,
                next,
            ),
            GatewayReply::RestoreStatus(Ok(op)) => next == (App {
                restore_flow: RestoreFlow { status: Some(op.status), ..self.restore_flow },
                ..self
            }),
            GatewayReply::RestoreStatus(Err(e)) => App::shows_error(
                self,
                "Failed to check restore status: "@ + e@,
                next,
            ),
            GatewayReply::BackupStatus(Ok(op)) => next == (App {
                create_backup_flow: CreateBackupFlow {
                    status: Some(op.status),
                    ..self.create_backup_flow
                },
                ..self
            }),
            GatewayReply::BackupStatus(Err(e)) => App::shows_error(
                self,
                "Failed to check backup status: "@ + e@,
                next,
            ),
            GatewayReply::RestoreBackup(Ok(id)) => {
                &&& next == (App {
                    restore_flow: RestoreFlow {
                        operation_id: Some(id),
                        status: next.restore_flow.status,
                        ..self.restore_flow
                    },
                    loading: false,
                    state: AppState::SelectingTargetInstance,
                    ..self
                })
                &&& reads_as(next.restore_flow.status, "RUNNING"@)
            },
            GatewayReply::RestoreBackup(Err(e)) => App::shows_error(
                App { loading: false, state: AppState::ConfirmRestore, ..self },
                "Restore failed: "@ + e@ + ". Press ESC to clear."@,
                next,
            ),
            GatewayReply::CreateBackup(Ok(id)) => {
                &&& next == (App {
                    create_backup_flow: CreateBackupFlow {
                        operation_id: Some(id),
                        status: next.create_backup_flow.status,
                        ..self.create_backup_flow
                    },
                    loading: false,
                    state: AppState::PerformingCreateBackup,
                    ..self
                })
                &&& reads_as(next.create_backup_flow.status, "RUNNING"@)
            },
            GatewayReply::CreateBackup(Err(e)) => App::shows_error(
                App { loading: false, state: AppState::ConfirmCreateBackup, ..self },
                "Create backup failed: "@ + e@ + ". Press ESC to clear."@,
                next,
            ),
        }
    }

    /// `next` and `call` follow from confirming the highlighted item (or the
    /// current step) of this app.
    pub open spec fn item_selected(self, next: App, call: Option<GatewayCall>) -> bool {
        let rf = self.restore_flow;
        let cf = self.create_backup_flow;
        match self.state {
            AppState::SelectingOperation => {
                let mode = menu_mode(self.selected_operation_index);
                &&& call is None
                &&& (App {
                    operation_mode: Some(mode),
                    state: if mode == OperationMode::Restore {
                        AppState::SelectingSourceProject
                    } else {
                        AppState::SelectingProjectForBackup
                    },
                    loading: false,
                    ..self
                }).input_started(ManualInputKind::SourceProject, next)
            },
            AppState::SelectingSourceProject | AppState::SelectingProjectForBackup => {
                call is None && self.input_started(ManualInputKind::SourceProject, next)
            },
            AppState::SelectingSourceInstance => if rf.selected_instance_index < rf.instances@.len() {
                let name = rf.instances@[rf.selected_instance_index as int].name;
                let chosen = App {
                    restore_flow: RestoreFlow { source_instance: Some(name), ..rf },
                    ..self
                };
                match rf.source_project {
                    Some(project) => {
                        &&& call == Some(
                            GatewayCall::ListBackups { project_id: project, instance_id: name },
                        )
                        &&& next == (App {
                            state: AppState::SelectingBackup,
                            loading: true,
                            error: None,
                            ..chosen
                        })
                    },
                    None => call is None && next == chosen,
                }
            } else {
                call is None && next == self
            },
            AppState::SelectingInstanceForBackup => if cf.selected_instance_index < cf.instances@.len() {
                let name = cf.instances@[cf.selected_instance_index as int].name;
                &&& call is None
                &&& (App {
                    create_backup_flow: CreateBackupFlow { instance: Some(name), ..cf },
                    state: AppState::EnteringBackupName,
                    ..self
                }).input_started(ManualInputKind::BackupName, next)
            } else {
                call is None && next == self
            },
            AppState::SelectingBackup => if rf.selected_backup_index < rf.backups@.len() {
                let id = rf.backups@[rf.selected_backup_index as int].id;
                &&& call is None
                &&& next == (App {
                    restore_flow: RestoreFlow { selected_backup: Some(id), ..rf },
                    state: AppState::SelectingTargetProject,
                    ..self
                })
            } else {
                call is None && next == self
            },
            AppState::SelectingTargetProject => {
                call is None && self.input_started(ManualInputKind::TargetProject, next)
            },
            AppState::SelectingTargetInstance => if rf.selected_instance_index < rf.instances@.len() {
                let name = rf.instances@[rf.selected_instance_index as int].name;
                let chosen = App {
                    restore_flow: RestoreFlow { target_instance: Some(name), ..rf },
                    ..self
                };
                &&& call is None
                &&& next == (App { state: AppState::ConfirmRestore, ..chosen.with_restore_config() })
            } else {
                call is None && next == self
            },
            AppState::ConfirmCreateBackup => self.backup_dispatched(next, call),
            _ => call is None && next == self,
        }
    }

    /// `next` and `call` follow from committing the typed text `value` as the
    /// kind of input that is being entered. Empty text only ends the entry.
    pub open spec fn input_committed(self, value: Seq<char>, next: App, call: Option<GatewayCall>) -> bool {
        let left = App { manual_input_active: false, input_mode: InputMode::Normal, ..self };
        let rf = self.restore_flow;
        let cf = self.create_backup_flow;
        if value.len() == 0 {
            call is None && next == left
        } else {
            match self.manual_input_type {
                Some(ManualInputKind::SourceProject) => {
                    &&& call matches Some(GatewayCall::ListInstances { project_id }) && project_id@ == value
                    &&& remembered_as(self.remembered_projects@, value, next.remembered_projects@)
                    &&& match self.operation_mode {
                        Some(OperationMode::Restore) => {
                            &&& reads_as(next.restore_flow.source_project, value)
                            &&& next == (App {
                                remembered_projects: next.remembered_projects,
                                restore_flow: RestoreFlow {
                                    source_project: next.restore_flow.source_project,
                                    ..rf
                                },
                                state: AppState::SelectingSourceInstance,
                                loading: true,
                                error: None,
                                ..left
                            })
                        },
                        Some(OperationMode::CreateBackup) => {
                            &&& reads_as(next.create_backup_flow.project, value)
                            &&& next == (App {
                                remembered_projects: next.remembered_projects,
                                create_backup_flow: CreateBackupFlow {
                                    project: next.create_backup_flow.project,
                                    ..cf
                                },
                                state: AppState::SelectingInstanceForBackup,
                                loading: true,
                                error: None,
                                ..left
                            })
                        },
                        None => next == (App {
                            remembered_projects: next.remembered_projects,
                            loading: true,
                            error: None,
                            ..left
                        }),
                    }
                },
                Some(ManualInputKind::TargetProject) => {
                    &&& call matches Some(GatewayCall::ListInstances { project_id }) && project_id@ == value
                    &&& remembered_as(self.remembered_projects@, value, next.remembered_projects@)
                    &&& reads_as(next.restore_flow.target_project, value)
                    &&& next == (App {
                        remembered_projects: next.remembered_projects,
                        restore_flow: RestoreFlow { target_project: next.restore_flow.target_project, ..rf },
                        state: AppState::SelectingTargetInstance,
                        loading: true,
                        error: None,
                        ..left
                    })
                },
                Some(ManualInputKind::Instance) => {
                    &&& call is None
                    &&& remembered_as(self.remembered_instances@, value, next.remembered_instances@)
                    &&& match self.operation_mode {
                        Some(OperationMode::Restore) => {
                            &&& appended(rf.instances@, next.restore_flow.instances@, |i: SqlInstance| is_manual_instance(i, value))
                            &&& next == (App {
                                remembered_instances: next.remembered_instances,
                                restore_flow: RestoreFlow {
                                    instances: next.restore_flow.instances,
                                    selected_instance_index: rf.instances@.len() as usize,
                                    ..rf
                                },
                                ..self
                            })
                        },
                        Some(OperationMode::CreateBackup) => {
                            &&& appended(cf.instances@, next.create_backup_flow.instances@, |i: SqlInstance| is_manual_instance(i, value))
                            &&& next == (App {
                                remembered_instances: next.remembered_instances,
                                create_backup_flow: CreateBackupFlow {
                                    instances: next.create_backup_flow.instances,
                                    selected_instance_index: cf.instances@.len() as usize,
                                    ..cf
                                },
                                ..self
                            })
                        },
                        None => next == (App { remembered_instances: next.remembered_instances, ..self }),
                    }
                },
                Some(ManualInputKind::Backup) => {
                    &&& call is None
                    &&& appended(rf.backups@, next.restore_flow.backups@, |b: Backup| is_manual_backup(b, value))
                    &&& next == (App {
                        restore_flow: RestoreFlow {
                            backups: next.restore_flow.backups,
                            selected_backup_index: rf.backups@.len() as usize,
                            ..rf
                        },
                        ..self
                    })
                },
                Some(ManualInputKind::BackupName) => {
                    &&& call is None
                    &&& (App { state: AppState::ConfirmCreateBackup, ..left }).backup_config_built(value, next)
                },
                None => call is None && next == self,
            }
        }
    }

    /// `next` is this app after free-text entry was abandoned: entry ends and the
    /// buffer is emptied.
    pub open spec fn input_cancelled(self, next: App) -> bool {
        &&& next == (App {
            manual_input_active: false,
            manual_input_buffer: next.manual_input_buffer,
            input_mode: InputMode::Normal,
            ..self
        })
        &&& next.manual_input_buffer@.len() == 0
    }

    /// `next` is this app one step back: the step being left has its choice
    /// and, where it fetched one, its list and cursor cleared.
    pub open spec fn gone_back(self, next: App) -> bool {
        let rf = self.restore_flow;
        let cf = self.create_backup_flow;
        match self.state {
            AppState::ConfirmRestore => next == (App {
                restore_flow: RestoreFlow { target_instance: None, selected_instance_index: 0, ..rf },
                state: AppState::SelectingTargetInstance,
                ..self
            }),
            AppState::ConfirmCreateBackup => next == (App {
                create_backup_flow: CreateBackupFlow { config: None, ..cf },
                state: AppState::EnteringBackupName,
                ..self
            }),
            AppState::SelectingSourceInstance => {
                &&& next == (App {
                    restore_flow: RestoreFlow {
                        source_project: None,
                        instances: next.restore_flow.instances,
                        selected_instance_index: 0,
                        ..rf
                    },
                    state: AppState::SelectingSourceProject,
                    ..self
                })
                &&& next.restore_flow.instances@.len() == 0
            },
            AppState::SelectingBackup => {
                &&& next == (App {
                    restore_flow: RestoreFlow {
                        source_instance: None,
                        backups: next.restore_flow.backups,
                        selected_backup_index: 0,
                        ..rf
                    },
                    state: AppState::SelectingSourceInstance,
                    ..self
                })
                &&& next.restore_flow.backups@.len() == 0
            },
            AppState::SelectingTargetProject => next == (App {
                restore_flow: RestoreFlow { selected_backup: None, ..rf },
                state: AppState::SelectingBackup,
                ..self
            }),
            AppState::SelectingTargetInstance => {
                &&& next == (App {
                    restore_flow: RestoreFlow {
                        target_project: None,
                        instances: next.restore_flow.instances,
                        selected_instance_index: 0,
                        ..rf
                    },
                    state: AppState::SelectingTargetProject,
                    ..self
                })
                &&& next.restore_flow.instances@.len() == 0
            },
            AppState::PerformingRestore => next == (App {
                state: AppState::SelectingTargetInstance,
                ..self
            }),
            AppState::SelectingInstanceForBackup => {
                &&& next == (App {
                    create_backup_flow: CreateBackupFlow {
                        project: None,
                        instances: next.create_backup_flow.instances,
                        selected_instance_index: 0,
                        ..cf
                    },
                    state: AppState::SelectingProjectForBackup,
                    ..self
                })
                &&& next.create_backup_flow.instances@.len() == 0
            },
            AppState::EnteringBackupName => next == (App {
                create_backup_flow: CreateBackupFlow { instance: None, ..cf },
                state: AppState::SelectingInstanceForBackup,
                ..self
            }),
            AppState::PerformingCreateBackup => next == (App {
                state: AppState::ConfirmCreateBackup,
                ..self
            }),
            _ => next == (App { state: AppState::SelectingOperation, ..self }),
        }
    }

    /// The list fetch that a refresh of the current step asks for, if any.
    pub open spec fn refresh_call(self) -> Option<GatewayCall> {
        let rf = self.restore_flow;
        match self.state {
            AppState::SelectingSourceInstance | AppState::SelectingTargetInstance => match rf.source_project {
                Some(p) => Some(GatewayCall::ListInstances { project_id: p }),
                None => None,
            },
            AppState::SelectingInstanceForBackup => match self.create_backup_flow.project {
                Some(p) => Some(GatewayCall::ListInstances { project_id: p }),
                None => None,
            },
            AppState::SelectingBackup => match (rf.source_project, rf.source_instance) {
                (Some(p), Some(i)) => Some(GatewayCall::ListBackups { project_id: p, instance_id: i }),
                _ => None,
            },
            _ => None,
        }
    }

    /// Whether a status check of the restore operation would ask the gateway.
    pub open spec fn restore_status_live(self) -> bool {
        !self.dry_run_mode && self.restore_flow.operation_id is Some && self.restore_flow.config is Some
    }

    /// Whether a status check of the backup operation would ask the gateway.
    pub open spec fn backup_status_live(self) -> bool {
        !self.dry_run_mode && self.create_backup_flow.operation_id is Some
            && self.create_backup_flow.config is Some
    }

    /// `next` and `calls` follow from checking the status of each dispatched
    /// operation, restore first: "DONE" at once in a dry run, otherwise a
    /// status call.
    pub open spec fn statuses_checked(self, next: App, calls: Seq<GatewayCall>) -> bool {
        let rf = self.restore_flow;
        let cf = self.create_backup_flow;
        let restore_calls = if self.restore_status_live() {
            seq![GatewayCall::RestoreStatus { project_id: rf.config->0.target_project, operation_id: rf.operation_id->0 }]
        } else {
            Seq::empty()
        };
        let backup_calls = if self.backup_status_live() {
            seq![GatewayCall::BackupStatus { project_id: cf.config->0.project, operation_id: cf.operation_id->0 }]
        } else {
            Seq::empty()
        };
        &&& calls == restore_calls + backup_calls
        &&& next == (App {
            restore_flow: RestoreFlow { status: next.restore_flow.status, ..rf },
            create_backup_flow: CreateBackupFlow { status: next.create_backup_flow.status, ..cf },
            ..self
        })
        &&& if self.dry_run_mode && rf.operation_id is Some && rf.config is Some {
            reads_as(next.restore_flow.status, "DONE"@)
        } else {
            next.restore_flow.status == rf.status
        }
        &&& if self.dry_run_mode && cf.operation_id is Some && cf.config is Some {
            reads_as(next.create_backup_flow.status, "DONE"@)
        } else {
            next.create_backup_flow.status == cf.status
        }
    }

    /// `next` and `calls` follow from a refresh: the current step's list is
    /// fetched again, then the dispatched operations' status is checked.
    pub open spec fn refreshed(self, next: App, calls: Seq<GatewayCall>) -> bool {
        match self.refresh_call() {
            Some(c) => {
                &&& calls.len() >= 1
                &&& calls[0] == c
                &&& (App { loading: true, error: None, ..self }).statuses_checked(next, calls.drop_first())
            },
            None => self.statuses_checked(next, calls),
        }
    }

    /// `k` steps down, one after another.
    pub open spec fn moved_down_times(self, k: nat) -> App
        decreases k,
    {
        if k == 0 {
            self
        } else {
            self.moved_down_times((k - 1) as nat).moved_down()
        }
    }

    /// `k` steps up, one after another.
    pub open spec fn moved_up_times(self, k: nat) -> App
        decreases k,
    {
        if k == 0 {
            self
        } else {
            self.moved_up_times((k - 1) as nat).moved_up()
        }
    }

    pub fn new(dry_run_mode: bool) -> (app: App)
        ensures
            app.is_initial(dry_run_mode),
            app.selected_operation_index == 0,
    {
        App {
            operation_mode: None,
            state: AppState::SelectingOperation,
            dry_run_mode,
            input_mode: InputMode::Normal,
            input_buffer: String::new(),
            authenticated_user: None,
            remembered_projects: Vec::new(),
            remembered_instances: Vec::new(),
            selected_operation_index: 0,
            loading: false,
            show_help: false,
            manual_input_active: false,
            manual_input_buffer: String::new(),
            manual_input_type: None,
            restore_flow: RestoreFlow::new(),
            create_backup_flow: CreateBackupFlow::new(),
            error: None,
        }
    }

    /// A new session whose menu cursor starts on the entry of `mode`.
    pub fn with_initial_mode(dry_run_mode: bool, mode: OperationMode) -> (app: App)
        ensures
            app.is_initial(dry_run_mode),
            menu_mode(app.selected_operation_index) == mode,
            app.cursor_in_bounds(),
    {
        let mut app = App::new(dry_run_mode);
        match mode {
            OperationMode::Restore => {},
            OperationMode::CreateBackup => {
                app.selected_operation_index = 1;
            },
        }
        app
    }

    /// Begins the prerequisite check; the caller makes the returned call and
    /// hands its answer to `receive`.
    pub fn initialize(&mut self) -> (call: GatewayCall)
        ensures
            call == GatewayCall::CheckPrerequisites,
            *final(self) == (App {
                state: AppState::CheckingPrerequisites,
                loading: true,
                error: None,
                ..*old(self)
            }),
    {
        self.state = AppState::CheckingPrerequisites;
        self.loading = true;
        self.error = None;
        GatewayCall::CheckPrerequisites
    }

    /// Projects are always typed in: begins entry of the source project.
    pub fn load_projects(&mut self)
        ensures
            (App { loading: false, ..*old(self) }).input_started(
                ManualInputKind::SourceProject,
                *final(self),
            ),
    {
        self.loading = false;
        self.start_manual_input(ManualInputKind::SourceProject);
    }

    /// Begins fetching the instances of `project_id`.
    pub fn load_instances(&mut self, project_id: &String) -> (call: GatewayCall)
        ensures
            call == (GatewayCall::ListInstances { project_id: *project_id }),
            *final(self) == (App { loading: true, error: None, ..*old(self) }),
    {
        self.loading = true;
        self.error = None;
        GatewayCall::ListInstances { project_id: project_id.clone() }
    }

    /// Begins fetching the backups of `instance_id` in `project_id`.
    pub fn load_backups(&mut self, project_id: &String, instance_id: &String) -> (call: GatewayCall)
        ensures
            call == (GatewayCall::ListBackups {
                project_id: *project_id,
                instance_id: *instance_id,
            }),
            *final(self) == (App { loading: true, error: None, ..*old(self) }),
    {
        self.loading = true;
        self.error = None;
        GatewayCall::ListBackups { project_id: project_id.clone(), instance_id: instance_id.clone() }
    }

    /// Dispatches the built restore configuration, if there is one.
    pub fn perform_restore(&mut self) -> (call: Option<GatewayCall>)
        ensures
            old(self).restore_dispatched(*final(self), call),
    {
        let (request, target_project, target_instance) = match &self.restore_flow.config {
            None => {
                return None;
            },
            Some(config) => (
                RestoreRequest::for_config(config),
                config.target_project.clone(),
                config.target_instance.clone(),
            ),
        };
        self.loading = true;
        self.state = AppState::PerformingRestore;
        if self.dry_run_mode {
            let stamp = unix_time_text();
            self.restore_flow.operation_id = Some(prefixed("dry-run-operation-", stamp.as_str()));
            self.restore_flow.status = Some(String::from_str("DONE"));
            self.loading = false;
            self.state = AppState::SelectingTargetInstance;
            proof {
                let id = self.restore_flow.operation_id->0;
                assert(id@.subrange(0, "dry-run-operation-"@.len() as int) =~= "dry-run-operation-"@);
            }
            None
        } else {
            Some(GatewayCall::RestoreBackup { request, target_project, target_instance })
        }
    }

    /// Dispatches the built backup configuration, if there is one.
    pub fn perform_create_backup(&mut self) -> (call: Option<GatewayCall>)
        ensures
            old(self).backup_dispatched(*final(self), call),
    {
        let config = match &self.create_backup_flow.config {
            None => {
                return None;
            },
            Some(c) => CreateBackupConfig {
                project: c.project.clone(),
                instance: c.instance.clone(),
                name: c.name.clone(),
                description: c.description.clone(),
            },
        };
        self.loading = true;
        self.state = AppState::PerformingCreateBackup;
        if self.dry_run_mode {
            let stamp = unix_time_text();
            self.create_backup_flow.operation_id = Some(prefixed("dry-run-backup-op-", stamp.as_str()));
            self.create_backup_flow.status = Some(String::from_str("DONE"));
            self.loading = false;
            self.state = AppState::PerformingCreateBackup;
            proof {
                let id = self.create_backup_flow.operation_id->0;
                assert(id@.subrange(0, "dry-run-backup-op-"@.len() as int) =~= "dry-run-backup-op-"@);
            }
            None
        } else {
            Some(GatewayCall::CreateBackup { config })
        }
    }

    /// Asks for the status of the dispatched restore operation.
    pub fn check_restore_status(&mut self) -> (call: Option<GatewayCall>)
        ensures
            old(self).restore_status_checked(*final(self), call),
    {
        let (project_id, operation_id) = match (&self.restore_flow.operation_id, &self.restore_flow.config) {
            (Some(op), Some(config)) => (config.target_project.clone(), op.clone()),
            _ => {
                return None;
            },
        };
        if self.dry_run_mode {
            self.restore_flow.status = Some(String::from_str("DONE"));
            return None;
        }
        Some(GatewayCall::RestoreStatus { project_id, operation_id })
    }

    /// Asks for the status of the dispatched backup operation.
    pub fn check_backup_status(&mut self) -> (call: Option<GatewayCall>)
        ensures
            old(self).backup_status_checked(*final(self), call),
    {
        let (project_id, operation_id) = match (&self.create_backup_flow.operation_id, &self.create_backup_flow.config) {
            (Some(op), Some(config)) => (config.project.clone(), op.clone()),
            _ => {
                return None;
            },
        };
        if self.dry_run_mode {
            self.create_backup_flow.status = Some(String::from_str("DONE"));
            return None;
        }
        Some(GatewayCall::BackupStatus { project_id, operation_id })
    }

    /// Applies the gateway's answer to the call that was made last.
    pub fn receive(&mut self, reply: GatewayReply)
        ensures
            old(self).reply_applied(reply, *final(self)),
    {
        match reply {
            GatewayReply::CheckPrerequisites(Ok(user)) => {
                self.authenticated_user = Some(user);
                self.loading = false;
                self.state = AppState::SelectingOperation;
            },
            GatewayReply::CheckPrerequisites(Err(e)) => {
                self.loading = false;
                self.state = AppState::Error(e);
            },
            GatewayReply::ListInstances(Ok(list)) => {
                match self.operation_mode {
                    Some(OperationMode::Restore) => {
                        self.restore_flow.instances = list;
                        self.restore_flow.selected_instance_index = 0;
                    },
                    Some(OperationMode::CreateBackup) => {
                        self.create_backup_flow.instances = list;
                        self.create_backup_flow.selected_instance_index = 0;
                    },
                    None => {},
                }
                self.loading = false;
            },
            GatewayReply::ListInstances(Err(e)) => {
                self.loading = false;
                self.error = Some(framed("Failed to load instances: ", e.as_str(), ". Press ESC to clear."));
            },
            GatewayReply::ListBackups(Ok(list)) => {
                self.restore_flow.backups = list;
                self.restore_flow.selected_backup_index = 0;
                self.loading = false;
            },
            GatewayReply::ListBackups(Err(e)) => {
                self.loading = false;
                self.error = Some(framed("Failed to load backups: ", e.as_str(), ". Press ESC to clear."));
            },
            GatewayReply::RestoreStatus(Ok(op)) => {
                self.restore_flow.status = Some(op.status);
            },
            GatewayReply::RestoreStatus(Err(e)) => {
                self.error = Some(prefixed("Failed to check restore status: ", e.as_str()));
            },
            GatewayReply::BackupStatus(Ok(op)) => {
                self.create_backup_flow.status = Some(op.status);
            },
            GatewayReply::BackupStatus(Err(e)) => {
                self.error = Some(prefixed("Failed to check backup status: ", e.as_str()));
            },
            GatewayReply::RestoreBackup(Ok(id)) => {
                self.restore_flow.operation_id = Some(id);
                self.restore_flow.status = Some(String::from_str("RUNNING"));
                self.loading = false;
                self.state = AppState::SelectingTargetInstance;
            },
            GatewayReply::RestoreBackup(Err(e)) => {
                self.loading = false;
                self.error = Some(framed("Restore failed: ", e.as_str(), ". Press ESC to clear."));
                self.state = AppState::ConfirmRestore;
            },
            GatewayReply::CreateBackup(Ok(id)) => {
                self.create_backup_flow.operation_id = Some(id);
                self.create_backup_flow.status = Some(String::from_str("RUNNING"));
                self.loading = false;
                self.state = AppState::PerformingCreateBackup;
            },
            GatewayReply::CreateBackup(Err(e)) => {
                self.loading = false;
                self.error = Some(framed("Create backup failed: ", e.as_str(), ". Press ESC to clear."));
                self.state = AppState::ConfirmCreateBackup;
            },
        }
    }

    /// Builds the restore configuration when all five parts are known.
    pub fn create_restore_config(&mut self)
        ensures
            *final(self) == old(self).with_restore_config(),
    {
        let f = &self.restore_flow;
        let config = match (&f.selected_backup, &f.source_project, &f.source_instance, &f.target_project, &f.target_instance) {
            (Some(b), Some(sp), Some(si), Some(tp), Some(ti)) => RestoreConfig {
                backup_id: b.clone(),
                source_project: sp.clone(),
                source_instance: si.clone(),
                target_project: tp.clone(),
                target_instance: ti.clone(),
            },
            _ => {
                return;
            },
        };
        self.restore_flow.config = Some(config);
    }

    /// Builds the backup configuration when project and instance are known.
    pub fn create_backup_config(&mut self, backup_name: String)
        ensures
            old(self).backup_config_built(backup_name@, *final(self)),
    {
        let config = match (&self.create_backup_flow.project, &self.create_backup_flow.instance) {
            (Some(p), Some(i)) => CreateBackupConfig {
                project: p.clone(),
                instance: i.clone(),
                name: backup_name.clone(),
                description: backup_name,
            },
            _ => {
                return;
            },
        };
        self.create_backup_flow.config = Some(config);
    }

    pub fn toggle_help(&mut self)
        ensures
            *final(self) == (App { show_help: !old(self).show_help, ..*old(self) }),
    {
        self.show_help = !self.show_help;
    }

    /// Begins free-text entry of `kind` on an empty buffer.
    pub fn start_manual_input(&mut self, kind: ManualInputKind)
        ensures
            old(self).input_started(kind, *final(self)),
    {
        self.manual_input_active = true;
        self.manual_input_type = Some(kind);
        self.manual_input_buffer = String::new();
        self.input_mode = InputMode::Editing;
    }

    /// Ends free-text entry without committing the buffer, which is emptied.
    pub fn cancel_manual_input(&mut self)
        ensures
            old(self).input_cancelled(*final(self)),
    {
        self.manual_input_active = false;
        self.manual_input_buffer = String::new();
        self.input_mode = InputMode::Normal;
    }

    /// Confirms the highlighted item, or the current step; see `item_selected`.
    pub fn select_current_item(&mut self) -> (call: Option<GatewayCall>)
        ensures
            old(self).item_selected(*final(self), call),
    {
        match self.state {
            AppState::SelectingOperation => {
                let mode = if self.selected_operation_index == 0 {
                    OperationMode::Restore
                } else {
                    OperationMode::CreateBackup
                };
                self.operation_mode = Some(mode);
                match mode {
                    OperationMode::Restore => self.state = AppState::SelectingSourceProject,
                    OperationMode::CreateBackup => self.state = AppState::SelectingProjectForBackup,
                }
                self.load_projects();
                None
            },
            AppState::SelectingSourceProject | AppState::SelectingProjectForBackup => {
                self.start_manual_input(ManualInputKind::SourceProject);
                None
            },
            AppState::SelectingSourceInstance => {
                let i = self.restore_flow.selected_instance_index;
                if i >= self.restore_flow.instances.len() {
                    return None;
                }
                let name = self.restore_flow.instances[i].name.clone();
                self.restore_flow.source_instance = Some(name.clone());
                let project = match &self.restore_flow.source_project {
                    Some(p) => p.clone(),
                    None => {
                        return None;
                    },
                };
                self.state = AppState::SelectingBackup;
                Some(self.load_backups(&project, &name))
            },
            AppState::SelectingInstanceForBackup => {
                let i = self.create_backup_flow.selected_instance_index;
                if i >= self.create_backup_flow.instances.len() {
                    return None;
                }
                let name = self.create_backup_flow.instances[i].name.clone();
                self.create_backup_flow.instance = Some(name);
                self.state = AppState::EnteringBackupName;
                self.start_manual_input(ManualInputKind::BackupName);
                None
            },
            AppState::SelectingBackup => {
                let i = self.restore_flow.selected_backup_index;
                if i >= self.restore_flow.backups.len() {
                    return None;
                }
                let id = self.restore_flow.backups[i].id.clone();
                self.restore_flow.selected_backup = Some(id);
                self.state = AppState::SelectingTargetProject;
                None
            },
            AppState::SelectingTargetProject => {
                self.start_manual_input(ManualInputKind::TargetProject);
                None
            },
            AppState::SelectingTargetInstance => {
                let i = self.restore_flow.selected_instance_index;
                if i >= self.restore_flow.instances.len() {
                    return None;
                }
                let name = self.restore_flow.instances[i].name.clone();
                self.restore_flow.target_instance = Some(name);
                self.create_restore_config();
                self.state = AppState::ConfirmRestore;
                None
            },
            AppState::ConfirmCreateBackup => self.perform_create_backup(),
            _ => None,
        }
    }

    /// Commits the typed text `value`; see `input_committed`.
    pub fn commit_manual_input(&mut self, value: String) -> (call: Option<GatewayCall>)
        ensures
            old(self).input_committed(value@, *final(self), call),
    {
        if value.as_str().unicode_len() == 0 {
            self.manual_input_active = false;
            self.input_mode = InputMode::Normal;
            return None;
        }
        match self.manual_input_type {
            Some(ManualInputKind::SourceProject) => {
                remember(&mut self.remembered_projects, &value);
                self.manual_input_active = false;
                self.input_mode = InputMode::Normal;
                match self.operation_mode {
                    Some(OperationMode::Restore) => {
                        self.restore_flow.source_project = Some(value.clone());
                        self.state = AppState::SelectingSourceInstance;
                    },
                    Some(OperationMode::CreateBackup) => {
                        self.create_backup_flow.project = Some(value.clone());
                        self.state = AppState::SelectingInstanceForBackup;
                    },
                    None => {},
                }
                Some(self.load_instances(&value))
            },
            Some(ManualInputKind::TargetProject) => {
                remember(&mut self.remembered_projects, &value);
                self.restore_flow.target_project = Some(value.clone());
                self.manual_input_active = false;
                self.input_mode = InputMode::Normal;
                self.state = AppState::SelectingTargetInstance;
                Some(self.load_instances(&value))
            },
            Some(ManualInputKind::Instance) => {
                remember(&mut self.remembered_instances, &value);
                let instance = SqlInstance {
                    name: value,
                    database_version: String::from_str("Manual"),
                    region: String::from_str("Manual"),
                    tier: String::from_str("Manual"),
                };
                match self.operation_mode {
                    Some(OperationMode::Restore) => {
                        self.restore_flow.instances.push(instance);
                        assert(self.restore_flow.instances@.drop_last() =~= old(self).restore_flow.instances@);
                        self.restore_flow.selected_instance_index = self.restore_flow.instances.len() - 1;
                    },
                    Some(OperationMode::CreateBackup) => {
                        self.create_backup_flow.instances.push(instance);
                        assert(self.create_backup_flow.instances@.drop_last() =~= old(self).create_backup_flow.instances@);
                        self.create_backup_flow.selected_instance_index = self.create_backup_flow.instances.len() - 1;
                    },
                    None => {},
                }
                None
            },
            Some(ManualInputKind::Backup) => {
                let backup = Backup {
                    id: value,
                    start_time: None,
                    backup_type: String::from_str("Manual"),
                    status: String::from_str("Manual"),
                };
                self.restore_flow.backups.push(backup);
                assert(self.restore_flow.backups@.drop_last() =~= old(self).restore_flow.backups@);
                self.restore_flow.selected_backup_index = self.restore_flow.backups.len() - 1;
                None
            },
            Some(ManualInputKind::BackupName) => {
                self.manual_input_active = false;
                self.input_mode = InputMode::Normal;
                self.create_backup_config(value);
                self.state = AppState::ConfirmCreateBackup;
                None
            },
            None => None,
        }
    }

    /// Commits the typed text, trimmed of surrounding white space.
    pub fn finish_manual_input(&mut self) -> (call: Option<GatewayCall>)
        ensures
            old(self).input_committed(trimmed(old(self).manual_input_buffer@), *final(self), call),
    {
        let value = trim_text(&self.manual_input_buffer);
        self.commit_manual_input(value)
    }

    /// Steps back; see `gone_back`.
    pub fn go_back(&mut self)
        ensures
            old(self).gone_back(*final(self)),
    {
        match self.state {
            AppState::ConfirmRestore => {
                self.restore_flow.target_instance = None;
                self.restore_flow.selected_instance_index = 0;
                self.state = AppState::SelectingTargetInstance;
            },
            AppState::ConfirmCreateBackup => {
                self.create_backup_flow.config = None;
                self.state = AppState::EnteringBackupName;
            },
            AppState::SelectingSourceInstance => {
                self.restore_flow.source_project = None;
                self.restore_flow.instances.clear();
                self.restore_flow.selected_instance_index = 0;
                self.state = AppState::SelectingSourceProject;
            },
            AppState::SelectingBackup => {
                self.restore_flow.source_instance = None;
                self.restore_flow.backups.clear();
                self.restore_flow.selected_backup_index = 0;
                self.state = AppState::SelectingSourceInstance;
            },
            AppState::SelectingTargetProject => {
                self.restore_flow.selected_backup = None;
                self.state = AppState::SelectingBackup;
            },
            AppState::SelectingTargetInstance => {
                self.restore_flow.target_project = None;
                self.restore_flow.instances.clear();
                self.restore_flow.selected_instance_index = 0;
                self.state = AppState::SelectingTargetProject;
            },
            AppState::PerformingRestore => {
                self.state = AppState::SelectingTargetInstance;
            },
            AppState::SelectingInstanceForBackup => {
                self.create_backup_flow.project = None;
                self.create_backup_flow.instances.clear();
                self.create_backup_flow.selected_instance_index = 0;
                self.state = AppState::SelectingProjectForBackup;
            },
            AppState::EnteringBackupName => {
                self.create_backup_flow.instance = None;
                self.state = AppState::SelectingInstanceForBackup;
            },
            AppState::PerformingCreateBackup => {
                self.state = AppState::ConfirmCreateBackup;
            },
            _ => {
                self.state = AppState::SelectingOperation;
            },
        }
    }

    /// Drops both workflows and returns to the operation menu.
    pub fn start_new_session(&mut self)
        ensures
            *final(self) == (App {
                state: AppState::SelectingOperation,
                operation_mode: None,
                restore_flow: final(self).restore_flow,
                create_backup_flow: final(self).create_backup_flow,
                ..*old(self)
            }),
            final(self).restore_flow.is_empty(),
            final(self).create_backup_flow.is_empty(),
    {
        self.state = AppState::SelectingOperation;
        self.operation_mode = None;
        self.restore_flow = RestoreFlow::new();
        self.create_backup_flow = CreateBackupFlow::new();
    }

    /// Asks again for the list of the current step, if it has one.
    fn refetch(&mut self) -> (call: Option<GatewayCall>)
        ensures
            call == old(self).refresh_call(),
            call is Some ==> *final(self) == (App { loading: true, error: None, ..*old(self) }),
            call is None ==> *final(self) == *old(self),
    {
        match self.state {
            AppState::SelectingSourceInstance | AppState::SelectingTargetInstance => {
                match &self.restore_flow.source_project {
                    Some(p) => {
                        let p = p.clone();
                        Some(self.load_instances(&p))
                    },
                    None => None,
                }
            },
            AppState::SelectingInstanceForBackup => {
                match &self.create_backup_flow.project {
                    Some(p) => {
                        let p = p.clone();
                        Some(self.load_instances(&p))
                    },
                    None => None,
                }
            },
            AppState::SelectingBackup => {
                match (&self.restore_flow.source_project, &self.restore_flow.source_instance) {
                    (Some(p), Some(i)) => {
                        let (p, i) = (p.clone(), i.clone());
                        Some(self.load_backups(&p, &i))
                    },
                    _ => None,
                }
            },
            _ => None,
        }
    }

    /// Checks the status of each dispatched operation; see `statuses_checked`.
    fn check_statuses(&mut self) -> (calls: Vec<GatewayCall>)
        ensures
            old(self).statuses_checked(*final(self), calls@),
    {
        let mut calls: Vec<GatewayCall> = Vec::new();
        if self.restore_flow.operation_id.is_some() {
            if let Some(c) = self.check_restore_status() {
                calls.push(c);
            }
        }
        let ghost restore_calls = calls@;
        if self.create_backup_flow.operation_id.is_some() {
            if let Some(c) = self.check_backup_status() {
                calls.push(c);
                assert(calls@ =~= restore_calls + seq![c]);
            }
        }
        proof {
            if !old(self).backup_status_live() {
                assert(calls@ =~= restore_calls + Seq::<GatewayCall>::empty());
            }
        }
        calls
    }

    /// Fetches the current step's list again and checks the status of each
    /// dispatched operation; the caller makes the returned calls in order.
    pub fn refresh(&mut self) -> (calls: Vec<GatewayCall>)
        ensures
            old(self).refreshed(*final(self), calls@),
    {
        match self.refetch() {
            Some(c) => {
                let mut rest = self.check_statuses();
                let ghost checked = rest@;
                let mut calls: Vec<GatewayCall> = Vec::new();
                calls.push(c);
                calls.append(&mut rest);
                assert(calls@.drop_first() =~= checked);
                calls
            },
            None => self.check_statuses(),
        }
    }

    pub fn move_selection_up(&mut self)
        ensures
            *final(self) == old(self).moved_up(),
    {
        match self.state {
            AppState::SelectingOperation => {
                if self.selected_operation_index > 0 {
                    self.selected_operation_index -= 1;
                }
            },
            AppState::SelectingSourceInstance | AppState::SelectingTargetInstance => {
                if self.restore_flow.selected_instance_index > 0 {
                    self.restore_flow.selected_instance_index -= 1;
                }
            },
            AppState::SelectingInstanceForBackup => {
                if self.create_backup_flow.selected_instance_index > 0 {
                    self.create_backup_flow.selected_instance_index -= 1;
                }
            },
            AppState::SelectingBackup => {
                if self.restore_flow.selected_backup_index > 0 {
                    self.restore_flow.selected_backup_index -= 1;
                }
            },
            _ => {},
        }
    }

    pub fn move_selection_down(&mut self)
        ensures
            *final(self) == old(self).moved_down(),
    {
        match self.state {
            AppState::SelectingOperation => {
                if self.selected_operation_index < 1 {
                    self.selected_operation_index += 1;
                }
            },
            AppState::SelectingSourceInstance | AppState::SelectingTargetInstance => {
                let len = self.restore_flow.instances.len();
                if len > 0 && self.restore_flow.selected_instance_index < len - 1 {
                    self.restore_flow.selected_instance_index += 1;
                }
            },
            AppState::SelectingInstanceForBackup => {
                let len = self.create_backup_flow.instances.len();
                if len > 0 && self.create_backup_flow.selected_instance_index < len - 1 {
                    self.create_backup_flow.selected_instance_index += 1;
                }
            },
            AppState::SelectingBackup => {
                let len = self.restore_flow.backups.len();
                if len > 0 && self.restore_flow.selected_backup_index < len - 1 {
                    self.restore_flow.selected_backup_index += 1;
                }
            },
            _ => {},
        }
    }
}

proof fn lemma_with_cursor(app: App, x: int, y: int)
    requires
        0 <= x <= usize::MAX,
        0 <= y <= usize::MAX,
    ensures
        app.with_cursor(x).state == app.state,
        app.with_cursor(x).has_cursor() == app.has_cursor(),
        app.with_cursor(x).cursor_top() == app.cursor_top(),
        app.has_cursor() ==> app.with_cursor(x).cursor() == x,
        app.with_cursor(x).with_cursor(y) == app.with_cursor(y),
        app.with_cursor(app.cursor()) == app,
{
}

proof fn lemma_moved_down_times(app: App, k: nat)
    requires
        app.cursor_in_bounds(),
        app.cursor_top() <= usize::MAX,
    ensures
        app.moved_down_times(k) == app.with_cursor(
            if app.cursor() + k <= app.cursor_top() { app.cursor() + k } else { app.cursor_top() },
        ),
    decreases k,
{
    lemma_with_cursor(app, app.cursor(), app.cursor());
    if k > 0 {
        let j = (k - 1) as nat;
        lemma_moved_down_times(app, j);
        let c = if app.cursor() + j <= app.cursor_top() { app.cursor() + j } else { app.cursor_top() };
        let c2 = if app.cursor() + k <= app.cursor_top() { app.cursor() + k } else { app.cursor_top() };
        lemma_with_cursor(app, c, c2);
        lemma_with_cursor(app, c, c);
    }
}

proof fn lemma_moved_up_times(app: App, k: nat)
    requires
        app.cursor_in_bounds(),
        app.cursor_top() <= usize::MAX,
    ensures
        app.moved_up_times(k) == app.with_cursor(
            if app.cursor() - k >= 0 { app.cursor() - k } else { 0 },
        ),
    decreases k,
{
    lemma_with_cursor(app, app.cursor(), app.cursor());
    if k > 0 {
        let j = (k - 1) as nat;
        lemma_moved_up_times(app, j);
        let c = if app.cursor() - j >= 0 { app.cursor() - j } else { 0 };
        let c2 = if app.cursor() - k >= 0 { app.cursor() - k } else { 0 };
        lemma_with_cursor(app, c, c2);
        lemma_with_cursor(app, c, c);
    }
}

/// Moving the cursor down `k` times and then up `k` times leaves it at
/// `max(min(c + k, top) - k, 0)`, where `c` is where it started and `top` the
/// last index of the list: back at `c` whenever the moves down did not reach
/// the end of the list. The cursor never leaves the list, and nothing but the
/// cursor changes.
pub proof fn lemma_down_then_up_round_trip(app: App, k: nat)
    requires
        app.cursor_in_bounds(),
    ensures
        ({
            let down = app.moved_down_times(k);
            let back = down.moved_up_times(k);
            let low = if app.cursor() + k <= app.cursor_top() {
                app.cursor() + k
            } else {
                app.cursor_top()
            };
            &&& down.cursor_in_bounds()
            &&& back.cursor_in_bounds()
            &&& down == app.with_cursor(low)
            &&& back == app.with_cursor(if low - k >= 0 { low - k } else { 0 })
            &&& app.cursor() + k <= app.cursor_top() ==> back == app
        }),
{
    assert(app.restore_flow.instances.len() == app.restore_flow.instances@.len());
    assert(app.restore_flow.backups.len() == app.restore_flow.backups@.len());
    assert(app.create_backup_flow.instances.len() == app.create_backup_flow.instances@.len());
    lemma_moved_down_times(app, k);
    let low = if app.cursor() + k <= app.cursor_top() { app.cursor() + k } else { app.cursor_top() };
    let down = app.moved_down_times(k);
    lemma_with_cursor(app, low, low);
    lemma_with_cursor(app, app.cursor(), app.cursor());
    lemma_moved_up_times(down, k);
    let end = if low - k >= 0 { low - k } else { 0 };
    lemma_with_cursor(app, low, end);
    lemma_with_cursor(app, end, end);
    if !app.has_cursor() {
        assert(down == app);
    }
}

/// Building the restore configuration on a flow that has none yields one
/// exactly when all five parts are known, and then it holds those parts; with
/// any part missing there is still none.
pub proof fn lemma_restore_config_all_or_nothing(app: App)
    requires
        app.restore_flow.config is None,
    ensures
        ({
            let f = app.restore_flow;
            let built = app.with_restore_config().restore_flow.config;
            &&& built is Some <==> (f.selected_backup is Some && f.source_project is Some
                && f.source_instance is Some && f.target_project is Some
                && f.target_instance is Some)
            &&& built matches Some(c) ==> Some(c.backup_id) == f.selected_backup && Some(
                c.source_project,
            ) == f.source_project && Some(c.source_instance) == f.source_instance && Some(
                c.target_project,
            ) == f.target_project && Some(c.target_instance) == f.target_instance
        }),
{
}

/// In a dry run, dispatching a restore or a backup and checking either
/// operation's status make no gateway call and leave the status "DONE".
pub proof fn lemma_dry_run_is_done_without_gateway(
    app: App,
    next: App,
    call: Option<GatewayCall>,
)
    requires
        app.dry_run_mode,
    ensures
        app.restore_flow.config is Some && app.restore_dispatched(next, call) ==> call is None
            && reads_as(next.restore_flow.status, "DONE"@),
        app.create_backup_flow.config is Some && app.backup_dispatched(next, call) ==> call is None
            && reads_as(next.create_backup_flow.status, "DONE"@),
        app.restore_flow.operation_id is Some && app.restore_flow.config is Some
            && app.restore_status_checked(next, call) ==> call is None && reads_as(
            next.restore_flow.status,
            "DONE"@,
        ),
        app.create_backup_flow.operation_id is Some && app.create_backup_flow.config is Some
            && app.backup_status_checked(next, call) ==> call is None && reads_as(
            next.create_backup_flow.status,
            "DONE"@,
        ),
{
}

/// A live restore whose dispatch the gateway refuses with `message` leaves the
/// operation id as it was before the dispatch (unset, if it was), returns to
/// the restore confirmation and shows the message.
pub proof fn lemma_failed_restore_dispatch_rolls_back(
    app: App,
    pending: App,
    call: Option<GatewayCall>,
    message: String,
    next: App,
)
    requires
        !app.dry_run_mode,
        app.restore_flow.config is Some,
        app.restore_dispatched(pending, call),
        pending.reply_applied(GatewayReply::RestoreBackup(Err(message)), next),
    ensures
        call is Some,
        next.restore_flow == app.restore_flow,
        next.restore_flow.operation_id == app.restore_flow.operation_id,
        next.state == AppState::ConfirmRestore,
        !next.loading,
        reads_as(next.error, "Restore failed: "@ + message@ + ". Press ESC to clear."@),
{
}

/// A live backup creation whose dispatch the gateway refuses with `message`
/// leaves the operation id as it was before the dispatch (unset, if it was),
/// returns to the backup confirmation and shows the message.
pub proof fn lemma_failed_backup_dispatch_rolls_back(
    app: App,
    pending: App,
    call: Option<GatewayCall>,
    message: String,
    next: App,
)
    requires
        !app.dry_run_mode,
        app.create_backup_flow.config is Some,
        app.backup_dispatched(pending, call),
        pending.reply_applied(GatewayReply::CreateBackup(Err(message)), next),
    ensures
        call is Some,
        next.create_backup_flow == app.create_backup_flow,
        next.create_backup_flow.operation_id == app.create_backup_flow.operation_id,
        next.state == AppState::ConfirmCreateBackup,
        !next.loading,
        reads_as(next.error, "Create backup failed: "@ + message@ + ". Press ESC to clear."@),
{
}

} // verus!
