use gcp_snap_crab::app::App;
use gcp_snap_crab::gateway::{GatewayCall, GatewayReply};
use gcp_snap_crab::input::{handle_edit_input, handle_normal_input, Key};
use gcp_snap_crab::types::{
    AppState, Backup, CreateBackupConfig, InputMode, ManualInputKind, Operation, OperationMode,
    RestoreBackupContext, RestoreConfig, RestoreRequest, SqlInstance,
};

fn instance(name: &str) -> SqlInstance {
    SqlInstance {
        name: name.to_string(),
        database_version: "POSTGRES_15".to_string(),
        region: "europe-west1".to_string(),
        tier: "db-f1-micro".to_string(),
    }
}

fn backup(id: &str) -> Backup {
    Backup {
        id: id.to_string(),
        start_time: None,
        backup_type: "AUTOMATED".to_string(),
        status: "SUCCESSFUL".to_string(),
    }
}

fn operation(status: &str) -> Operation {
    Operation {
        id: "op-1".to_string(),
        operation_type: "RESTORE_VOLUME".to_string(),
        status: status.to_string(),
        target_id: "db-b".to_string(),
        start_time: None,
        end_time: None,
        error_message: None,
    }
}

/// An app waiting for the restore to be confirmed.
fn confirming_restore(dry_run: bool) -> App {
    let mut app = App::new(dry_run);
    app.operation_mode = Some(OperationMode::Restore);
    app.restore_flow.source_project = Some("proj-a".to_string());
    app.restore_flow.source_instance = Some("db-a".to_string());
    app.restore_flow.selected_backup = Some("1700".to_string());
    app.restore_flow.target_project = Some("proj-b".to_string());
    app.restore_flow.instances = vec![instance("db-b")];
    app.state = AppState::SelectingTargetInstance;
    app.select_current_item();
    assert_eq!(app.state, AppState::ConfirmRestore);
    app
}

/// An app waiting for the backup creation to be confirmed.
fn confirming_backup(dry_run: bool) -> App {
    let mut app = App::new(dry_run);
    app.operation_mode = Some(OperationMode::CreateBackup);
    app.create_backup_flow.project = Some("proj-a".to_string());
    app.create_backup_flow.instances = vec![instance("db-a")];
    app.state = AppState::SelectingInstanceForBackup;
    app.select_current_item();
    assert_eq!(app.state, AppState::EnteringBackupName);
    assert_eq!(app.manual_input_type, Some(ManualInputKind::BackupName));
    app.manual_input_buffer = "nightly".to_string();
    app.finish_manual_input();
    assert_eq!(app.state, AppState::ConfirmCreateBackup);
    app
}

#[test]
fn menu_cursor_zero_starts_restore() {
    let mut app = App::new(false);
    assert_eq!(app.select_current_item(), None);
    assert_eq!(app.operation_mode, Some(OperationMode::Restore));
    assert_eq!(app.state, AppState::SelectingSourceProject);
    assert!(app.manual_input_active);
    assert_eq!(app.manual_input_type, Some(ManualInputKind::SourceProject));
}

#[test]
fn manual_project_fetches_instances() {
    let mut app = App::new(false);
    app.select_current_item();
    for c in "proj-1".chars() {
        handle_edit_input(&mut app, Key::Char(c));
    }
    let call = handle_edit_input(&mut app, Key::Enter);
    assert_eq!(call, Some(GatewayCall::ListInstances { project_id: "proj-1".to_string() }));
    assert_eq!(app.restore_flow.source_project, Some("proj-1".to_string()));
    assert_eq!(app.state, AppState::SelectingSourceInstance);
    assert!(app.loading);
    app.receive(GatewayReply::ListInstances(Ok(vec![instance("a"), instance("b")])));
    assert_eq!(app.restore_flow.instances, vec![instance("a"), instance("b")]);
    assert_eq!(app.restore_flow.selected_instance_index, 0);
    assert!(!app.loading);
    assert_eq!(app.remembered_projects, vec!["proj-1".to_string()]);
}

#[test]
fn cursor_clamps_at_both_ends() {
    let mut app = App::new(false);
    app.state = AppState::SelectingSourceInstance;
    app.restore_flow.instances = vec![instance("A"), instance("B"), instance("C")];
    app.restore_flow.selected_instance_index = 1;
    let mut seen = vec![app.restore_flow.selected_instance_index];
    for key in [Key::Down, Key::Down, Key::Up, Key::Up, Key::Up] {
        handle_normal_input(&mut app, key);
        seen.push(app.restore_flow.selected_instance_index);
    }
    assert_eq!(seen, vec![1, 2, 2, 1, 0, 0]);
    assert_eq!(app.state, AppState::SelectingSourceInstance);
}

#[test]
fn down_then_up_restores_cursor() {
    let mut app = App::new(false);
    app.state = AppState::SelectingBackup;
    app.restore_flow.backups = vec![backup("1"), backup("2"), backup("3"), backup("4")];
    app.restore_flow.selected_backup_index = 1;
    app.move_selection_down();
    app.move_selection_down();
    app.move_selection_up();
    app.move_selection_up();
    assert_eq!(app.restore_flow.selected_backup_index, 1);
}

#[test]
fn moves_on_an_empty_list_do_nothing() {
    let mut app = App::new(false);
    app.state = AppState::SelectingTargetInstance;
    app.move_selection_down();
    assert_eq!(app.restore_flow.selected_instance_index, 0);
    app.move_selection_up();
    assert_eq!(app.restore_flow.selected_instance_index, 0);
}

#[test]
fn menu_cursor_has_two_entries() {
    let mut app = App::new(false);
    app.move_selection_down();
    app.move_selection_down();
    assert_eq!(app.selected_operation_index, 1);
    app.select_current_item();
    assert_eq!(app.operation_mode, Some(OperationMode::CreateBackup));
}

#[test]
fn initial_mode_preselects_menu_entry() {
    let app = App::with_initial_mode(true, OperationMode::CreateBackup);
    assert_eq!(app.selected_operation_index, 1);
    assert!(app.dry_run_mode);
    let app = App::with_initial_mode(false, OperationMode::Restore);
    assert_eq!(app.selected_operation_index, 0);
}

#[test]
fn empty_backup_list_is_not_an_error() {
    let mut app = App::new(false);
    app.operation_mode = Some(OperationMode::Restore);
    app.restore_flow.source_project = Some("proj-a".to_string());
    app.restore_flow.instances = vec![instance("db-a")];
    app.state = AppState::SelectingSourceInstance;
    let call = app.select_current_item();
    assert_eq!(
        call,
        Some(GatewayCall::ListBackups {
            project_id: "proj-a".to_string(),
            instance_id: "db-a".to_string()
        })
    );
    assert_eq!(app.state, AppState::SelectingBackup);
    app.receive(GatewayReply::ListBackups(Ok(vec![])));
    assert!(app.restore_flow.backups.is_empty());
    assert_eq!(app.error, None);
    assert!(!app.loading);
    assert_eq!(app.state, AppState::SelectingBackup);
    // Nothing to select: confirming changes nothing.
    assert_eq!(app.select_current_item(), None);
    assert_eq!(app.state, AppState::SelectingBackup);
}

#[test]
fn failed_live_restore_returns_to_confirmation() {
    let mut app = confirming_restore(false);
    let call = app.perform_restore();
    assert_eq!(
        call,
        Some(GatewayCall::RestoreBackup {
            request: RestoreRequest {
                restore_backup_context: RestoreBackupContext {
                    backup_run_id: "1700".to_string(),
                    project: "proj-a".to_string(),
                    instance_id: "db-a".to_string(),
                },
            },
            target_project: "proj-b".to_string(),
            target_instance: "db-b".to_string(),
        })
    );
    assert_eq!(app.state, AppState::PerformingRestore);
    app.receive(GatewayReply::RestoreBackup(Err("quota exceeded".to_string())));
    assert!(app.error.as_ref().unwrap().contains("quota exceeded"));
    assert_eq!(
        app.error,
        Some("Restore failed: quota exceeded. Press ESC to clear.".to_string())
    );
    assert_eq!(app.state, AppState::ConfirmRestore);
    assert_eq!(app.restore_flow.operation_id, None);
    assert!(!app.loading);
}

#[test]
fn failed_live_backup_returns_to_confirmation() {
    let mut app = confirming_backup(false);
    let call = app.select_current_item();
    assert_eq!(
        call,
        Some(GatewayCall::CreateBackup {
            config: CreateBackupConfig {
                project: "proj-a".to_string(),
                instance: "db-a".to_string(),
                name: "nightly".to_string(),
                description: "nightly".to_string(),
            },
        })
    );
    app.receive(GatewayReply::CreateBackup(Err("denied".to_string())));
    assert_eq!(app.state, AppState::ConfirmCreateBackup);
    assert_eq!(app.create_backup_flow.operation_id, None);
    assert_eq!(
        app.error,
        Some("Create backup failed: denied. Press ESC to clear.".to_string())
    );
}

#[test]
fn live_restore_runs_then_reports_status() {
    let mut app = confirming_restore(false);
    app.perform_restore();
    app.receive(GatewayReply::RestoreBackup(Ok("op-1".to_string())));
    assert_eq!(app.restore_flow.operation_id, Some("op-1".to_string()));
    assert_eq!(app.restore_flow.status, Some("RUNNING".to_string()));
    assert_eq!(app.state, AppState::SelectingTargetInstance);
    let call = app.check_restore_status();
    assert_eq!(
        call,
        Some(GatewayCall::RestoreStatus {
            project_id: "proj-b".to_string(),
            operation_id: "op-1".to_string()
        })
    );
    app.receive(GatewayReply::RestoreStatus(Ok(operation("DONE"))));
    assert_eq!(app.restore_flow.status, Some("DONE".to_string()));
}

#[test]
fn status_failure_keeps_polling_state() {
    let mut app = confirming_backup(false);
    app.select_current_item();
    app.receive(GatewayReply::CreateBackup(Ok("op-7".to_string())));
    assert_eq!(app.create_backup_flow.status, Some("RUNNING".to_string()));
    assert_eq!(app.state, AppState::PerformingCreateBackup);
    let call = app.check_backup_status();
    assert_eq!(
        call,
        Some(GatewayCall::BackupStatus {
            project_id: "proj-a".to_string(),
            operation_id: "op-7".to_string()
        })
    );
    app.receive(GatewayReply::BackupStatus(Err("timeout".to_string())));
    assert_eq!(app.error, Some("Failed to check backup status: timeout".to_string()));
    assert_eq!(app.create_backup_flow.operation_id, Some("op-7".to_string()));
    assert_eq!(app.create_backup_flow.status, Some("RUNNING".to_string()));
    app.receive(GatewayReply::RestoreStatus(Err("x".to_string())));
    assert_eq!(app.error, Some("Failed to check restore status: x".to_string()));
}

#[test]
fn dry_run_restore_is_done_without_a_call() {
    let mut app = confirming_restore(true);
    assert_eq!(app.perform_restore(), None);
    assert_eq!(app.restore_flow.status, Some("DONE".to_string()));
    let id = app.restore_flow.operation_id.clone().unwrap();
    assert!(id.starts_with("dry-run-operation-"));
    assert!(id.len() > "dry-run-operation-".len());
    assert!(!app.loading);
    assert_eq!(app.check_restore_status(), None);
    assert_eq!(app.restore_flow.status, Some("DONE".to_string()));
}

#[test]
fn dry_run_backup_is_done_without_a_call() {
    let mut app = confirming_backup(true);
    assert_eq!(app.select_current_item(), None);
    assert_eq!(app.create_backup_flow.status, Some("DONE".to_string()));
    let id = app.create_backup_flow.operation_id.clone().unwrap();
    assert!(id.starts_with("dry-run-backup-op-"));
    assert_eq!(app.state, AppState::PerformingCreateBackup);
    assert_eq!(app.check_backup_status(), None);
}

#[test]
fn dispatch_without_config_does_nothing() {
    let mut app = App::new(false);
    assert_eq!(app.perform_restore(), None);
    assert_eq!(app.perform_create_backup(), None);
    assert_eq!(app.check_restore_status(), None);
    assert_eq!(app.state, AppState::SelectingOperation);
}

#[test]
fn restore_config_needs_all_five_parts() {
    let mut app = App::new(false);
    app.restore_flow.source_project = Some("p".to_string());
    app.restore_flow.source_instance = Some("i".to_string());
    app.restore_flow.selected_backup = Some("b".to_string());
    app.restore_flow.target_project = Some("tp".to_string());
    app.create_restore_config();
    assert!(app.restore_flow.config.is_none());
    app.restore_flow.target_instance = Some("ti".to_string());
    app.create_restore_config();
    let config = app.restore_flow.config.clone().unwrap();
    assert_eq!(
        config,
        RestoreConfig {
            backup_id: "b".to_string(),
            source_project: "p".to_string(),
            source_instance: "i".to_string(),
            target_project: "tp".to_string(),
            target_instance: "ti".to_string(),
        }
    );
}

#[test]
fn backup_config_needs_project_and_instance() {
    let mut app = App::new(false);
    app.create_backup_flow.project = Some("p".to_string());
    app.create_backup_config("weekly".to_string());
    assert!(app.create_backup_flow.config.is_none());
    app.create_backup_flow.instance = Some("i".to_string());
    app.create_backup_config("weekly".to_string());
    assert_eq!(app.create_backup_flow.config.as_ref().unwrap().description, "weekly");
}

#[test]
fn typed_text_is_trimmed() {
    let mut app = App::new(false);
    app.operation_mode = Some(OperationMode::CreateBackup);
    app.start_manual_input(ManualInputKind::SourceProject);
    app.manual_input_buffer = "  proj-9 \t".to_string();
    let call = app.finish_manual_input();
    assert_eq!(call, Some(GatewayCall::ListInstances { project_id: "proj-9".to_string() }));
    assert_eq!(app.create_backup_flow.project, Some("proj-9".to_string()));
    assert_eq!(app.state, AppState::SelectingInstanceForBackup);
}

#[test]
fn blank_text_only_ends_entry() {
    let mut app = App::new(false);
    app.start_manual_input(ManualInputKind::TargetProject);
    app.manual_input_buffer = "   ".to_string();
    assert_eq!(app.finish_manual_input(), None);
    assert!(!app.manual_input_active);
    assert_eq!(app.input_mode, InputMode::Normal);
    assert!(app.restore_flow.target_project.is_none());
}

#[test]
fn remembered_projects_keep_first_seen_order() {
    let mut app = App::new(false);
    app.operation_mode = Some(OperationMode::Restore);
    for name in ["b", "a", "b"] {
        app.start_manual_input(ManualInputKind::TargetProject);
        app.manual_input_buffer = name.to_string();
        app.finish_manual_input();
    }
    assert_eq!(app.remembered_projects, vec!["b".to_string(), "a".to_string()]);
    assert_eq!(app.state, AppState::SelectingTargetInstance);
    assert_eq!(app.restore_flow.target_project, Some("b".to_string()));
}

#[test]
fn manual_instance_and_backup_are_appended() {
    let mut app = App::new(false);
    app.operation_mode = Some(OperationMode::Restore);
    app.restore_flow.instances = vec![instance("x")];
    app.start_manual_input(ManualInputKind::Instance);
    app.manual_input_buffer = "db-manual".to_string();
    assert_eq!(app.finish_manual_input(), None);
    assert_eq!(app.restore_flow.instances.len(), 2);
    assert_eq!(
        app.restore_flow.instances[1],
        SqlInstance {
            name: "db-manual".to_string(),
            database_version: "Manual".to_string(),
            region: "Manual".to_string(),
            tier: "Manual".to_string(),
        }
    );
    assert_eq!(app.restore_flow.selected_instance_index, 1);
    assert_eq!(app.remembered_instances, vec!["db-manual".to_string()]);

    app.start_manual_input(ManualInputKind::Backup);
    app.manual_input_buffer = "42".to_string();
    app.finish_manual_input();
    assert_eq!(app.restore_flow.backups.len(), 1);
    assert_eq!(app.restore_flow.backups[0].id, "42");
    assert_eq!(app.restore_flow.backups[0].backup_type, "Manual");
    assert_eq!(app.restore_flow.backups[0].start_time, None);
    assert_eq!(app.restore_flow.selected_backup_index, 0);
}

#[test]
fn load_errors_are_shown() {
    let mut app = App::new(false);
    app.operation_mode = Some(OperationMode::Restore);
    app.receive(GatewayReply::ListInstances(Err("boom".to_string())));
    assert_eq!(
        app.error,
        Some("Failed to load instances: boom. Press ESC to clear.".to_string())
    );
    app.receive(GatewayReply::ListBackups(Err("bust".to_string())));
    assert_eq!(
        app.error,
        Some("Failed to load backups: bust. Press ESC to clear.".to_string())
    );
    handle_normal_input(&mut app, Key::Esc);
    assert_eq!(app.error, None);
    assert_eq!(app.state, AppState::SelectingOperation);
}

#[test]
fn escape_steps_back_and_clears() {
    let mut app = App::new(false);
    app.operation_mode = Some(OperationMode::Restore);
    app.state = AppState::SelectingBackup;
    app.restore_flow.source_instance = Some("db".to_string());
    app.restore_flow.backups = vec![backup("1"), backup("2")];
    app.restore_flow.selected_backup_index = 1;
    let outcome = handle_normal_input(&mut app, Key::Esc);
    assert!(outcome.calls.is_empty());
    assert_eq!(app.state, AppState::SelectingSourceInstance);
    assert!(app.restore_flow.backups.is_empty());
    assert_eq!(app.restore_flow.selected_backup_index, 0);
    assert_eq!(app.restore_flow.source_instance, None);
}

#[test]
fn keys_q_n_m_and_r() {
    let mut app = App::new(false);
    assert!(handle_normal_input(&mut app, Key::Char('q')).quit);
    app.state = AppState::SelectingBackup;
    app.operation_mode = Some(OperationMode::Restore);
    app.restore_flow.source_project = Some("p".to_string());
    app.restore_flow.source_instance = Some("i".to_string());
    let outcome = handle_normal_input(&mut app, Key::Char('r'));
    assert!(!outcome.quit);
    assert_eq!(
        outcome.calls,
        vec![GatewayCall::ListBackups { project_id: "p".to_string(), instance_id: "i".to_string() }]
    );
    handle_normal_input(&mut app, Key::Char('m'));
    assert_eq!(app.manual_input_type, Some(ManualInputKind::Backup));
    assert!(app.manual_input_active);
    handle_normal_input(&mut app, Key::Char('n'));
    assert_eq!(app.state, AppState::SelectingOperation);
    assert_eq!(app.operation_mode, None);
    assert!(app.restore_flow.source_project.is_none());
}

#[test]
fn initialize_clears_error() {
    let mut app = App::new(false);
    app.error = Some("old".to_string());
    app.initialize();
    assert_eq!(app.state, AppState::CheckingPrerequisites);
    assert_eq!(app.error, None);
}
