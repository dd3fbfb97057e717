use gcp_snap_crab::app::App;
use gcp_snap_crab::gateway::{GatewayCall, GatewayReply};
use gcp_snap_crab::types::{AppState, InputMode, ManualInputKind, OperationMode, SqlInstance};

fn instance(name: &str, version: &str, region: &str, tier: &str) -> SqlInstance {
    SqlInstance {
        name: name.to_string(),
        database_version: version.to_string(),
        region: region.to_string(),
        tier: tier.to_string(),
    }
}

fn check_initialization(app: &App) {
    assert_eq!(app.state, AppState::SelectingOperation);
    assert!(!app.dry_run_mode);
    assert!(app.authenticated_user.is_none());
    assert!(app.restore_flow.instances.is_empty());
    assert!(app.restore_flow.backups.is_empty());
}

fn check_navigation(mut app: App) {
    app.state = AppState::SelectingInstanceForBackup;
    app.operation_mode = Some(OperationMode::CreateBackup);
    app.create_backup_flow.instances = vec![
        instance("instance-1", "", "", ""),
        instance("instance-2", "", "", ""),
        instance("instance-3", "", "", ""),
    ];
    app.create_backup_flow.selected_instance_index = 1;

    // Move down
    app.move_selection_down();
    assert_eq!(app.create_backup_flow.selected_instance_index, 2);

    // Move down at the end
    app.move_selection_down();
    assert_eq!(app.create_backup_flow.selected_instance_index, 2);

    // Move up
    app.move_selection_up();
    assert_eq!(app.create_backup_flow.selected_instance_index, 1);

    // Move up
    app.move_selection_up();
    assert_eq!(app.create_backup_flow.selected_instance_index, 0);

    // Move up at the start
    app.move_selection_up();
    assert_eq!(app.create_backup_flow.selected_instance_index, 0);
}

#[test]
fn app_logic_test_app_initialization() {
    let app = App::new(false);
    check_initialization(&app);
}

#[test]
fn app_test_app_initialization() {
    let app = App::new(false);
    check_initialization(&app);
}

#[test]
fn app_logic_test_navigation_instance_selection() {
    check_navigation(App::new(false));
}

#[test]
fn app_test_navigation_instance_selection() {
    check_navigation(App::new(false));
}

#[test]
fn app_logic_test_initialize_success() {
    let mut app = App::new(false);
    let call = app.initialize();
    assert_eq!(call, GatewayCall::CheckPrerequisites);
    assert!(app.loading);
    app.receive(GatewayReply::CheckPrerequisites(Ok("test-user@google.com".to_string())));

    assert_eq!(app.state, AppState::SelectingOperation);
    assert_eq!(app.authenticated_user, Some("test-user@google.com".to_string()));
    assert!(!app.loading);
}

#[test]
fn app_logic_test_initialize_failure() {
    let mut app = App::new(false);
    app.initialize();
    app.receive(GatewayReply::CheckPrerequisites(Err("gcloud not found".to_string())));

    assert_eq!(app.state, AppState::Error("gcloud not found".to_string()));
    assert!(app.authenticated_user.is_none());
    assert!(!app.loading);
}

#[test]
fn app_logic_test_select_operation_restore() {
    let mut app = App::new(false);
    app.selected_operation_index = 0; // Restore

    let call = app.select_current_item();

    assert_eq!(call, None);
    assert_eq!(app.state, AppState::SelectingSourceProject);
    assert_eq!(app.operation_mode, Some(OperationMode::Restore));
    assert!(app.manual_input_active);
    assert_eq!(app.manual_input_type, Some(ManualInputKind::SourceProject));
    assert_eq!(app.input_mode, InputMode::Editing);
}

#[test]
fn app_logic_test_select_operation_create_backup() {
    let mut app = App::new(false);
    app.selected_operation_index = 1; // Create Backup

    app.select_current_item();

    assert_eq!(app.state, AppState::SelectingProjectForBackup);
    assert_eq!(app.operation_mode, Some(OperationMode::CreateBackup));
    assert!(app.manual_input_active);
    assert_eq!(app.manual_input_type, Some(ManualInputKind::SourceProject));
}

#[test]
fn app_logic_test_finish_manual_input_source_project() {
    let instances = vec![instance("instance-1", "v1", "region-1", "db-n1-standard-1")];

    let mut app = App::new(false);
    app.operation_mode = Some(OperationMode::Restore);
    app.manual_input_type = Some(ManualInputKind::SourceProject);
    app.manual_input_buffer = "test-project".to_string();

    let call = app.finish_manual_input();
    assert_eq!(
        call,
        Some(GatewayCall::ListInstances { project_id: "test-project".to_string() })
    );
    app.receive(GatewayReply::ListInstances(Ok(instances)));

    assert_eq!(app.state, AppState::SelectingSourceInstance);
    assert_eq!(app.restore_flow.source_project, Some("test-project".to_string()));
    assert!(!app.manual_input_active);
    assert_eq!(app.input_mode, InputMode::Normal);
    assert_eq!(app.restore_flow.instances.len(), 1);
    assert_eq!(app.restore_flow.instances[0].name, "instance-1");
}
