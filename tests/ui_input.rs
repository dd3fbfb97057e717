use gcp_snap_crab::app::App;
use gcp_snap_crab::input::{handle_edit_input, handle_normal_input, Key};
use gcp_snap_crab::types::{InputMode, ManualInputKind};

fn create_test_app() -> App {
    App::new(false)
}

#[test]
fn ui_input_test_handle_normal_input_toggle_help() {
    let mut app = create_test_app();
    assert!(!app.show_help);

    handle_normal_input(&mut app, Key::Char('h'));
    assert!(app.show_help);

    handle_normal_input(&mut app, Key::Char('h'));
    assert!(!app.show_help);
}

#[test]
fn ui_input_test_handle_normal_input_escape_from_manual_input() {
    let mut app = create_test_app();
    app.start_manual_input(ManualInputKind::Instance);
    assert!(app.manual_input_active);

    handle_normal_input(&mut app, Key::Esc);
    assert!(!app.manual_input_active);
}

#[test]
fn ui_input_test_handle_edit_input_char_and_backspace() {
    let mut app = create_test_app();
    app.start_manual_input(ManualInputKind::Instance);

    handle_edit_input(&mut app, Key::Char('a'));
    assert_eq!(app.manual_input_buffer, "a");

    handle_edit_input(&mut app, Key::Char('b'));
    assert_eq!(app.manual_input_buffer, "ab");

    handle_edit_input(&mut app, Key::Backspace);
    assert_eq!(app.manual_input_buffer, "a");

    handle_edit_input(&mut app, Key::Backspace);
    assert_eq!(app.manual_input_buffer, "");
}

#[test]
fn ui_input_test_handle_edit_input_escape() {
    let mut app = create_test_app();
    app.start_manual_input(ManualInputKind::Instance);
    app.manual_input_buffer = "some text".to_string();

    handle_edit_input(&mut app, Key::Esc);
    assert!(!app.manual_input_active);
    assert_eq!(app.input_mode, InputMode::Normal);
    assert!(app.manual_input_buffer.is_empty());
}
