use crate::app::App;
use crate::gateway::GatewayCall;
use crate::text::{pop_char, push_char, trimmed};
use crate::types::{AppState, InputMode, ManualInputKind};
use vstd::prelude::*;

verus! {

/// A key press, as far as the wizard tells keys apart.
#[derive(Debug, Clone, Copy, PartialEq, Eq, Structural)]
pub enum Key {
    Char(char),
    Enter,
    Esc,
    Up,
    Down,
    Backspace,
    Other,
}

/// What the caller has to do after a key press in normal mode: make the
/// gateway calls in order, handing each answer to `App::receive`, and end the
/// session when `quit` is set.
#[derive(Debug)]
pub struct KeyOutcome {
    pub quit: bool,
    pub calls: Vec<GatewayCall>,
}

/// The kind of free text that the `m` key begins to enter in `state`, if any.
pub open spec fn manual_kind_for(state: AppState) -> Option<ManualInputKind> {
    match state {
        AppState::SelectingSourceProject
        | AppState::SelectingTargetProject
        | AppState::SelectingProjectForBackup => Some(ManualInputKind::SourceProject),
        AppState::SelectingSourceInstance
        | AppState::SelectingTargetInstance
        | AppState::SelectingInstanceForBackup => Some(ManualInputKind::Instance),
        AppState::SelectingBackup => Some(ManualInputKind::Backup),
        AppState::EnteringBackupName => Some(ManualInputKind::BackupName),
        _ => None,
    }
}

/// The calls of at most one, as a sequence.
pub open spec fn call_seq(call: Option<GatewayCall>) -> Seq<GatewayCall> {
    match call {
        Some(c) => seq![c],
        None => Seq::empty(),
    }
}

/// `next` and `calls` follow from `Esc` in normal mode: it dismisses the
/// message, else closes the help, else abandons text entry, else steps back.
pub open spec fn escaped(app: App, next: App, calls: Seq<GatewayCall>) -> bool {
    &&& calls.len() == 0
    &&& if app.error is Some {
        next == (App { error: None, ..app })
    } else if app.show_help {
        next == (App { show_help: false, ..app })
    } else if app.manual_input_active {
        app.input_cancelled(next)
    } else {
        app.gone_back(next)
    }
}

/// `next` and `calls` follow from the key `key` in normal mode (`q` quits,
/// which `KeyOutcome::quit` reports; it changes nothing here).
pub open spec fn normal_key_handled(app: App, key: Key, next: App, calls: Seq<GatewayCall>) -> bool {
    match key {
        Key::Esc => escaped(app, next, calls),
        Key::Char('h') => calls.len() == 0 && next == (App { show_help: !app.show_help, ..app }),
        Key::Up => calls.len() == 0 && next == app.moved_up(),
        Key::Down => calls.len() == 0 && next == app.moved_down(),
        Key::Enter => exists|call: Option<GatewayCall>|
            calls == call_seq(call) && #[trigger] app.item_selected(next, call),
        Key::Char('m') => {
            &&& calls.len() == 0
            &&& match manual_kind_for(app.state) {
                Some(kind) => app.input_started(kind, next),
                None => next == app,
            }
        },
        Key::Char('r') => app.refreshed(next, calls),
        Key::Char('n') => {
            &&& calls.len() == 0
            &&& next == (App {
                state: AppState::SelectingOperation,
                operation_mode: None,
                restore_flow: next.restore_flow,
                create_backup_flow: next.create_backup_flow,
                ..app
            })
            &&& next.restore_flow.is_empty()
            &&& next.create_backup_flow.is_empty()
        },
        _ => calls.len() == 0 && next == app,
    }
}

/// Handles a key press while keys drive the wizard.
pub fn handle_normal_input(app: &mut App, key: Key) -> (outcome: KeyOutcome)
    ensures
        outcome.quit == (key == Key::Char('q')),
        normal_key_handled(*old(app), key, *final(app), outcome.calls@),
{
    let mut calls: Vec<GatewayCall> = Vec::new();
    match key {
        Key::Char('q') => {
            return KeyOutcome { quit: true, calls };
        },
        Key::Esc => {
            if app.error.is_some() {
                app.error = None;
            } else if app.show_help {
                app.toggle_help();
            } else if app.manual_input_active {
                app.cancel_manual_input();
            } else {
                app.go_back();
            }
        },
        Key::Char('h') => app.toggle_help(),
        Key::Up => app.move_selection_up(),
        Key::Down => app.move_selection_down(),
        Key::Enter => {
            let call = app.select_current_item();
            if let Some(c) = call {
                calls.push(c);
            }
            assert(calls@ =~= call_seq(call));
        },
        Key::Char('m') => match app.state {
            AppState::SelectingSourceProject
            | AppState::SelectingTargetProject
            | AppState::SelectingProjectForBackup => {
                app.start_manual_input(ManualInputKind::SourceProject);
            },
            AppState::SelectingSourceInstance
            | AppState::SelectingTargetInstance
            | AppState::SelectingInstanceForBackup => {
                app.start_manual_input(ManualInputKind::Instance);
            },
            AppState::SelectingBackup => {
                app.start_manual_input(ManualInputKind::Backup);
            },
            AppState::EnteringBackupName => {
                app.start_manual_input(ManualInputKind::BackupName);
            },
            _ => {},
        },
        Key::Char('r') => {
            calls = app.refresh();
        },
        Key::Char('n') => app.start_new_session(),
        _ => {},
    }
    KeyOutcome { quit: false, calls }
}

/// `next` and `call` follow from the key `key` while text is being edited:
/// `Enter` commits the trimmed text, `Esc` abandons it, other characters are
/// typed and `Backspace` erases the last one.
pub open spec fn edit_key_handled(app: App, key: Key, next: App, call: Option<GatewayCall>) -> bool {
    let buffer = app.manual_input_buffer@;
    let other = app.input_buffer@;
    match key {
        Key::Enter => if app.manual_input_active {
            app.input_committed(trimmed(buffer), next, call)
        } else {
            call is None && next == app
        },
        Key::Esc => {
            &&& call is None
            &&& if app.manual_input_active {
                app.input_cancelled(next)
            } else {
                &&& next == (App { input_mode: InputMode::Normal, input_buffer: next.input_buffer, ..app })
                &&& next.input_buffer@.len() == 0
            }
        },
        Key::Char(c) => {
            &&& call is None
            &&& if app.manual_input_active {
                &&& next == (App { manual_input_buffer: next.manual_input_buffer, ..app })
                &&& next.manual_input_buffer@ == buffer.push(c)
            } else {
                &&& next == (App { input_buffer: next.input_buffer, ..app })
                &&& next.input_buffer@ == other.push(c)
            }
        },
        Key::Backspace => {
            &&& call is None
            &&& if app.manual_input_active {
                &&& next == (App { manual_input_buffer: next.manual_input_buffer, ..app })
                &&& next.manual_input_buffer@ == if buffer.len() > 0 { buffer.drop_last() } else { buffer }
            } else {
                &&& next == (App { input_buffer: next.input_buffer, ..app })
                &&& next.input_buffer@ == if other.len() > 0 { other.drop_last() } else { other }
            }
        },
        _ => call is None && next == app,
    }
}

/// Handles a key press while text is being edited.
pub fn handle_edit_input(app: &mut App, key: Key) -> (call: Option<GatewayCall>)
    ensures
        edit_key_handled(*old(app), key, *final(app), call),
{
    match key {
        Key::Enter => {
            if app.manual_input_active {
                app.finish_manual_input()
            } else {
                None
            }
        },
        Key::Esc => {
            if app.manual_input_active {
                app.cancel_manual_input();
            } else {
                app.input_mode = InputMode::Normal;
                app.input_buffer = String::new();
            }
            None
        },
        Key::Char(c) => {
            if app.manual_input_active {
                push_char(&mut app.manual_input_buffer, c);
            } else {
                push_char(&mut app.input_buffer, c);
            }
            None
        },
        Key::Backspace => {
            if app.manual_input_active {
                pop_char(&mut app.manual_input_buffer);
            } else {
                pop_char(&mut app.input_buffer);
            }
            None
        },
        _ => None,
    }
}

} // verus!
