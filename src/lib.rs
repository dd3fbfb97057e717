//! Workflow controller for restoring database instances from backups and
//! for creating new backups, driven one event at a time.

pub mod app;
pub mod create_backup_flow;
pub mod gateway;
pub mod gcp;
pub mod input;
pub mod restore_flow;
pub mod text;
pub mod types;
