//! Fissure tracking: reconciling snapshots of the currently open fissures,
//! filtering them by the configured dimensions and planning the notifications
//! that a change gives rise to.

pub mod app;
pub mod config;
pub mod filters;
pub mod fissure_watcher;
pub mod mission_type;
pub mod models;
pub mod notifications;
pub mod reconcile;
pub mod report;
pub mod text;
pub mod ui;
pub mod util;
