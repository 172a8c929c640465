//! Telemetry and Logging Utility for Windows: the verified core.

pub mod calendar;
pub mod text;
pub mod identity;
pub mod cleanup_schedule;
pub mod log_cleanup;
pub mod launch;
pub mod cleanup_history;

pub mod schedule_task;
pub mod folder_clear;
pub mod temp_cleanup;
pub mod system_links;
pub mod telemetry;
pub mod disclaimer;
pub mod app_icon;
pub mod tray;
pub mod single_instance;
pub mod maintenance;
pub mod report;
pub mod dashboard;
pub mod controls;
pub mod lockdown;
pub mod dashboard_state;
