//! Verified core of the liteconfig terminal front-end: the state machine that
//! turns key presses, clicks and finished background work into view state,
//! toasts and requests for the host program to carry out.

pub mod app;
pub mod app_actions;
pub mod app_backup;
pub mod app_install;
pub mod app_mcp;
pub mod app_popups;
pub mod app_profiles;
pub mod app_rules;
pub mod app_settings;
pub mod app_skills;
pub mod display;
pub mod events;
pub mod filter;
pub mod help;
pub mod ids;
pub mod model;
pub mod sort;
pub mod tab;
pub mod tasks;
pub mod text;
pub mod themes;
pub mod views;
