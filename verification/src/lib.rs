//! Verified core of Dogi, a desktop application that configures Logitech mice.

pub mod actions;
pub mod app_config;
pub mod archive;
pub mod artifact;
pub mod battery;
pub mod config_edit;
pub mod control;
pub mod debian;
pub mod device;
pub mod device_info;
pub mod directories;
pub mod doctor;
pub mod environment;
pub mod error;
pub mod failure;
pub mod focus;
pub mod foreground;
pub mod install;
pub mod labels;
pub mod launch;
pub mod lease;
pub mod network;
pub mod notifications;
pub mod paths;
pub mod persistence;
pub mod plan;
pub mod pointer;
pub mod portable;
pub mod profile_report;
pub mod proxy;
pub mod reader;
pub mod release;
pub mod report;
pub mod runtime_events;
pub mod runtime_plan;
pub mod service;
pub mod session;
pub mod settings;
pub mod settings_merge;
pub mod store;
pub mod supervisor;
pub mod table;
pub mod tag;
pub mod terminal;
pub mod text;
pub mod transaction;
pub mod update;
pub mod version;
