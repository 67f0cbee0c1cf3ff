//! Verified core of WinShaper: module lifecycle, clipboard history and
//! whitelist-guarded process control, kept apart from every platform call.

pub mod error;
pub mod text;
pub mod clock;
pub mod settings;
pub mod module;
pub mod clipboard_history;
pub mod percent;
pub mod process_controller;
pub mod dynamic_split;
pub mod taskbar_customizer;
pub mod mouse_action_mapper;
pub mod manager;
pub mod config;
