//! Window transparency control: hotkey formatting, per-window alpha
//! bookkeeping, configuration persistence and the settings dialog logic.

pub mod text;
pub mod keys;
pub mod tracker;
pub mod alpha;
pub mod config;
pub mod state;
pub mod dialog;
