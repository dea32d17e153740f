//! The logic of the game's interface features, independent of rendering:
//! records, settings cycles, trackers and the small state machines behind
//! the panels and modes.

pub mod achievements;
pub mod ai_style;
pub mod analysis_mode;
pub mod analytics;
pub mod annotations;
pub mod arrow_annotation;
pub mod autosave;
pub mod blindfold;
pub mod board_tools;
pub mod board_view;
pub mod board_view_options;
pub mod captured_tray;
pub mod chinese_notation;
pub mod clipboard;
pub mod clock_ui;
pub mod confirm_resign;
pub mod coord_style;
pub mod coordinate_highlight;
pub mod daily_puzzle;
pub mod devshot;
pub mod difficulty_dialog;
pub mod engine_vs_engine;
pub mod game_database;
pub mod game_settings;
pub mod panels;
pub mod training;
