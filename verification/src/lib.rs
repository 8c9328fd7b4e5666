//! Verified core of the VjMapper tools: the Streamline icon API request
//! builder, the MCP tool dispatcher and its tool schemas, a Base64 codec, the
//! effect-chain model of the UI, the assignment table, shortcut and layer
//! panels, the module canvas's selection, connections and undo history, the
//! module part kinds and presets, the application's action handling and the
//! user configuration rules.

pub mod seqs;
pub mod text;
pub mod base64;
pub mod api;
pub mod schema;
pub mod server;
pub mod effects;
pub mod config;
pub mod panels;
pub mod assignment_table;
pub mod canvas;
pub mod module_parts;
pub mod layers;
pub mod app_actions;
pub mod shortcuts;
pub mod midi;
