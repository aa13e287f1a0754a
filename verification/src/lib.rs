//! Decision logic of a terminal front end for a coding agent.
pub mod app;
pub mod backend;
pub mod chat;
pub mod clock;
pub mod command_menu;
pub mod commands;
pub mod completion;
pub mod cost;
pub mod events;
pub mod input_state;
pub mod json;
pub mod keymap;
pub mod keys;
pub mod laws;
pub mod message;
pub mod modal;
pub mod model;
pub mod model_picker;
pub mod ollama_probe;
pub mod order;
pub mod panel;
pub mod pickers;
pub mod render;
pub mod runtime_builder;
pub mod skill_commands;
pub mod style;
pub mod terminal;
pub mod text;
pub mod theme;
pub mod transcript;
