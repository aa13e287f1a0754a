//! What the operations of the library are for, stated of what goes in and what
//! comes out.
pub mod chat;
pub mod commands;
pub mod events;
pub mod files;
pub mod history;
pub mod interrupt;
pub mod lists;
pub mod menu;
pub mod models;
pub mod ollama;
pub mod order;
pub mod panels;
pub mod patches;
pub mod prompt;
pub mod questions;
pub mod rows;
pub mod sessions;
pub mod startup;
pub mod terminal;
pub mod tools;
pub mod words;
pub mod worker;
