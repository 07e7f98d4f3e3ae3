//! Core logic of the Mia agent: providers, configuration, tool registry,
//! memory files, commands, layout arithmetic and the agent turn machine.
pub mod text;
pub mod providers;
pub mod memory;
pub mod config;
pub mod layout;
pub mod commands;
pub mod agent;
pub mod json_args;
pub mod tools;
pub mod plans;
pub mod sessions;
pub mod prompt;
pub mod numbers;
pub mod render;
pub mod chat;
pub mod setup;
pub mod prompt_box;
