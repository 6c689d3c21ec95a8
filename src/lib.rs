//! Verified core of an interactive documentation wizard.
//!
//! The library holds the project descriptor that the wizard fills in, the
//! per-section editing flows as state machines driven by the user's answers,
//! the menu with its exit gate, and the list-editing algorithms the sections
//! share. Prompting, persistence and rendering belong to the application.

pub mod cli;
pub mod config;
pub mod error;
pub mod licenses;
pub mod utils;
pub mod wizard;
