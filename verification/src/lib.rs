//! A verified engine for interactive multi-selection prompts.
//!
//! The crate keeps three coordinate spaces consistent while a user filters,
//! navigates and (de)selects entries of an in-memory list: the stable index
//! of an entry in the option registry, its position in the filtered view and
//! its position in the page window that is drawn on screen.

pub mod selected_option;
pub mod config;
pub mod error;
pub mod validator;
pub mod utils;
pub mod ui;
pub mod input;
pub mod type_aliases;
pub mod prompts;
pub mod navigation;
pub mod filtering;
pub mod formatter;
