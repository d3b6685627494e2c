//! The prompts.

pub mod multiselect;
pub mod multiselect_prompt;
pub mod interactive_multiselect;
