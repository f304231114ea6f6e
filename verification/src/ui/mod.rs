//! What the user sees and types: the pages and the prompts.
pub mod pages;
pub mod prompts;
