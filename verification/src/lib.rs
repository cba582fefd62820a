//! A modular system-prompt composition library.
//!
//! Given the set of tool-providing server connections a caller has declared,
//! the user's request text, and optional session state, the library infers
//! which abstract tools each server exposes, selects the guidance sections
//! that apply, and assembles them into one block of prompt text together
//! with metadata about what was applied.

pub mod composition;
pub mod discovery;
pub mod loader;
pub mod modules;
pub mod text;
pub mod types;
