//! The macOS backend's pure parts.
pub mod backend;
pub mod keymap;
