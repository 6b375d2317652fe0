//! Generates shell startup configuration for Fish and Zsh.
//!
//! The library holds the catalogs of supported shells and optional
//! features, renders the selected features to the exact text blocks the
//! target shell understands, and resolves the startup file path for a
//! shell. Interactive prompting and the file write live outside the
//! library; they hand it plain strings and indices and take plain
//! strings back.

pub mod catalog;
pub mod paths;
pub mod render;
pub mod text;
