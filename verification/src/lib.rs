//! Layered resolution of the display configuration for a directory-listing
//! tool.
//!
//! Settings come from several precedence-ordered sources: command-line flags,
//! environment-like variables (with legacy-alias fallback), a user theme file,
//! and hard-coded defaults. Each option has its own precedence order, its own
//! value grammar, and its own failure mode; the deducers here combine the
//! sources into one immutable, fully-determined bundle of typed settings.

pub mod config;
pub mod error;
pub mod file_name;
pub mod grid;
pub mod laws;
pub mod numbers;
pub mod parser;
pub mod strings;
pub mod vars;
