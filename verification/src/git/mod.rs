//! What the tool keeps of a Git diff.
pub mod diff;

pub use diff::{format_diff, should_ignore_by_custom_patterns, should_ignore_file, DiffLine};
