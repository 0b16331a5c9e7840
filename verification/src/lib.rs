//! Verified core of an AI-assisted Git commit message tool.
pub mod ai;
pub mod commands;
pub mod config;
pub mod dirs;
pub mod git;
pub mod hooks;
pub mod text;
