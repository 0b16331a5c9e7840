//! Configuration, prompts and the commit-message cache.
pub mod cache;
pub mod prompt;
pub mod settings;

pub use cache::{get_now_timestamp, Cache, CommitMsg};
pub use settings::{ApiConfig, AppConfig, CommitConfig, PromptConfig};
