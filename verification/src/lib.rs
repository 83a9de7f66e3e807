//! Line-oriented text search: the lines of a text that contain a query,
//! with or without regard to letter case, and the configuration that
//! selects between the two.

pub mod config;
pub mod runner;
pub mod search;
pub mod strings;
pub mod subsequence;
pub mod text;

pub use config::{Config, ConfigError, ConfigView, CASE_INSENSITIVE_VARIABLE};
pub use runner::run;
pub use search::{keep_if_found, search, search_case_insensitive};
