//! Grandfather-father-son retention planning for timestamped backup files.
//!
//! File names that embed a timestamp are bucketed per tier (years, months,
//! days, hours, minutes); the most recent file of each of the newest buckets
//! of a tier is kept, everything else that carries a timestamp is removed.

pub mod cli;
pub mod config;
pub mod entry;
pub mod error;
pub mod filter;
pub mod grammar;
pub mod laws;
pub mod plan;
pub mod render;
pub mod slots;

pub use cli::ArgParser;
pub use config::Config;
pub use entry::{parse_number, BackupEntry};
pub use error::{BackedUpError, IoError};
pub use filter::name_passes;
pub use grammar::{Grammar, DEFAULT_GRAMMAR};
pub use plan::Plan;
pub use slots::{Period, SlotConfig};
