//! A small `cat`: concatenates its sources line by line, optionally numbering
//! every line or only the non-blank ones.
pub mod cli;
pub mod lines;

pub use cli::{get_args, ArgsError, Config, UsageError};
pub use lines::{number_lines, LineCounter};
