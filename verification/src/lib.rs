//! Model output ceilings, shell and process command construction, and the grep
//! tool's requests, commands and results, each with its contract.
//!
//! - [`limits`]: the static table of per-model output ceilings.
//! - [`shell`]: shell-string and argv-mode commands, unstarted.
//! - [`grep`]: the grep tool's parameters, search commands and result texts.
//! - [`command`]: what an unstarted `tokio::process::Command` holds.
//! - [`text`]: character-level helpers (ASCII lowercase, substring search, lines).

pub mod command;
pub mod grep;
pub mod limits;
pub mod shell;
pub mod text;
