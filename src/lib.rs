//! Decisions behind a small desktop command surface: reporting the working
//! directory, choosing the target of a directory change, and turning the
//! captured output of a child process into the single text the host shows.
//!
//! The operating-system calls themselves (querying and setting the working
//! directory, spawning a process) are made by the application around this
//! library, which hands their results in as plain values.
pub mod path;
pub mod report;

pub use path::{is_absolute_target, resolve_target};
pub use report::{change_report, command_report, directory_text, pick_output, CapturedOutput};
