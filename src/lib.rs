//! Configuration of a pointing device through its control directory.
//!
//! The library decides what is written where: the two-byte layout of each
//! control file, and the order of the writes (the mode is switched to managed
//! before a sensitivity value is written, and nothing follows a failed write).
//! Performing a write is left to the caller, who reports how it went.
pub mod args;
pub mod config;
pub mod dpi;
pub mod mode;
pub mod session;

pub use args::{resolve_action, Action, ArgumentError};
pub use config::Config;
pub use dpi::encode_dpi;
pub use mode::DeviceMode;
pub use session::{ControlFile, DeviceError, FileWrite, Operation, Step, WriteOutcome, WriteSession};
