//! The execution context of one invocation of the build tool.
//!
//! A [`Config`] anchors the project root, remembers where the tool's own
//! executable lies once that has been found, keeps the handle of the lock
//! over the package cache, and carries the offline flag, the log filter and
//! the time of its creation.
//!
//! Nothing in this crate touches the environment, the file system or the
//! clock. Where the context needs something from outside it says so: it
//! hands back a request, the caller does the work, and passes the outcome in
//! with the next call.

pub mod cell;
pub mod config;
pub mod dirs;
pub mod exe;
pub mod lock;
pub mod outcome;
pub mod paths;

pub use config::{Config, DEFAULT_TARGET_DIR_NAME, SCARB_LOG_ENV};
pub use dirs::AppDirs;
pub use exe::{Attempt, Event, ExeError, ExeResolver, ExeStep, Probe, Strategy, SCARB_ENV};
pub use lock::{LockError, LockEvent, LockRequest, LockStep};
