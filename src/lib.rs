//! A file-change monitor core: a registry of watched paths with one callback
//! each, the decisions of the background loop that keeps the operating
//! system's watch set in step with the registry, and the classification and
//! per-path debouncing of raw file-system events.
//!
//! The monitor is a plain value. Whoever drives it (a loop that sleeps, a
//! watcher thread that delivers events) holds it behind a lock, performs the
//! actions it returns, and reports back what happened.

pub mod event;
pub mod file_monitor;
pub mod monitor;
pub mod traits;
pub mod laws;

pub use event::{is_qualifying, EventKind};
pub use file_monitor::{FileMonitor, Handle, MonitorError, PollAction};
pub use traits::{FileStructTrait, Updatable};
