//! A swappable warning channel.
//!
//! A library that has no opinion on logging reports its warnings through one
//! slot that holds at most one callback. The embedding application installs
//! a callback into the slot; every warning is handed to the callback that is
//! active at that moment, or to a fallback while nothing is installed.
//!
//! The slot is a plain value. Sharing it between threads (a lock around it,
//! a process-wide place to keep it) is left to the embedding code: every
//! function here says what it does to the slot it is given.

pub mod category;
pub mod emit;
pub mod registry;

pub use category::PolarsWarning;
pub use emit::{emit, warning_line};
pub use registry::{get_warning_function, set_warning_function, WarningSlot};
