//! What the library promises as a whole.
//!
//! Each law here speaks of what goes into an operation and what comes out of it, in the plainest
//! terms there are, and not of how the operation is put together.

pub mod caches;
pub mod command_line;
pub mod commands;
pub mod decisions;
pub mod dependencies;
pub mod names;
pub mod packages;
pub mod sessions;
pub mod values;
pub mod written;
