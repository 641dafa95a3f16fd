//! Windows: versions, interface identifiers, processes and threads.

pub mod com;
pub mod process;
pub mod version;
