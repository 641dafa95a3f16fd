//! What the library knows of operating systems.

pub mod win;
